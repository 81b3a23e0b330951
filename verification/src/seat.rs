//! The device broker: a request/response server that hands device handles
//! to the one trusted session process.
//!
//! A request is one datagram holding a NUL-terminated device path within a
//! fixed bound; the response to it carries the opened device handle, or
//! nothing when the open failed. Malformed datagrams — empty, or without a
//! terminating NUL — are skipped and answered with nothing at all. The
//! surrounding program receives the datagrams, opens the devices, and sends
//! the responses; the functions here decide, for every datagram, whether it
//! is a request, what path it asks for, and which response it gets.

use vstd::prelude::*;

use crate::fd::Fd;
use crate::mounts::find_in;

verus! {

/// The longest datagram the broker reads; longer ones are truncated by the
/// receive call and then, lacking a final NUL, skipped as malformed.
pub const REQUEST_BOUND: usize = 48;

/// A request datagram is well formed when it is non-empty and its last byte
/// is the NUL terminator.
pub open spec fn well_formed_request(d: Seq<u8>) -> bool {
    d.len() > 0 && d[d.len() - 1] == 0
}

/// The device path a well-formed request asks for: the bytes before the
/// first NUL, which is how the kernel will read the buffer.
pub open spec fn request_path_spec(d: Seq<u8>) -> Seq<u8> {
    d.subrange(0, find_in(d, 0, 0, d.len() as int))
}

/// The paths of the well-formed requests among the datagrams, in arrival
/// order, starting at position `i`.
pub open spec fn request_paths_from(ds: Seq<Seq<u8>>, i: int) -> Seq<Seq<u8>>
    recommends
        0 <= i <= ds.len(),
    decreases ds.len() - i,
{
    if i < 0 || i >= ds.len() {
        Seq::empty()
    } else {
        let rest = request_paths_from(ds, i + 1);
        if well_formed_request(ds[i]) {
            seq![request_path_spec(ds[i])] + rest
        } else {
            rest
        }
    }
}

/// The paths of the well-formed requests among the datagrams, in arrival
/// order.
pub open spec fn request_paths_spec(ds: Seq<Seq<u8>>) -> Seq<Seq<u8>> {
    request_paths_from(ds, 0)
}

/// The views of a list of datagrams or paths.
pub open spec fn datagram_views(ds: Seq<Vec<u8>>) -> Seq<Seq<u8>> {
    ds.map_values(|d: Vec<u8>| d@)
}

/// One response datagram: either it carries the opened device handle, or it
/// is empty, telling the client that the open failed.
#[derive(PartialEq, Eq, Structural, Clone, Copy, Debug)]
pub enum SeatResponse {
    /// The device was opened; the raw descriptor is transferred to the
    /// client inside the response.
    Granted(i32),
    /// The open failed; the response carries no handle.
    Denied,
}

/// The response owed to a request whose device open returned `ret`: the
/// handle when the open succeeded, nothing when it failed.
pub open spec fn response_for_spec(ret: i32) -> SeatResponse {
    if ret >= 0 {
        SeatResponse::Granted(ret)
    } else {
        SeatResponse::Denied
    }
}

/// Decides the response for one request from its device-open result, under
/// the C convention that a negative value is a failure.
pub fn response_for_open(ret: i32) -> (r: SeatResponse)
    ensures
        r == response_for_spec(ret),
{
    if ret >= 0 {
        SeatResponse::Granted(ret)
    } else {
        SeatResponse::Denied
    }
}

/// Whether one datagram is a well-formed request.
pub fn is_well_formed_request(d: &Vec<u8>) -> (r: bool)
    ensures
        r == well_formed_request(d@),
{
    d.len() > 0 && d[d.len() - 1] == 0
}

/// Copies the path a well-formed request asks for: the bytes before the
/// first NUL.
fn request_path(d: &Vec<u8>) -> (r: Vec<u8>)
    requires
        well_formed_request(d@),
    ensures
        r@ == request_path_spec(d@),
{
    let len = d.len();
    let mut out: Vec<u8> = Vec::new();
    let mut i: usize = 0;
    while i < len
        invariant
            0 <= i <= len,
            len == d@.len(),
            out@ == d@.subrange(0, i as int),
            forall|k: int| 0 <= k < i ==> d@[k] != 0,
        decreases len - i,
    {
        if d[i] == 0 {
            proof {
                lemma_find_in_prefix(d@, 0, i as int);
                assert(out@ =~= request_path_spec(d@));
            }
            return out;
        }
        out.push(d[i]);
        proof {
            assert(out@ =~= d@.subrange(0, i + 1));
        }
        i += 1;
    }
    proof {
        // the final byte is NUL, so the scan cannot reach the end
        assert(d@[len - 1] == 0);
        assert(false);
    }
    out
}

/// When no byte before `j` matches and `s[j]` does, the first match is at
/// `j`.
proof fn lemma_find_in_prefix(s: Seq<u8>, c: u8, j: int)
    requires
        0 <= j < s.len(),
        s[j] == c,
        forall|k: int| 0 <= k < j ==> s[k] != c,
    ensures
        find_in(s, c, 0, s.len() as int) == j,
{
    lemma_find_in_step(s, c, 0, j);
}

/// `find_in` from any start at or before the first match lands on it.
proof fn lemma_find_in_step(s: Seq<u8>, c: u8, from: int, j: int)
    requires
        0 <= from <= j < s.len(),
        s[j] == c,
        forall|k: int| from <= k < j ==> s[k] != c,
    ensures
        find_in(s, c, from, s.len() as int) == j,
    decreases j - from,
{
    if from < j {
        lemma_find_in_step(s, c, from + 1, j);
    }
}

/// The paths of the well-formed requests among the received datagrams, in
/// arrival order: these are the devices the broker will try to open, one
/// open per request.
pub fn request_paths(datagrams: &Vec<Vec<u8>>) -> (r: Vec<Vec<u8>>)
    ensures
        datagram_views(r@) == request_paths_spec(datagram_views(datagrams@)),
{
    let mut out: Vec<Vec<u8>> = Vec::new();
    let n = datagrams.len();
    let mut i: usize = 0;
    proof {
        assert(datagram_views(out@) =~= Seq::<Seq<u8>>::empty());
    }
    while i < n
        invariant
            0 <= i <= n,
            n == datagrams@.len(),
            datagram_views(out@) + request_paths_from(datagram_views(datagrams@), i as int)
                == request_paths_spec(datagram_views(datagrams@)),
        decreases n - i,
    {
        let ghost prev = out@;
        let ghost ds = datagram_views(datagrams@);
        if is_well_formed_request(&datagrams[i]) {
            let p = request_path(&datagrams[i]);
            out.push(p);
            proof {
                assert(datagram_views(out@)
                    =~= datagram_views(prev) + seq![request_path_spec(ds[i as int])]);
                assert(request_paths_from(ds, i as int)
                    == seq![request_path_spec(ds[i as int])] + request_paths_from(ds, i + 1));
                assert(datagram_views(out@) + request_paths_from(ds, i + 1)
                    =~= datagram_views(prev) + request_paths_from(ds, i as int));
            }
        } else {
            proof {
                assert(request_paths_from(ds, i as int) == request_paths_from(ds, i + 1));
            }
        }
        i += 1;
    }
    proof {
        assert(request_paths_from(datagram_views(datagrams@), i as int)
            =~= Seq::<Seq<u8>>::empty());
        assert(datagram_views(out@) + Seq::<Seq<u8>>::empty() =~= datagram_views(out@));
    }
    out
}

/// The broker: it owns the supervisor's end of the connected datagram
/// pair; the other end is inherited by the session process.
pub struct SeatServer {
    fd: Fd,
}

impl SeatServer {
    /// The raw descriptor of the broker's own socket end.
    pub closed spec fn fd_spec(&self) -> u32 {
        self.fd.0
    }

    /// Builds the broker from the connected pair's two ends: the first is
    /// kept for serving, the second is handed back to be inherited by the
    /// session process. The pair itself is created by the surrounding
    /// program, before the session process is spawned.
    pub fn new(server_end: Fd, client_end: Fd) -> (r: (SeatServer, Fd))
        ensures
            r.0.fd_spec() == server_end.0,
            r.1.0 == client_end.0,
    {
        (SeatServer { fd: server_end }, client_end)
    }

    /// The raw descriptor the multiplexed wait watches.
    pub fn fd(&self) -> (r: u32)
        ensures
            r == self.fd_spec(),
    {
        self.fd.raw()
    }

    /// Decides the response to every datagram of one wake-up. The
    /// datagrams arrive in order; `open_results` holds one device-open
    /// result per well-formed request, in that same order. Exactly one
    /// response is owed per well-formed request — granted with the opened
    /// handle, denied when the open failed — and none for a malformed
    /// datagram.
    pub fn process_incoming(&mut self, datagrams: &Vec<Vec<u8>>, open_results: &Vec<i32>) -> (r:
        Vec<SeatResponse>)
        requires
            open_results@.len() == request_paths_spec(
                datagram_views(datagrams@),
            ).len(),
        ensures
            final(self).fd_spec() == old(self).fd_spec(),
            r@.len() == request_paths_spec(datagram_views(datagrams@)).len(),
            forall|k: int|
                0 <= k < r@.len() ==> r@[k] == response_for_spec(open_results@[k]),
    {
        let mut out: Vec<SeatResponse> = Vec::new();
        let n = open_results.len();
        let mut i: usize = 0;
        while i < n
            invariant
                0 <= i <= n,
                n == open_results@.len(),
                out@.len() == i,
                forall|k: int|
                    0 <= k < i ==> out@[k] == response_for_spec(open_results@[k]),
            decreases n - i,
        {
            out.push(response_for_open(open_results[i]));
            i += 1;
        }
        out
    }
}

/// Request/response pairing: however a wake-up's datagrams look, the broker
/// owes exactly as many responses as there are well-formed requests, and
/// the response at each position is granted or denied by that request's own
/// open result alone.
pub proof fn lemma_request_response_pairing(ds: Seq<Seq<u8>>, opens: Seq<i32>, rs: Seq<SeatResponse>)
    requires
        opens.len() == request_paths_spec(ds).len(),
        rs.len() == request_paths_spec(ds).len(),
        forall|k: int| 0 <= k < rs.len() ==> rs[k] == response_for_spec(opens[k]),
    ensures
        rs.len() == request_paths_spec(ds).len(),
        forall|k: int|
            0 <= k < rs.len() ==> (rs[k] == SeatResponse::Denied <==> opens[k] < 0),
{
    assert forall|k: int| 0 <= k < rs.len() implies (rs[k] == SeatResponse::Denied <==> opens[k]
        < 0) by {
        assert(rs[k] == response_for_spec(opens[k]));
    }
}

} // verus!
