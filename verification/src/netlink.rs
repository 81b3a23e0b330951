//! The routing-socket messages the network configurator exchanges with the
//! kernel: the exact bytes of each request, and the scan of a reply buffer
//! for the acknowledgement message.
//!
//! The kernel's message layout is little-endian on the machines this
//! supervisor runs on; protocol addresses inside attributes are carried
//! big-endian. The contracts here pin every byte of every request, and the
//! reply scan is specified over the received bytes alone; sending and
//! receiving stay with the surrounding program.

use vstd::prelude::*;

verus! {

/// The message is a request.
pub const NLM_F_REQUEST: u16 = 1;

/// The kernel must acknowledge the message.
pub const NLM_F_ACK: u16 = 4;

/// Fail rather than replace an existing object.
pub const NLM_F_EXCL: u16 = 512;

/// Create the object if it does not exist.
pub const NLM_F_CREATE: u16 = 1024;

/// An acknowledgement or error message.
pub const NLMSG_ERROR: u16 = 2;

/// Add an address to an interface.
pub const RTM_NEWADDR: u16 = 20;

/// Add a route.
pub const RTM_NEWROUTE: u16 = 24;

/// Change an interface's state.
pub const RTM_SETLINK: u16 = 19;

/// An interface's own address, as an attribute type.
pub const IFA_LOCAL: u16 = 2;

/// The protocol address, as an attribute type.
pub const IFA_ADDRESS: u16 = 1;

/// The broadcast address, as an attribute type.
pub const IFA_BROADCAST: u16 = 4;

/// A route's gateway, as an attribute type.
pub const RTA_GATEWAY: u16 = 5;

/// A route's output interface, as an attribute type.
pub const RTA_OIF: u16 = 4;

/// The internet protocol address family.
pub const AF_INET: u8 = 2;

/// No particular address family.
pub const AF_UNSPEC: u8 = 0;

/// No particular hardware type.
pub const ARPHRD_NONE: u16 = 65534;

/// The main routing table.
pub const RT_TABLE_MAIN: u8 = 254;

/// A route installed during boot.
pub const RTPROT_BOOT: u8 = 3;

/// A global-scope route.
pub const RT_SCOPE_UNIVERSE: u8 = 0;

/// An ordinary unicast route.
pub const RTN_UNICAST: u8 = 1;

/// The interface-up flag.
pub const IFF_UP: u32 = 1;

/// The header that starts every routing-socket message.
#[allow(non_camel_case_types)]
pub struct nlmsghdr {
    pub nlmsg_len: u32,
    pub nlmsg_type: u16,
    pub nlmsg_flags: u16,
    pub nlmsg_seq: u32,
    pub nlmsg_pid: u32,
}

/// The payload of an acknowledgement message: the error code — zero for
/// success — followed by the header of the message it answers.
#[allow(non_camel_case_types)]
pub struct nlmsgerr {
    pub error: i32,
    pub msg: nlmsghdr,
}

/// A 16-bit value in the kernel's little-endian order.
pub open spec fn u16_le(x: u16) -> Seq<u8> {
    seq![(x % 256) as u8, ((x / 256) % 256) as u8]
}

/// A 32-bit value in the kernel's little-endian order.
pub open spec fn u32_le(x: u32) -> Seq<u8> {
    seq![
        (x % 256) as u8,
        ((x / 256) % 256) as u8,
        ((x / 65536) % 256) as u8,
        ((x / 16777216) % 256) as u8,
    ]
}

/// A 32-bit value in the protocol's big-endian order, for addresses inside
/// attributes.
pub open spec fn u32_be(x: u32) -> Seq<u8> {
    seq![
        ((x / 16777216) % 256) as u8,
        ((x / 65536) % 256) as u8,
        ((x / 256) % 256) as u8,
        (x % 256) as u8,
    ]
}

/// The 16 bytes of a message header.
pub open spec fn nlmsghdr_bytes(h: nlmsghdr) -> Seq<u8> {
    u32_le(h.nlmsg_len) + u16_le(h.nlmsg_type) + u16_le(h.nlmsg_flags) + u32_le(h.nlmsg_seq)
        + u32_le(h.nlmsg_pid)
}

/// The message header encoded at position `i` of a received buffer.
pub open spec fn nlmsghdr_at(s: Seq<u8>, i: int) -> nlmsghdr {
    nlmsghdr {
        nlmsg_len: le_u32_at(s, i) as u32,
        nlmsg_type: le_u16_at(s, i + 4) as u16,
        nlmsg_flags: le_u16_at(s, i + 6) as u16,
        nlmsg_seq: le_u32_at(s, i + 8) as u32,
        nlmsg_pid: le_u32_at(s, i + 12) as u32,
    }
}

/// The 8 bytes of one attribute carrying a 32-bit value: its own length,
/// its type, and the value.
pub open spec fn rtattr_u32_bytes(ty: u16, value: Seq<u8>) -> Seq<u8> {
    u16_le(8) + u16_le(ty) + value
}

/// The 8 bytes of the address-message payload.
pub open spec fn ifaddrmsg_bytes(family: u8, prefixlen: u8, index: u32) -> Seq<u8> {
    seq![family, prefixlen, 0u8, 0u8] + u32_le(index)
}

/// The 12 bytes of the route-message payload.
pub open spec fn rtmsg_bytes(family: u8, table: u8, protocol: u8, scope: u8, ty: u8) -> Seq<u8> {
    seq![family, 0u8, 0u8, 0u8, table, protocol, scope, ty] + u32_le(0)
}

/// The 16 bytes of the link-message payload.
pub open spec fn ifinfomsg_bytes(family: u8, ty: u16, index: u32, flags: u32, change: u32) -> Seq<
    u8,
> {
    seq![family, 0u8] + u16_le(ty) + u32_le(index) + u32_le(flags) + u32_le(change)
}

/// Every byte of the add-address request: header, payload, and the local,
/// protocol and broadcast address attributes, addresses big-endian.
pub open spec fn add_addr_request_bytes(seqno: u32, index: u32, addr: u32, broadcast: u32) -> Seq<
    u8,
> {
    nlmsghdr_bytes(
        nlmsghdr {
            nlmsg_len: 48,
            nlmsg_type: RTM_NEWADDR,
            nlmsg_flags: NLM_F_REQUEST | NLM_F_CREATE | NLM_F_EXCL | NLM_F_ACK,
            nlmsg_seq: seqno,
            nlmsg_pid: 0,
        },
    ) + ifaddrmsg_bytes(AF_INET, 24, index) + rtattr_u32_bytes(IFA_LOCAL, u32_be(addr))
        + rtattr_u32_bytes(IFA_ADDRESS, u32_be(addr)) + rtattr_u32_bytes(
        IFA_BROADCAST,
        u32_be(broadcast),
    )
}

/// Every byte of the add-route request: header, payload, and the gateway
/// and output-interface attributes.
pub open spec fn add_route_request_bytes(seqno: u32, index: u32, gateway: u32) -> Seq<u8> {
    nlmsghdr_bytes(
        nlmsghdr {
            nlmsg_len: 44,
            nlmsg_type: RTM_NEWROUTE,
            nlmsg_flags: NLM_F_REQUEST | NLM_F_CREATE | NLM_F_EXCL | NLM_F_ACK,
            nlmsg_seq: seqno,
            nlmsg_pid: 0,
        },
    ) + rtmsg_bytes(AF_INET, RT_TABLE_MAIN, RTPROT_BOOT, RT_SCOPE_UNIVERSE, RTN_UNICAST)
        + rtattr_u32_bytes(RTA_GATEWAY, u32_be(gateway)) + rtattr_u32_bytes(RTA_OIF, u32_le(index))
}

/// Every byte of the interface-up request: header and payload.
pub open spec fn link_up_request_bytes(seqno: u32, index: u32) -> Seq<u8> {
    nlmsghdr_bytes(
        nlmsghdr {
            nlmsg_len: 32,
            nlmsg_type: RTM_SETLINK,
            nlmsg_flags: NLM_F_REQUEST | NLM_F_ACK,
            nlmsg_seq: seqno,
            nlmsg_pid: 0,
        },
    ) + ifinfomsg_bytes(AF_UNSPEC, ARPHRD_NONE, index, IFF_UP, IFF_UP)
}

/// A 32-bit value is exactly what reading its little-endian bytes gives
/// back.
pub proof fn lemma_u32_le_round_trip(x: u32)
    ensures
        le_u32_at(u32_le(x), 0) == x,
{
    let s = u32_le(x);
    assert(s[0] == (x % 256) as u8);
    assert(s[1] == ((x / 256) % 256) as u8);
    assert(s[2] == ((x / 65536) % 256) as u8);
    assert(s[3] == ((x / 16777216) % 256) as u8);
    assert(x % 256 + 256 * ((x / 256) % 256) + 65536 * ((x / 65536) % 256) + 16777216 * ((x
        / 16777216) % 256) == x) by (bit_vector);
}

/// A 16-bit value is exactly what reading its little-endian bytes gives
/// back.
pub proof fn lemma_u16_le_round_trip(x: u16)
    ensures
        le_u16_at(u16_le(x), 0) == x,
{
    let s = u16_le(x);
    assert(s[0] == (x % 256) as u8);
    assert(s[1] == ((x / 256) % 256) as u8);
    assert(x % 256 + 256 * ((x / 256) % 256) == x) by (bit_vector);
}

/// Reading a header's sixteen encoded bytes gives the header back: the
/// writer's layout and the reader's layout agree, field for field.
pub proof fn lemma_nlmsghdr_round_trip(h: nlmsghdr)
    ensures
        nlmsghdr_at(nlmsghdr_bytes(h), 0) == h,
{
    let s = nlmsghdr_bytes(h);
    assert(s.len() == 16);
    assert forall|k: int| 0 <= k < 4 implies s[k] == u32_le(h.nlmsg_len)[k] by {}
    assert forall|k: int| 0 <= k < 2 implies s[4 + k] == u16_le(h.nlmsg_type)[k] by {}
    assert forall|k: int| 0 <= k < 2 implies s[6 + k] == u16_le(h.nlmsg_flags)[k] by {}
    assert forall|k: int| 0 <= k < 4 implies s[8 + k] == u32_le(h.nlmsg_seq)[k] by {}
    assert forall|k: int| 0 <= k < 4 implies s[12 + k] == u32_le(h.nlmsg_pid)[k] by {}
    lemma_u32_le_round_trip(h.nlmsg_len);
    lemma_u16_le_round_trip(h.nlmsg_type);
    lemma_u16_le_round_trip(h.nlmsg_flags);
    lemma_u32_le_round_trip(h.nlmsg_seq);
    lemma_u32_le_round_trip(h.nlmsg_pid);
    assert(le_u32_at(s, 0) == le_u32_at(u32_le(h.nlmsg_len), 0));
    assert(le_u16_at(s, 4) == le_u16_at(u16_le(h.nlmsg_type), 0));
    assert(le_u16_at(s, 6) == le_u16_at(u16_le(h.nlmsg_flags), 0));
    assert(le_u32_at(s, 8) == le_u32_at(u32_le(h.nlmsg_seq), 0));
    assert(le_u32_at(s, 12) == le_u32_at(u32_le(h.nlmsg_pid), 0));
}

/// Appends a 16-bit value in little-endian order.
fn push_u16_le(out: &mut Vec<u8>, x: u16)
    ensures
        final(out)@ == old(out)@ + u16_le(x),
{
    out.push((x % 256) as u8);
    out.push(((x / 256) % 256) as u8);
    proof {
        assert(final(out)@ =~= old(out)@ + u16_le(x));
    }
}

/// Appends a 32-bit value in little-endian order.
fn push_u32_le(out: &mut Vec<u8>, x: u32)
    ensures
        final(out)@ == old(out)@ + u32_le(x),
{
    out.push((x % 256) as u8);
    out.push(((x / 256) % 256) as u8);
    out.push(((x / 65536) % 256) as u8);
    out.push(((x / 16777216) % 256) as u8);
    proof {
        assert(final(out)@ =~= old(out)@ + u32_le(x));
    }
}

/// Appends a 32-bit value in big-endian order.
fn push_u32_be(out: &mut Vec<u8>, x: u32)
    ensures
        final(out)@ == old(out)@ + u32_be(x),
{
    out.push(((x / 16777216) % 256) as u8);
    out.push(((x / 65536) % 256) as u8);
    out.push(((x / 256) % 256) as u8);
    out.push((x % 256) as u8);
    proof {
        assert(final(out)@ =~= old(out)@ + u32_be(x));
    }
}

/// Appends a message header.
fn push_nlmsghdr(out: &mut Vec<u8>, h: &nlmsghdr)
    ensures
        final(out)@ == old(out)@ + nlmsghdr_bytes(*h),
{
    push_u32_le(out, h.nlmsg_len);
    push_u16_le(out, h.nlmsg_type);
    push_u16_le(out, h.nlmsg_flags);
    push_u32_le(out, h.nlmsg_seq);
    push_u32_le(out, h.nlmsg_pid);
    proof {
        assert(final(out)@ =~= old(out)@ + nlmsghdr_bytes(*h));
    }
}

/// Builds the add-address request for one interface, byte for byte.
pub fn encode_add_addr_request(seqno: u32, index: u32, addr: u32, broadcast: u32) -> (r: Vec<u8>)
    ensures
        r@ == add_addr_request_bytes(seqno, index, addr, broadcast),
{
    let mut out: Vec<u8> = Vec::new();
    let hdr = nlmsghdr {
        nlmsg_len: 48,
        nlmsg_type: RTM_NEWADDR,
        nlmsg_flags: NLM_F_REQUEST | NLM_F_CREATE | NLM_F_EXCL | NLM_F_ACK,
        nlmsg_seq: seqno,
        nlmsg_pid: 0,
    };
    push_nlmsghdr(&mut out, &hdr);
    out.push(AF_INET);
    out.push(24);
    out.push(0);
    out.push(0);
    push_u32_le(&mut out, index);
    push_u16_le(&mut out, 8);
    push_u16_le(&mut out, IFA_LOCAL);
    push_u32_be(&mut out, addr);
    push_u16_le(&mut out, 8);
    push_u16_le(&mut out, IFA_ADDRESS);
    push_u32_be(&mut out, addr);
    push_u16_le(&mut out, 8);
    push_u16_le(&mut out, IFA_BROADCAST);
    push_u32_be(&mut out, broadcast);
    proof {
        assert(out@ =~= add_addr_request_bytes(seqno, index, addr, broadcast));
    }
    out
}

/// Builds the default-route request through one gateway, byte for byte.
pub fn encode_add_route_request(seqno: u32, index: u32, gateway: u32) -> (r: Vec<u8>)
    ensures
        r@ == add_route_request_bytes(seqno, index, gateway),
{
    let mut out: Vec<u8> = Vec::new();
    let hdr = nlmsghdr {
        nlmsg_len: 44,
        nlmsg_type: RTM_NEWROUTE,
        nlmsg_flags: NLM_F_REQUEST | NLM_F_CREATE | NLM_F_EXCL | NLM_F_ACK,
        nlmsg_seq: seqno,
        nlmsg_pid: 0,
    };
    push_nlmsghdr(&mut out, &hdr);
    out.push(AF_INET);
    out.push(0);
    out.push(0);
    out.push(0);
    out.push(RT_TABLE_MAIN);
    out.push(RTPROT_BOOT);
    out.push(RT_SCOPE_UNIVERSE);
    out.push(RTN_UNICAST);
    push_u32_le(&mut out, 0);
    push_u16_le(&mut out, 8);
    push_u16_le(&mut out, RTA_GATEWAY);
    push_u32_be(&mut out, gateway);
    push_u16_le(&mut out, 8);
    push_u16_le(&mut out, RTA_OIF);
    push_u32_le(&mut out, index);
    proof {
        assert(out@ =~= add_route_request_bytes(seqno, index, gateway));
    }
    out
}

/// Builds the request that brings one interface administratively up, byte
/// for byte.
pub fn encode_link_up_request(seqno: u32, index: u32) -> (r: Vec<u8>)
    ensures
        r@ == link_up_request_bytes(seqno, index),
{
    let mut out: Vec<u8> = Vec::new();
    let hdr = nlmsghdr {
        nlmsg_len: 32,
        nlmsg_type: RTM_SETLINK,
        nlmsg_flags: NLM_F_REQUEST | NLM_F_ACK,
        nlmsg_seq: seqno,
        nlmsg_pid: 0,
    };
    push_nlmsghdr(&mut out, &hdr);
    out.push(AF_UNSPEC);
    out.push(0);
    push_u16_le(&mut out, ARPHRD_NONE);
    push_u32_le(&mut out, index);
    push_u32_le(&mut out, IFF_UP);
    push_u32_le(&mut out, IFF_UP);
    proof {
        assert(out@ =~= link_up_request_bytes(seqno, index));
    }
    out
}

/// The 32-bit little-endian value at position `i`.
pub open spec fn le_u32_at(s: Seq<u8>, i: int) -> int {
    s[i] + 256 * s[i + 1] + 65536 * s[i + 2] + 16777216 * s[i + 3]
}

/// The 16-bit little-endian value at position `i`.
pub open spec fn le_u16_at(s: Seq<u8>, i: int) -> int {
    s[i] + 256 * s[i + 1]
}

/// The 32-bit little-endian value at position `i`, read as a signed error
/// code.
pub open spec fn le_i32_at(s: Seq<u8>, i: int) -> int {
    if le_u32_at(s, i) >= 0x8000_0000 {
        le_u32_at(s, i) - 0x1_0000_0000
    } else {
        le_u32_at(s, i)
    }
}

/// The acknowledgement payload encoded at position `i` of a received
/// buffer: the error code, then the header of the answered message.
pub open spec fn nlmsgerr_at(s: Seq<u8>, i: int) -> nlmsgerr {
    nlmsgerr { error: le_i32_at(s, i) as i32, msg: nlmsghdr_at(s, i + 4) }
}

/// The error code of the first acknowledgement message at or after
/// position `i`, walking messages by their own length fields; nothing when
/// the buffer runs out, a message is too short to be walked, or the
/// acknowledgement payload is cut off.
pub open spec fn ack_scan_from(s: Seq<u8>, i: int) -> Option<int>
    recommends
        0 <= i,
    decreases s.len() - i,
{
    if i < 0 || i + 16 > s.len() {
        Option::None
    } else if le_u16_at(s, i + 4) == NLMSG_ERROR {
        if i + 36 <= s.len() {
            Option::Some(le_i32_at(s, i + 16))
        } else {
            Option::None
        }
    } else if le_u32_at(s, i) < 16 || i + le_u32_at(s, i) > s.len() {
        Option::None
    } else {
        ack_scan_from(s, i + le_u32_at(s, i))
    }
}

/// Reads the 32-bit little-endian value at position `i`.
fn read_u32_le(buf: &Vec<u8>, i: usize) -> (r: u32)
    requires
        i + 4 <= buf@.len(),
    ensures
        r == le_u32_at(buf@, i as int),
{
    let _n = buf.len();
    buf[i] as u32 + 256 * (buf[i + 1] as u32) + 65536 * (buf[i + 2] as u32) + 16777216 * (buf[i
        + 3] as u32)
}

/// Reads the 16-bit little-endian value at position `i`.
fn read_u16_le(buf: &Vec<u8>, i: usize) -> (r: u16)
    requires
        i + 2 <= buf@.len(),
    ensures
        r == le_u16_at(buf@, i as int),
{
    let _n = buf.len();
    buf[i] as u16 + 256 * (buf[i + 1] as u16)
}

/// Reads the signed 32-bit little-endian value at position `i`.
fn read_i32_le(buf: &Vec<u8>, i: usize) -> (r: i32)
    requires
        i + 4 <= buf@.len(),
    ensures
        r == le_i32_at(buf@, i as int),
{
    let v = read_u32_le(buf, i);
    let wide: i64 = v as i64;
    let e: i64 = if wide >= 0x8000_0000i64 {
        wide - 0x1_0000_0000i64
    } else {
        wide
    };
    e as i32
}

/// Reads the message header at position `i`, field by field.
fn read_nlmsghdr(buf: &Vec<u8>, i: usize) -> (r: nlmsghdr)
    requires
        i + 16 <= buf@.len(),
    ensures
        r == nlmsghdr_at(buf@, i as int),
{
    let _n = buf.len();
    nlmsghdr {
        nlmsg_len: read_u32_le(buf, i),
        nlmsg_type: read_u16_le(buf, i + 4),
        nlmsg_flags: read_u16_le(buf, i + 6),
        nlmsg_seq: read_u32_le(buf, i + 8),
        nlmsg_pid: read_u32_le(buf, i + 12),
    }
}

/// Reads the acknowledgement payload at position `i`.
fn read_nlmsgerr(buf: &Vec<u8>, i: usize) -> (r: nlmsgerr)
    requires
        i + 20 <= buf@.len(),
    ensures
        r == nlmsgerr_at(buf@, i as int),
{
    let _n = buf.len();
    nlmsgerr { error: read_i32_le(buf, i), msg: read_nlmsghdr(buf, i + 4) }
}

/// Scans one received buffer for the acknowledgement message and returns
/// the error code it carries — zero for success — or nothing when the
/// buffer holds no acknowledgement, so that the caller receives again.
pub fn scan_ack(buf: &Vec<u8>) -> (r: Option<i32>)
    ensures
        match r {
            Option::Some(e) => ack_scan_from(buf@, 0) == Option::Some(e as int),
            Option::None => ack_scan_from(buf@, 0) is None,
        },
{
    let len = buf.len();
    let mut i: usize = 0;
    loop
        invariant
            0 <= i <= len,
            len == buf@.len(),
            ack_scan_from(buf@, 0) == ack_scan_from(buf@, i as int),
        decreases len - i,
    {
        if len - i < 16 {
            return None;
        }
        let hdr = read_nlmsghdr(buf, i);
        if hdr.nlmsg_type == NLMSG_ERROR {
            if len - i >= 36 {
                let payload = read_nlmsgerr(buf, i + 16);
                return Some(payload.error);
            }
            return None;
        }
        if hdr.nlmsg_len < 16 {
            return None;
        }
        let step = hdr.nlmsg_len as usize;
        if step > len - i {
            return None;
        }
        i += step;
    }
}

} // verus!
