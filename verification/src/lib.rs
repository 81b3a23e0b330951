//! Verified core of a PID-1 init supervisor.
//!
//! The library holds the logic of the supervisor: the descriptor ledger, the
//! mount-table parser, the boot and shutdown sequencing, the device broker's
//! request handling, the routing-socket messages, and the event-loop
//! decisions. All kernel calls are made by the surrounding program, which
//! feeds their results to these functions as plain values.

pub mod boot;
pub mod event_loop;
pub mod fd;
pub mod mounts;
pub mod netlink;
pub mod seat;
pub mod shutdown;
pub mod spawn;

use vstd::prelude::*;

verus! {

/// Interprets the return convention of the C library: `-1` means failure and
/// the error is found in `errno`; any other value is the successful result.
pub fn libc_check_error(ret: i32, errno: i32) -> (r: Result<i32, i32>)
    ensures
        ret == -1 ==> r == Result::<i32, i32>::Err(errno),
        ret != -1 ==> r == Result::<i32, i32>::Ok(ret),
{
    if ret == -1 {
        Err(errno)
    } else {
        Ok(ret)
    }
}

} // verus!
