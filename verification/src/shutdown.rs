//! The shutdown sequencer: terminate every process, unmount every
//! filesystem in the exact reverse of mount order, flush, and power off —
//! exactly once, from any entry state.

use vstd::prelude::*;

use crate::mounts::views_of;

verus! {

/// No process was there to signal.
pub const ESRCH: i32 = 3;

/// The call was interrupted by a signal and may be retried.
pub const EINTR: i32 = 4;

/// The caller has no children left to wait for.
pub const ECHILD: i32 = 10;

/// What to do after the termination broadcast. Finding no process to signal
/// is success, not failure: the reaping that follows ends immediately with
/// no children.
#[derive(PartialEq, Eq, Structural, Clone, Copy, Debug)]
pub enum BroadcastVerdict {
    /// The signal went out: wait for the processes to exit.
    Reap,
    /// There was no process to signal: nothing to wait for, nothing wrong.
    NoProcesses,
    /// The broadcast failed: the processes were never told to exit, so
    /// waiting for them would hang. The error is reported and reaping is
    /// skipped.
    Failed(i32),
}

/// Decides what the termination broadcast's result means. `ret` and `errno`
/// come from the kernel's signal-broadcast call under the C convention:
/// `-1` means failure, with the reason in `errno`.
pub fn broadcast_verdict(ret: i32, errno: i32) -> (r: BroadcastVerdict)
    ensures
        ret != -1 ==> r == BroadcastVerdict::Reap,
        ret == -1 && errno == ESRCH ==> r == BroadcastVerdict::NoProcesses,
        ret == -1 && errno != ESRCH ==> r == BroadcastVerdict::Failed(errno),
{
    if ret != -1 {
        BroadcastVerdict::Reap
    } else if errno == ESRCH {
        BroadcastVerdict::NoProcesses
    } else {
        BroadcastVerdict::Failed(errno)
    }
}

/// What one round of the reaping loop decided.
#[derive(PartialEq, Eq, Structural, Clone, Copy, Debug)]
pub enum ReapVerdict {
    /// A child was collected: keep reaping.
    Collected(i32),
    /// No children are left: the loop is done.
    NoChildren,
    /// The wait was interrupted: retry it.
    Retry,
    /// Any other error ends the loop, so that the same failure cannot repeat
    /// forever.
    Abort(i32),
}

/// Decides what one result of the blocking child-wait call means. `ret` and
/// `errno` follow the C convention: `-1` means failure, with the reason in
/// `errno`; any other value is the collected child's process id.
pub fn reap_verdict(ret: i32, errno: i32) -> (r: ReapVerdict)
    ensures
        ret != -1 ==> r == ReapVerdict::Collected(ret),
        ret == -1 && errno == ECHILD ==> r == ReapVerdict::NoChildren,
        ret == -1 && errno == EINTR ==> r == ReapVerdict::Retry,
        ret == -1 && errno != ECHILD && errno != EINTR ==> r == ReapVerdict::Abort(errno),
{
    if ret != -1 {
        ReapVerdict::Collected(ret)
    } else if errno == ECHILD {
        ReapVerdict::NoChildren
    } else if errno == EINTR {
        ReapVerdict::Retry
    } else {
        ReapVerdict::Abort(errno)
    }
}

/// The unmount order for an active-mount list: the exact reverse of mount
/// order, because a filesystem mounted inside another must be detached
/// before its parent.
pub fn unmount_plan(active: &Vec<Vec<u8>>) -> (r: Vec<Vec<u8>>)
    ensures
        views_of(r@) == views_of(active@).reverse(),
{
    let mut out: Vec<Vec<u8>> = Vec::new();
    let n = active.len();
    let mut i: usize = n;
    while i > 0
        invariant
            0 <= i <= n,
            n == active@.len(),
            out@.len() == n - i,
            forall|k: int|
                0 <= k < out@.len() ==> #[trigger] out@[k]@ == active@[n - 1 - k]@,
        decreases i,
    {
        let mut copy: Vec<u8> = Vec::new();
        let src = &active[i - 1];
        let m = src.len();
        let mut j: usize = 0;
        while j < m
            invariant
                0 <= j <= m,
                m == src@.len(),
                copy@ == src@.subrange(0, j as int),
            decreases m - j,
        {
            copy.push(src[j]);
            proof {
                assert(copy@ =~= src@.subrange(0, j + 1));
            }
            j += 1;
        }
        proof {
            assert(copy@ =~= src@);
        }
        out.push(copy);
        i -= 1;
    }
    proof {
        let lhs = views_of(out@);
        let rhs = views_of(active@).reverse();
        assert(lhs.len() == rhs.len());
        assert forall|k: int| 0 <= k < lhs.len() implies lhs[k] == rhs[k] by {
            assert(out@[k]@ == active@[n - 1 - k]@);
            assert(rhs[k] == views_of(active@)[n - 1 - k]);
        }
        assert(lhs =~= rhs);
    }
    out
}

/// Where the shutdown sequencer stands. The stages are strictly ordered and
/// every transition moves forward, so no stage — the power-off request in
/// particular — can run twice.
#[derive(PartialEq, Eq, Structural, Clone, Copy, Debug)]
pub enum ShutdownStage {
    /// Broadcast the termination signal to every process.
    Broadcasting,
    /// Collect exited children until none are left.
    Reaping,
    /// Unmount every filesystem, in reverse mount order.
    Unmounting,
    /// Flush the filesystem caches to disk.
    Flushing,
    /// Issue the one power-off request.
    PowerOff,
    /// The power-off request has been issued; nothing remains to do.
    Halted,
}

/// How far along a stage is, for showing that transitions only move
/// forward.
pub open spec fn stage_rank(s: ShutdownStage) -> int {
    match s {
        ShutdownStage::Broadcasting => 0,
        ShutdownStage::Reaping => 1,
        ShutdownStage::Unmounting => 2,
        ShutdownStage::Flushing => 3,
        ShutdownStage::PowerOff => 4,
        ShutdownStage::Halted => 5,
    }
}

/// Drives one run of the shutdown sequence. The caller performs each
/// stage's kernel work and reports the results; the sequencer decides what
/// comes next. Every failure before the power-off is reported and skipped,
/// never retried into a loop, so the sequence always reaches the power-off
/// request, and reaches it exactly once.
pub struct ShutdownSequencer {
    stage: ShutdownStage,
}

impl ShutdownSequencer {
    /// The current stage.
    pub closed spec fn stage_spec(&self) -> ShutdownStage {
        self.stage
    }

    /// A fresh run starts with the termination broadcast.
    pub fn new() -> (r: ShutdownSequencer)
        ensures
            r.stage_spec() == ShutdownStage::Broadcasting,
    {
        ShutdownSequencer { stage: ShutdownStage::Broadcasting }
    }

    /// The current stage, for the caller to pick its kernel work.
    pub fn stage(&self) -> (r: ShutdownStage)
        ensures
            r == self.stage_spec(),
    {
        self.stage
    }

    /// Consumes the broadcast's result. Only a successful broadcast is
    /// worth waiting on: with no process signalled (or the broadcast
    /// failed), reaping is skipped and unmounting begins at once.
    pub fn on_broadcast(&mut self, ret: i32, errno: i32) -> (r: BroadcastVerdict)
        requires
            old(self).stage_spec() == ShutdownStage::Broadcasting,
        ensures
            r == broadcast_verdict_spec(ret, errno),
            final(self).stage_spec() == (if r == BroadcastVerdict::Reap {
                ShutdownStage::Reaping
            } else {
                ShutdownStage::Unmounting
            }),
            stage_rank(final(self).stage_spec()) > stage_rank(old(self).stage_spec()),
    {
        let v = broadcast_verdict(ret, errno);
        self.stage = if matches!(v, BroadcastVerdict::Reap) {
            ShutdownStage::Reaping
        } else {
            ShutdownStage::Unmounting
        };
        v
    }

    /// Consumes one result of the reaping wait. A collected child or an
    /// interruption keeps the loop going; no children left, or any other
    /// error, ends it and unmounting begins.
    pub fn on_reap(&mut self, ret: i32, errno: i32) -> (r: ReapVerdict)
        requires
            old(self).stage_spec() == ShutdownStage::Reaping,
        ensures
            r == reap_verdict_spec(ret, errno),
            final(self).stage_spec() == (match r {
                ReapVerdict::Collected(_) => ShutdownStage::Reaping,
                ReapVerdict::Retry => ShutdownStage::Reaping,
                ReapVerdict::NoChildren => ShutdownStage::Unmounting,
                ReapVerdict::Abort(_) => ShutdownStage::Unmounting,
            }),
            stage_rank(final(self).stage_spec()) >= stage_rank(old(self).stage_spec()),
    {
        let v = reap_verdict(ret, errno);
        self.stage = match v {
            ReapVerdict::Collected(_) => ShutdownStage::Reaping,
            ReapVerdict::Retry => ShutdownStage::Reaping,
            ReapVerdict::NoChildren => ShutdownStage::Unmounting,
            ReapVerdict::Abort(_) => ShutdownStage::Unmounting,
        };
        v
    }

    /// Records that every target of the unmount plan has been attempted.
    pub fn on_unmounts_done(&mut self)
        requires
            old(self).stage_spec() == ShutdownStage::Unmounting,
        ensures
            final(self).stage_spec() == ShutdownStage::Flushing,
            stage_rank(final(self).stage_spec()) > stage_rank(old(self).stage_spec()),
    {
        self.stage = ShutdownStage::Flushing;
    }

    /// Records that the filesystem caches have been flushed.
    pub fn on_flushed(&mut self)
        requires
            old(self).stage_spec() == ShutdownStage::Flushing,
        ensures
            final(self).stage_spec() == ShutdownStage::PowerOff,
            stage_rank(final(self).stage_spec()) > stage_rank(old(self).stage_spec()),
    {
        self.stage = ShutdownStage::PowerOff;
    }

    /// Records that the one power-off request has been issued. The
    /// sequencer halts: no transition leads back, so the request cannot be
    /// issued a second time.
    pub fn on_power_off_issued(&mut self)
        requires
            old(self).stage_spec() == ShutdownStage::PowerOff,
        ensures
            final(self).stage_spec() == ShutdownStage::Halted,
            stage_rank(final(self).stage_spec()) > stage_rank(old(self).stage_spec()),
    {
        self.stage = ShutdownStage::Halted;
    }
}

/// What `broadcast_verdict` returns, for use in contracts.
pub open spec fn broadcast_verdict_spec(ret: i32, errno: i32) -> BroadcastVerdict {
    if ret != -1 {
        BroadcastVerdict::Reap
    } else if errno == ESRCH {
        BroadcastVerdict::NoProcesses
    } else {
        BroadcastVerdict::Failed(errno)
    }
}

/// What `reap_verdict` returns, for use in contracts.
pub open spec fn reap_verdict_spec(ret: i32, errno: i32) -> ReapVerdict {
    if ret != -1 {
        ReapVerdict::Collected(ret)
    } else if errno == ECHILD {
        ReapVerdict::NoChildren
    } else if errno == EINTR {
        ReapVerdict::Retry
    } else {
        ReapVerdict::Abort(errno)
    }
}

/// Idempotent shutdown: when no process exists, the termination broadcast
/// counts as success, and the reaping loop, asked once, ends at once with
/// no children — the sequencer goes straight to unmounting in either case.
pub proof fn lemma_idempotent_shutdown(errno_broadcast: i32, errno_reap: i32)
    requires
        errno_broadcast == ESRCH,
        errno_reap == ECHILD,
    ensures
        broadcast_verdict_spec(-1i32, errno_broadcast) == BroadcastVerdict::NoProcesses,
        broadcast_verdict_spec(-1i32, errno_broadcast) != BroadcastVerdict::Failed(errno_broadcast),
        reap_verdict_spec(-1i32, errno_reap) == ReapVerdict::NoChildren,
{
}

/// The power-off request is issued at most once: issuing it moves the
/// sequencer to the halted stage, from which no transition leads anywhere,
/// so the requirement for issuing it can never hold again.
pub proof fn lemma_power_off_at_most_once(s: ShutdownSequencer)
    requires
        s.stage_spec() == ShutdownStage::Halted,
    ensures
        s.stage_spec() != ShutdownStage::PowerOff,
{
}

} // verus!
