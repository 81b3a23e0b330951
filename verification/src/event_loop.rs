//! The steady-state event loop: one multiplexed wait over the
//! child-termination bridge and the broker socket, and the decisions taken
//! on every wake-up.
//!
//! The surrounding program performs the wait, the non-blocking reads and
//! the child collection; the functions here decide what each result means:
//! when a wake-up is fatal, when a drained source is exhausted, and — the
//! loop's whole purpose — that the session is over exactly when the
//! distinguished session process is among the collected children.

use vstd::prelude::*;

verus! {

/// A readable condition in a multiplexed-wait result.
pub const POLLIN: i16 = 1;

/// An error condition in a multiplexed-wait result.
pub const POLLERR: i16 = 8;

/// An invalid-handle condition in a multiplexed-wait result.
pub const POLLNVAL: i16 = 32;

/// A non-blocking read found nothing more to read.
pub const EAGAIN: i32 = 11;

/// What one wake-up of the multiplexed wait calls for. An error on the
/// wait itself or on either handle is fatal to the loop: there is no
/// recovery for a broken core primitive, so the loop ends and shutdown
/// runs.
#[derive(PartialEq, Eq, Structural, Clone, Copy, Debug)]
pub enum WakePlan {
    /// The wait itself failed: leave the loop.
    WaitFailed(i32),
    /// The child-termination handle reported an error condition: leave the
    /// loop.
    SignalHandleBroken,
    /// The broker's socket reported an error condition: leave the loop.
    BrokerHandleBroken,
    /// Service whichever sources are readable; a wake-up with neither is
    /// the liveness heartbeat and services nothing.
    Service { drain_signals: bool, drain_broker: bool },
}

/// Decides what a wake-up calls for, from the wait's return value and the
/// two handles' reported conditions.
pub fn wake_plan(wait_ret: i32, signal_revents: i16, broker_revents: i16) -> (r: WakePlan)
    ensures
        wait_ret < 0 ==> r == WakePlan::WaitFailed(wait_ret),
        wait_ret >= 0 && (signal_revents & (POLLERR | POLLNVAL)) != 0 ==> r
            == WakePlan::SignalHandleBroken,
        wait_ret >= 0 && (signal_revents & (POLLERR | POLLNVAL)) == 0 && (broker_revents & (POLLERR
            | POLLNVAL)) != 0 ==> r == WakePlan::BrokerHandleBroken,
        wait_ret >= 0 && (signal_revents & (POLLERR | POLLNVAL)) == 0 && (broker_revents & (POLLERR
            | POLLNVAL)) == 0 ==> r == (WakePlan::Service {
            drain_signals: (signal_revents & POLLIN) != 0,
            drain_broker: (broker_revents & POLLIN) != 0,
        }),
{
    if wait_ret < 0 {
        WakePlan::WaitFailed(wait_ret)
    } else if signal_revents & (POLLERR | POLLNVAL) != 0 {
        WakePlan::SignalHandleBroken
    } else if broker_revents & (POLLERR | POLLNVAL) != 0 {
        WakePlan::BrokerHandleBroken
    } else {
        WakePlan::Service {
            drain_signals: signal_revents & POLLIN != 0,
            drain_broker: broker_revents & POLLIN != 0,
        }
    }
}

/// What one non-blocking read of a drained source returned.
#[derive(PartialEq, Eq, Structural, Clone, Copy, Debug)]
pub enum DrainVerdict {
    /// Data came back: read again.
    KeepReading(i64),
    /// Nothing more to read: the source is drained for this wake-up.
    Drained,
    /// The read failed: stop draining and report the error.
    Failed(i32),
}

/// Decides whether a non-blocking read loop goes on, under the C
/// convention: `-1` means failure with the reason in `errno`, and finding
/// nothing more to read is how such a loop normally ends.
pub fn drain_verdict(ret: i64, errno: i32) -> (r: DrainVerdict)
    ensures
        ret != -1 ==> r == DrainVerdict::KeepReading(ret),
        ret == -1 && errno == EAGAIN ==> r == DrainVerdict::Drained,
        ret == -1 && errno != EAGAIN ==> r == DrainVerdict::Failed(errno),
{
    if ret != -1 {
        DrainVerdict::KeepReading(ret)
    } else if errno == EAGAIN {
        DrainVerdict::Drained
    } else {
        DrainVerdict::Failed(errno)
    }
}

/// What one non-blocking child-collection result means to the loop.
#[derive(PartialEq, Eq, Structural, Clone, Copy, Debug)]
pub enum ReapEvent {
    /// The wait failed: stop collecting for this wake-up.
    WaitFailed(i32),
    /// No exited child is ready: collecting is done for this wake-up.
    NoneReady,
    /// The session process exited: the session is over.
    SessionEnded,
    /// Some other child was collected: keep collecting, the loop goes on.
    OtherChild(i32),
}

/// Decides what one result of the non-blocking child wait means: only the
/// session process's own id ends the session; any other collected child
/// changes nothing.
pub fn classify_reap(wait_ret: i32, ui_pid: i32) -> (r: ReapEvent)
    ensures
        wait_ret < 0 ==> r == ReapEvent::WaitFailed(wait_ret),
        wait_ret == 0 ==> r == ReapEvent::NoneReady,
        wait_ret > 0 && wait_ret == ui_pid ==> r == ReapEvent::SessionEnded,
        wait_ret > 0 && wait_ret != ui_pid ==> r == ReapEvent::OtherChild(wait_ret),
{
    if wait_ret < 0 {
        ReapEvent::WaitFailed(wait_ret)
    } else if wait_ret == 0 {
        ReapEvent::NoneReady
    } else if wait_ret == ui_pid {
        ReapEvent::SessionEnded
    } else {
        ReapEvent::OtherChild(wait_ret)
    }
}

/// Whether the session has ended after the given child ids have been
/// collected, in order, starting from a running session.
pub open spec fn ended_after_reaps(ui_pid: i32, reaped: Seq<i32>) -> bool
    decreases reaped.len(),
{
    if reaped.len() == 0 {
        false
    } else if reaped[0] == ui_pid {
        true
    } else {
        ended_after_reaps(ui_pid, reaped.skip(1))
    }
}

/// Session termination: the loop ends the session exactly when the
/// session process's id is among the collected children; collecting any
/// number of other children never ends it.
pub proof fn lemma_session_termination(ui_pid: i32, reaped: Seq<i32>)
    ensures
        ended_after_reaps(ui_pid, reaped) <==> reaped.contains(ui_pid),
    decreases reaped.len(),
{
    if reaped.len() > 0 {
        lemma_session_termination(ui_pid, reaped.skip(1));
        if reaped[0] == ui_pid {
            assert(reaped.contains(ui_pid));
        } else {
            if reaped.contains(ui_pid) {
                let k = choose|k: int| 0 <= k < reaped.len() && reaped[k] == ui_pid;
                assert(reaped.skip(1)[k - 1] == ui_pid);
                assert(reaped.skip(1).contains(ui_pid));
            }
            if reaped.skip(1).contains(ui_pid) {
                let k = choose|k: int|
                    0 <= k < reaped.skip(1).len() && reaped.skip(1)[k] == ui_pid;
                assert(reaped[k + 1] == ui_pid);
            }
        }
    }
}

/// The loop's standing. A fatal wake-up fails the loop; only the session
/// process's exit ends it as a completed session. Either way the caller
/// proceeds to the shutdown sequencer.
#[derive(PartialEq, Eq, Structural, Clone, Copy, Debug)]
pub enum SessionStatus {
    Running,
    Ended,
    Failed,
}

/// The event loop's state: the distinguished session process id, fixed at
/// spawn time, and the loop's standing.
pub struct EventLoop {
    ui_pid: i32,
    status: SessionStatus,
}

impl EventLoop {
    /// The distinguished session process id.
    pub closed spec fn ui_pid_spec(&self) -> i32 {
        self.ui_pid
    }

    /// The loop's standing.
    pub closed spec fn status_spec(&self) -> SessionStatus {
        self.status
    }

    /// A loop watching the given session process, about to run.
    pub fn new(ui_pid: i32) -> (r: EventLoop)
        ensures
            r.ui_pid_spec() == ui_pid,
            r.status_spec() == SessionStatus::Running,
    {
        EventLoop { ui_pid, status: SessionStatus::Running }
    }

    /// The loop's standing, for the caller's loop condition.
    pub fn status(&self) -> (r: SessionStatus)
        ensures
            r == self.status_spec(),
    {
        self.status
    }

    /// Consumes one collected child id: the session ends exactly when it
    /// is the session process's own id.
    pub fn on_reaped(&mut self, pid: i32) -> (ended: bool)
        requires
            old(self).status_spec() == SessionStatus::Running,
        ensures
            final(self).ui_pid_spec() == old(self).ui_pid_spec(),
            ended == (pid == old(self).ui_pid_spec()),
            final(self).status_spec() == (if pid == old(self).ui_pid_spec() {
                SessionStatus::Ended
            } else {
                SessionStatus::Running
            }),
    {
        if pid == self.ui_pid {
            self.status = SessionStatus::Ended;
            true
        } else {
            false
        }
    }

    /// Records a fatal wake-up: the loop is over without a completed
    /// session, and shutdown runs next.
    pub fn on_fatal(&mut self)
        requires
            old(self).status_spec() == SessionStatus::Running,
        ensures
            final(self).ui_pid_spec() == old(self).ui_pid_spec(),
            final(self).status_spec() == SessionStatus::Failed,
    {
        self.status = SessionStatus::Failed;
    }
}

} // verus!
