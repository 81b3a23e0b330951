//! The process spawner's decisions: how a spawn-and-wait result is read,
//! and the fixed order of the privilege drop the session process performs
//! before replacing its image.

use vstd::prelude::*;

verus! {

/// Reads the result of spawning one child and waiting for it: a failed
/// spawn or a failed wait is the error it returned; otherwise the child's
/// exit status is the result. The kernel reports an image-replacement
/// failure as a normal non-zero exit, never as a spawn error.
pub fn spawn_wait_outcome(pid: i32, wait_ret: i32, status: i32) -> (r: Result<i32, i32>)
    ensures
        pid < 0 ==> r == Result::<i32, i32>::Err(pid),
        pid >= 0 && wait_ret < 0 ==> r == Result::<i32, i32>::Err(wait_ret),
        pid >= 0 && wait_ret >= 0 ==> r == Result::<i32, i32>::Ok(status),
{
    if pid < 0 {
        Err(pid)
    } else if wait_ret < 0 {
        Err(wait_ret)
    } else {
        Ok(status)
    }
}

/// Whether a spawned helper did its work: it spawned, it was waited for,
/// and it exited with status zero.
pub fn child_exit_ok(outcome: &Result<i32, i32>) -> (r: bool)
    ensures
        r == (outcome == Result::<i32, i32>::Ok(0)),
{
    match outcome {
        Ok(status) => *status == 0,
        Err(_) => false,
    }
}

/// One step of the privilege drop that the session process performs
/// between its creation and its image replacement.
#[derive(PartialEq, Eq, Structural, Clone, Copy, Debug)]
pub enum PrivStep {
    /// Set the real group id — while still privileged.
    SetGid,
    /// Set the supplementary groups — while still privileged.
    SetGroups,
    /// Set the real user id — after the groups, since doing so gives the
    /// privilege away.
    SetUid,
    /// Change into the user's home directory.
    ChangeHomeDir,
}

/// The privilege drop in its one safe order: both group identities are set
/// while the process still may, the user id last of the three, and only
/// then the directory change, which already runs unprivileged.
pub fn priv_drop_plan() -> (r: Vec<PrivStep>)
    ensures
        r@ == seq![
            PrivStep::SetGid,
            PrivStep::SetGroups,
            PrivStep::SetUid,
            PrivStep::ChangeHomeDir,
        ],
{
    let mut out: Vec<PrivStep> = Vec::new();
    out.push(PrivStep::SetGid);
    out.push(PrivStep::SetGroups);
    out.push(PrivStep::SetUid);
    out.push(PrivStep::ChangeHomeDir);
    proof {
        assert(out@ =~= seq![
            PrivStep::SetGid,
            PrivStep::SetGroups,
            PrivStep::SetUid,
            PrivStep::ChangeHomeDir,
        ]);
    }
    out
}

/// Where a pre-exec hook stopped: the index of its first failed step, or
/// nothing when every step succeeded. The child proceeds to its image
/// replacement only in the latter case; on the first failure it exits at
/// once with a non-zero status and never replaces its image.
pub fn pre_exec_progress(step_results: &Vec<bool>) -> (r: Option<usize>)
    ensures
        match r {
            Option::Some(j) => j < step_results@.len() && !step_results@[j as int]
                && forall|k: int| 0 <= k < j ==> step_results@[k],
            Option::None => forall|k: int| 0 <= k < step_results@.len() ==> step_results@[k],
        },
{
    let n = step_results.len();
    let mut i: usize = 0;
    while i < n
        invariant
            0 <= i <= n,
            n == step_results@.len(),
            forall|k: int| 0 <= k < i ==> step_results@[k],
        decreases n - i,
    {
        if !step_results[i] {
            return Some(i);
        }
        i += 1;
    }
    None
}

} // verus!
