//! Tests of boot sequencing, shutdown sequencing, and the end-to-end
//! boot-to-power-off scenario.

use initd::boot::{
    phase_indices, stdio_redirect_plan, ActiveMounts, MountPhase, MountRecord,
};
use initd::shutdown::{
    broadcast_verdict, reap_verdict, unmount_plan, BroadcastVerdict, ReapVerdict,
    ShutdownSequencer, ShutdownStage, ECHILD, EINTR, ESRCH,
};
use initd::spawn::{
    child_exit_ok, pre_exec_progress, priv_drop_plan, spawn_wait_outcome, PrivStep,
};

fn record(device: &[u8], target: &[u8], fs: &[u8], phase: MountPhase) -> MountRecord {
    MountRecord {
        device: device.to_vec(),
        target: target.to_vec(),
        fs_type: fs.to_vec(),
        flags: 0,
        data: None,
        create_mode: None,
        phase,
    }
}

fn active_targets(table: &ActiveMounts) -> Vec<Vec<u8>> {
    let mut out = Vec::new();
    let mut i = 0;
    while i < table.len() {
        out.push(table.target_at(i).clone());
        i += 1;
    }
    out
}

#[test]
fn reverse_order_unmount() {
    let mounted = vec![
        b"/dev".to_vec(),
        b"/dev/pts".to_vec(),
        b"/run".to_vec(),
        b"/proc".to_vec(),
    ];
    let plan = unmount_plan(&mounted);
    assert_eq!(
        plan,
        vec![
            b"/proc".to_vec(),
            b"/run".to_vec(),
            b"/dev/pts".to_vec(),
            b"/dev".to_vec(),
        ]
    );
}

#[test]
fn unmount_plan_of_nothing_is_empty() {
    let plan = unmount_plan(&vec![]);
    assert!(plan.is_empty());
}

#[test]
fn broadcast_verdicts() {
    assert_eq!(broadcast_verdict(0, 0), BroadcastVerdict::Reap);
    assert_eq!(broadcast_verdict(-1, ESRCH), BroadcastVerdict::NoProcesses);
    assert_eq!(broadcast_verdict(-1, 13), BroadcastVerdict::Failed(13));
}

#[test]
fn reap_verdicts() {
    assert_eq!(reap_verdict(42, 0), ReapVerdict::Collected(42));
    assert_eq!(reap_verdict(-1, ECHILD), ReapVerdict::NoChildren);
    assert_eq!(reap_verdict(-1, EINTR), ReapVerdict::Retry);
    assert_eq!(reap_verdict(-1, 5), ReapVerdict::Abort(5));
}

#[test]
fn shutdown_with_no_processes_is_success() {
    // the broadcast finds nobody: that is success, and reaping is skipped
    let mut seq = ShutdownSequencer::new();
    assert_eq!(seq.stage(), ShutdownStage::Broadcasting);
    let verdict = seq.on_broadcast(-1, ESRCH);
    assert_eq!(verdict, BroadcastVerdict::NoProcesses);
    assert!(!matches!(verdict, BroadcastVerdict::Failed(_)));
    assert_eq!(seq.stage(), ShutdownStage::Unmounting);
}

#[test]
fn reap_loop_ends_at_once_with_no_children() {
    let mut seq = ShutdownSequencer::new();
    assert_eq!(seq.on_broadcast(0, 0), BroadcastVerdict::Reap);
    assert_eq!(seq.stage(), ShutdownStage::Reaping);
    assert_eq!(seq.on_reap(-1, ECHILD), ReapVerdict::NoChildren);
    assert_eq!(seq.stage(), ShutdownStage::Unmounting);
}

#[test]
fn interrupted_reap_is_retried_and_other_errors_abort() {
    let mut seq = ShutdownSequencer::new();
    seq.on_broadcast(0, 0);
    assert_eq!(seq.on_reap(-1, EINTR), ReapVerdict::Retry);
    assert_eq!(seq.stage(), ShutdownStage::Reaping);
    assert_eq!(seq.on_reap(17, 0), ReapVerdict::Collected(17));
    assert_eq!(seq.stage(), ShutdownStage::Reaping);
    assert_eq!(seq.on_reap(-1, 5), ReapVerdict::Abort(5));
    assert_eq!(seq.stage(), ShutdownStage::Unmounting);
}

#[test]
fn phase_split_keeps_table_order() {
    let records = vec![
        record(b"none", b"/dev", b"devtmpfs", MountPhase::Early),
        record(b"/dev/sda1", b"/boot", b"vfat", MountPhase::Late),
        record(b"none", b"/proc", b"proc", MountPhase::Early),
    ];
    assert_eq!(phase_indices(&records, MountPhase::Early), vec![0, 2]);
    assert_eq!(phase_indices(&records, MountPhase::Late), vec![1]);
}

#[test]
fn active_mounts_detach_the_most_recent_mount() {
    let mut table = ActiveMounts::new();
    table.mount(b"/a".to_vec());
    table.mount(b"/b".to_vec());
    table.mount(b"/a".to_vec());
    assert!(table.unmount(&b"/a".to_vec()));
    assert_eq!(active_targets(&table), vec![b"/a".to_vec(), b"/b".to_vec()]);
    assert!(!table.unmount(&b"/c".to_vec()));
    assert_eq!(table.len(), 2);
}

#[test]
fn stdio_redirect_plans() {
    let p = stdio_redirect_plan(3);
    assert!(p.dup_to_stdout && p.dup_to_stderr && p.close_after);
    let p = stdio_redirect_plan(1);
    assert!(!p.dup_to_stdout && p.dup_to_stderr && !p.close_after);
    let p = stdio_redirect_plan(2);
    assert!(p.dup_to_stdout && !p.dup_to_stderr && !p.close_after);
}

#[test]
fn spawn_wait_outcomes() {
    assert_eq!(spawn_wait_outcome(-12, 0, 0), Err(-12));
    assert_eq!(spawn_wait_outcome(50, -1, 0), Err(-1));
    assert_eq!(spawn_wait_outcome(50, 50, 256), Ok(256));
}

#[test]
fn helper_must_exit_zero() {
    assert!(child_exit_ok(&Ok(0)));
    assert!(!child_exit_ok(&Ok(1)));
    assert!(!child_exit_ok(&Err(-3)));
}

#[test]
fn privilege_drop_order() {
    assert_eq!(
        priv_drop_plan(),
        vec![
            PrivStep::SetGid,
            PrivStep::SetGroups,
            PrivStep::SetUid,
            PrivStep::ChangeHomeDir,
        ]
    );
}

#[test]
fn pre_exec_stops_at_first_failure() {
    assert_eq!(pre_exec_progress(&vec![true, true, true, true]), None);
    assert_eq!(pre_exec_progress(&vec![true, false, true, true]), Some(1));
    assert_eq!(pre_exec_progress(&vec![false, false, false, false]), Some(0));
    assert_eq!(pre_exec_progress(&vec![]), None);
}

#[test]
fn boot_to_power_off_scenario() {
    // the configured table: one early mount, one late mount
    let records = vec![
        record(b"none", b"/tmp", b"tmpfs", MountPhase::Early),
        record(b"/dev/sda1", b"/boot", b"vfat", MountPhase::Late),
    ];
    let mut table = ActiveMounts::new();

    // boot applies the early phase only
    for i in phase_indices(&records, MountPhase::Early) {
        table.mount(records[i].target.clone());
    }
    assert_eq!(active_targets(&table), vec![b"/tmp".to_vec()]);

    // late initialization applies the late phase after the session starts
    for i in phase_indices(&records, MountPhase::Late) {
        table.mount(records[i].target.clone());
    }
    assert_eq!(
        active_targets(&table),
        vec![b"/tmp".to_vec(), b"/boot".to_vec()]
    );

    // shutdown unmounts everything in reverse mount order...
    let mut power_off_requests = 0;
    let mut seq = ShutdownSequencer::new();
    assert_eq!(seq.on_broadcast(0, 0), BroadcastVerdict::Reap);
    assert_eq!(seq.on_reap(-1, ECHILD), ReapVerdict::NoChildren);
    assert_eq!(seq.stage(), ShutdownStage::Unmounting);
    let plan = unmount_plan(&active_targets(&table));
    assert_eq!(plan, vec![b"/boot".to_vec(), b"/tmp".to_vec()]);
    for target in &plan {
        assert!(table.unmount(target));
    }
    assert_eq!(table.len(), 0);
    seq.on_unmounts_done();

    // ...flushes, and issues exactly one power-off request
    assert_eq!(seq.stage(), ShutdownStage::Flushing);
    seq.on_flushed();
    assert_eq!(seq.stage(), ShutdownStage::PowerOff);
    power_off_requests += 1;
    seq.on_power_off_issued();
    assert_eq!(seq.stage(), ShutdownStage::Halted);
    assert_eq!(power_off_requests, 1);
}
