//! Tests of the mount-table parser and the descriptor ledger.

use initd::fd::{Fd, FdLedger};
use initd::libc_check_error;
use initd::mounts::parse_mount_targets;

fn targets(text: &[u8]) -> Vec<Vec<u8>> {
    parse_mount_targets(&text.to_vec())
}

#[test]
fn parses_typical_mount_listing() {
    let text = b"none /dev devtmpfs rw,noatime 0 0\n\
                 none /dev/pts devpts rw 0 0\n\
                 none /proc proc rw 0 0\n";
    let got = targets(text);
    assert_eq!(
        got,
        vec![b"/dev".to_vec(), b"/dev/pts".to_vec(), b"/proc".to_vec()]
    );
}

#[test]
fn parses_listing_without_final_newline() {
    let got = targets(b"dev /a tmpfs rw 0 0\ndev /b tmpfs rw 0 0");
    assert_eq!(got, vec![b"/a".to_vec(), b"/b".to_vec()]);
}

#[test]
fn empty_listing_has_no_targets() {
    let got = targets(b"");
    assert!(got.is_empty());
}

#[test]
fn line_without_second_field_is_skipped() {
    let got = targets(b"loneword\nnone /run tmpfs rw 0 0\n");
    assert_eq!(got, vec![b"/run".to_vec()]);
}

#[test]
fn second_field_may_end_the_line() {
    // a line whose target is its last field still yields that target
    let got = targets(b"none /tmp\n");
    assert_eq!(got, vec![b"/tmp".to_vec()]);
}

#[test]
fn blank_lines_are_skipped() {
    let got = targets(b"\n\nnone /sys sysfs rw 0 0\n\n");
    assert_eq!(got, vec![b"/sys".to_vec()]);
}

#[test]
fn ledger_tracks_live_descriptors() {
    let mut ledger = FdLedger::empty();
    assert!(!ledger.is_live(3));
    ledger.acquire(3);
    ledger.acquire(4);
    assert!(ledger.is_live(3));
    assert!(ledger.is_live(4));
    ledger.release(3);
    assert!(!ledger.is_live(3));
    assert!(ledger.is_live(4));
}

#[test]
fn released_descriptor_may_be_acquired_again() {
    let mut ledger = FdLedger::empty();
    ledger.acquire(7);
    ledger.release(7);
    assert!(!ledger.is_live(7));
    ledger.acquire(7);
    assert!(ledger.is_live(7));
}

#[test]
fn fd_moves_its_raw_value() {
    let fd = Fd::new(12);
    assert_eq!(fd.raw(), 12);
    assert_eq!(fd.into_raw(), 12);
}

#[test]
fn libc_error_convention() {
    assert_eq!(libc_check_error(0, 0), Ok(0));
    assert_eq!(libc_check_error(5, 0), Ok(5));
    assert_eq!(libc_check_error(-1, 13), Err(13));
}
