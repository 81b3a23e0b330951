//! Tests of the device broker's request handling and of the event loop's
//! decisions.

use initd::event_loop::{
    classify_reap, drain_verdict, wake_plan, DrainVerdict, EventLoop, ReapEvent, SessionStatus,
    WakePlan, POLLERR, POLLIN, POLLNVAL,
};
use initd::fd::Fd;
use initd::seat::{
    is_well_formed_request, request_paths, response_for_open, SeatResponse, SeatServer,
};

#[test]
fn request_must_be_nul_terminated_and_non_empty() {
    assert!(is_well_formed_request(&b"/dev/dri/card0\0".to_vec()));
    assert!(!is_well_formed_request(&b"/dev/dri/card0".to_vec()));
    assert!(!is_well_formed_request(&b"".to_vec()));
    assert!(is_well_formed_request(&b"\0".to_vec()));
}

#[test]
fn request_paths_keep_only_well_formed_requests_in_order() {
    let datagrams = vec![
        b"/dev/dri/card0\0".to_vec(),
        b"no-terminator".to_vec(),
        b"".to_vec(),
        b"/dev/input/event0\0".to_vec(),
    ];
    let paths = request_paths(&datagrams);
    assert_eq!(
        paths,
        vec![b"/dev/dri/card0".to_vec(), b"/dev/input/event0".to_vec()]
    );
}

#[test]
fn request_path_stops_at_first_nul() {
    let datagrams = vec![b"/dev/tty0\0trailing\0".to_vec()];
    let paths = request_paths(&datagrams);
    assert_eq!(paths, vec![b"/dev/tty0".to_vec()]);
}

#[test]
fn one_response_per_request_and_denied_on_failed_open() {
    let (mut server, client) = SeatServer::new(Fd::new(5), Fd::new(6));
    assert_eq!(server.fd(), 5);
    assert_eq!(client.into_raw(), 6);

    let datagrams = vec![
        b"/dev/dri/card0\0".to_vec(),
        b"malformed".to_vec(),
        b"/dev/missing\0".to_vec(),
    ];
    let paths = request_paths(&datagrams);
    assert_eq!(paths.len(), 2);
    // the first open succeeded with descriptor 9, the second failed
    let open_results = vec![9, -2];
    let responses = server.process_incoming(&datagrams, &open_results);
    assert_eq!(
        responses,
        vec![SeatResponse::Granted(9), SeatResponse::Denied]
    );
}

#[test]
fn no_requests_mean_no_responses() {
    let (mut server, _client) = SeatServer::new(Fd::new(5), Fd::new(6));
    let datagrams: Vec<Vec<u8>> = vec![b"junk".to_vec()];
    let responses = server.process_incoming(&datagrams, &vec![]);
    assert!(responses.is_empty());
}

#[test]
fn response_follows_the_open_result() {
    assert_eq!(response_for_open(0), SeatResponse::Granted(0));
    assert_eq!(response_for_open(17), SeatResponse::Granted(17));
    assert_eq!(response_for_open(-1), SeatResponse::Denied);
}

#[test]
fn wake_plans() {
    assert_eq!(wake_plan(-1, 0, 0), WakePlan::WaitFailed(-1));
    assert_eq!(wake_plan(1, POLLERR, POLLIN), WakePlan::SignalHandleBroken);
    assert_eq!(wake_plan(1, POLLIN, POLLNVAL), WakePlan::BrokerHandleBroken);
    assert_eq!(
        wake_plan(2, POLLIN, POLLIN),
        WakePlan::Service { drain_signals: true, drain_broker: true }
    );
    // a heartbeat timeout services nothing and is not an error
    assert_eq!(
        wake_plan(0, 0, 0),
        WakePlan::Service { drain_signals: false, drain_broker: false }
    );
}

#[test]
fn drain_verdicts() {
    assert_eq!(drain_verdict(128, 0), DrainVerdict::KeepReading(128));
    assert_eq!(drain_verdict(-1, 11), DrainVerdict::Drained);
    assert_eq!(drain_verdict(-1, 5), DrainVerdict::Failed(5));
}

#[test]
fn reap_classification() {
    assert_eq!(classify_reap(-1, 40), ReapEvent::WaitFailed(-1));
    assert_eq!(classify_reap(0, 40), ReapEvent::NoneReady);
    assert_eq!(classify_reap(40, 40), ReapEvent::SessionEnded);
    assert_eq!(classify_reap(41, 40), ReapEvent::OtherChild(41));
}

#[test]
fn only_the_session_process_ends_the_loop() {
    let mut event_loop = EventLoop::new(40);
    assert_eq!(event_loop.status(), SessionStatus::Running);
    assert!(!event_loop.on_reaped(41));
    assert_eq!(event_loop.status(), SessionStatus::Running);
    assert!(!event_loop.on_reaped(39));
    assert_eq!(event_loop.status(), SessionStatus::Running);
    assert!(event_loop.on_reaped(40));
    assert_eq!(event_loop.status(), SessionStatus::Ended);
}

#[test]
fn fatal_wakeup_fails_the_loop() {
    let mut event_loop = EventLoop::new(40);
    event_loop.on_fatal();
    assert_eq!(event_loop.status(), SessionStatus::Failed);
}
