//! Tests of the routing-socket request encoders and the acknowledgement
//! scan.

use initd::netlink::{
    encode_add_addr_request, encode_add_route_request, encode_link_up_request, scan_ack,
};

#[test]
fn link_up_request_exact_bytes() {
    let got = encode_link_up_request(0, 2);
    let expected: Vec<u8> = vec![
        // header: length 32, type 19, flags request|ack, sequence 0, pid 0
        32, 0, 0, 0, 19, 0, 5, 0, 0, 0, 0, 0, 0, 0, 0, 0,
        // payload: no family, pad, no hardware type, index 2, up, up
        0, 0, 254, 255, 2, 0, 0, 0, 1, 0, 0, 0, 1, 0, 0, 0,
    ];
    assert_eq!(got, expected);
}

#[test]
fn add_addr_request_exact_bytes() {
    let addr = u32::from_be_bytes([192, 168, 1, 26]);
    let broadcast = u32::from_be_bytes([255, 255, 255, 0]);
    let got = encode_add_addr_request(1, 2, addr, broadcast);
    let expected: Vec<u8> = vec![
        // header: length 48, type 20, flags request|create|excl|ack, sequence 1, pid 0
        48, 0, 0, 0, 20, 0, 5, 6, 1, 0, 0, 0, 0, 0, 0, 0,
        // payload: inet, prefix 24, no flags, global scope, index 2
        2, 24, 0, 0, 2, 0, 0, 0,
        // local address attribute, big-endian value
        8, 0, 2, 0, 192, 168, 1, 26,
        // protocol address attribute
        8, 0, 1, 0, 192, 168, 1, 26,
        // broadcast address attribute
        8, 0, 4, 0, 255, 255, 255, 0,
    ];
    assert_eq!(got, expected);
}

#[test]
fn add_route_request_exact_bytes() {
    let gateway = u32::from_be_bytes([192, 168, 1, 254]);
    let got = encode_add_route_request(2, 2, gateway);
    let expected: Vec<u8> = vec![
        // header: length 44, type 24, flags request|create|excl|ack, sequence 2, pid 0
        44, 0, 0, 0, 24, 0, 5, 6, 2, 0, 0, 0, 0, 0, 0, 0,
        // payload: inet, main table, boot protocol, global scope, unicast
        2, 0, 0, 0, 254, 3, 0, 1, 0, 0, 0, 0,
        // gateway attribute, big-endian value
        8, 0, 5, 0, 192, 168, 1, 254,
        // output interface attribute, little-endian value
        8, 0, 4, 0, 2, 0, 0, 0,
    ];
    assert_eq!(got, expected);
}

fn ack_message(error: i32) -> Vec<u8> {
    let mut out = vec![36, 0, 0, 0, 2, 0, 0, 0, 0, 0, 0, 0, 0, 0, 0, 0];
    out.extend_from_slice(&error.to_le_bytes());
    out.extend_from_slice(&[0u8; 16]);
    out
}

#[test]
fn scan_finds_the_error_code() {
    assert_eq!(scan_ack(&ack_message(0)), Some(0));
    assert_eq!(scan_ack(&ack_message(-17)), Some(-17));
}

#[test]
fn scan_skips_other_messages_by_their_length() {
    let mut buf = vec![
        // a 20-byte message of some other type
        20, 0, 0, 0, 3, 0, 0, 0, 0, 0, 0, 0, 0, 0, 0, 0, 9, 9, 9, 9,
    ];
    buf.extend_from_slice(&ack_message(-5));
    assert_eq!(scan_ack(&buf), Some(-5));
}

#[test]
fn scan_of_empty_or_short_buffer_finds_nothing() {
    assert_eq!(scan_ack(&vec![]), None);
    assert_eq!(scan_ack(&vec![1, 2, 3]), None);
}

#[test]
fn scan_stops_on_unwalkable_length() {
    // a zero message length cannot be walked past
    let buf = vec![0, 0, 0, 0, 3, 0, 0, 0, 0, 0, 0, 0, 0, 0, 0, 0];
    assert_eq!(scan_ack(&buf), None);
}

#[test]
fn scan_needs_the_whole_error_code() {
    // an acknowledgement header whose error code is cut off
    let buf = vec![36, 0, 0, 0, 2, 0, 0, 0, 0, 0, 0, 0, 0, 0, 0, 0];
    assert_eq!(scan_ack(&buf), None);
}
