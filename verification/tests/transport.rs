use resea_ipc::error::{convert_error, convert_value, decode_magnitude, Error};
use resea_ipc::kernel::System;
use resea_ipc::message::{Message, PAYLOAD_MAX};
use resea_ipc::syscall::{call, open, recv, send, transfer};

#[test]
fn decode_known_magnitudes() {
    assert_eq!(convert_error(-1), Err(Error::InvalidArgument));
    assert_eq!(convert_error(-2), Err(Error::NoSuchCapability));
    assert_eq!(convert_error(-3), Err(Error::WouldBlock));
    assert_eq!(convert_error(-4), Err(Error::PeerDisconnected));
    assert_eq!(convert_error(-5), Err(Error::OutOfResources));
}

#[test]
fn decode_success_codes() {
    assert_eq!(convert_error(0), Ok(()));
    assert_eq!(convert_error(7), Ok(()));
    assert_eq!(convert_error(i32::MAX), Ok(()));
    assert_eq!(convert_value(0), Ok(0));
    assert_eq!(convert_value(5), Ok(5));
}

#[test]
fn decode_out_of_range_magnitudes_is_guarded() {
    // A magnitude above the known range is never reinterpreted as a known
    // error kind: it decodes to the distinct guard condition.
    assert_eq!(convert_error(-6), Err(Error::Unrecognized(6)));
    assert_eq!(convert_error(-255), Err(Error::Unrecognized(255)));
    assert_eq!(convert_error(i32::MIN), Err(Error::Unrecognized(2_147_483_648)));
    assert_eq!(convert_value(-1000), Err(Error::Unrecognized(1000)));
    assert_eq!(decode_magnitude(0), Error::Unrecognized(0));
}

fn two_wired_procs() -> (System, usize, usize, i32, i32) {
    let mut sys = System::new();
    let a = sys.spawn();
    let b = sys.spawn();
    let (ca, cb) = sys.wire(a, b);
    (sys, a, b, ca, cb)
}

#[test]
fn send_recv_round_trip_preserves_tag_and_payload() {
    let (mut sys, a, b, ca, cb) = two_wired_procs();
    let m = Message::new(7, vec![1, 2, 3], None).unwrap();
    sys.stage(a, m).unwrap();
    send(&mut sys, a, ca).unwrap();
    recv(&mut sys, b, cb).unwrap();
    let got = sys.staging(b);
    assert_eq!(got.tag, 7);
    assert_eq!(got.payload, vec![1, 2, 3]);
    assert_eq!(got.cap, None);
}

#[test]
fn round_trip_of_empty_and_maximal_payloads() {
    let (mut sys, a, b, ca, cb) = two_wired_procs();
    sys.stage(a, Message::new(1, Vec::new(), None).unwrap()).unwrap();
    send(&mut sys, a, ca).unwrap();
    recv(&mut sys, b, cb).unwrap();
    assert_eq!(sys.staging(b).tag, 1);
    assert!(sys.staging(b).payload.is_empty());

    let big = vec![0xabu8; PAYLOAD_MAX];
    sys.stage(a, Message::new(2, big.clone(), None).unwrap()).unwrap();
    send(&mut sys, a, ca).unwrap();
    recv(&mut sys, b, cb).unwrap();
    assert_eq!(sys.staging(b).tag, 2);
    assert_eq!(sys.staging(b).payload, big);
}

#[test]
fn oversized_payload_is_rejected() {
    let (mut sys, a, _b, _ca, _cb) = two_wired_procs();
    assert!(matches!(
        Message::new(1, vec![0u8; PAYLOAD_MAX + 1], None),
        Err(Error::InvalidArgument)
    ));
    // Staging a hand-built oversized message is rejected too.
    let m = Message { tag: 1, payload: vec![0u8; PAYLOAD_MAX + 1], cap: None };
    assert_eq!(sys.stage(a, m), Err(Error::InvalidArgument));
}

#[test]
fn recv_with_nothing_pending_would_block() {
    let (mut sys, a, _b, ca, _cb) = two_wired_procs();
    assert_eq!(recv(&mut sys, a, ca), Err(Error::WouldBlock));
}

#[test]
fn second_send_without_a_receive_would_block() {
    let (mut sys, a, _b, ca, _cb) = two_wired_procs();
    sys.stage(a, Message::new(1, vec![9], None).unwrap()).unwrap();
    send(&mut sys, a, ca).unwrap();
    sys.stage(a, Message::new(2, vec![8], None).unwrap()).unwrap();
    assert_eq!(send(&mut sys, a, ca), Err(Error::WouldBlock));
}

#[test]
fn unknown_capability_ids_are_rejected() {
    let (mut sys, a, _b, _ca, _cb) = two_wired_procs();
    assert_eq!(send(&mut sys, a, 0), Err(Error::NoSuchCapability));
    assert_eq!(send(&mut sys, a, 99), Err(Error::NoSuchCapability));
    assert_eq!(recv(&mut sys, a, -3), Err(Error::NoSuchCapability));
}

#[test]
fn call_on_dead_peer_reports_disconnect() {
    // The peer terminates while this process would otherwise block in call:
    // the call returns the disconnect error instead of blocking forever.
    let (mut sys, a, b, ca, _cb) = two_wired_procs();
    sys.terminate(b);
    sys.stage(a, Message::new(3, vec![1], None).unwrap()).unwrap();
    assert_eq!(call(&mut sys, a, ca), Err(Error::PeerDisconnected));
    assert_eq!(recv(&mut sys, a, ca), Err(Error::PeerDisconnected));
    assert_eq!(send(&mut sys, a, ca), Err(Error::PeerDisconnected));
}

#[test]
fn call_deposits_staged_bytes_before_reply_arrives() {
    // The send half of a call is atomic with respect to the staging buffer:
    // the peer's matching receive observes exactly the staged bytes. The model
    // surfaces the wait for the reply as a would-block error.
    let (mut sys, a, b, ca, cb) = two_wired_procs();
    sys.stage(a, Message::new(9, vec![4, 5], None).unwrap()).unwrap();
    assert_eq!(call(&mut sys, a, ca), Err(Error::WouldBlock));
    recv(&mut sys, b, cb).unwrap();
    assert_eq!(sys.staging(b).tag, 9);
    assert_eq!(sys.staging(b).payload, vec![4, 5]);
    // The peer answers; the caller's receive half completes the exchange.
    sys.stage(b, Message::new(9, vec![6], None).unwrap()).unwrap();
    send(&mut sys, b, cb).unwrap();
    recv(&mut sys, a, ca).unwrap();
    assert_eq!(sys.staging(a).tag, 9);
    assert_eq!(sys.staging(a).payload, vec![6]);
}

#[test]
fn call_returns_pending_reply_in_one_step() {
    // With the reply already pending, the combined call both delivers the
    // request and returns the reply.
    let (mut sys, a, b, ca, cb) = two_wired_procs();
    sys.stage(b, Message::new(5, vec![7], None).unwrap()).unwrap();
    send(&mut sys, b, cb).unwrap();
    sys.stage(a, Message::new(5, vec![8], None).unwrap()).unwrap();
    assert_eq!(call(&mut sys, a, ca), Ok(()));
    assert_eq!(sys.staging(a).payload, vec![7]);
    recv(&mut sys, b, cb).unwrap();
    assert_eq!(sys.staging(b).payload, vec![8]);
}

#[test]
fn open_exhausts_the_capability_table() {
    let mut sys = System::new();
    let a = sys.spawn();
    let mut last = Err(Error::InvalidArgument);
    for _ in 0..2100 {
        last = open(&mut sys, a);
        if last.is_err() {
            break;
        }
    }
    assert_eq!(last, Err(Error::OutOfResources));
}

#[test]
fn operations_on_dead_or_unknown_processes_are_invalid() {
    let mut sys = System::new();
    let a = sys.spawn();
    sys.terminate(a);
    assert_eq!(open(&mut sys, a), Err(Error::InvalidArgument));
    assert_eq!(send(&mut sys, a, 1), Err(Error::InvalidArgument));
    assert_eq!(open(&mut sys, 77), Err(Error::InvalidArgument));
    assert_eq!(
        sys.stage(77, Message::empty()),
        Err(Error::InvalidArgument)
    );
}

#[test]
fn transfer_validates_both_slots() {
    let (mut sys, a, b, ca, cb) = two_wired_procs();
    // Source slot empty.
    assert_eq!(transfer(&mut sys, a, 2, b, cb), Err(Error::NoSuchCapability));
    // Destination slot absent.
    assert_eq!(transfer(&mut sys, a, ca, b, 9), Err(Error::InvalidArgument));
    // Reserved destination slot.
    assert_eq!(transfer(&mut sys, a, ca, b, 0), Err(Error::InvalidArgument));
    // A slot cannot be transferred onto itself.
    assert_eq!(transfer(&mut sys, a, ca, a, ca), Err(Error::InvalidArgument));
}

#[test]
fn unknown_syscall_operation_is_invalid() {
    let mut sys = System::new();
    let a = sys.spawn();
    assert_eq!(sys.syscall(a, 99, 0, 0, 0), -1);
    // An IPC operation with a malformed flag combination is rejected too.
    assert_eq!(sys.syscall(a, 300, 1, 0, 0), -1);
}
