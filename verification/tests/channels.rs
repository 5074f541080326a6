use resea_ipc::channel::Channel;
use resea_ipc::error::Error;
use resea_ipc::kernel::System;
use resea_ipc::message::Message;
use resea_ipc::server::{Dispatch, EchoHandler, Handler, Server};
use resea_ipc::syscall::{recv, send, transfer};

#[test]
fn create_returns_fresh_distinct_cids() {
    let mut sys = System::new();
    let a = sys.spawn();
    let ch1 = Channel::create(&mut sys, a).unwrap();
    let ch2 = Channel::create(&mut sys, a).unwrap();
    assert!(ch1.cid >= 1);
    assert!(ch2.cid >= 1);
    assert_ne!(ch1.cid, ch2.cid);
    // Each creation takes the two slots of a fresh link.
    assert_eq!(ch2.cid, ch1.cid + 2);
}

#[test]
fn from_cid_wraps_bootstrap_channels() {
    let mut sys = System::new();
    let a = sys.spawn();
    let mm = sys.spawn();
    let (ca, cm) = sys.wire(a, mm);
    // The well-known id can be wrapped without a syscall and used directly.
    let boot = Channel::from_cid(a, ca);
    sys.stage(a, Message::new(1, vec![5], None).unwrap()).unwrap();
    boot.send(&mut sys).unwrap();
    recv(&mut sys, mm, cm).unwrap();
    assert_eq!(sys.staging(mm).payload, vec![5]);
}

#[test]
fn consumed_channel_fails_deterministically() {
    let mut sys = System::new();
    let a = sys.spawn();
    let b = sys.spawn();
    let mut ch = Channel::create(&mut sys, a).unwrap();
    let dst = Channel::create(&mut sys, b).unwrap();
    ch.transfer_to(&mut sys, &dst).unwrap();
    assert!(!ch.live);
    // Every further operation on the consumed handle fails, always with the
    // same error, and never silently succeeds.
    assert_eq!(ch.send(&mut sys), Err(Error::InvalidArgument));
    assert_eq!(ch.recv(&mut sys), Err(Error::InvalidArgument));
    assert_eq!(ch.call(&mut sys), Err(Error::InvalidArgument));
    let other = Channel::create(&mut sys, b).unwrap();
    assert_eq!(ch.transfer_to(&mut sys, &other), Err(Error::InvalidArgument));
    // The kernel slot was consumed as well.
    assert_eq!(send(&mut sys, a, ch.cid), Err(Error::NoSuchCapability));
}

#[test]
fn failed_transfer_leaves_the_channel_usable() {
    let mut sys = System::new();
    let a = sys.spawn();
    let b = sys.spawn();
    let mut ch = Channel::create(&mut sys, a).unwrap();
    // A handle wrapping a slot the destination process never allocated.
    let bogus = Channel::from_cid(b, 40);
    assert_eq!(ch.transfer_to(&mut sys, &bogus), Err(Error::InvalidArgument));
    assert!(ch.live);
}

#[test]
fn end_to_end_transfer_across_three_processes() {
    let mut sys = System::new();
    let a = sys.spawn();
    let b = sys.spawn();
    let c = sys.spawn();
    let mm = sys.spawn();
    let ks = sys.spawn();
    // Process-creation convention: the two well-known bootstrap channels.
    let (a1, _) = sys.wire(a, mm);
    let (a2, _) = sys.wire(a, ks);
    assert_eq!((a1, a2), (1, 2));
    // The first creation takes ids 3 and 4; the second returns id 5.
    let _scratch = Channel::create(&mut sys, a).unwrap();
    let mut ch = Channel::create(&mut sys, a).unwrap();
    assert_eq!(ch.cid, 5);
    let companion = ch.cid + 1;
    // Move the created end to B's channel slot and its companion end to C's.
    let b_ch = Channel::create(&mut sys, b).unwrap();
    ch.transfer_to(&mut sys, &b_ch).unwrap();
    let c_ch = Channel::create(&mut sys, c).unwrap();
    transfer(&mut sys, a, companion, c, c_ch.cid).unwrap();
    // A's original handle now fails, at the handle and at the kernel.
    assert_eq!(ch.send(&mut sys), Err(Error::InvalidArgument));
    assert_eq!(send(&mut sys, a, 5), Err(Error::NoSuchCapability));
    // B's channel exchanges messages with C, which holds the peer end.
    sys.stage(b, Message::new(11, vec![1, 2], None).unwrap()).unwrap();
    b_ch.send(&mut sys).unwrap();
    c_ch.recv(&mut sys).unwrap();
    assert_eq!(sys.staging(c).tag, 11);
    assert_eq!(sys.staging(c).payload, vec![1, 2]);
    sys.stage(c, Message::new(12, vec![3], None).unwrap()).unwrap();
    c_ch.send(&mut sys).unwrap();
    b_ch.recv(&mut sys).unwrap();
    assert_eq!(sys.staging(b).tag, 12);
    assert_eq!(sys.staging(b).payload, vec![3]);
}

#[test]
fn embedded_capability_is_transferred_exactly_once() {
    let mut sys = System::new();
    let a = sys.spawn();
    let b = sys.spawn();
    let (ca, cb) = sys.wire(a, b);
    // A keeps one end of a fresh link and embeds the companion end in a
    // message to B.
    let keep = Channel::create(&mut sys, a).unwrap();
    let companion = keep.cid + 1;
    sys.stage(a, Message::new(20, vec![], Some(companion)).unwrap())
        .unwrap();
    send(&mut sys, a, ca).unwrap();
    recv(&mut sys, b, cb).unwrap();
    // The extracted handle behaves as a freshly owned channel of B.
    let moved = sys.staging(b).cap.expect("an embedded capability arrived");
    sys.stage(b, Message::new(21, vec![9], None).unwrap()).unwrap();
    send(&mut sys, b, moved).unwrap();
    keep.recv(&mut sys).unwrap();
    assert_eq!(sys.staging(a).tag, 21);
    assert_eq!(sys.staging(a).payload, vec![9]);
    // The sender's slot was consumed with the send: exactly one transfer.
    assert_eq!(send(&mut sys, a, companion), Err(Error::NoSuchCapability));
}

#[test]
fn create_pair_wraps_both_ends_of_one_link() {
    let mut sys = System::new();
    let a = sys.spawn();
    let b = sys.spawn();
    let (keep, mut give) = Channel::create_pair(&mut sys, a).unwrap();
    assert_eq!(give.cid, keep.cid + 1);
    // The pair is wired to itself: hand one end to a peer and exchange.
    let b_ch = Channel::create(&mut sys, b).unwrap();
    give.transfer_to(&mut sys, &b_ch).unwrap();
    sys.stage(b, Message::new(30, vec![1], None).unwrap()).unwrap();
    b_ch.send(&mut sys).unwrap();
    keep.recv(&mut sys).unwrap();
    assert_eq!(sys.staging(a).tag, 30);
    assert_eq!(sys.staging(a).payload, vec![1]);
}

#[test]
fn closed_channel_is_consumed_and_peer_sees_disconnect() {
    let mut sys = System::new();
    let a = sys.spawn();
    let b = sys.spawn();
    let (ca, cb) = sys.wire(a, b);
    let mut ch = Channel::from_cid(a, ca);
    ch.close(&mut sys).unwrap();
    assert!(!ch.live);
    // The consumed handle and the reclaimed slot both reject further use.
    assert_eq!(ch.send(&mut sys), Err(Error::InvalidArgument));
    assert_eq!(ch.close(&mut sys), Err(Error::InvalidArgument));
    assert_eq!(send(&mut sys, a, ca), Err(Error::NoSuchCapability));
    // The far end observes the disconnect.
    assert_eq!(recv(&mut sys, b, cb), Err(Error::PeerDisconnected));
    assert_eq!(send(&mut sys, b, cb), Err(Error::PeerDisconnected));
}

#[test]
fn close_delivers_nothing_but_keeps_a_pending_message() {
    // A message already in flight stays deliverable after the sender closed
    // its end.
    let mut sys = System::new();
    let a = sys.spawn();
    let b = sys.spawn();
    let (ca, cb) = sys.wire(a, b);
    sys.stage(a, Message::new(2, vec![7], None).unwrap()).unwrap();
    send(&mut sys, a, ca).unwrap();
    let mut ch = Channel::from_cid(a, ca);
    ch.close(&mut sys).unwrap();
    recv(&mut sys, b, cb).unwrap();
    assert_eq!(sys.staging(b).payload, vec![7]);
    // Afterwards the far end sees the disconnect.
    assert_eq!(recv(&mut sys, b, cb), Err(Error::PeerDisconnected));
}

#[test]
fn sending_a_channel_through_itself_is_invalid() {
    let mut sys = System::new();
    let a = sys.spawn();
    let b = sys.spawn();
    let (ca, _cb) = sys.wire(a, b);
    sys.stage(a, Message::new(1, vec![], Some(ca)).unwrap()).unwrap();
    assert_eq!(send(&mut sys, a, ca), Err(Error::InvalidArgument));
}

struct CountingHandler {
    count: usize,
    last_tag: u32,
    last_payload: Vec<u8>,
    reply: Option<(u32, Vec<u8>)>,
}

impl Handler for CountingHandler {
    // The spec-level model is ghost; it carries no meaning in compiled tests.
    fn handled(self, _tag: u32, _msg: Message, _post: Self, _reply: Option<Message>) -> bool {
        true
    }

    fn handle(&mut self, tag: u32, msg: &Message) -> Option<Message> {
        self.count += 1;
        self.last_tag = tag;
        self.last_payload = msg.payload.clone();
        self.reply
            .as_ref()
            .map(|(t, p)| Message::new(*t, p.clone(), None).unwrap())
    }
}

fn dispatch_setup() -> (System, usize, Server, usize, i32) {
    let mut sys = System::new();
    let s = sys.spawn();
    let c = sys.spawn();
    let (cs, cc) = sys.wire(s, c);
    let mut server = Server::new(Channel::from_cid(s, cs));
    server.register(7);
    (sys, s, server, c, cc)
}

#[test]
fn new_server_starts_with_no_interfaces() {
    let mut sys = System::new();
    let s = sys.spawn();
    let server = Server::new(Channel::from_cid(s, 1));
    assert!(server.interfaces.is_empty());
}

#[test]
fn dispatch_invokes_the_handler_exactly_once_per_message() {
    let (mut sys, _s, server, c, cc) = dispatch_setup();
    let mut h = CountingHandler { count: 0, last_tag: 0, last_payload: vec![], reply: None };
    sys.stage(c, Message::new(7, vec![42], None).unwrap()).unwrap();
    send(&mut sys, c, cc).unwrap();
    assert_eq!(server.dispatch_one(&mut sys, &mut h), Ok(Dispatch::Handled));
    assert_eq!(h.count, 1);
    assert_eq!(h.last_tag, 7);
    assert_eq!(h.last_payload, vec![42]);
    // No message pending: the loop blocks (here: would-block) and the handler
    // is not invoked again until the next message arrives.
    assert_eq!(server.dispatch_one(&mut sys, &mut h), Err(Error::WouldBlock));
    assert_eq!(h.count, 1);
    sys.stage(c, Message::new(7, vec![43], None).unwrap()).unwrap();
    send(&mut sys, c, cc).unwrap();
    assert_eq!(server.dispatch_one(&mut sys, &mut h), Ok(Dispatch::Handled));
    assert_eq!(h.count, 2);
    assert_eq!(h.last_payload, vec![43]);
}

#[test]
fn dispatch_ignores_unregistered_interfaces() {
    let (mut sys, _s, server, c, cc) = dispatch_setup();
    let mut h = CountingHandler { count: 0, last_tag: 0, last_payload: vec![], reply: None };
    sys.stage(c, Message::new(8, vec![1], None).unwrap()).unwrap();
    send(&mut sys, c, cc).unwrap();
    assert_eq!(server.dispatch_one(&mut sys, &mut h), Ok(Dispatch::Ignored));
    assert_eq!(h.count, 0);
}

#[test]
fn dispatch_sends_the_reply_on_the_same_channel() {
    let (mut sys, _s, server, c, cc) = dispatch_setup();
    let mut h = CountingHandler {
        count: 0,
        last_tag: 0,
        last_payload: vec![],
        reply: Some((7, vec![99])),
    };
    sys.stage(c, Message::new(7, vec![42], None).unwrap()).unwrap();
    send(&mut sys, c, cc).unwrap();
    assert_eq!(server.dispatch_one(&mut sys, &mut h), Ok(Dispatch::Replied));
    assert_eq!(h.count, 1);
    recv(&mut sys, c, cc).unwrap();
    assert_eq!(sys.staging(c).tag, 7);
    assert_eq!(sys.staging(c).payload, vec![99]);
}

#[test]
fn echo_handler_replies_with_the_delivered_payload() {
    let mut sys = System::new();
    let s = sys.spawn();
    let c = sys.spawn();
    let (cs, cc) = sys.wire(s, c);
    let mut server = Server::new(Channel::from_cid(s, cs));
    server.register(4);
    let mut h = EchoHandler { count: 0 };
    sys.stage(c, Message::new(4, vec![5, 6, 7], None).unwrap()).unwrap();
    send(&mut sys, c, cc).unwrap();
    assert_eq!(server.dispatch_one(&mut sys, &mut h), Ok(Dispatch::Replied));
    assert_eq!(h.count, 1);
    recv(&mut sys, c, cc).unwrap();
    assert_eq!(sys.staging(c).tag, 4);
    assert_eq!(sys.staging(c).payload, vec![5, 6, 7]);
}

#[test]
fn dispatch_on_a_dead_client_surfaces_the_disconnect() {
    let (mut sys, _s, server, c, _cc) = dispatch_setup();
    let mut h = CountingHandler { count: 0, last_tag: 0, last_payload: vec![], reply: None };
    sys.terminate(c);
    assert_eq!(
        server.dispatch_one(&mut sys, &mut h),
        Err(Error::PeerDisconnected)
    );
    assert_eq!(h.count, 0);
}
