//! The per-process server dispatch loop.
//!
//! A server owns a listening channel and a set of registered interface ids.
//! One dispatch step blocks on the channel (in this model: reports would-block
//! when nothing is pending), looks the delivered message's tag up among the
//! registered interfaces, invokes the handler exactly once for it, and, if the
//! handler produced a reply, stages it and sends it back on the same channel
//! before returning. Handlers therefore execute strictly sequentially: no
//! second message is taken before the current handler has returned. An
//! embedding program loops this step for the process's lifetime.
//!
//! Each handler carries a spec-level model (`Handler::handled`) relating its
//! state and the delivered message to its next state and its reply; the
//! contract of the dispatch step is stated over that model, so that it pins
//! down that the handler ran exactly once, on exactly the delivered message,
//! and that the reply sent back is exactly the handler's reply.

use vstd::prelude::*;

use crate::channel::Channel;
use crate::error::Error;
use crate::error::decoded;
use crate::kernel::System;
use crate::kernel::ipc_code;
use crate::kernel::recv_code;
use crate::kernel::recv_rel;
use crate::kernel::send_code;
use crate::kernel::send_rel;
use crate::message::Message;
use crate::message::copy_bytes;
use crate::syscall::IPC_RECV;

verus! {

/// A consumer of delivered messages for the interfaces a server registered.
pub trait Handler {
    /// The handler's model: relates its state before a message and the
    /// delivered message itself to its state afterward and the reply it
    /// produces. Each implementation defines this relation; the contract of
    /// the dispatch step is stated over it.
    spec fn handled(self, tag: u32, msg: Message, post: Self, reply: Option<Message>) -> bool;

    /// Consumes one delivered message of a registered interface, and
    /// optionally produces a reply to be sent back on the same channel.
    fn handle(&mut self, tag: u32, msg: &Message) -> (reply: Option<Message>)
        requires
            msg.wf(),
        ensures
            old(self).handled(tag, *msg, *final (self), reply),
            reply matches Some(m) ==> m.wf(),
    ;
}

/// What one dispatch step did.
#[derive(Clone, Copy, Debug, PartialEq, Eq, Structural)]
pub enum Dispatch {
    /// A registered message was handled and the handler's reply was sent back.
    Replied,
    /// A registered message was handled; the handler produced no reply.
    Handled,
    /// The delivered message's tag matched no registered interface; it was
    /// dropped.
    Ignored,
}

/// The tag of the message pending on the capability's inbound slot.
pub open spec fn pending_tag(s: System, pid: int, cid: int) -> u32 {
    let c = s.cap_at(pid, cid)->Some_0;
    s.link_at(c.link as int).inbound(c.side)->Some_0.tag
}

/// The payload bytes of the message pending on the capability's inbound slot.
pub open spec fn pending_payload(s: System, pid: int, cid: int) -> Seq<u8> {
    let c = s.cap_at(pid, cid)->Some_0;
    s.link_at(c.link as int).inbound(c.side)->Some_0.payload@
}

/// The capability id under which the pending message's embedded capability,
/// if any, is installed by the receive that delivers it.
pub open spec fn delivered_cap(s: System, pid: int, cid: int) -> Option<i32> {
    let c = s.cap_at(pid, cid)->Some_0;
    match s.link_at(c.link as int).inbound(c.side)->Some_0.cap {
        None => None,
        Some(moved) => Some(s.proc_at(pid).caps@.len() as i32),
    }
}

/// The second state is the first with the process's staging buffer replaced by
/// exactly the given message, and nothing else changed.
pub open spec fn staged_msg(m1: System, m2: System, pid: int, m: Message) -> bool {
    &&& m2.procs@.len() == m1.procs@.len()
    &&& m2.links@ == m1.links@
    &&& (forall|p: int|
        0 <= p < m1.procs@.len() && p != pid ==> m2.procs@[p] == #[trigger] m1.procs@[p])
    &&& m2.proc_at(pid).alive == m1.proc_at(pid).alive
    &&& m2.proc_at(pid).caps@ == m1.proc_at(pid).caps@
    &&& m2.staged(pid) == m
}

/// The state after the pending message was received and the given reply was
/// staged over it: one successful receive, then exactly `m` in the staging
/// buffer.
pub open spec fn recv_then_staged(pre: System, m2: System, pid: int, cid: int, m: Message) -> bool {
    &&& recv_code(pre, pid, cid) == 0
    &&& exists|m1: System| #[trigger] recv_rel(pre, m1, pid, cid) && staged_msg(m1, m2, pid, m)
}

/// A process-local server: the channel it listens on and the interface ids it
/// implements.
pub struct Server {
    pub ch: Channel,
    pub interfaces: Vec<u32>,
}

impl Server {
    /// A server listening on the given channel, with no interface registered
    /// yet.
    pub fn new(ch: Channel) -> (s: Server)
        ensures
            s.ch == ch,
            s.interfaces@ == Seq::<u32>::empty(),
    {
        Server { ch, interfaces: Vec::new() }
    }

    /// Registers one more interface id whose messages the handler consumes.
    pub fn register(&mut self, interface: u32)
        ensures
            final (self).ch == old(self).ch,
            final (self).interfaces@ == old(self).interfaces@.push(interface),
    {
        self.interfaces.push(interface);
    }

    /// Whether a message tag matches a registered interface.
    pub open spec fn registered(self, tag: u32) -> bool {
        self.interfaces@.contains(tag)
    }

    /// One step of the dispatch loop: receive, demultiplex by tag, invoke the
    /// handler exactly once for a registered message, and send back its reply,
    /// if any, on the same channel.
    ///
    /// The contract fixes the outcome completely: a failed receive returns its
    /// decoded error and changes nothing; an unregistered tag is `Ignored`
    /// without touching the handler; a registered tag reaches the handler
    /// exactly once, with the delivered bytes, and the step returns `Handled`
    /// when the handler gave no reply, `Replied` after the reply — the
    /// handler's reply, no other message — was staged and sent, and the
    /// reply-send's own decoded error when that send failed.
    pub fn dispatch_one<H: Handler>(&self, sys: &mut System, h: &mut H) -> (r: Result<
        Dispatch,
        Error,
    >)
        requires
            old(sys).wf(),
        ensures
            final (sys).wf(),
            !self.ch.live ==> r == Err::<Dispatch, Error>(Error::InvalidArgument) && *final (sys)
                == *old(sys) && *final (h) == *old(h),
            self.ch.live ==> {
                let pid = self.ch.pid as int;
                let cid = self.ch.cid as int;
                let code = ipc_code(*old(sys), pid, cid, IPC_RECV);
                &&& (code != 0 ==> r == Err::<Dispatch, Error>(decoded(code)->Err_0) && *final (sys)
                    == *old(sys) && *final (h) == *old(h))
                &&& (code == 0 ==> {
                    let tag = pending_tag(*old(sys), pid, cid);
                    let dp = pending_payload(*old(sys), pid, cid);
                    let dc = delivered_cap(*old(sys), pid, cid);
                    &&& (!self.registered(tag) ==> r == Ok::<Dispatch, Error>(Dispatch::Ignored)
                        && recv_rel(*old(sys), *final (sys), pid, cid) && *final (h) == *old(h))
                    &&& (self.registered(tag) ==> exists|dm: Message, rep: Option<Message>|
                        #![trigger old(h).handled(tag, dm, *final (h), rep)]
                        {
                            &&& dm.tag == tag && dm.payload@ == dp && dm.cap == dc
                            &&& old(h).handled(tag, dm, *final (h), rep)
                            &&& (match rep {
                                None => r == Ok::<Dispatch, Error>(Dispatch::Handled) && recv_rel(
                                    *old(sys),
                                    *final (sys),
                                    pid,
                                    cid,
                                ),
                                Some(rm) => exists|m2: System|
                                    #![trigger recv_then_staged(*old(sys), m2, pid, cid, rm)]
                                    {
                                        &&& recv_then_staged(*old(sys), m2, pid, cid, rm)
                                        &&& (send_code(m2, pid, cid) == 0 ==> r == Ok::<
                                            Dispatch,
                                            Error,
                                        >(Dispatch::Replied) && send_rel(m2, *final (sys), pid, cid))
                                        &&& (send_code(m2, pid, cid) != 0 ==> r == Err::<
                                            Dispatch,
                                            Error,
                                        >(decoded(send_code(m2, pid, cid))->Err_0) && *final (sys)
                                            == m2)
                                    },
                            })
                        })
                })
            },
    {
        match self.ch.recv(sys) {
            Ok(()) => {},
            Err(e) => {
                return Err(e);
            },
        }
        let ghost after_recv = *sys;
        let m = sys.staging(self.ch.pid).duplicate();
        let tag = m.tag;
        assert(tag == pending_tag(*old(sys), self.ch.pid as int, self.ch.cid as int));
        assert(m.payload@ == pending_payload(*old(sys), self.ch.pid as int, self.ch.cid as int));
        assert(m.cap == delivered_cap(*old(sys), self.ch.pid as int, self.ch.cid as int));
        if !contains_tag(&self.interfaces, tag) {
            return Ok(Dispatch::Ignored);
        }
        let reply = h.handle(tag, &m);
        match reply {
            None => Ok(Dispatch::Handled),
            Some(rm) => {
                match sys.stage(self.ch.pid, rm) {
                    Ok(()) => {},
                    Err(e) => {
                        // The received message is well-formed and its process
                        // alive, so staging the handler's well-formed reply
                        // cannot be refused.
                        proof {
                            assert(false);
                        }
                        return Err(e);
                    },
                }
                let ghost staged_state = *sys;
                proof {
                    assert(staged_msg(after_recv, staged_state, self.ch.pid as int, rm));
                    assert(recv_then_staged(
                        *old(sys),
                        staged_state,
                        self.ch.pid as int,
                        self.ch.cid as int,
                        rm,
                    ));
                }
                match self.ch.send(sys) {
                    Ok(()) => Ok(Dispatch::Replied),
                    Err(e) => Err(e),
                }
            },
        }
    }
}

/// The simplest handler: it echoes every delivered message back as its reply,
/// keeping nothing but a count of the messages it consumed.
pub struct EchoHandler {
    pub count: usize,
}

impl Handler for EchoHandler {
    open spec fn handled(self, tag: u32, msg: Message, post: Self, reply: Option<Message>) -> bool {
        &&& post.count == if self.count < usize::MAX {
            self.count + 1
        } else {
            self.count as int
        }
        &&& (reply matches Some(m) && m.tag == tag && m.payload@ == msg.payload@ && m.cap is None)
    }

    fn handle(&mut self, tag: u32, msg: &Message) -> (reply: Option<Message>) {
        if self.count < usize::MAX {
            self.count = self.count + 1;
        }
        Some(Message { tag, payload: copy_bytes(&msg.payload), cap: None })
    }
}

/// Whether the vector holds the tag.
fn contains_tag(v: &Vec<u32>, t: u32) -> (b: bool)
    ensures
        b == v@.contains(t),
{
    let mut i: usize = 0;
    while i < v.len()
        invariant
            i <= v@.len(),
            forall|j: int| 0 <= j < i ==> v@[j] != t,
        decreases v@.len() - i,
    {
        if v[i] == t {
            return true;
        }
        i = i + 1;
    }
    false
}

} // verus!
