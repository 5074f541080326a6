//! Executable model of the kernel side of the IPC substrate: per-process
//! capability tables, per-process staging buffers, and the rendezvous links
//! that capabilities name.
//!
//! A capability names one end of a link; links exist only in pairs of ends, so
//! allocating a fresh capability allocates both ends of a fresh link, the
//! companion in the slot after the returned one — that is where a channel's
//! peer end originates before transfers move it to its peer process. A link
//! carries at most one in-flight message in each direction.
//!
//! The deployed kernel suspends a thread whose rendezvous partner is not
//! ready, so there a process has at most one message in flight and a completed
//! call means the peer consumed the request. This sequential model must let a
//! single thread drive every process in turn, so it decouples the two halves
//! of the rendezvous: a deposited message waits in the link's slot, the
//! would-block error stands where the real kernel would suspend, and a
//! combined call completes only by consuming a message that was already
//! pending toward the caller (`lemma_call_ok_consumes_pending_reply` states
//! this divergence formally).
//!
//! Every kernel operation returns a signed code: non-negative on success,
//! the negated error discriminant on failure, exactly as the trap instruction
//! does. The transport layer (`crate::syscall`) decodes those codes.

use vstd::prelude::*;

use crate::error::ERR_INVALID_ARGUMENT;
use crate::error::ERR_NO_SUCH_CAPABILITY;
use crate::error::ERR_OUT_OF_RESOURCES;
use crate::error::ERR_PEER_DISCONNECTED;
use crate::error::ERR_WOULD_BLOCK;
use crate::error::Error;
use crate::message::Message;
use crate::message::PAYLOAD_MAX;
use crate::message::copy_bytes;
use crate::syscall::IPC_RECV;
use crate::syscall::IPC_SEND;
use crate::syscall::SYSCALL_CLOSE;
use crate::syscall::SYSCALL_IPC;
use crate::syscall::SYSCALL_OPEN;
use crate::syscall::SYSCALL_TRANSFER;

verus! {

/// Capacity of a process's capability table, slot 0 included.
pub const CAP_TABLE_MAX: usize = 4096;

/// Largest number of processes a `System` models.
pub const PROC_MAX: usize = 1024;

/// A capability: one end of a rendezvous link. `side` distinguishes the two
/// ends of the link it names.
#[derive(Clone, Copy, Debug, PartialEq, Eq, Structural)]
pub struct Cap {
    pub link: usize,
    pub side: bool,
}

/// A message in flight inside the kernel: the staged bytes together with the
/// embedded capability already moved out of the sender's table.
pub struct Flight {
    pub tag: u32,
    pub payload: Vec<u8>,
    pub cap: Option<Cap>,
}

/// A rendezvous link. `live_a`/`live_b` record whether each end is still held
/// by some process; `to_a`/`to_b` hold the at most one message in flight
/// toward each end.
pub struct Link {
    pub live_a: bool,
    pub live_b: bool,
    pub to_a: Option<Flight>,
    pub to_b: Option<Flight>,
}

impl Link {
    /// Whether the given end is still held.
    pub open spec fn live(self, side: bool) -> bool {
        if side {
            self.live_b
        } else {
            self.live_a
        }
    }

    /// The message in flight toward the given end.
    pub open spec fn inbound(self, side: bool) -> Option<Flight> {
        if side {
            self.to_b
        } else {
            self.to_a
        }
    }
}

/// One process as the kernel sees it: its capability table (slot 0 reserved
/// invalid), its single staging buffer, and whether it is still running.
pub struct Proc {
    pub alive: bool,
    pub caps: Vec<Option<Cap>>,
    pub staging: Message,
}

/// The modelled machine: every process table and every link.
pub struct System {
    pub procs: Vec<Proc>,
    pub links: Vec<Link>,
}

impl System {
    pub open spec fn proc_ok(self, pid: int) -> bool {
        0 <= pid < self.procs@.len()
    }

    pub open spec fn proc_at(self, pid: int) -> Proc {
        self.procs@[pid]
    }

    pub open spec fn link_ok(self, l: int) -> bool {
        0 <= l < self.links@.len()
    }

    pub open spec fn link_at(self, l: int) -> Link {
        self.links@[l]
    }

    /// The capability in a table slot; `None` for the reserved slot 0, an
    /// unknown process, or an out-of-range id.
    pub open spec fn cap_at(self, pid: int, cid: int) -> Option<Cap> {
        if self.proc_ok(pid) && 1 <= cid < self.proc_at(pid).caps@.len() {
            self.proc_at(pid).caps@[cid]
        } else {
            None
        }
    }

    /// The process's staging buffer.
    pub open spec fn staged(self, pid: int) -> Message {
        self.proc_at(pid).staging
    }

    pub open spec fn flight_wf(self, f: Flight) -> bool {
        &&& f.payload@.len() <= PAYLOAD_MAX
        &&& (f.cap matches Some(c) ==> c.link < self.links@.len())
    }

    pub open spec fn link_wf(self, l: Link) -> bool {
        &&& (l.to_a matches Some(f) ==> self.flight_wf(f))
        &&& (l.to_b matches Some(f) ==> self.flight_wf(f))
    }

    pub open spec fn proc_wf(self, p: Proc) -> bool {
        &&& 1 <= p.caps@.len() <= CAP_TABLE_MAX
        &&& p.caps@[0] is None
        &&& p.staging.wf()
        &&& (forall|c: int|
            0 <= c < p.caps@.len() ==> ((#[trigger] p.caps@[c]) matches Some(cp) ==> cp.link
                < self.links@.len()))
    }

    /// Well-formedness: every capability names an existing link, tables keep
    /// their reserved slot and their bound, and every staged or in-flight
    /// message fits the wire layout.
    pub open spec fn wf(self) -> bool {
        &&& self.procs@.len() <= PROC_MAX
        &&& (forall|p: int| 0 <= p < self.procs@.len() ==> self.proc_wf(#[trigger] self.procs@[p]))
        &&& (forall|l: int| 0 <= l < self.links@.len() ==> self.link_wf(#[trigger] self.links@[l]))
    }

    /// Whether some slot of the process's table holds the given link end.
    pub open spec fn owns_end(self, pid: int, l: int, side: bool) -> bool {
        owns_end_upto(self.proc_at(pid), l, side, self.proc_at(pid).caps@.len() as int)
    }
}

/// Two capability ids that name the two ends of one link.
pub open spec fn peers(s: System, a_pid: int, a_cid: int, b_pid: int, b_cid: int) -> bool {
    &&& s.cap_at(a_pid, a_cid) matches Some(c1) && (s.cap_at(b_pid, b_cid) matches Some(c2)
        && c2.link == c1.link && c2.side == !c1.side)
}

/// The flight a successful send deposits: the sender's staged bytes, with the
/// staged capability id resolved against the sender's own table.
pub open spec fn flight_matches_staged(f: Flight, pre: System, pid: int) -> bool {
    let m = pre.staged(pid);
    &&& f.tag == m.tag
    &&& f.payload@ == m.payload@
    &&& f.cap == (match m.cap {
        None => None::<Cap>,
        Some(ccid) => pre.cap_at(pid, ccid as int),
    })
}

/// Return code of the send half of the IPC operation, a function of the
/// pre-state alone.
pub open spec fn send_code(s: System, pid: int, cid: int) -> int {
    if !(s.proc_ok(pid) && s.proc_at(pid).alive) {
        -ERR_INVALID_ARGUMENT
    } else {
        match s.cap_at(pid, cid) {
            None => -ERR_NO_SUCH_CAPABILITY,
            Some(c) => {
                let lk = s.link_at(c.link as int);
                if !lk.live(!c.side) {
                    -ERR_PEER_DISCONNECTED
                } else if lk.inbound(!c.side) is Some {
                    -ERR_WOULD_BLOCK
                } else {
                    match s.staged(pid).cap {
                        None => 0,
                        Some(ccid) => if ccid == cid || s.cap_at(pid, ccid as int) is None {
                            -ERR_INVALID_ARGUMENT
                        } else {
                            0
                        },
                    }
                }
            },
        }
    }
}

/// State change of the send half: on failure nothing moves; on success the
/// staged message is deposited verbatim toward the peer end, and a staged
/// capability is moved out of the sender's table into the flight.
pub open spec fn send_rel(pre: System, post: System, pid: int, cid: int) -> bool {
    if send_code(pre, pid, cid) != 0 {
        post == pre
    } else {
        let c = pre.cap_at(pid, cid)->Some_0;
        let li = c.link as int;
        &&& post.procs@.len() == pre.procs@.len()
        &&& post.links@.len() == pre.links@.len()
        &&& (forall|l: int|
            0 <= l < pre.links@.len() && l != li ==> post.links@[l] == #[trigger] pre.links@[l])
        &&& post.link_at(li).live(false) == pre.link_at(li).live(false)
        &&& post.link_at(li).live(true) == pre.link_at(li).live(true)
        &&& post.link_at(li).inbound(c.side) == pre.link_at(li).inbound(c.side)
        &&& (post.link_at(li).inbound(!c.side) matches Some(f) && flight_matches_staged(
            f,
            pre,
            pid,
        ))
        &&& (match pre.staged(pid).cap {
            None => post.procs@ == pre.procs@,
            Some(ccid) => {
                &&& (forall|p: int|
                    0 <= p < pre.procs@.len() && p != pid ==> post.procs@[p]
                        == #[trigger] pre.procs@[p])
                &&& post.proc_at(pid).alive == pre.proc_at(pid).alive
                &&& post.proc_at(pid).staging == pre.proc_at(pid).staging
                &&& post.proc_at(pid).caps@ == pre.proc_at(pid).caps@.update(ccid as int, None)
            },
        })
    }
}

/// Return code of the receive half, a function of the pre-state alone.
pub open spec fn recv_code(s: System, pid: int, cid: int) -> int {
    if !(s.proc_ok(pid) && s.proc_at(pid).alive) {
        -ERR_INVALID_ARGUMENT
    } else {
        match s.cap_at(pid, cid) {
            None => -ERR_NO_SUCH_CAPABILITY,
            Some(c) => {
                let lk = s.link_at(c.link as int);
                match lk.inbound(c.side) {
                    None => if !lk.live(!c.side) {
                        -ERR_PEER_DISCONNECTED
                    } else {
                        -ERR_WOULD_BLOCK
                    },
                    Some(f) => match f.cap {
                        None => 0,
                        Some(c2) => if s.proc_at(pid).caps@.len() < CAP_TABLE_MAX {
                            0
                        } else {
                            -ERR_OUT_OF_RESOURCES
                        },
                    },
                }
            },
        }
    }
}

/// State change of the receive half: on success the pending flight is moved
/// into the receiver's staging buffer in full, and an embedded capability is
/// installed in a fresh slot of the receiver's table.
pub open spec fn recv_rel(pre: System, post: System, pid: int, cid: int) -> bool {
    if recv_code(pre, pid, cid) != 0 {
        post == pre
    } else {
        let c = pre.cap_at(pid, cid)->Some_0;
        let li = c.link as int;
        let f = pre.link_at(li).inbound(c.side)->Some_0;
        &&& post.procs@.len() == pre.procs@.len()
        &&& post.links@.len() == pre.links@.len()
        &&& (forall|l: int|
            0 <= l < pre.links@.len() && l != li ==> post.links@[l] == #[trigger] pre.links@[l])
        &&& post.link_at(li).live(false) == pre.link_at(li).live(false)
        &&& post.link_at(li).live(true) == pre.link_at(li).live(true)
        &&& post.link_at(li).inbound(!c.side) == pre.link_at(li).inbound(!c.side)
        &&& post.link_at(li).inbound(c.side) is None
        &&& (forall|p: int|
            0 <= p < pre.procs@.len() && p != pid ==> post.procs@[p] == #[trigger] pre.procs@[p])
        &&& post.proc_at(pid).alive == pre.proc_at(pid).alive
        &&& post.proc_at(pid).staging.tag == f.tag
        &&& post.proc_at(pid).staging.payload@ == f.payload@
        &&& (match f.cap {
            None => post.proc_at(pid).staging.cap is None && post.proc_at(pid).caps@
                == pre.proc_at(pid).caps@,
            Some(c2) => {
                &&& post.proc_at(pid).caps@ == pre.proc_at(pid).caps@.push(Some(c2))
                &&& post.proc_at(pid).staging.cap == Some(
                    pre.proc_at(pid).caps@.len() as i32,
                )
            },
        })
    }
}

/// Return code of the combined send-then-receive rendezvous. The send half
/// never disturbs the caller's own inbound slot, so the receive half's code is
/// a function of the pre-state too.
pub open spec fn call_code(s: System, pid: int, cid: int) -> int {
    if send_code(s, pid, cid) != 0 {
        send_code(s, pid, cid)
    } else {
        recv_code(s, pid, cid)
    }
}

/// State change of the combined rendezvous: a send half followed by a receive
/// half on the same capability.
pub open spec fn call_rel(pre: System, post: System, pid: int, cid: int) -> bool {
    if send_code(pre, pid, cid) != 0 {
        post == pre
    } else {
        exists|mid: System| #[trigger]
            send_rel(pre, mid, pid, cid) && recv_rel(mid, post, pid, cid)
    }
}

/// Return code of the unified IPC entry for a given flag combination.
pub open spec fn ipc_code(s: System, pid: int, cid: int, ops: u32) -> int {
    if ops == IPC_SEND {
        send_code(s, pid, cid)
    } else if ops == IPC_RECV {
        recv_code(s, pid, cid)
    } else if ops == IPC_SEND + IPC_RECV {
        call_code(s, pid, cid)
    } else {
        -ERR_INVALID_ARGUMENT
    }
}

/// State change of the unified IPC entry for a given flag combination.
pub open spec fn ipc_rel(pre: System, post: System, pid: int, cid: int, ops: u32) -> bool {
    if ops == IPC_SEND {
        send_rel(pre, post, pid, cid)
    } else if ops == IPC_RECV {
        recv_rel(pre, post, pid, cid)
    } else if ops == IPC_SEND + IPC_RECV {
        call_rel(pre, post, pid, cid)
    } else {
        post == pre
    }
}

/// The message pending toward the holder of the given capability.
pub open spec fn caller_inbound(s: System, pid: int, cid: int) -> Option<Flight> {
    let c = s.cap_at(pid, cid)->Some_0;
    s.link_at(c.link as int).inbound(c.side)
}

/// Return code of the close operation.
pub open spec fn close_code(s: System, pid: int, cid: int) -> int {
    if !(s.proc_ok(pid) && s.proc_at(pid).alive) {
        -ERR_INVALID_ARGUMENT
    } else if s.cap_at(pid, cid) is None {
        -ERR_NO_SUCH_CAPABILITY
    } else {
        0
    }
}

/// State change of the close operation: the slot is reclaimed and the dropped
/// capability's link end is no longer held, so the far end sees the
/// disconnect; a message already in flight stays deliverable.
pub open spec fn close_rel(pre: System, post: System, pid: int, cid: int) -> bool {
    if close_code(pre, pid, cid) != 0 {
        post == pre
    } else {
        let c = pre.cap_at(pid, cid)->Some_0;
        let li = c.link as int;
        &&& post.procs@.len() == pre.procs@.len()
        &&& post.links@.len() == pre.links@.len()
        &&& (forall|p: int|
            0 <= p < pre.procs@.len() && p != pid ==> post.procs@[p] == #[trigger] pre.procs@[p])
        &&& post.proc_at(pid).alive == pre.proc_at(pid).alive
        &&& post.proc_at(pid).staging == pre.proc_at(pid).staging
        &&& post.proc_at(pid).caps@ == pre.proc_at(pid).caps@.update(cid, None)
        &&& (forall|l: int|
            0 <= l < pre.links@.len() && l != li ==> post.links@[l] == #[trigger] pre.links@[l])
        &&& post.link_at(li).live(c.side) == false
        &&& post.link_at(li).live(!c.side) == pre.link_at(li).live(!c.side)
        &&& post.link_at(li).to_a == pre.link_at(li).to_a
        &&& post.link_at(li).to_b == pre.link_at(li).to_b
    }
}

/// Return code of the open operation: the first of the two freshly allocated
/// capability ids on success.
pub open spec fn open_code(s: System, pid: int) -> int {
    if !(s.proc_ok(pid) && s.proc_at(pid).alive) {
        -ERR_INVALID_ARGUMENT
    } else if s.proc_at(pid).caps@.len() + 2 > CAP_TABLE_MAX {
        -ERR_OUT_OF_RESOURCES
    } else {
        s.proc_at(pid).caps@.len() as int
    }
}

/// State change of the open operation: a fresh link is created and the caller
/// receives both of its ends, in the two slots following its table.
pub open spec fn open_rel(pre: System, post: System, pid: int) -> bool {
    if open_code(pre, pid) < 0 {
        post == pre
    } else {
        let li = pre.links@.len() as usize;
        &&& post.procs@.len() == pre.procs@.len()
        &&& post.links@ == pre.links@.push(
            Link { live_a: true, live_b: true, to_a: None, to_b: None },
        )
        &&& (forall|p: int|
            0 <= p < pre.procs@.len() && p != pid ==> post.procs@[p] == #[trigger] pre.procs@[p])
        &&& post.proc_at(pid).alive == pre.proc_at(pid).alive
        &&& post.proc_at(pid).staging == pre.proc_at(pid).staging
        &&& post.proc_at(pid).caps@ == pre.proc_at(pid).caps@.push(
            Some(Cap { link: li, side: false }),
        ).push(Some(Cap { link: li, side: true }))
    }
}

/// Return code of the transfer operation.
pub open spec fn transfer_code(s: System, sp: int, sc: int, dp: int, dc: int) -> int {
    if !(s.proc_ok(sp) && s.proc_at(sp).alive) {
        -ERR_INVALID_ARGUMENT
    } else if !(s.proc_ok(dp) && s.proc_at(dp).alive) {
        -ERR_INVALID_ARGUMENT
    } else if s.cap_at(sp, sc) is None {
        -ERR_NO_SUCH_CAPABILITY
    } else if !(1 <= dc < s.proc_at(dp).caps@.len()) {
        -ERR_INVALID_ARGUMENT
    } else if sp == dp && sc == dc {
        -ERR_INVALID_ARGUMENT
    } else {
        0
    }
}

/// State change of the transfer operation: the capability moves from the
/// source slot into the destination slot, consuming the source; a capability
/// displaced from the destination slot is dropped, which marks its link end no
/// longer held.
pub open spec fn transfer_rel(pre: System, post: System, sp: int, sc: int, dp: int, dc: int) -> bool {
    if transfer_code(pre, sp, sc, dp, dc) != 0 {
        post == pre
    } else {
        let c = pre.cap_at(sp, sc)->Some_0;
        let od = pre.cap_at(dp, dc);
        &&& post.procs@.len() == pre.procs@.len()
        &&& post.links@.len() == pre.links@.len()
        &&& (forall|p: int|
            0 <= p < pre.procs@.len() && p != sp && p != dp ==> post.procs@[p]
                == #[trigger] pre.procs@[p])
        &&& post.proc_at(sp).alive == pre.proc_at(sp).alive
        &&& post.proc_at(sp).staging == pre.proc_at(sp).staging
        &&& post.proc_at(dp).alive == pre.proc_at(dp).alive
        &&& post.proc_at(dp).staging == pre.proc_at(dp).staging
        &&& (if sp == dp {
            post.proc_at(sp).caps@ == pre.proc_at(sp).caps@.update(sc, None).update(dc, Some(c))
        } else {
            post.proc_at(sp).caps@ == pre.proc_at(sp).caps@.update(sc, None) && post.proc_at(
                dp,
            ).caps@ == pre.proc_at(dp).caps@.update(dc, Some(c))
        })
        &&& (match od {
            None => post.links@ == pre.links@,
            Some(oc) => {
                &&& (forall|l: int|
                    0 <= l < pre.links@.len() && l != oc.link ==> post.links@[l]
                        == #[trigger] pre.links@[l])
                &&& post.link_at(oc.link as int).live(oc.side) == false
                &&& post.link_at(oc.link as int).live(!oc.side) == pre.link_at(
                    oc.link as int,
                ).live(!oc.side)
                &&& post.link_at(oc.link as int).to_a == pre.link_at(oc.link as int).to_a
                &&& post.link_at(oc.link as int).to_b == pre.link_at(oc.link as int).to_b
            },
        })
    }
}

/// Return code of the full syscall dispatcher: operation code, then arguments
/// `a0` (capability id), `a1` (destination process for a transfer), `a2`
/// (destination capability id for a transfer).
pub open spec fn syscall_code(s: System, pid: int, op: u32, a0: int, a1: int, a2: int) -> int {
    if op == SYSCALL_OPEN {
        open_code(s, pid)
    } else if op == SYSCALL_TRANSFER {
        transfer_code(s, pid, a0, a1, a2)
    } else if op == SYSCALL_CLOSE {
        close_code(s, pid, a0)
    } else if op == SYSCALL_IPC + IPC_SEND || op == SYSCALL_IPC + IPC_RECV || op == SYSCALL_IPC
        + IPC_SEND + IPC_RECV {
        ipc_code(s, pid, a0, (op - SYSCALL_IPC) as u32)
    } else {
        -ERR_INVALID_ARGUMENT
    }
}

/// State change of the full syscall dispatcher.
pub open spec fn syscall_rel(
    pre: System,
    post: System,
    pid: int,
    op: u32,
    a0: int,
    a1: int,
    a2: int,
) -> bool {
    if op == SYSCALL_OPEN {
        open_rel(pre, post, pid)
    } else if op == SYSCALL_TRANSFER {
        transfer_rel(pre, post, pid, a0, a1, a2)
    } else if op == SYSCALL_CLOSE {
        close_rel(pre, post, pid, a0)
    } else if op == SYSCALL_IPC + IPC_SEND || op == SYSCALL_IPC + IPC_RECV || op == SYSCALL_IPC
        + IPC_SEND + IPC_RECV {
        ipc_rel(pre, post, pid, a0, (op - SYSCALL_IPC) as u32)
    } else {
        post == pre
    }
}

impl System {
    /// An empty machine: no processes, no links.
    pub fn new() -> (s: System)
        ensures
            s.procs@.len() == 0,
            s.links@.len() == 0,
            s.wf(),
    {
        System { procs: Vec::new(), links: Vec::new() }
    }

    /// Adds a process with an empty capability table (only the reserved slot)
    /// and an empty staging buffer, returning its id.
    pub fn spawn(&mut self) -> (pid: usize)
        requires
            old(self).wf(),
            old(self).procs@.len() < PROC_MAX,
        ensures
            final (self).wf(),
            pid == old(self).procs@.len(),
            final (self).procs@.len() == old(self).procs@.len() + 1,
            final (self).links@ == old(self).links@,
            forall|p: int|
                0 <= p < old(self).procs@.len() ==> final (self).procs@[p] == #[trigger] old(
                    self,
                ).procs@[p],
            final (self).proc_at(pid as int).alive,
            final (self).proc_at(pid as int).caps@.len() == 1,
            final (self).proc_at(pid as int).caps@[0] is None,
            final (self).staged(pid as int).tag == 0,
            final (self).staged(pid as int).payload@ == Seq::<u8>::empty(),
            final (self).staged(pid as int).cap is None,
    {
        let pid = self.procs.len();
        let mut caps: Vec<Option<Cap>> = Vec::new();
        caps.push(None);
        self.procs.push(Proc { alive: true, caps, staging: Message::empty() });
        pid
    }

    /// Wires a fresh link between two distinct processes, as the
    /// process-creation convention does for the well-known bootstrap channels,
    /// and returns the capability id each side received.
    pub fn wire(&mut self, pa: usize, pb: usize) -> (r: (i32, i32))
        requires
            old(self).wf(),
            pa != pb,
            old(self).proc_ok(pa as int),
            old(self).proc_ok(pb as int),
            old(self).proc_at(pa as int).caps@.len() < CAP_TABLE_MAX,
            old(self).proc_at(pb as int).caps@.len() < CAP_TABLE_MAX,
        ensures
            final (self).wf(),
            final (self).procs@.len() == old(self).procs@.len(),
            final (self).links@ == old(self).links@.push(
                Link { live_a: true, live_b: true, to_a: None, to_b: None },
            ),
            forall|p: int|
                0 <= p < old(self).procs@.len() && p != pa && p != pb ==> final (self).procs@[p]
                    == #[trigger] old(self).procs@[p],
            r.0 == old(self).proc_at(pa as int).caps@.len(),
            r.1 == old(self).proc_at(pb as int).caps@.len(),
            final (self).proc_at(pa as int).caps@ == old(self).proc_at(pa as int).caps@.push(
                Some(Cap { link: old(self).links@.len() as usize, side: false }),
            ),
            final (self).proc_at(pb as int).caps@ == old(self).proc_at(pb as int).caps@.push(
                Some(Cap { link: old(self).links@.len() as usize, side: true }),
            ),
            final (self).proc_at(pa as int).alive == old(self).proc_at(pa as int).alive,
            final (self).proc_at(pb as int).alive == old(self).proc_at(pb as int).alive,
            final (self).proc_at(pa as int).staging == old(self).proc_at(pa as int).staging,
            final (self).proc_at(pb as int).staging == old(self).proc_at(pb as int).staging,
    {
        let li = self.links.len();
        self.links.push(Link { live_a: true, live_b: true, to_a: None, to_b: None });
        let pca = {
            let p = &mut self.procs[pa];
            let cid = p.caps.len();
            p.caps.push(Some(Cap { link: li, side: false }));
            cid
        };
        let pcb = {
            let q = &mut self.procs[pb];
            let cid = q.caps.len();
            q.caps.push(Some(Cap { link: li, side: true }));
            cid
        };
        (pca as i32, pcb as i32)
    }

    /// Stages a message in the process's staging buffer, rejecting an unknown
    /// or terminated process and an oversized payload.
    pub fn stage(&mut self, pid: usize, m: Message) -> (r: Result<(), Error>)
        requires
            old(self).wf(),
        ensures
            final (self).wf(),
            !(old(self).proc_ok(pid as int) && old(self).proc_at(pid as int).alive) ==> r == Err::<
                (),
                Error,
            >(Error::InvalidArgument) && *final (self) == *old(self),
            old(self).proc_ok(pid as int) && old(self).proc_at(pid as int).alive && !m.wf() ==> r
                == Err::<(), Error>(Error::InvalidArgument) && *final (self) == *old(self),
            old(self).proc_ok(pid as int) && old(self).proc_at(pid as int).alive && m.wf() ==> {
                &&& r == Ok::<(), Error>(())
                &&& final (self).procs@.len() == old(self).procs@.len()
                &&& final (self).links@ == old(self).links@
                &&& (forall|p: int|
                    0 <= p < old(self).procs@.len() && p != pid ==> final (self).procs@[p]
                        == #[trigger] old(self).procs@[p])
                &&& final (self).proc_at(pid as int).alive == old(self).proc_at(pid as int).alive
                &&& final (self).proc_at(pid as int).caps@ == old(self).proc_at(pid as int).caps@
                &&& final (self).staged(pid as int) == m
            },
    {
        if pid >= self.procs.len() || !self.procs[pid].alive {
            return Err(Error::InvalidArgument);
        }
        if m.payload.len() > PAYLOAD_MAX {
            return Err(Error::InvalidArgument);
        }
        let p = &mut self.procs[pid];
        p.staging = m;
        Ok(())
    }

    /// Reads the process's staging buffer, where a completed receive left the
    /// delivered message.
    pub fn staging(&self, pid: usize) -> (m: &Message)
        requires
            self.proc_ok(pid as int),
        ensures
            *m == self.staged(pid as int),
    {
        &self.procs[pid].staging
    }

    /// Marks a process terminated: every capability it held is dropped, so the
    /// far end of each of its links sees the peer disconnect.
    pub fn terminate(&mut self, pid: usize)
        requires
            old(self).wf(),
            old(self).proc_ok(pid as int),
        ensures
            final (self).wf(),
            final (self).procs@.len() == old(self).procs@.len(),
            final (self).links@.len() == old(self).links@.len(),
            forall|p: int|
                0 <= p < old(self).procs@.len() && p != pid ==> final (self).procs@[p]
                    == #[trigger] old(self).procs@[p],
            !final (self).proc_at(pid as int).alive,
            final (self).proc_at(pid as int).caps@.len() == old(self).proc_at(
                pid as int,
            ).caps@.len(),
            forall|c: int|
                0 <= c < final (self).proc_at(pid as int).caps@.len() ==> final (self).proc_at(
                    pid as int,
                ).caps@[c] is None,
            forall|l: int|
                0 <= l < old(self).links@.len() ==> (#[trigger] final (self).links@[l]).to_a == old(
                    self,
                ).links@[l].to_a && final (self).links@[l].to_b == old(self).links@[l].to_b,
            forall|l: int, s: bool|
                0 <= l < old(self).links@.len() ==> #[trigger] final (self).link_at(l).live(s) == (
                old(self).link_at(l).live(s) && !old(self).owns_end(pid as int, l, s)),
    {
        let n = self.procs[pid].caps.len();
        let mut i: usize = 0;
        while i < n
            invariant
                self.wf(),
                self.proc_ok(pid as int),
                i <= n,
                n == self.proc_at(pid as int).caps@.len(),
                self.procs@.len() == old(self).procs@.len(),
                self.links@.len() == old(self).links@.len(),
                forall|p: int|
                    0 <= p < old(self).procs@.len() && p != pid ==> self.procs@[p]
                        == #[trigger] old(self).procs@[p],
                self.proc_at(pid as int).alive == old(self).proc_at(pid as int).alive,
                self.proc_at(pid as int).staging == old(self).proc_at(pid as int).staging,
                n == old(self).proc_at(pid as int).caps@.len(),
                forall|c: int|
                    i <= c < n ==> #[trigger] self.proc_at(pid as int).caps@[c] == old(
                        self,
                    ).proc_at(pid as int).caps@[c],
                forall|c: int| 0 <= c < i ==> #[trigger] self.proc_at(pid as int).caps@[c] is None,
                forall|l: int|
                    0 <= l < old(self).links@.len() ==> (#[trigger] self.links@[l]).to_a == old(
                        self,
                    ).links@[l].to_a && self.links@[l].to_b == old(self).links@[l].to_b,
                forall|l: int, s: bool|
                    0 <= l < old(self).links@.len() ==> #[trigger] self.link_at(l).live(s) == (old(
                        self,
                    ).link_at(l).live(s) && !owns_end_upto(
                        old(self).proc_at(pid as int),
                        l,
                        s,
                        i as int,
                    )),
            decreases n - i,
        {
            let slot = self.procs[pid].caps[i];
            let ghost pre_iter = *self;
            match slot {
                Some(cp) => {
                    assert(old(self).proc_at(pid as int).caps@[i as int] == Some(cp));
                    let l = &mut self.links[cp.link];
                    if cp.side {
                        l.live_b = false;
                    } else {
                        l.live_a = false;
                    }
                    let p = &mut self.procs[pid];
                    p.caps[i] = None;
                },
                None => {
                    assert(old(self).proc_at(pid as int).caps@[i as int] is None);
                },
            }
            proof {
                lemma_owns_end_upto_step(old(self).proc_at(pid as int), i as int);
                assert forall|l: int, s: bool| 0 <= l < old(self).links@.len() implies #[trigger] self.link_at(
                    l,
                ).live(s) == (old(self).link_at(l).live(s) && !owns_end_upto(
                    old(self).proc_at(pid as int),
                    l,
                    s,
                    i as int + 1,
                )) by {
                    match old(self).proc_at(pid as int).caps@[i as int] {
                        Some(cp) => {
                            if l == cp.link && s == cp.side {
                                assert(owns_end_upto(
                                    old(self).proc_at(pid as int),
                                    l,
                                    s,
                                    i as int + 1,
                                ));
                                assert(!self.link_at(l).live(s));
                            } else {
                                assert(self.link_at(l).live(s) == pre_iter.link_at(l).live(s));
                            }
                        },
                        None => {
                            assert(self.link_at(l).live(s) == pre_iter.link_at(l).live(s));
                        },
                    }
                }
            }
            i = i + 1;
        }
        let ghost s1 = *self;
        let p = &mut self.procs[pid];
        p.alive = false;
        proof {
            assert(self.links@ == s1.links@);
            assert forall|l: int, s: bool| 0 <= l < old(self).links@.len() implies #[trigger] self.link_at(
                l,
            ).live(s) == (old(self).link_at(l).live(s) && !old(self).owns_end(pid as int, l, s)) by {
                assert(s1.link_at(l).live(s) == (old(self).link_at(l).live(s) && !owns_end_upto(
                    old(self).proc_at(pid as int),
                    l,
                    s,
                    n as int,
                )));
                assert(self.link_at(l).live(s) == s1.link_at(l).live(s));
            }
        }
    }
}


/// The send half of a successful IPC never disturbs the caller's own receive
/// state: its capability, its inbound slot, its table size and the link's
/// liveness are untouched, so the receive half's code is unchanged.
proof fn lemma_send_preserves_recv_code(pre: System, mid: System, pid: int, cid: int)
    requires
        pre.wf(),
        send_code(pre, pid, cid) == 0,
        send_rel(pre, mid, pid, cid),
    ensures
        recv_code(mid, pid, cid) == recv_code(pre, pid, cid),
        mid.cap_at(pid, cid) == pre.cap_at(pid, cid),
{
    let c = pre.cap_at(pid, cid)->Some_0;
    match pre.staged(pid).cap {
        None => {
            assert(mid.procs@ == pre.procs@);
        },
        Some(ccid) => {
            assert(mid.proc_at(pid).caps@ == pre.proc_at(pid).caps@.update(ccid as int, None));
            assert(ccid != cid);
            assert(mid.proc_at(pid).caps@[cid] == pre.proc_at(pid).caps@[cid]);
        },
    }
    assert(mid.cap_at(pid, cid) == Some(c));
    assert(mid.link_at(c.link as int).inbound(c.side) == pre.link_at(c.link as int).inbound(
        c.side,
    ));
    assert(mid.link_at(c.link as int).live(!c.side) == pre.link_at(c.link as int).live(!c.side));
}

impl System {
    /// The send half of the unified IPC operation.
    fn do_send(&mut self, pid: usize, cid: i32) -> (ret: i32)
        requires
            old(self).wf(),
        ensures
            final (self).wf(),
            ret == send_code(*old(self), pid as int, cid as int),
            send_rel(*old(self), *final (self), pid as int, cid as int),
    {
        if pid >= self.procs.len() || !self.procs[pid].alive {
            return -ERR_INVALID_ARGUMENT;
        }
        let caps_len = self.procs[pid].caps.len();
        if cid < 1 {
            return -ERR_NO_SUCH_CAPABILITY;
        }
        let ci = cid as usize;
        if ci >= caps_len {
            return -ERR_NO_SUCH_CAPABILITY;
        }
        let c = match self.procs[pid].caps[ci] {
            Some(c) => c,
            None => {
                return -ERR_NO_SUCH_CAPABILITY;
            },
        };
        proof {
            assert(self.proc_wf(self.procs@[pid as int]));
        }
        let peer_live = if c.side {
            self.links[c.link].live_a
        } else {
            self.links[c.link].live_b
        };
        if !peer_live {
            return -ERR_PEER_DISCONNECTED;
        }
        let occupied = if c.side {
            self.links[c.link].to_a.is_some()
        } else {
            self.links[c.link].to_b.is_some()
        };
        if occupied {
            return -ERR_WOULD_BLOCK;
        }
        let mcap = self.procs[pid].staging.cap;
        let fcap: Option<Cap> = match mcap {
            None => None,
            Some(ccid) => {
                if ccid == cid || ccid < 1 {
                    return -ERR_INVALID_ARGUMENT;
                }
                if ccid as usize >= caps_len {
                    return -ERR_INVALID_ARGUMENT;
                }
                match self.procs[pid].caps[ccid as usize] {
                    None => {
                        return -ERR_INVALID_ARGUMENT;
                    },
                    Some(c2) => {
                        let p = &mut self.procs[pid];
                        p.caps[ccid as usize] = None;
                        Some(c2)
                    },
                }
            },
        };
        let tag = self.procs[pid].staging.tag;
        let payload = copy_bytes(&self.procs[pid].staging.payload);
        let fl = Flight { tag, payload, cap: fcap };
        let l = &mut self.links[c.link];
        if c.side {
            l.to_a = Some(fl);
        } else {
            l.to_b = Some(fl);
        }
        0
    }

    /// The receive half of the unified IPC operation.
    fn do_recv(&mut self, pid: usize, cid: i32) -> (ret: i32)
        requires
            old(self).wf(),
        ensures
            final (self).wf(),
            ret == recv_code(*old(self), pid as int, cid as int),
            recv_rel(*old(self), *final (self), pid as int, cid as int),
    {
        if pid >= self.procs.len() || !self.procs[pid].alive {
            return -ERR_INVALID_ARGUMENT;
        }
        let caps_len = self.procs[pid].caps.len();
        if cid < 1 {
            return -ERR_NO_SUCH_CAPABILITY;
        }
        let ci = cid as usize;
        if ci >= caps_len {
            return -ERR_NO_SUCH_CAPABILITY;
        }
        let c = match self.procs[pid].caps[ci] {
            Some(c) => c,
            None => {
                return -ERR_NO_SUCH_CAPABILITY;
            },
        };
        proof {
            assert(self.proc_wf(self.procs@[pid as int]));
        }
        let has_pending = if c.side {
            self.links[c.link].to_b.is_some()
        } else {
            self.links[c.link].to_a.is_some()
        };
        if !has_pending {
            let peer_live = if c.side {
                self.links[c.link].live_a
            } else {
                self.links[c.link].live_b
            };
            if !peer_live {
                return -ERR_PEER_DISCONNECTED;
            }
            return -ERR_WOULD_BLOCK;
        }
        let fcap_some = if c.side {
            match &self.links[c.link].to_b {
                Some(f) => f.cap.is_some(),
                None => false,
            }
        } else {
            match &self.links[c.link].to_a {
                Some(f) => f.cap.is_some(),
                None => false,
            }
        };
        if fcap_some && caps_len >= CAP_TABLE_MAX {
            return -ERR_OUT_OF_RESOURCES;
        }
        proof {
            assert(self.link_wf(self.links@[c.link as int]));
        }
        let fl = {
            let l = &mut self.links[c.link];
            let t = if c.side {
                l.to_b.take()
            } else {
                l.to_a.take()
            };
            t.unwrap()
        };
        let newcap: Option<i32> = match fl.cap {
            None => None,
            Some(c2) => {
                let p = &mut self.procs[pid];
                let nc = p.caps.len();
                p.caps.push(Some(c2));
                Some(nc as i32)
            },
        };
        let m = Message { tag: fl.tag, payload: fl.payload, cap: newcap };
        let p = &mut self.procs[pid];
        p.staging = m;
        0
    }

    /// The open-capability operation: allocates a fresh link, both ends in the
    /// caller's table, and returns the id of the first.
    fn sys_open(&mut self, pid: usize) -> (ret: i32)
        requires
            old(self).wf(),
        ensures
            final (self).wf(),
            ret == open_code(*old(self), pid as int),
            open_rel(*old(self), *final (self), pid as int),
    {
        if pid >= self.procs.len() || !self.procs[pid].alive {
            return -ERR_INVALID_ARGUMENT;
        }
        proof {
            assert(self.proc_wf(self.procs@[pid as int]));
        }
        let caps_len = self.procs[pid].caps.len();
        if caps_len + 2 > CAP_TABLE_MAX {
            return -ERR_OUT_OF_RESOURCES;
        }
        let li = self.links.len();
        self.links.push(Link { live_a: true, live_b: true, to_a: None, to_b: None });
        let p = &mut self.procs[pid];
        let cid = p.caps.len();
        p.caps.push(Some(Cap { link: li, side: false }));
        p.caps.push(Some(Cap { link: li, side: true }));
        cid as i32
    }

    /// The transfer-capability operation: moves the source capability into the
    /// destination slot, consuming the source and dropping whatever the
    /// destination slot held.
    fn sys_transfer(&mut self, src_pid: usize, src_cid: i32, dst_pid: usize, dst_cid: i32) -> (ret:
        i32)
        requires
            old(self).wf(),
        ensures
            final (self).wf(),
            ret == transfer_code(
                *old(self),
                src_pid as int,
                src_cid as int,
                dst_pid as int,
                dst_cid as int,
            ),
            transfer_rel(
                *old(self),
                *final (self),
                src_pid as int,
                src_cid as int,
                dst_pid as int,
                dst_cid as int,
            ),
    {
        if src_pid >= self.procs.len() || !self.procs[src_pid].alive {
            return -ERR_INVALID_ARGUMENT;
        }
        if dst_pid >= self.procs.len() || !self.procs[dst_pid].alive {
            return -ERR_INVALID_ARGUMENT;
        }
        let s_len = self.procs[src_pid].caps.len();
        if src_cid < 1 {
            return -ERR_NO_SUCH_CAPABILITY;
        }
        let si = src_cid as usize;
        if si >= s_len {
            return -ERR_NO_SUCH_CAPABILITY;
        }
        let c = match self.procs[src_pid].caps[si] {
            Some(c) => c,
            None => {
                return -ERR_NO_SUCH_CAPABILITY;
            },
        };
        let d_len = self.procs[dst_pid].caps.len();
        if dst_cid < 1 {
            return -ERR_INVALID_ARGUMENT;
        }
        let di = dst_cid as usize;
        if di >= d_len {
            return -ERR_INVALID_ARGUMENT;
        }
        if src_pid == dst_pid && si == di {
            return -ERR_INVALID_ARGUMENT;
        }
        proof {
            assert(self.proc_wf(self.procs@[src_pid as int]));
            assert(self.proc_wf(self.procs@[dst_pid as int]));
        }
        let od = self.procs[dst_pid].caps[di];
        {
            let p = &mut self.procs[src_pid];
            p.caps[si] = None;
        }
        {
            let q = &mut self.procs[dst_pid];
            q.caps[di] = Some(c);
        }
        match od {
            Some(oc) => {
                let l = &mut self.links[oc.link];
                if oc.side {
                    l.live_b = false;
                } else {
                    l.live_a = false;
                }
            },
            None => {},
        }
        0
    }

    /// The unified IPC operation for a validated flag combination.
    fn sys_ipc(&mut self, pid: usize, cid: i32, ops: u32) -> (ret: i32)
        requires
            old(self).wf(),
            ops == IPC_SEND || ops == IPC_RECV || ops == IPC_SEND + IPC_RECV,
        ensures
            final (self).wf(),
            ret == ipc_code(*old(self), pid as int, cid as int, ops),
            ipc_rel(*old(self), *final (self), pid as int, cid as int, ops),
    {
        if ops == IPC_SEND {
            self.do_send(pid, cid)
        } else if ops == IPC_RECV {
            self.do_recv(pid, cid)
        } else {
            let r1 = self.do_send(pid, cid);
            if r1 != 0 {
                return r1;
            }
            let ghost mid = *self;
            proof {
                lemma_send_preserves_recv_code(*old(self), mid, pid as int, cid as int);
            }
            let r2 = self.do_recv(pid, cid);
            proof {
                assert(send_rel(*old(self), mid, pid as int, cid as int) && recv_rel(
                    mid,
                    *self,
                    pid as int,
                    cid as int,
                ));
            }
            r2
        }
    }

    /// The close-capability operation: releases the slot so the kernel may
    /// reclaim it; the far end of the dropped capability's link sees the peer
    /// disconnect.
    fn sys_close(&mut self, pid: usize, cid: i32) -> (ret: i32)
        requires
            old(self).wf(),
        ensures
            final (self).wf(),
            ret == close_code(*old(self), pid as int, cid as int),
            close_rel(*old(self), *final (self), pid as int, cid as int),
    {
        if pid >= self.procs.len() || !self.procs[pid].alive {
            return -ERR_INVALID_ARGUMENT;
        }
        let caps_len = self.procs[pid].caps.len();
        if cid < 1 {
            return -ERR_NO_SUCH_CAPABILITY;
        }
        let ci = cid as usize;
        if ci >= caps_len {
            return -ERR_NO_SUCH_CAPABILITY;
        }
        let c = match self.procs[pid].caps[ci] {
            Some(c) => c,
            None => {
                return -ERR_NO_SUCH_CAPABILITY;
            },
        };
        proof {
            assert(self.proc_wf(self.procs@[pid as int]));
        }
        {
            let p = &mut self.procs[pid];
            p.caps[ci] = None;
        }
        let l = &mut self.links[c.link];
        if c.side {
            l.live_b = false;
        } else {
            l.live_a = false;
        }
        0
    }

    /// The trap entry point: operation code plus three argument registers.
    /// `a0` carries a capability id; for a transfer, `a1` names the target
    /// process and `a2` the destination slot in its table.
    pub fn syscall(&mut self, pid: usize, op: u32, a0: i32, a1: i32, a2: i32) -> (ret: i32)
        requires
            old(self).wf(),
        ensures
            final (self).wf(),
            ret == syscall_code(*old(self), pid as int, op, a0 as int, a1 as int, a2 as int),
            syscall_rel(*old(self), *final (self), pid as int, op, a0 as int, a1 as int, a2 as int),
    {
        if op == SYSCALL_OPEN {
            self.sys_open(pid)
        } else if op == SYSCALL_TRANSFER {
            if a1 < 0 {
                return -ERR_INVALID_ARGUMENT;
            }
            self.sys_transfer(pid, a0, a1 as usize, a2)
        } else if op == SYSCALL_CLOSE {
            self.sys_close(pid, a0)
        } else if op == SYSCALL_IPC + IPC_SEND || op == SYSCALL_IPC + IPC_RECV || op == SYSCALL_IPC
            + IPC_SEND + IPC_RECV {
            self.sys_ipc(pid, a0, op - SYSCALL_IPC)
        } else {
            -ERR_INVALID_ARGUMENT
        }
    }
}


/// Ownership of a fresh capability id is exclusive: the id a successful open
/// returns named no capability before the call, so no live channel could
/// already own it; afterwards the caller's table owns it, and its companion
/// end sits in the following slot as its peer.
pub proof fn lemma_open_cid_fresh(pre: System, post: System, pid: int)
    requires
        pre.wf(),
        open_rel(pre, post, pid),
        open_code(pre, pid) >= 0,
    ensures
        pre.cap_at(pid, open_code(pre, pid)) is None,
        post.cap_at(pid, open_code(pre, pid)) is Some,
        forall|c: int| pre.cap_at(pid, c) is Some ==> c != open_code(pre, pid),
        peers(post, pid, open_code(pre, pid), pid, open_code(pre, pid) + 1),
{
    let cid = open_code(pre, pid);
    assert(post.proc_at(pid).caps@[cid] == Some(
        Cap { link: pre.links@.len() as usize, side: false },
    ));
    assert(post.proc_at(pid).caps@[cid + 1] == Some(
        Cap { link: pre.links@.len() as usize, side: true },
    ));
}

/// Round trip: a message staged with any tag and any payload within the fixed
/// maximum, sent over a ready link and received by the peer, arrives with the
/// same tag and byte-identical payload.
pub proof fn lemma_send_recv_round_trip(
    pre: System,
    mid: System,
    post: System,
    a_pid: int,
    a_cid: int,
    b_pid: int,
    b_cid: int,
)
    requires
        pre.wf(),
        a_pid != b_pid,
        peers(pre, a_pid, a_cid, b_pid, b_cid),
        pre.proc_at(a_pid).alive,
        pre.proc_at(b_pid).alive,
        pre.link_at(pre.cap_at(a_pid, a_cid)->Some_0.link as int).live(true),
        pre.link_at(pre.cap_at(a_pid, a_cid)->Some_0.link as int).live(false),
        pre.link_at(pre.cap_at(a_pid, a_cid)->Some_0.link as int).inbound(
            !pre.cap_at(a_pid, a_cid)->Some_0.side,
        ) is None,
        pre.staged(a_pid).cap is None,
        send_rel(pre, mid, a_pid, a_cid),
        recv_rel(mid, post, b_pid, b_cid),
    ensures
        send_code(pre, a_pid, a_cid) == 0,
        recv_code(mid, b_pid, b_cid) == 0,
        post.staged(b_pid).tag == pre.staged(a_pid).tag,
        post.staged(b_pid).payload@ == pre.staged(a_pid).payload@,
        post.staged(b_pid).cap is None,
{
    let c1 = pre.cap_at(a_pid, a_cid)->Some_0;
    let c2 = pre.cap_at(b_pid, b_cid)->Some_0;
    let li = c1.link as int;
    assert(send_code(pre, a_pid, a_cid) == 0);
    assert(mid.link_at(li).inbound(!c1.side) matches Some(f) && flight_matches_staged(
        f,
        pre,
        a_pid,
    ));
    assert(mid.procs@ == pre.procs@);
    assert(mid.cap_at(b_pid, b_cid) == Some(c2));
    assert(c2.side == !c1.side);
    let f = mid.link_at(li).inbound(c2.side)->Some_0;
    assert(f.cap is None);
    assert(recv_code(mid, b_pid, b_cid) == 0);
    assert(post.staged(b_pid).tag == f.tag);
    assert(post.staged(b_pid).payload@ == f.payload@);
}

/// The combined call is atomic with respect to the staging buffer: the payload
/// the peer's matching receive observes is byte-identical to what the caller
/// staged before the call, whether or not the reply had arrived yet.
pub proof fn lemma_call_delivers_staged_bytes(
    pre: System,
    mid: System,
    post: System,
    a_pid: int,
    a_cid: int,
    b_pid: int,
    b_cid: int,
)
    requires
        pre.wf(),
        a_pid != b_pid,
        peers(pre, a_pid, a_cid, b_pid, b_cid),
        send_code(pre, a_pid, a_cid) == 0,
        call_rel(pre, mid, a_pid, a_cid),
        recv_code(mid, b_pid, b_cid) == 0,
        recv_rel(mid, post, b_pid, b_cid),
    ensures
        post.staged(b_pid).tag == pre.staged(a_pid).tag,
        post.staged(b_pid).payload@ == pre.staged(a_pid).payload@,
{
    let c1 = pre.cap_at(a_pid, a_cid)->Some_0;
    let c2 = pre.cap_at(b_pid, b_cid)->Some_0;
    let li = c1.link as int;
    let m1 = choose|m: System| #[trigger]
        send_rel(pre, m, a_pid, a_cid) && recv_rel(m, mid, a_pid, a_cid);
    assert(m1.link_at(li).inbound(!c1.side) matches Some(f) && flight_matches_staged(
        f,
        pre,
        a_pid,
    ));
    lemma_send_preserves_recv_code(pre, m1, a_pid, a_cid);
    assert(m1.cap_at(a_pid, a_cid) == Some(c1));
    if recv_code(m1, a_pid, a_cid) != 0 {
        assert(mid == m1);
    } else {
        assert(mid.link_at(li).inbound(!c1.side) == m1.link_at(li).inbound(!c1.side));
        assert(mid.procs@[b_pid] == m1.procs@[b_pid]);
    }
    assert(c2.side == !c1.side);
    let f = mid.link_at(li).inbound(c2.side)->Some_0;
    assert(f.tag == pre.staged(a_pid).tag);
    assert(f.payload@ == pre.staged(a_pid).payload@);
    assert(post.staged(b_pid).tag == f.tag);
    assert(post.staged(b_pid).payload@ == f.payload@);
}

/// The sequential model's divergence from the deployed rendezvous, stated
/// formally: a combined call completes successfully only by consuming a
/// message that was already pending toward the caller when the call began, and
/// what it returns in the staging buffer is exactly that message. The deployed
/// kernel instead suspends the caller until the peer has received the request
/// and answered.
pub proof fn lemma_call_ok_consumes_pending_reply(pre: System, post: System, pid: int, cid: int)
    requires
        pre.wf(),
        call_rel(pre, post, pid, cid),
        call_code(pre, pid, cid) == 0,
    ensures
        caller_inbound(pre, pid, cid) is Some,
        post.staged(pid).tag == caller_inbound(pre, pid, cid)->Some_0.tag,
        post.staged(pid).payload@ == caller_inbound(pre, pid, cid)->Some_0.payload@,
{
    let c = pre.cap_at(pid, cid)->Some_0;
    let li = c.link as int;
    let mid = choose|m: System| #[trigger]
        send_rel(pre, m, pid, cid) && recv_rel(m, post, pid, cid);
    lemma_send_preserves_recv_code(pre, mid, pid, cid);
    assert(mid.cap_at(pid, cid) == Some(c));
    assert(mid.link_at(li).inbound(c.side) == pre.link_at(li).inbound(c.side));
    assert(recv_code(mid, pid, cid) == 0);
}

/// Whether one of the first `hi` slots of the table holds the given link end.
pub open spec fn owns_end_upto(p: Proc, l: int, s: bool, hi: int) -> bool {
    exists|c: int|
        0 <= c < hi && c < p.caps@.len() && ((#[trigger] p.caps@[c]) matches Some(cp) && cp.link
            == l && cp.side == s)
}

/// Extending the scanned prefix by one slot adds exactly that slot's end, if
/// any, to the set of owned ends.
proof fn lemma_owns_end_upto_step(p: Proc, i: int)
    requires
        0 <= i < p.caps@.len(),
    ensures
        forall|l: int, s: bool|
            #[trigger] owns_end_upto(p, l, s, i + 1) == (owns_end_upto(p, l, s, i) || (p.caps@[i]
                matches Some(cp) && cp.link == l && cp.side == s)),
{
    assert forall|l: int, s: bool| #[trigger] owns_end_upto(p, l, s, i + 1) == (owns_end_upto(
        p,
        l,
        s,
        i,
    ) || (p.caps@[i] matches Some(cp) && cp.link == l && cp.side == s)) by {
        if owns_end_upto(p, l, s, i + 1) {
            let c = choose|c: int|
                0 <= c < i + 1 && c < p.caps@.len() && ((#[trigger] p.caps@[c]) matches Some(cp)
                    && cp.link == l && cp.side == s);
            if c < i {
                assert(owns_end_upto(p, l, s, i));
            }
        }
        if owns_end_upto(p, l, s, i) {
            assert(owns_end_upto(p, l, s, i + 1));
        }
        if p.caps@[i] matches Some(cp) && cp.link == l && cp.side == s {
            assert(owns_end_upto(p, l, s, i + 1));
        }
    }
}

} // verus!
