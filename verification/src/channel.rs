//! The owning handle around one capability id.
//!
//! A `Channel` exclusively owns one capability for its lifetime. It is created
//! by the open syscall, or wrapped around a well-known bootstrap id without a
//! syscall. A successful `transfer_to` or `close` consumes the handle: every
//! later operation on it fails fast with `InvalidArgument` and touches
//! nothing, rather than reaching the kernel through a stale id.
//!
//! Handles are meant to come only from `create`, `create_pair`, `from_cid` and
//! received messages: ownership of a capability id is then exclusive, because
//! the kernel hands each fresh id out once and a consumed slot rejects every
//! operation deterministically.

use vstd::prelude::*;

use crate::error::Error;
use crate::error::decoded;
use crate::error::decoded_value;
use crate::kernel::System;
use crate::kernel::ipc_code;
use crate::kernel::ipc_rel;
use crate::kernel::close_code;
use crate::kernel::close_rel;
use crate::kernel::lemma_open_cid_fresh;
use crate::kernel::open_code;
use crate::kernel::open_rel;
use crate::kernel::peers;
use crate::kernel::transfer_code;
use crate::kernel::transfer_rel;
use crate::syscall;
use crate::syscall::IPC_RECV;
use crate::syscall::IPC_SEND;

verus! {

/// A process-local handle exclusively owning one capability id.
pub struct Channel {
    /// The process whose capability table holds the id.
    pub pid: usize,
    /// The owned capability id.
    pub cid: i32,
    /// Whether the handle still owns its capability; cleared when a transfer
    /// or a close consumes it.
    pub live: bool,
}

impl Channel {
    /// A handle that owns a live capability id.
    pub open spec fn valid(self) -> bool {
        self.live && self.cid >= 1
    }

    /// Creates a channel by the open syscall. Channel creation is explicitly
    /// two-slot: the kernel allocates a fresh link and the caller receives both
    /// of its ends, the returned handle owning the first, and the companion
    /// end sitting in the next table slot as its peer, ready to be handed off
    /// with `transfer_to` (or wrapped by `create_pair`). Links have no other
    /// origin, so this is where every channel's peer end comes from.
    pub fn create(sys: &mut System, pid: usize) -> (r: Result<Channel, Error>)
        requires
            old(sys).wf(),
        ensures
            final (sys).wf(),
            open_rel(*old(sys), *final (sys), pid as int),
            open_code(*old(sys), pid as int) >= 0 ==> (r matches Ok(ch) && ch.pid == pid && ch.cid
                == open_code(*old(sys), pid as int) && ch.live && ch.valid() && peers(
                *final (sys),
                pid as int,
                ch.cid as int,
                pid as int,
                ch.cid + 1,
            )),
            open_code(*old(sys), pid as int) < 0 ==> r == Err::<Channel, Error>(
                decoded_value(open_code(*old(sys), pid as int))->Err_0,
            ) && *final (sys) == *old(sys),
    {
        match syscall::open(sys, pid) {
            Ok(cid) => {
                proof {
                    lemma_open_cid_fresh(*old(sys), *sys, pid as int);
                }
                Ok(Channel { pid, cid, live: true })
            },
            Err(e) => Err(e),
        }
    }

    /// Creates a channel and wraps both ends of its fresh link, so that no end
    /// is left owned by a slot without a handle: the first of the pair is the
    /// end `create` would return, the second its peer in the following slot.
    pub fn create_pair(sys: &mut System, pid: usize) -> (r: Result<(Channel, Channel), Error>)
        requires
            old(sys).wf(),
        ensures
            final (sys).wf(),
            open_rel(*old(sys), *final (sys), pid as int),
            open_code(*old(sys), pid as int) >= 0 ==> (r matches Ok(pair) && pair.0.pid == pid
                && pair.1.pid == pid && pair.0.cid == open_code(*old(sys), pid as int) && pair.1.cid
                == pair.0.cid + 1 && pair.0.valid() && pair.1.valid() && peers(
                *final (sys),
                pid as int,
                pair.0.cid as int,
                pid as int,
                pair.1.cid as int,
            )),
            open_code(*old(sys), pid as int) < 0 ==> r == Err::<(Channel, Channel), Error>(
                decoded_value(open_code(*old(sys), pid as int))->Err_0,
            ) && *final (sys) == *old(sys),
    {
        match syscall::open(sys, pid) {
            Ok(cid) => {
                proof {
                    lemma_open_cid_fresh(*old(sys), *sys, pid as int);
                }
                Ok((Channel { pid, cid, live: true }, Channel { pid, cid: cid + 1, live: true }))
            },
            Err(e) => Err(e),
        }
    }

    /// Releases this channel's capability, informing the kernel that the slot
    /// may be reclaimed; the peer end sees the disconnect. On success the
    /// handle is consumed, like a transferred one.
    pub fn close(&mut self, sys: &mut System) -> (r: Result<(), Error>)
        requires
            old(sys).wf(),
        ensures
            final (sys).wf(),
            !old(self).live ==> r == Err::<(), Error>(Error::InvalidArgument) && *final (sys)
                == *old(sys) && *final (self) == *old(self),
            old(self).live ==> {
                let code = close_code(*old(sys), old(self).pid as int, old(self).cid as int);
                &&& close_rel(*old(sys), *final (sys), old(self).pid as int, old(self).cid as int)
                &&& r == decoded(code)
                &&& (code == 0 ==> !final (self).live && final (self).pid == old(self).pid && final (
                self).cid == old(self).cid)
                &&& (code != 0 ==> *final (self) == *old(self))
            },
    {
        if !self.live {
            return Err(Error::InvalidArgument);
        }
        let r = syscall::close(sys, self.pid, self.cid);
        if r.is_ok() {
            self.live = false;
        }
        r
    }

    /// Wraps a well-known, statically agreed capability id without a syscall;
    /// only for bootstrap channels whose existence the process-creation
    /// convention guarantees.
    pub fn from_cid(pid: usize, cid: i32) -> (ch: Channel)
        requires
            cid >= 1,
        ensures
            ch.pid == pid,
            ch.cid == cid,
            ch.live,
            ch.valid(),
    {
        Channel { pid, cid, live: true }
    }

    /// Moves this channel's capability into `other`'s slot. On success this
    /// handle is consumed: it no longer owns the capability, and every later
    /// operation on it fails deterministically. On failure the handle is
    /// unchanged and still owns its capability.
    pub fn transfer_to(&mut self, sys: &mut System, other: &Channel) -> (r: Result<(), Error>)
        requires
            old(sys).wf(),
        ensures
            final (sys).wf(),
            !old(self).live ==> r == Err::<(), Error>(Error::InvalidArgument) && *final (sys)
                == *old(sys) && *final (self) == *old(self),
            old(self).live ==> {
                let code = transfer_code(
                    *old(sys),
                    old(self).pid as int,
                    old(self).cid as int,
                    other.pid as int,
                    other.cid as int,
                );
                &&& transfer_rel(
                    *old(sys),
                    *final (sys),
                    old(self).pid as int,
                    old(self).cid as int,
                    other.pid as int,
                    other.cid as int,
                )
                &&& r == decoded(code)
                &&& (code == 0 ==> !final (self).live && final (self).pid == old(self).pid && final (
                self).cid == old(self).cid)
                &&& (code != 0 ==> *final (self) == *old(self))
            },
    {
        if !self.live {
            return Err(Error::InvalidArgument);
        }
        let r = syscall::transfer(sys, self.pid, self.cid, other.pid, other.cid);
        if r.is_ok() {
            self.live = false;
        }
        r
    }

    /// Delivers the staged message of this channel's process to the peer end.
    pub fn send(&self, sys: &mut System) -> (r: Result<(), Error>)
        requires
            old(sys).wf(),
        ensures
            final (sys).wf(),
            !self.live ==> r == Err::<(), Error>(Error::InvalidArgument) && *final (sys) == *old(
                sys,
            ),
            self.live ==> ipc_rel(
                *old(sys),
                *final (sys),
                self.pid as int,
                self.cid as int,
                IPC_SEND,
            ) && r == decoded(ipc_code(*old(sys), self.pid as int, self.cid as int, IPC_SEND)),
    {
        if !self.live {
            return Err(Error::InvalidArgument);
        }
        syscall::send(sys, self.pid, self.cid)
    }

    /// Receives the pending message on this channel into the staging buffer of
    /// its process.
    pub fn recv(&self, sys: &mut System) -> (r: Result<(), Error>)
        requires
            old(sys).wf(),
        ensures
            final (sys).wf(),
            !self.live ==> r == Err::<(), Error>(Error::InvalidArgument) && *final (sys) == *old(
                sys,
            ),
            self.live ==> ipc_rel(
                *old(sys),
                *final (sys),
                self.pid as int,
                self.cid as int,
                IPC_RECV,
            ) && r == decoded(ipc_code(*old(sys), self.pid as int, self.cid as int, IPC_RECV)),
    {
        if !self.live {
            return Err(Error::InvalidArgument);
        }
        syscall::recv(sys, self.pid, self.cid)
    }

    /// The combined send-then-receive rendezvous on this channel. In the
    /// deployed kernel it returns only after the peer received the request and
    /// answered; in this sequential model it completes only by consuming a
    /// message already pending toward the caller, and reports would-block for
    /// the wait (see `kernel::lemma_call_ok_consumes_pending_reply`).
    pub fn call(&self, sys: &mut System) -> (r: Result<(), Error>)
        requires
            old(sys).wf(),
        ensures
            final (sys).wf(),
            !self.live ==> r == Err::<(), Error>(Error::InvalidArgument) && *final (sys) == *old(
                sys,
            ),
            self.live ==> ipc_rel(
                *old(sys),
                *final (sys),
                self.pid as int,
                self.cid as int,
                (IPC_SEND + IPC_RECV) as u32,
            ) && r == decoded(
                ipc_code(
                    *old(sys),
                    self.pid as int,
                    self.cid as int,
                    (IPC_SEND + IPC_RECV) as u32,
                ),
            ),
    {
        if !self.live {
            return Err(Error::InvalidArgument);
        }
        syscall::call(sys, self.pid, self.cid)
    }
}

} // verus!
