//! Syscall transport: the register-level encoding of the four kernel
//! operations and the decoding of their signed return codes.
//!
//! All knowledge of the operation-code layout lives here: a numbered syscall
//! selects IPC, open-capability or transfer-capability, and the IPC direction
//! flags occupy bits 8 and 9 of the same operation register. The two direction
//! bits are disjoint, so their bitwise OR equals their sum, which is how the
//! combined send-and-receive code is written below.

use vstd::prelude::*;

use crate::error::Error;
use crate::error::convert_error;
use crate::error::convert_value;
use crate::error::decoded;
use crate::error::decoded_value;
use crate::kernel::System;
use crate::kernel::close_code;
use crate::kernel::close_rel;
use crate::kernel::ipc_code;
use crate::kernel::ipc_rel;
use crate::kernel::open_code;
use crate::kernel::open_rel;
use crate::kernel::transfer_code;
use crate::kernel::transfer_rel;

verus! {

/// Operation number of the unified IPC syscall.
pub const SYSCALL_IPC: u32 = 0;

/// Operation number of the open-capability syscall.
pub const SYSCALL_OPEN: u32 = 1;

/// Operation number of the transfer-capability syscall.
pub const SYSCALL_TRANSFER: u32 = 4;

/// Operation number of the close-capability syscall.
pub const SYSCALL_CLOSE: u32 = 5;

/// IPC direction flag: send, bit 8 of the operation register.
pub const IPC_SEND: u32 = 256;

/// IPC direction flag: receive, bit 9 of the operation register.
pub const IPC_RECV: u32 = 512;

/// Requests a fresh capability slot from the kernel and returns the new
/// capability id on success. The kernel allocates a fresh rendezvous link and
/// places both of its ends in the caller's table, the returned id first; the
/// caller hands one end to a peer with `transfer`.
pub fn open(sys: &mut System, pid: usize) -> (r: Result<i32, Error>)
    requires
        old(sys).wf(),
    ensures
        final (sys).wf(),
        open_rel(*old(sys), *final (sys), pid as int),
        r == decoded_value(open_code(*old(sys), pid as int)),
{
    let ret = sys.syscall(pid, SYSCALL_OPEN, 0, 0, 0);
    convert_value(ret)
}

/// Moves the capability named by `src_cid` into slot `dst_cid` of the target
/// process, consuming the source slot.
pub fn transfer(
    sys: &mut System,
    src_pid: usize,
    src_cid: i32,
    dst_pid: usize,
    dst_cid: i32,
) -> (r: Result<(), Error>)
    requires
        old(sys).wf(),
    ensures
        final (sys).wf(),
        transfer_rel(
            *old(sys),
            *final (sys),
            src_pid as int,
            src_cid as int,
            dst_pid as int,
            dst_cid as int,
        ),
        r == decoded(
            transfer_code(
                *old(sys),
                src_pid as int,
                src_cid as int,
                dst_pid as int,
                dst_cid as int,
            ),
        ),
{
    if dst_pid > 0x7fff_ffff {
        return Err(Error::InvalidArgument);
    }
    let ret = sys.syscall(src_pid, SYSCALL_TRANSFER, src_cid, dst_pid as i32, dst_cid);
    convert_error(ret)
}

/// Releases the capability named by `cid`: the kernel reclaims the slot, and
/// the far end of its link sees the peer disconnect.
pub fn close(sys: &mut System, pid: usize, cid: i32) -> (r: Result<(), Error>)
    requires
        old(sys).wf(),
    ensures
        final (sys).wf(),
        close_rel(*old(sys), *final (sys), pid as int, cid as int),
        r == decoded(close_code(*old(sys), pid as int, cid as int)),
{
    let ret = sys.syscall(pid, SYSCALL_CLOSE, cid, 0, 0);
    convert_error(ret)
}

/// Issues the unified IPC syscall with a validated direction-flag combination.
fn ipc_syscall(sys: &mut System, pid: usize, cid: i32, ops: u32) -> (r: Result<(), Error>)
    requires
        old(sys).wf(),
        ops == IPC_SEND || ops == IPC_RECV || ops == IPC_SEND + IPC_RECV,
    ensures
        final (sys).wf(),
        ipc_rel(*old(sys), *final (sys), pid as int, cid as int, ops),
        r == decoded(ipc_code(*old(sys), pid as int, cid as int, ops)),
{
    let ret = sys.syscall(pid, SYSCALL_IPC + ops, cid, 0, 0);
    convert_error(ret)
}

/// Delivers the caller's staged message over the capability: blocks (in this
/// model: reports would-block) until the peer end is ready to receive.
pub fn send(sys: &mut System, pid: usize, cid: i32) -> (r: Result<(), Error>)
    requires
        old(sys).wf(),
    ensures
        final (sys).wf(),
        ipc_rel(*old(sys), *final (sys), pid as int, cid as int, IPC_SEND),
        r == decoded(ipc_code(*old(sys), pid as int, cid as int, IPC_SEND)),
{
    ipc_syscall(sys, pid, cid, IPC_SEND)
}

/// Receives the pending message on the capability into the caller's staging
/// buffer.
pub fn recv(sys: &mut System, pid: usize, cid: i32) -> (r: Result<(), Error>)
    requires
        old(sys).wf(),
    ensures
        final (sys).wf(),
        ipc_rel(*old(sys), *final (sys), pid as int, cid as int, IPC_RECV),
        r == decoded(ipc_code(*old(sys), pid as int, cid as int, IPC_RECV)),
{
    ipc_syscall(sys, pid, cid, IPC_RECV)
}

/// The combined send-then-receive rendezvous used for request/reply exchanges:
/// the two direction flags are issued together in one trap. The deployed
/// kernel suspends the caller until the peer has received the request and
/// answered; this sequential model instead completes only by consuming a
/// message already pending toward the caller, and reports would-block for the
/// wait (`kernel::lemma_call_ok_consumes_pending_reply` states the divergence
/// formally).
pub fn call(sys: &mut System, pid: usize, cid: i32) -> (r: Result<(), Error>)
    requires
        old(sys).wf(),
    ensures
        final (sys).wf(),
        ipc_rel(*old(sys), *final (sys), pid as int, cid as int, (IPC_SEND + IPC_RECV) as u32),
        r == decoded(ipc_code(*old(sys), pid as int, cid as int, (IPC_SEND + IPC_RECV) as u32)),
{
    ipc_syscall(sys, pid, cid, IPC_SEND + IPC_RECV)
}

} // verus!
