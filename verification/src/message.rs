//! The fixed-layout message exchanged per IPC operation.
//!
//! A message carries a combined interface/method tag, a bounded payload, and at
//! most one embedded capability handed off atomically with the data. Messages
//! are staged in a per-process, single-slot buffer around the blocking
//! syscalls; they are always exchanged in full.

use vstd::prelude::*;

use crate::error::Error;

verus! {

/// Fixed capacity of a message's payload region, in bytes.
pub const PAYLOAD_MAX: usize = 256;

/// The staged form of a message, as a process sees it: the embedded capability
/// slot, if used, names a capability id in that process's own table.
///
/// The wire layout fixes the number of embedded-capability slots; this design
/// fixes it at one, enough to hand one channel end off atomically with the
/// data, as the listener hand-off between a server and a driver needs.
pub struct Message {
    /// Combined interface/method tag; at this layer the tag carries the
    /// interface id, and any finer method selection within an interface is the
    /// generated stub layer's concern.
    pub tag: u32,
    /// Inline payload bytes, at most `PAYLOAD_MAX` of them.
    pub payload: Vec<u8>,
    /// At most one capability id embedded for atomic hand-off.
    pub cap: Option<i32>,
}

impl Message {
    /// A message fits the wire layout when its payload fits the fixed region.
    pub open spec fn wf(self) -> bool {
        self.payload@.len() <= PAYLOAD_MAX
    }

    /// The empty message: tag zero, no payload, no embedded capability.
    pub fn empty() -> (m: Message)
        ensures
            m.tag == 0,
            m.payload@ == Seq::<u8>::empty(),
            m.cap is None,
            m.wf(),
    {
        Message { tag: 0, payload: Vec::new(), cap: None }
    }

    /// Builds a message, rejecting a payload larger than the fixed region.
    pub fn new(tag: u32, payload: Vec<u8>, cap: Option<i32>) -> (r: Result<Message, Error>)
        ensures
            payload@.len() <= PAYLOAD_MAX ==> (r matches Ok(m) && m.tag == tag && m.payload@
                == payload@ && m.cap == cap),
            payload@.len() > PAYLOAD_MAX ==> r == Err::<Message, Error>(Error::InvalidArgument),
    {
        if payload.len() > PAYLOAD_MAX {
            Err(Error::InvalidArgument)
        } else {
            Ok(Message { tag, payload, cap })
        }
    }

    /// An independent copy with the same tag, payload bytes, and embedded
    /// capability id.
    pub fn duplicate(&self) -> (m: Message)
        ensures
            m.tag == self.tag,
            m.payload@ == self.payload@,
            m.cap == self.cap,
    {
        Message { tag: self.tag, payload: copy_bytes(&self.payload), cap: self.cap }
    }
}

/// Copies a byte vector element by element.
pub fn copy_bytes(src: &Vec<u8>) -> (r: Vec<u8>)
    ensures
        r@ == src@,
{
    let mut r: Vec<u8> = Vec::new();
    let mut i: usize = 0;
    while i < src.len()
        invariant
            i <= src@.len(),
            r@ == src@.subrange(0, i as int),
        decreases src@.len() - i,
    {
        r.push(src[i]);
        i = i + 1;
    }
    assert(r@ == src@);
    r
}

} // verus!
