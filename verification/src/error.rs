//! Typed error taxonomy and the decoding of signed kernel return codes.
//!
//! The kernel signals failure by returning a negative integer whose magnitude
//! is an error discriminant. Decoding is total: a magnitude outside the known
//! range is never reinterpreted as an arbitrary error kind; it becomes the
//! distinct `Unrecognized` condition carrying the raw magnitude.

use vstd::prelude::*;

verus! {

/// Errors surfaced by the transport and channel layers.
#[derive(Clone, Copy, Debug, PartialEq, Eq, Structural)]
pub enum Error {
    /// A malformed request: a bad operation flag, a reserved or consumed
    /// capability id, or an oversized payload.
    InvalidArgument,
    /// The capability id names no live slot in the caller's table.
    NoSuchCapability,
    /// The operation could not complete without suspending the caller.
    WouldBlock,
    /// The process holding the far end of the channel has terminated.
    PeerDisconnected,
    /// The kernel could not allocate a capability slot.
    OutOfResources,
    /// The kernel returned a magnitude outside the known discriminant range;
    /// the raw magnitude is kept for diagnosis.
    Unrecognized(u32),
}

/// Discriminant magnitudes of the known error kinds, as carried in negated
/// form by kernel return codes.
pub const ERR_INVALID_ARGUMENT: i32 = 1;
pub const ERR_NO_SUCH_CAPABILITY: i32 = 2;
pub const ERR_WOULD_BLOCK: i32 = 3;
pub const ERR_PEER_DISCONNECTED: i32 = 4;
pub const ERR_OUT_OF_RESOURCES: i32 = 5;

/// Total decoding of an error magnitude into the closed taxonomy.
pub open spec fn error_of_magnitude(m: u32) -> Error {
    if m == ERR_INVALID_ARGUMENT {
        Error::InvalidArgument
    } else if m == ERR_NO_SUCH_CAPABILITY {
        Error::NoSuchCapability
    } else if m == ERR_WOULD_BLOCK {
        Error::WouldBlock
    } else if m == ERR_PEER_DISCONNECTED {
        Error::PeerDisconnected
    } else if m == ERR_OUT_OF_RESOURCES {
        Error::OutOfResources
    } else {
        Error::Unrecognized(m)
    }
}

/// The magnitude carried by a negative return code. Every negative `i32`,
/// including the minimum, has a magnitude representable in `u32`.
pub open spec fn magnitude_of(ret: int) -> u32
    recommends
        -0x1_0000_0000 < ret < 0,
{
    (-ret) as u32
}

/// What a raw kernel return code denotes for an operation whose success
/// carries no value.
pub open spec fn decoded(ret: int) -> Result<(), Error> {
    if ret >= 0 {
        Ok(())
    } else {
        Err(error_of_magnitude(magnitude_of(ret)))
    }
}

/// What a raw kernel return code denotes for an operation whose success
/// carries a non-negative value, such as a freshly allocated capability id.
pub open spec fn decoded_value(ret: int) -> Result<i32, Error> {
    if ret >= 0 {
        Ok((ret as i32))
    } else {
        Err(error_of_magnitude(magnitude_of(ret)))
    }
}

/// Decodes an error magnitude. Total over all of `u32`.
pub fn decode_magnitude(m: u32) -> (e: Error)
    ensures
        e == error_of_magnitude(m),
{
    if m == ERR_INVALID_ARGUMENT as u32 {
        Error::InvalidArgument
    } else if m == ERR_NO_SUCH_CAPABILITY as u32 {
        Error::NoSuchCapability
    } else if m == ERR_WOULD_BLOCK as u32 {
        Error::WouldBlock
    } else if m == ERR_PEER_DISCONNECTED as u32 {
        Error::PeerDisconnected
    } else if m == ERR_OUT_OF_RESOURCES as u32 {
        Error::OutOfResources
    } else {
        Error::Unrecognized(m)
    }
}

/// Decodes the signed return code of a kernel operation whose success carries
/// no value. Total over all of `i32`.
pub fn convert_error(ret: i32) -> (r: Result<(), Error>)
    ensures
        r == decoded(ret as int),
{
    if ret >= 0 {
        Ok(())
    } else {
        let m: u32 = (-(ret as i64)) as u32;
        assert(m == magnitude_of(ret as int));
        Err(decode_magnitude(m))
    }
}

/// Decodes the signed return code of a kernel operation whose success carries
/// a non-negative value. Total over all of `i32`.
pub fn convert_value(ret: i32) -> (r: Result<i32, Error>)
    ensures
        r == decoded_value(ret as int),
{
    if ret >= 0 {
        Ok(ret)
    } else {
        let m: u32 = (-(ret as i64)) as u32;
        assert(m == magnitude_of(ret as int));
        Err(decode_magnitude(m))
    }
}

/// Error decoding is total and safe: every negative return code decodes to an
/// error; a magnitude within the known discriminant range yields the
/// corresponding kind and never the guard condition, and a magnitude outside
/// that range yields exactly `Unrecognized` of that magnitude, never an
/// arbitrary known kind.
pub proof fn lemma_error_decoding_total(ret: i32)
    requires
        ret < 0,
    ensures
        decoded(ret as int) == Err::<(), Error>(error_of_magnitude(magnitude_of(ret as int))),
        ERR_INVALID_ARGUMENT <= magnitude_of(ret as int) <= ERR_OUT_OF_RESOURCES ==> !(
        error_of_magnitude(magnitude_of(ret as int)) is Unrecognized),
        magnitude_of(ret as int) > ERR_OUT_OF_RESOURCES ==> error_of_magnitude(
            magnitude_of(ret as int),
        ) == Error::Unrecognized(magnitude_of(ret as int)),
{
}

} // verus!
