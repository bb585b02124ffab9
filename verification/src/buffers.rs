//! The byte buffers of the crate `bytes`.
//!
//! A certificate message is kept and handed over in these buffers. The
//! library never looks into one: it names what a buffer holds, and what the
//! functions below say of that is assumed, not proved.

use bytes::{Bytes, BytesMut};
use vstd::prelude::*;

verus! {

#[verifier::external_type_specification]
#[verifier::external_body]
pub struct ExBytes(Bytes);

#[verifier::external_type_specification]
#[verifier::external_body]
pub struct ExBytesMut(BytesMut);

/// The bytes that a `Bytes` holds, in order.
pub uninterp spec fn bytes_contents(buffer: Bytes) -> Seq<u8>;

/// The bytes that a `BytesMut` holds, in order.
pub uninterp spec fn bytes_mut_contents(buffer: BytesMut) -> Seq<u8>;

/// Calls `AsRef::<[u8]>::as_ref` of `bytes::Bytes`.
///
/// Assumed: the slice is what the buffer holds.
#[verifier::external_body]
pub(crate) fn bytes_as_slice(buffer: &Bytes) -> (slice: &[u8])
    ensures
        slice@ == bytes_contents(*buffer),
{
    buffer.as_ref()
}

/// Calls `From::<&[u8]>::from` of `bytes::BytesMut`.
///
/// Assumed: the buffer holds a copy of the slice.
#[verifier::external_body]
pub(crate) fn bytes_mut_from_slice(slice: &[u8]) -> (buffer: BytesMut)
    ensures
        bytes_mut_contents(buffer) == slice@,
{
    BytesMut::from(slice)
}

/// Calls `bytes::BytesMut::freeze`.
///
/// Assumed: the frozen buffer holds what the buffer held.
#[verifier::external_body]
pub(crate) fn bytes_mut_freeze(buffer: BytesMut) -> (frozen: Bytes)
    ensures
        bytes_contents(frozen) == bytes_mut_contents(buffer),
{
    buffer.freeze()
}

} // verus!
