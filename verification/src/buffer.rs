//! The buffer into which a caller of the bridge reads.
//!
//! A read buffer has a filled part at its front, and behind it room that is
//! partly initialised. The bridge lets the engine write into that room and
//! then moves the boundary of the filled part over what was written.

use vstd::prelude::*;
use tokio::io::ReadBuf;

verus! {

/// Trusted. `tokio::io::ReadBuf`, carried through as an opaque value.
#[verifier::external_type_specification]
#[verifier::external_body]
pub struct ExReadBuf<'a>(ReadBuf<'a>);

/// The bytes of the filled part, which `ReadBuf::filled` returns.
pub uninterp spec fn filled_bytes(buf: &ReadBuf<'_>) -> Seq<u8>;

/// The bytes that lie behind the filled part and are initialised.
pub uninterp spec fn spare_bytes(buf: &ReadBuf<'_>) -> Seq<u8>;

/// The length of the whole buffer, which `ReadBuf::capacity` returns.
pub uninterp spec fn capacity_of(buf: &ReadBuf<'_>) -> nat;

/// Whether `room` is the unfilled part of `buf` once all of it has been
/// initialised: as long as what the buffer has left, beginning with the bytes
/// that were initialised already, and zero after them.
pub open spec fn is_room_of(room: Seq<u8>, buf: &ReadBuf<'_>) -> bool {
    &&& room.len() + filled_bytes(buf).len() == capacity_of(buf)
    &&& spare_bytes(buf).len() <= room.len()
    &&& room.subrange(0, spare_bytes(buf).len() as int) == spare_bytes(buf)
    &&& forall|i: int| spare_bytes(buf).len() <= i < room.len() ==> room[i] == 0u8
}

/// Trusted. Calls `ReadBuf::initialize_unfilled`, which writes zero over
/// the bytes of the unfilled part that were never initialised and returns the
/// whole unfilled part. The filled part and the capacity stay, and what the
/// caller leaves in the returned slice, which keeps its length as every
/// slice does, is what lies behind the filled part afterwards, all of it
/// initialised.
#[verifier::external_body]
pub(crate) fn initialize_unfilled<'a, 'b>(buf: &'a mut ReadBuf<'b>) -> (room: &'a mut [u8])
    ensures
        is_room_of(room@, old(buf)),
        final(room)@.len() == room@.len(),
        filled_bytes(final(buf)) == filled_bytes(old(buf)),
        spare_bytes(final(buf)) == final(room)@,
        capacity_of(final(buf)) == capacity_of(old(buf)),
{
    buf.initialize_unfilled()
}

/// Trusted. Calls `ReadBuf::advance`, which moves the end of the filled part
/// forward by `n` bytes and panics if that would take it past the
/// initialised bytes. The bytes themselves and the capacity stay.
#[verifier::external_body]
pub(crate) fn advance(buf: &mut ReadBuf<'_>, n: usize)
    requires
        n <= spare_bytes(old(buf)).len(),
    ensures
        filled_bytes(final(buf)) == filled_bytes(old(buf)) + spare_bytes(old(buf)).take(n as int),
        spare_bytes(final(buf)) == spare_bytes(old(buf)).skip(n as int),
        capacity_of(final(buf)) == capacity_of(old(buf)),
{
    buf.advance(n)
}

} // verus!
