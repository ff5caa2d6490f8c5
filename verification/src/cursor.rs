//! Sequential reads from a byte slice, performed by the `bytes` crate.

use bytes::Buf;
use vstd::prelude::*;
use crate::wire::u32_at;

verus! {

/// Calls `bytes::Buf::advance` on a byte slice: the first `cnt` bytes are
/// dropped from the front of the cursor. The call panics when fewer than
/// `cnt` bytes are left, which the precondition rules out.
#[verifier::external_body]
pub(crate) fn skip_bytes(cur: &mut &[u8], cnt: usize)
    requires
        cnt <= old(cur)@.len(),
    ensures
        final(cur)@ == old(cur)@.skip(cnt as int),
{
    cur.advance(cnt)
}

/// Calls `bytes::Buf::get_u8` on a byte slice: the first byte is returned
/// and the cursor moves past it. The call panics on an empty cursor, which
/// the precondition rules out.
#[verifier::external_body]
pub(crate) fn take_u8(cur: &mut &[u8]) -> (v: u8)
    requires
        1 <= old(cur)@.len(),
    ensures
        v == old(cur)@[0],
        final(cur)@ == old(cur)@.skip(1),
{
    cur.get_u8()
}

/// Calls `bytes::Buf::get_u32_le` on a byte slice: the first four bytes are
/// returned as one word, least significant byte first, and the cursor moves
/// past them. The call panics when fewer than four bytes are left, which the
/// precondition rules out.
#[verifier::external_body]
pub(crate) fn take_u32_le(cur: &mut &[u8]) -> (v: u32)
    requires
        4 <= old(cur)@.len(),
    ensures
        v == u32_at(old(cur)@, 0),
        final(cur)@ == old(cur)@.skip(4),
{
    cur.get_u32_le()
}

} // verus!
