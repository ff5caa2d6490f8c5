//! The calibration pair that maps stored samples to physical values.

use vstd::prelude::*;
use crate::cursor::take_u32_le;
use crate::layout::ENTRY_SIZE;
use crate::wire::{le_bytes, push_u32_le, u32_at, lemma_u32_at_le_bytes};

verus! {

/// A calibration pair: a stored sample `raw` stands for the physical value
/// `raw * scale + offset`.
///
/// Both members are kept as the bit patterns of IEEE-754 single-precision
/// numbers, which is the form in which they travel.
#[derive(Clone, Copy, Debug, PartialEq, Eq, Structural)]
pub struct DataAttributes {
    /// Bit pattern of the scale.
    pub scale: u32,
    /// Bit pattern of the offset.
    pub offset: u32,
}

/// The eight bytes of an entry: the scale word, then the offset word.
pub open spec fn entry_bytes(a: DataAttributes) -> Seq<u8> {
    le_bytes(a.scale) + le_bytes(a.offset)
}

/// The entry stored in the eight bytes of `b` that start at index `at`.
pub open spec fn entry_at(b: Seq<u8>, at: int) -> DataAttributes
    recommends
        0 <= at,
        at + ENTRY_SIZE <= b.len(),
{
    DataAttributes { scale: u32_at(b, at), offset: u32_at(b, at + 4) }
}

/// Reading back the eight bytes of an entry gives the entry, wherever in a
/// buffer they stand.
pub proof fn lemma_entry_at_entry_bytes(b: Seq<u8>, at: int, a: DataAttributes)
    requires
        0 <= at,
        at + ENTRY_SIZE <= b.len(),
        b.subrange(at, at + ENTRY_SIZE) == entry_bytes(a),
    ensures
        entry_at(b, at) == a,
{
    let e = b.subrange(at, at + ENTRY_SIZE);
    assert(b.subrange(at, at + 4) =~= e.subrange(0, 4));
    assert(b.subrange(at + 4, at + 8) =~= e.subrange(4, 8));
    assert(e.subrange(0, 4) =~= le_bytes(a.scale));
    assert(e.subrange(4, 8) =~= le_bytes(a.offset));
    lemma_u32_at_le_bytes(b, at, a.scale);
    lemma_u32_at_le_bytes(b, at + 4, a.offset);
}

impl DataAttributes {
    /// Appends the eight bytes of the entry to `out`.
    pub fn write_to(&self, out: &mut Vec<u8>)
        ensures
            final(out)@ == old(out)@ + entry_bytes(*self),
    {
        push_u32_le(out, self.scale);
        push_u32_le(out, self.offset);
    }

    /// Takes one entry from the front of `cur`.
    pub fn read_from(cur: &mut &[u8]) -> (a: DataAttributes)
        requires
            ENTRY_SIZE <= old(cur)@.len(),
        ensures
            a == entry_at(old(cur)@, 0),
            final(cur)@ == old(cur)@.skip(ENTRY_SIZE as int),
    {
        let scale: u32 = take_u32_le(cur);
        let offset: u32 = take_u32_le(cur);
        DataAttributes { scale, offset }
    }
}

} // verus!
