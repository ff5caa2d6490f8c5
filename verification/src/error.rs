//! Why a buffer was rejected.

use vstd::prelude::*;

verus! {

/// The ways in which decoding a container can fail.
#[derive(Clone, Copy, Debug, PartialEq, Eq, Structural)]
pub enum DecodeError {
    /// The buffer ends before the fixed fields of the header do.
    TruncatedHeader,
    /// The buffer ends before the attribute table that the header declares
    /// does, although it holds at least as many bytes as the table has
    /// entries.
    TruncatedAttributeTable,
    /// The header declares more attribute entries than there are bytes left
    /// in the buffer, so that not even one byte of each could be there.
    OversizedAttributeCount,
}

} // verus!
