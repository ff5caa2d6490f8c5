//! The two header layouts of the raster container and where each keeps its
//! fields.

use vstd::prelude::*;

verus! {

/// Length of the magic tag that opens every container.
pub const MAGIC_LEN: usize = 4;

/// Index of the version byte, which follows the magic tag.
pub const VERSION_OFFSET: usize = 4;

/// Bytes taken by one attribute entry: a scale word and an offset word.
pub const ENTRY_SIZE: usize = 8;

/// The version byte that marks the legacy layout.
pub const LEGACY_VERSION: u8 = 1;

/// The version byte given to newly made raster containers.
pub const CURRENT_VERSION: u8 = 2;

/// A header layout of the raster container.
#[derive(Clone, Copy, Debug, PartialEq, Eq, Structural)]
pub enum Layout {
    /// The version is one byte, and the width follows it directly.
    Current,
    /// The version is the low byte of a four-byte field, followed by three
    /// bytes of padding that carry no meaning.
    Legacy,
}

impl Layout {
    /// The layout that a version byte selects.
    pub open spec fn spec_of_version(version: u8) -> Layout {
        if version == LEGACY_VERSION {
            Layout::Legacy
        } else {
            Layout::Current
        }
    }

    /// The layout that a version byte selects: legacy for the byte 1,
    /// current for every other value.
    #[verifier::when_used_as_spec(spec_of_version)]
    pub fn of_version(version: u8) -> (layout: Layout)
        ensures
            layout == Layout::spec_of_version(version),
    {
        if version == LEGACY_VERSION {
            Layout::Legacy
        } else {
            Layout::Current
        }
    }

    /// The layout of a buffer: the one its version byte selects, and the
    /// current one where the buffer ends before that byte.
    pub open spec fn of_buffer(b: Seq<u8>) -> Layout {
        if b.len() > VERSION_OFFSET {
            Layout::spec_of_version(b[VERSION_OFFSET as int])
        } else {
            Layout::Current
        }
    }

    /// Number of padding bytes between the version byte and the width.
    pub open spec fn spec_padding(self) -> usize {
        match self {
            Layout::Current => 0,
            Layout::Legacy => 3,
        }
    }

    /// Number of padding bytes between the version byte and the width.
    #[verifier::when_used_as_spec(spec_padding)]
    pub fn padding(self) -> (n: usize)
        ensures
            n == self.spec_padding(),
    {
        match self {
            Layout::Current => 0,
            Layout::Legacy => 3,
        }
    }

    /// Index of the first byte of the width.
    pub open spec fn width_offset(self) -> int {
        VERSION_OFFSET + 1 + self.spec_padding()
    }

    /// Index of the first byte of the height.
    pub open spec fn height_offset(self) -> int {
        self.width_offset() + 4
    }

    /// Index of the first byte of the attribute count.
    pub open spec fn count_offset(self) -> int {
        self.width_offset() + 8
    }

    /// Index of the first byte of the attribute table, which is also the
    /// size of the fixed part of the header.
    pub open spec fn spec_table_offset(self) -> usize {
        match self {
            Layout::Current => 17,
            Layout::Legacy => 20,
        }
    }

    /// Index of the first byte of the attribute table, which is also the
    /// size of the fixed part of the header: 17 in the current layout, 20 in
    /// the legacy one.
    #[verifier::when_used_as_spec(spec_table_offset)]
    pub fn table_offset(self) -> (n: usize)
        ensures
            n == self.spec_table_offset(),
            n == self.count_offset() + 4,
    {
        match self {
            Layout::Current => 17,
            Layout::Legacy => 20,
        }
    }

    /// Size of a header with `count` attribute entries.
    pub open spec fn spec_header_size(self, count: nat) -> nat {
        (self.spec_table_offset() + ENTRY_SIZE * count) as nat
    }

    /// Size of a header with `count` attribute entries: the fixed part and
    /// eight bytes for each entry.
    pub fn header_size(self, count: u32) -> (n: u64)
        ensures
            n == self.spec_header_size(count as nat),
    {
        self.table_offset() as u64 + 8u64 * (count as u64)
    }
}

} // verus!
