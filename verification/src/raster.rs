//! The raster container: dimensions, one calibration pair per channel and
//! an opaque payload, under the magic tag `"data"`.

use vstd::prelude::*;
use crate::attributes::{entry_at, entry_bytes, DataAttributes};
use crate::cursor::{skip_bytes, take_u32_le, take_u8};
use crate::error::DecodeError;
use crate::layout::{Layout, CURRENT_VERSION, ENTRY_SIZE, LEGACY_VERSION, MAGIC_LEN, VERSION_OFFSET};
use crate::wire::{le_bytes, push_u32_le, u32_at};

verus! {

/// Dimensions of a raster and the calibration pair of each of its channels,
/// in the order in which the channels lie in the payload.
#[derive(Debug)]
pub struct DataInfo {
    pub width: u32,
    pub height: u32,
    pub data_attr: Vec<DataAttributes>,
}

/// A raster header and its payload, with the version tag that selects the
/// header's layout.
#[derive(Debug)]
pub struct DataContainer {
    pub version: u8,
    pub data_info: DataInfo,
    pub data: Vec<u8>,
}

/// What a `DataInfo` holds.
pub struct DataInfoView {
    pub width: u32,
    pub height: u32,
    pub data_attr: Seq<DataAttributes>,
}

/// What a `DataContainer` holds.
pub struct DataContainerView {
    pub version: u8,
    pub data_info: DataInfoView,
    pub data: Seq<u8>,
}

impl View for DataInfo {
    type V = DataInfoView;

    open spec fn view(&self) -> DataInfoView {
        DataInfoView { width: self.width, height: self.height, data_attr: self.data_attr@ }
    }
}

impl View for DataContainer {
    type V = DataContainerView;

    open spec fn view(&self) -> DataContainerView {
        DataContainerView {
            version: self.version,
            data_info: self.data_info@,
            data: self.data@,
        }
    }
}

impl Clone for DataInfo {
    fn clone(&self) -> (copy: DataInfo)
        ensures
            copy@ == self@,
    {
        let data_attr = self.data_attr.clone();
        DataInfo { width: self.width, height: self.height, data_attr }
    }
}

impl Clone for DataContainer {
    fn clone(&self) -> (copy: DataContainer)
        ensures
            copy@ == self@,
    {
        let data = self.data.clone();
        DataContainer { version: self.version, data_info: self.data_info.clone(), data }
    }
}

/// The magic tag of the raster container, the ASCII letters `data`.
pub open spec fn raster_magic() -> Seq<u8> {
    seq![0x64u8, 0x61u8, 0x74u8, 0x61u8]
}

/// The attribute table of a header: the entries one after another, eight
/// bytes each.
pub open spec fn table_bytes(attrs: Seq<DataAttributes>) -> Seq<u8> {
    Seq::new(ENTRY_SIZE as nat * attrs.len(), |j: int| entry_bytes(attrs[j / 8])[j % 8])
}

/// The `count` entries stored in `b` from index `at` on.
pub open spec fn table_at(b: Seq<u8>, at: int, count: nat) -> Seq<DataAttributes> {
    Seq::new(count, |i: int| entry_at(b, at + ENTRY_SIZE * i))
}

impl DataContainerView {
    /// Whether the container has an encoding in the current layout: its
    /// version does not select the legacy layout, which is only ever read,
    /// and the number of channels fits the 32-bit count of the header.
    pub open spec fn well_formed(self) -> bool {
        &&& self.version != LEGACY_VERSION
        &&& self.data_info.data_attr.len() <= u32::MAX
    }

    /// Whether the container can be written: it is well formed, and the
    /// length of its encoding is a length that a buffer can have.
    pub open spec fn encodable(self) -> bool {
        &&& self.well_formed()
        &&& Layout::Current.spec_header_size(self.data_info.data_attr.len()) + self.data.len()
            <= usize::MAX
    }

    /// The encoding of the container, in the current layout: magic tag,
    /// version byte, width, height, number of channels, attribute table,
    /// payload.
    pub open spec fn encoding(self) -> Seq<u8> {
        raster_magic() + seq![self.version] + le_bytes(self.data_info.width) + le_bytes(
            self.data_info.height,
        ) + le_bytes(self.data_info.data_attr.len() as u32) + table_bytes(self.data_info.data_attr)
            + self.data
    }
}

/// What decoding makes of a buffer.
///
/// The version byte selects the layout. A buffer that ends before the fixed
/// part of that layout's header is a truncated header. Before any entry is
/// read, the declared count is held against the bytes that are left after
/// the fixed part: a count greater than their number is oversized, and a
/// table of that many entries that runs past the end of the buffer is
/// truncated. Everything after the table is the payload. The magic tag and
/// the padding of the legacy layout are not looked at.
pub open spec fn decoding(b: Seq<u8>) -> Result<DataContainerView, DecodeError> {
    let layout = Layout::of_buffer(b);
    if b.len() < layout.spec_table_offset() {
        Err(DecodeError::TruncatedHeader)
    } else {
        let count = u32_at(b, layout.count_offset());
        let left = b.len() - layout.spec_table_offset();
        if count > left {
            Err(DecodeError::OversizedAttributeCount)
        } else if ENTRY_SIZE * count > left {
            Err(DecodeError::TruncatedAttributeTable)
        } else {
            Ok(
                DataContainerView {
                    version: b[VERSION_OFFSET as int],
                    data_info: DataInfoView {
                        width: u32_at(b, layout.width_offset()),
                        height: u32_at(b, layout.height_offset()),
                        data_attr: table_at(b, layout.spec_table_offset() as int, count as nat),
                    },
                    data: b.skip(layout.spec_header_size(count as nat) as int),
                },
            )
        }
    }
}

impl DataContainer {
    /// Makes a container of a header and a payload, with the current
    /// version.
    pub fn new(info: DataInfo, data: Vec<u8>) -> (c: DataContainer)
        ensures
            c.version == CURRENT_VERSION,
            c.data_info == info,
            c.data == data,
            c@.version != LEGACY_VERSION,
    {
        DataContainer { version: CURRENT_VERSION, data_info: info, data }
    }

    /// Whether `write` accepts the container.
    pub fn can_write(&self) -> (ok: bool)
        ensures
            ok == self@.encodable(),
    {
        let count: usize = self.data_info.data_attr.len();
        if self.version == LEGACY_VERSION || count > u32::MAX as usize {
            return false;
        }
        let hdr_size: u64 = Layout::Current.header_size(count as u32);
        hdr_size <= usize::MAX as u64 && self.data.len() <= usize::MAX - hdr_size as usize
    }

    /// Encodes the container in the current layout.
    pub fn write(&self) -> (out: Vec<u8>)
        requires
            self@.encodable(),
        ensures
            out@ == self@.encoding(),
            out@.len() == Layout::Current.spec_header_size(self.data_info.data_attr@.len())
                + self.data@.len(),
    {
        let count: usize = self.data_info.data_attr.len();
        let hdr_size: u64 = Layout::Current.header_size(count as u32);
        let mut out: Vec<u8> = Vec::with_capacity(hdr_size as usize + self.data.len());
        out.push(0x64u8);
        out.push(0x61u8);
        out.push(0x74u8);
        out.push(0x61u8);
        out.push(self.version);
        push_u32_le(&mut out, self.data_info.width);
        push_u32_le(&mut out, self.data_info.height);
        push_u32_le(&mut out, count as u32);
        let ghost fixed = out@;
        let ghost table = table_bytes(self.data_info.data_attr@);
        assert(fixed =~= raster_magic() + seq![self.version] + le_bytes(self.data_info.width)
            + le_bytes(self.data_info.height) + le_bytes(count as u32));
        let mut i: usize = 0;
        while i < count
            invariant
                i <= count,
                count == self.data_info.data_attr@.len(),
                table == table_bytes(self.data_info.data_attr@),
                out@ == fixed + table.take(ENTRY_SIZE * i),
            decreases count - i,
        {
            self.data_info.data_attr[i].write_to(&mut out);
            assert(out@ =~= fixed + table.take(ENTRY_SIZE * (i + 1)));
            i += 1;
        }
        out.extend_from_slice(self.data.as_slice());
        out
    }

    /// Decodes a buffer in either layout.
    pub fn read(input: &Vec<u8>) -> (r: Result<DataContainer, DecodeError>)
        ensures
            match r {
                Ok(c) => decoding(input@) == Ok::<DataContainerView, DecodeError>(c@),
                Err(e) => decoding(input@) == Err::<DataContainerView, DecodeError>(e),
            },
    {
        let mut cur: &[u8] = input.as_slice();
        if cur.len() <= VERSION_OFFSET {
            return Err(DecodeError::TruncatedHeader);
        }
        skip_bytes(&mut cur, MAGIC_LEN);
        let version: u8 = take_u8(&mut cur);
        let layout = Layout::of_version(version);
        if input.len() < layout.table_offset() {
            return Err(DecodeError::TruncatedHeader);
        }
        skip_bytes(&mut cur, layout.padding());
        let width: u32 = take_u32_le(&mut cur);
        let height: u32 = take_u32_le(&mut cur);
        let count: u32 = take_u32_le(&mut cur);
        if count as u64 > cur.len() as u64 {
            return Err(DecodeError::OversizedAttributeCount);
        }
        if (input.len() as u64) < layout.header_size(count) {
            return Err(DecodeError::TruncatedAttributeTable);
        }
        let ghost base = layout.spec_table_offset() as int;
        let mut attrs: Vec<DataAttributes> = Vec::new();
        let mut i: u32 = 0;
        while i < count
            invariant
                i <= count,
                base == layout.spec_table_offset(),
                base + ENTRY_SIZE * count <= input@.len(),
                cur@ == input@.skip(base + ENTRY_SIZE * i),
                attrs@ == table_at(input@, base, i as nat),
            decreases count - i,
        {
            let a = DataAttributes::read_from(&mut cur);
            attrs.push(a);
            i += 1;
        }
        let mut data: Vec<u8> = Vec::with_capacity(cur.len());
        data.extend_from_slice(cur);
        assert(data@ =~= input@.skip(layout.spec_header_size(count as nat) as int));
        Ok(DataContainer { version, data_info: DataInfo { width, height, data_attr: attrs }, data })
    }
}

} // verus!
