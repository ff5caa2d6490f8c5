//! The flow-field container: dimensions, one calibration pair per axis and
//! an opaque payload, under the magic tag `"flow"`.

use vstd::prelude::*;
use crate::attributes::{entry_at, entry_bytes, DataAttributes};
use crate::cursor::{skip_bytes, take_u32_le, take_u8};
use crate::error::DecodeError;
use crate::layout::{MAGIC_LEN, VERSION_OFFSET};
use crate::wire::{le_bytes, push_u32_le, u32_at};

verus! {

/// The version byte given to newly made flow containers.
pub const FLOW_VERSION: u8 = 1;

/// Size of the header of a flow container, which has a single layout.
pub const FLOW_HEADER_SIZE: usize = 29;

/// Dimensions of a flow field and the calibration pair of each axis.
#[derive(Clone, Copy, Debug, PartialEq, Eq, Structural)]
pub struct FlowInfo {
    pub width: u32,
    pub height: u32,
    pub x: DataAttributes,
    pub y: DataAttributes,
}

/// A flow header and its payload, with a version tag.
#[derive(Debug)]
pub struct FlowContainer {
    pub version: u8,
    pub flow_info: FlowInfo,
    pub data: Vec<u8>,
}

/// What a `FlowContainer` holds.
pub struct FlowContainerView {
    pub version: u8,
    pub flow_info: FlowInfo,
    pub data: Seq<u8>,
}

impl View for FlowContainer {
    type V = FlowContainerView;

    open spec fn view(&self) -> FlowContainerView {
        FlowContainerView { version: self.version, flow_info: self.flow_info, data: self.data@ }
    }
}

impl Clone for FlowContainer {
    fn clone(&self) -> (copy: FlowContainer)
        ensures
            copy@ == self@,
    {
        let data = self.data.clone();
        FlowContainer { version: self.version, flow_info: self.flow_info, data }
    }
}

/// The magic tag of the flow container, the ASCII letters `flow`.
pub open spec fn flow_magic() -> Seq<u8> {
    seq![0x66u8, 0x6cu8, 0x6fu8, 0x77u8]
}

impl FlowContainerView {
    /// Whether the container can be written: the length of its encoding is
    /// a length that a buffer can have.
    pub open spec fn encodable(self) -> bool {
        FLOW_HEADER_SIZE + self.data.len() <= usize::MAX
    }

    /// The encoding of the container: magic tag, version byte, width,
    /// height, the pair of the x axis, the pair of the y axis, payload.
    pub open spec fn encoding(self) -> Seq<u8> {
        flow_magic() + seq![self.version] + le_bytes(self.flow_info.width) + le_bytes(
            self.flow_info.height,
        ) + entry_bytes(self.flow_info.x) + entry_bytes(self.flow_info.y) + self.data
    }
}

/// What decoding makes of a buffer: a buffer shorter than the header is a
/// truncated header, and everything after the header is the payload. The
/// magic tag is not looked at, and the version selects nothing.
pub open spec fn decoding(b: Seq<u8>) -> Result<FlowContainerView, DecodeError> {
    if b.len() < FLOW_HEADER_SIZE {
        Err(DecodeError::TruncatedHeader)
    } else {
        Ok(
            FlowContainerView {
                version: b[VERSION_OFFSET as int],
                flow_info: FlowInfo {
                    width: u32_at(b, 5),
                    height: u32_at(b, 9),
                    x: entry_at(b, 13),
                    y: entry_at(b, 21),
                },
                data: b.skip(FLOW_HEADER_SIZE as int),
            },
        )
    }
}

impl FlowContainer {
    /// Makes a container of a header and a payload, with the current
    /// version.
    pub fn new(info: FlowInfo, data: Vec<u8>) -> (c: FlowContainer)
        ensures
            c.version == FLOW_VERSION,
            c.flow_info == info,
            c.data == data,
    {
        FlowContainer { version: FLOW_VERSION, flow_info: info, data }
    }

    /// Whether `write` accepts the container.
    pub fn can_write(&self) -> (ok: bool)
        ensures
            ok == self@.encodable(),
    {
        self.data.len() <= usize::MAX - FLOW_HEADER_SIZE
    }

    /// Encodes the container.
    pub fn write(&self) -> (out: Vec<u8>)
        requires
            self@.encodable(),
        ensures
            out@ == self@.encoding(),
            out@.len() == FLOW_HEADER_SIZE + self.data@.len(),
    {
        let mut out: Vec<u8> = Vec::with_capacity(FLOW_HEADER_SIZE + self.data.len());
        out.push(0x66u8);
        out.push(0x6cu8);
        out.push(0x6fu8);
        out.push(0x77u8);
        out.push(self.version);
        push_u32_le(&mut out, self.flow_info.width);
        push_u32_le(&mut out, self.flow_info.height);
        self.flow_info.x.write_to(&mut out);
        self.flow_info.y.write_to(&mut out);
        out.extend_from_slice(self.data.as_slice());
        out
    }

    /// Decodes a buffer.
    pub fn read(input: &Vec<u8>) -> (r: Result<FlowContainer, DecodeError>)
        ensures
            match r {
                Ok(c) => decoding(input@) == Ok::<FlowContainerView, DecodeError>(c@),
                Err(e) => decoding(input@) == Err::<FlowContainerView, DecodeError>(e),
            },
    {
        let mut cur: &[u8] = input.as_slice();
        if cur.len() < FLOW_HEADER_SIZE {
            return Err(DecodeError::TruncatedHeader);
        }
        skip_bytes(&mut cur, MAGIC_LEN);
        let version: u8 = take_u8(&mut cur);
        let width: u32 = take_u32_le(&mut cur);
        let height: u32 = take_u32_le(&mut cur);
        let x = DataAttributes::read_from(&mut cur);
        let y = DataAttributes::read_from(&mut cur);
        let mut data: Vec<u8> = Vec::with_capacity(cur.len());
        data.extend_from_slice(cur);
        assert(data@ =~= input@.skip(FLOW_HEADER_SIZE as int));
        Ok(FlowContainer { version, flow_info: FlowInfo { width, height, x, y }, data })
    }
}

} // verus!
