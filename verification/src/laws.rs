//! Laws that relate encoding and decoding.

use vstd::prelude::*;
use crate::attributes::{entry_bytes, lemma_entry_at_entry_bytes};
use crate::error::DecodeError;
use crate::flow::{FlowContainerView, FLOW_HEADER_SIZE};
use crate::layout::{Layout, LEGACY_VERSION, VERSION_OFFSET};
use crate::raster::{raster_magic, table_bytes, DataContainerView};
use crate::wire::{le_bytes, lemma_u32_at_le_bytes, u32_at};

verus! {

/// Decoding the encoding of a well-formed raster container gives back the
/// container: version, width, height, every calibration pair in order, and
/// the payload.
pub proof fn lemma_raster_round_trip(c: DataContainerView)
    requires
        c.well_formed(),
    ensures
        crate::raster::decoding(c.encoding()) == Ok::<DataContainerView, DecodeError>(c),
{
    let b = c.encoding();
    let attrs = c.data_info.data_attr;
    let n = attrs.len();
    assert(b.subrange(5, 9) =~= le_bytes(c.data_info.width));
    assert(b.subrange(9, 13) =~= le_bytes(c.data_info.height));
    assert(b.subrange(13, 17) =~= le_bytes(n as u32));
    lemma_u32_at_le_bytes(b, 5, c.data_info.width);
    lemma_u32_at_le_bytes(b, 9, c.data_info.height);
    lemma_u32_at_le_bytes(b, 13, n as u32);
    let d = crate::raster::decoding(b)->Ok_0;
    assert forall|i: int| 0 <= i < n implies d.data_info.data_attr[i] == attrs[i] by {
        assert forall|k: int| 0 <= k < 8 implies #[trigger] b[17 + 8 * i + k] == entry_bytes(
            attrs[i],
        )[k] by {}
        assert(b.subrange(17 + 8 * i, 17 + 8 * i + 8) =~= entry_bytes(attrs[i]));
        lemma_entry_at_entry_bytes(b, 17 + 8 * i, attrs[i]);
    }
    assert(d.data_info.data_attr =~= attrs);
    assert(d.data =~= c.data);
}

/// Decoding the encoding of a flow container gives back the container:
/// version, width, height, both calibration pairs, and the payload.
pub proof fn lemma_flow_round_trip(c: FlowContainerView)
    ensures
        crate::flow::decoding(c.encoding()) == Ok::<FlowContainerView, DecodeError>(c),
{
    let b = c.encoding();
    assert(b.subrange(5, 9) =~= le_bytes(c.flow_info.width));
    assert(b.subrange(9, 13) =~= le_bytes(c.flow_info.height));
    assert(b.subrange(13, 21) =~= entry_bytes(c.flow_info.x));
    assert(b.subrange(21, 29) =~= entry_bytes(c.flow_info.y));
    lemma_u32_at_le_bytes(b, 5, c.flow_info.width);
    lemma_u32_at_le_bytes(b, 9, c.flow_info.height);
    lemma_entry_at_entry_bytes(b, 13, c.flow_info.x);
    lemma_entry_at_entry_bytes(b, 21, c.flow_info.y);
    let d = crate::flow::decoding(b)->Ok_0;
    assert(d.data =~= c.data);
}

/// An encoded raster container is as long as the header of the current
/// layout for its number of channels, 17 bytes and 8 for each channel, and
/// its payload together.
pub proof fn lemma_raster_encoded_length(c: DataContainerView)
    ensures
        c.encoding().len() == Layout::Current.spec_header_size(c.data_info.data_attr.len())
            + c.data.len(),
        c.encoding().len() == 17 + 8 * c.data_info.data_attr.len() + c.data.len(),
{
}

/// A buffer that decodes as a raster container is as long as the header of
/// its layout for the decoded number of channels and the decoded payload
/// together: 17 bytes and 8 for each channel in the current layout, 20
/// bytes and 8 for each channel in the legacy one.
pub proof fn lemma_raster_decoded_length(b: Seq<u8>)
    requires
        crate::raster::decoding(b) is Ok,
    ensures
        ({
            let c = crate::raster::decoding(b)->Ok_0;
            let n = c.data_info.data_attr.len();
            &&& b.len() == Layout::of_buffer(b).spec_header_size(n) + c.data.len()
            &&& c.version != LEGACY_VERSION ==> b.len() == 17 + 8 * n + c.data.len()
            &&& c.version == LEGACY_VERSION ==> b.len() == 20 + 8 * n + c.data.len()
        }),
{
}

/// In the legacy layout the three bytes after the version byte are
/// padding: two buffers that differ only there decode alike.
pub proof fn lemma_legacy_padding_ignored(b1: Seq<u8>, b2: Seq<u8>)
    requires
        b1.len() == b2.len(),
        b1.len() > VERSION_OFFSET,
        b1[VERSION_OFFSET as int] == LEGACY_VERSION,
        forall|i: int| 0 <= i < b1.len() && !(5 <= i < 8) ==> b1[i] == b2[i],
    ensures
        crate::raster::decoding(b1) == crate::raster::decoding(b2),
{
    let r1 = crate::raster::decoding(b1);
    let r2 = crate::raster::decoding(b2);
    if r1 is Ok {
        let c1 = r1->Ok_0;
        let c2 = r2->Ok_0;
        assert(c1.data_info.data_attr =~= c2.data_info.data_attr);
        assert(c1.data =~= c2.data);
    }
}

/// A buffer is rejected as a truncated raster header exactly when it is
/// shorter than the fixed part of the header in its layout; in particular
/// every buffer of fewer than 17 bytes is.
pub proof fn lemma_raster_truncated_header(b: Seq<u8>)
    ensures
        crate::raster::decoding(b) == Err::<DataContainerView, DecodeError>(
            DecodeError::TruncatedHeader,
        ) <==> b.len() < Layout::of_buffer(b).spec_table_offset(),
        b.len() < 17 ==> crate::raster::decoding(b) == Err::<DataContainerView, DecodeError>(
            DecodeError::TruncatedHeader,
        ),
{
}

/// A buffer decodes as a raster container exactly when it holds the whole
/// header that it declares: the fixed part of its layout, and eight bytes
/// for each entry of the count stored there.
pub proof fn lemma_raster_accepted(b: Seq<u8>)
    ensures
        crate::raster::decoding(b) is Ok <==> ({
            let layout = Layout::of_buffer(b);
            &&& b.len() >= layout.spec_table_offset()
            &&& b.len() >= layout.spec_header_size(u32_at(b, layout.count_offset()) as nat)
        }),
{
}

/// A buffer is rejected as a flow container exactly when it is shorter
/// than the 29 bytes of the header, and then as a truncated header.
pub proof fn lemma_flow_truncated_header(b: Seq<u8>)
    ensures
        crate::flow::decoding(b) is Err <==> b.len() < FLOW_HEADER_SIZE,
        crate::flow::decoding(b) is Err ==> crate::flow::decoding(b) == Err::<
            FlowContainerView,
            DecodeError,
        >(DecodeError::TruncatedHeader),
{
}

/// A raster container without channels is encoded as the fixed part of the
/// header, with a count of zero, directly followed by the payload; and one
/// without a payload as its header alone.
pub proof fn lemma_raster_empty_parts(c: DataContainerView)
    ensures
        c.data_info.data_attr.len() == 0 ==> c.encoding() == raster_magic() + seq![c.version]
            + le_bytes(c.data_info.width) + le_bytes(c.data_info.height) + le_bytes(0) + c.data,
        c.data.len() == 0 ==> c.encoding().len() == Layout::Current.spec_header_size(
            c.data_info.data_attr.len(),
        ),
{
    if c.data_info.data_attr.len() == 0 {
        assert(c.encoding() =~= raster_magic() + seq![c.version] + le_bytes(c.data_info.width)
            + le_bytes(c.data_info.height) + le_bytes(0) + c.data);
    }
}

} // verus!
