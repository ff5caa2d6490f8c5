use data_container::layout::{
    CURRENT_VERSION, ENTRY_SIZE, LEGACY_VERSION, MAGIC_LEN, VERSION_OFFSET,
};
use data_container::wire::push_u32_le;
use data_container::{DataAttributes, Layout};

#[test]
fn layout_of_version() {
    assert_eq!(Layout::of_version(1), Layout::Legacy);
    assert_eq!(Layout::of_version(0), Layout::Current);
    assert_eq!(Layout::of_version(2), Layout::Current);
    assert_eq!(Layout::of_version(255), Layout::Current);
    assert_eq!(Layout::of_version(LEGACY_VERSION), Layout::Legacy);
    assert_eq!(Layout::of_version(CURRENT_VERSION), Layout::Current);
}

#[test]
fn layout_sizes() {
    assert_eq!(Layout::Current.padding(), 0);
    assert_eq!(Layout::Legacy.padding(), 3);
    assert_eq!(Layout::Current.table_offset(), 17);
    assert_eq!(Layout::Legacy.table_offset(), 20);
    assert_eq!(Layout::Current.header_size(0), 17);
    assert_eq!(Layout::Legacy.header_size(0), 20);
    assert_eq!(Layout::Current.header_size(1), 25);
    assert_eq!(Layout::Legacy.header_size(1), 28);
    assert_eq!(Layout::Current.header_size(1000), 8017);
    assert_eq!(Layout::Legacy.header_size(1000), 8020);
    assert_eq!(Layout::Current.header_size(u32::MAX), 34_359_738_377);
    assert_eq!(Layout::Legacy.header_size(u32::MAX), 34_359_738_380);
}

#[test]
fn layout_constants() {
    assert_eq!(MAGIC_LEN, 4);
    assert_eq!(VERSION_OFFSET, 4);
    assert_eq!(ENTRY_SIZE, 8);
    assert_eq!(LEGACY_VERSION, 1);
    assert_eq!(CURRENT_VERSION, 2);
}

#[test]
fn words_are_little_endian() {
    let mut out: Vec<u8> = vec![0xEE];
    push_u32_le(&mut out, 0x0809A0A1);
    assert_eq!(out, vec![0xEE, 0xA1, 0xA0, 0x09, 0x08]);
    push_u32_le(&mut out, 0);
    push_u32_le(&mut out, u32::MAX);
    push_u32_le(&mut out, 1024);
    assert_eq!(
        out,
        vec![0xEE, 0xA1, 0xA0, 0x09, 0x08, 0, 0, 0, 0, 0xFF, 0xFF, 0xFF, 0xFF, 0, 4, 0, 0]
    );
}

#[test]
fn words_agree_with_the_platform() {
    for v in [0u32, 1, 255, 256, 65535, 65536, 0x00FF_FFFF, 0x0100_0000, 0x1234_5678, u32::MAX] {
        let mut out: Vec<u8> = Vec::new();
        push_u32_le(&mut out, v);
        assert_eq!(out, v.to_le_bytes().to_vec());
    }
}

#[test]
fn entry_is_scale_then_offset() {
    let a = DataAttributes { scale: 0x14131211, offset: 0x18171615 };
    let mut out: Vec<u8> = vec![1];
    a.write_to(&mut out);
    assert_eq!(out, vec![1, 0x11, 0x12, 0x13, 0x14, 0x15, 0x16, 0x17, 0x18]);
}

#[test]
fn entry_is_taken_from_the_front() {
    let bytes: Vec<u8> = vec![0x11, 0x12, 0x13, 0x14, 0x15, 0x16, 0x17, 0x18, 0x99, 0x98];
    let mut cur: &[u8] = &bytes;
    let a = DataAttributes::read_from(&mut cur);
    assert_eq!(a, DataAttributes { scale: 0x14131211, offset: 0x18171615 });
    assert_eq!(cur, &[0x99, 0x98]);
}

#[test]
fn entry_keeps_float_bits() {
    for (scale, offset) in [(42.5f32, 7.0f32), (-0.0, f32::INFINITY), (f32::MIN, 1.0e-40)] {
        let a = DataAttributes { scale: scale.to_bits(), offset: offset.to_bits() };
        let mut out: Vec<u8> = Vec::new();
        a.write_to(&mut out);
        let mut expected: Vec<u8> = scale.to_le_bytes().to_vec();
        expected.extend_from_slice(&offset.to_le_bytes());
        assert_eq!(out, expected);
        let mut cur: &[u8] = &out;
        let b = DataAttributes::read_from(&mut cur);
        assert_eq!(f32::from_bits(b.scale).to_bits(), scale.to_bits());
        assert_eq!(f32::from_bits(b.offset).to_bits(), offset.to_bits());
        assert!(cur.is_empty());
    }
}
