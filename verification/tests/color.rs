use wgpu_framework::{pack_rgba8_to_u32, unpack_u32_to_rgba8};

#[test]
fn packs_channels_high_to_low() {
    assert_eq!(pack_rgba8_to_u32(&[0x12, 0x34, 0x56, 0x78]), 0x12345678);
    assert_eq!(pack_rgba8_to_u32(&[0xff, 0x00, 0x00, 0xff]), 0xff0000ff);
    assert_eq!(pack_rgba8_to_u32(&[0, 0, 0, 0]), 0);
}

#[test]
fn packing_reads_only_the_first_four_bytes() {
    assert_eq!(pack_rgba8_to_u32(&[1, 2, 3, 4, 5, 6]), 0x01020304);
}

#[test]
fn unpacks_channels_high_to_low() {
    assert_eq!(unpack_u32_to_rgba8(0x12345678), [0x12, 0x34, 0x56, 0x78]);
    assert_eq!(unpack_u32_to_rgba8(0xffffffff), [0xff; 4]);
    assert_eq!(unpack_u32_to_rgba8(0), [0; 4]);
}

#[test]
fn pack_and_unpack_round_trip() {
    let rgba = [0xde, 0xad, 0xbe, 0xef];
    assert_eq!(unpack_u32_to_rgba8(pack_rgba8_to_u32(&rgba)), rgba);
    let word = 0xcafebabe;
    assert_eq!(pack_rgba8_to_u32(&unpack_u32_to_rgba8(word)), word);
}
