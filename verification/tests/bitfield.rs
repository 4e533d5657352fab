use duplosentido::bitfield::{
    assemble_i16_le, assemble_u12, assemble_u16_le, extract, i8_from_bits,
};

#[test]
fn extract_shifts_the_masked_bits_down() {
    assert_eq!(extract(0xAB, 0xF0), 0x0A);
    assert_eq!(extract(0xAB, 0x0F), 0x0B);
    assert_eq!(extract(0xFF, 0x40), 1);
    assert_eq!(extract(0xBF, 0x40), 0);
    assert_eq!(extract(0x80, 0x80), 1);
    assert_eq!(extract(0x7F, 0x80), 0);
    assert_eq!(extract(0xD5, 0x7F), 0x55);
}

#[test]
fn extract_with_empty_mask_is_zero() {
    assert_eq!(extract(0xFF, 0x00), 0);
}

#[test]
fn unsigned_little_endian_assembly() {
    assert_eq!(assemble_u16_le(0x34, 0x12), 0x1234);
    assert_eq!(assemble_u16_le(0xFF, 0xFF), 0xFFFF);
    assert_eq!(assemble_u16_le(0x00, 0x00), 0);
}

#[test]
fn signed_little_endian_assembly() {
    assert_eq!(assemble_i16_le(0x10, 0x00), 16);
    assert_eq!(assemble_i16_le(0xFF, 0xFF), -1);
    assert_eq!(assemble_i16_le(0x00, 0x80), i16::MIN);
    assert_eq!(assemble_i16_le(0xFF, 0x7F), i16::MAX);
}

#[test]
fn twelve_bit_assembly() {
    assert_eq!(assemble_u12(0x0A, 0x5D), 10 + 16 * 0x5D);
    assert_eq!(assemble_u12(0x0F, 0xFF), 0x0FFF);
    assert_eq!(assemble_u12(0x00, 0x00), 0);
}

#[test]
fn signed_byte_reinterpretation() {
    assert_eq!(i8_from_bits(0x00), 0);
    assert_eq!(i8_from_bits(0x7F), 127);
    assert_eq!(i8_from_bits(0x80), -128);
    assert_eq!(i8_from_bits(0xFF), -1);
    assert_eq!(i8_from_bits(0xEC), -20);
}
