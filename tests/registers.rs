use environment_monitor::registers::{
    concat_bytes, get_bits, set_bits, set_bits_pos_0, wrap_u2i16, wrap_u2i8,
};

#[test]
fn concat_bytes_is_big_endian() {
    assert_eq!(concat_bytes(0x12, 0x34), 0x1234);
    assert_eq!(concat_bytes(0xff, 0x00), 0xff00);
}

#[test]
fn set_bits_replaces_only_the_field() {
    assert_eq!(set_bits(0b1111_1111, 0x1c, 2, 0b010), 0b1110_1011);
    assert_eq!(set_bits(0x00, 0xe0, 5, 0b101), 0b1010_0000);
    assert_eq!(set_bits_pos_0(0b1010_1010, 0x07, 0b101), 0b1010_1101);
}

#[test]
fn get_bits_reads_the_field() {
    assert_eq!(get_bits(0b1011_0100, 0x1c, 2), 0b101);
    assert_eq!(get_bits(0b1011_0100, 0xe0, 5), 0b101);
}

#[test]
fn signed_reinterpretation_wraps() {
    assert_eq!(wrap_u2i8(0x7f), 127);
    assert_eq!(wrap_u2i8(0x80), -128);
    assert_eq!(wrap_u2i8(0xff), -1);
    assert_eq!(wrap_u2i16(0x7fff), 32767);
    assert_eq!(wrap_u2i16(0x8000), -32768);
    assert_eq!(wrap_u2i16(0xfffe), -2);
}
