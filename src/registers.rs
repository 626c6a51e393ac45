//! Bit-field helpers shared by every register map of the crate.
use vstd::prelude::*;

verus! {

/// Join two bytes into one big-endian 16-bit word.
pub fn concat_bytes(msb: u8, lsb: u8) -> (r: u16)
    ensures
        r == msb as u16 * 256 + lsb as u16,
{
    let r = ((msb as u16) << 8u16) | (lsb as u16);
    assert(((msb as u16) << 8u16) | (lsb as u16) == msb as u16 * 256 + lsb as u16)
        by (bit_vector);
    r
}

/// Replace the bits of `reg_data` under `bitmask` by `data` shifted to `bitpos`.
pub fn set_bits(reg_data: u8, bitmask: u8, bitpos: u8, data: u8) -> (r: u8)
    requires
        bitpos < 8,
    ensures
        r == (reg_data & !bitmask) | (((data << bitpos) as u8) & bitmask),
{
    (reg_data & !bitmask) | ((data << bitpos) & bitmask)
}

/// Replace the bits of `reg_data` under `bitmask` by the same bits of `data`.
pub fn set_bits_pos_0(reg_data: u8, bitmask: u8, data: u8) -> (r: u8)
    ensures
        r == (reg_data & !bitmask) | (data & bitmask),
{
    (reg_data & !bitmask) | (data & bitmask)
}

/// Read the bits of `reg_data` under `bitmask`, shifted down by `bitpos`.
pub fn get_bits(reg_data: u8, bitmask: u8, bitpos: u8) -> (r: u8)
    requires
        bitpos < 8,
    ensures
        r == (reg_data & bitmask) >> bitpos,
{
    (reg_data & bitmask) >> bitpos
}

/// The two's-complement reading of a byte.
pub open spec fn signed_byte(value: u8) -> int {
    if value < 128 { value as int } else { value as int - 256 }
}

/// The two's-complement reading of a 16-bit word.
pub open spec fn signed_word(value: u16) -> int {
    if value < 32768 { value as int } else { value as int - 65536 }
}

/// Reinterpret a byte as a signed byte.
pub fn wrap_u2i8(value: u8) -> (r: i8)
    ensures
        r == signed_byte(value),
{
    if value < 128 {
        value as i8
    } else {
        (value as i16 - 256) as i8
    }
}

/// Reinterpret a 16-bit word as a signed word.
pub fn wrap_u2i16(value: u16) -> (r: i16)
    ensures
        r == signed_word(value),
{
    if value < 32768 {
        value as i16
    } else {
        (value as i32 - 65536) as i16
    }
}

} // verus!
