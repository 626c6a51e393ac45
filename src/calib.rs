//! Calibration coefficients, unpacked from the three coefficient windows of
//! the device memory.
use vstd::prelude::*;
use crate::error::BME68xError;
use crate::registers::{concat_bytes, signed_byte, signed_word, wrap_u2i16, wrap_u2i8};

verus! {

/// Length of all coefficients together.
pub const BME68X_LEN_COEFF_ALL: usize = 42;

/// Length of the first group of coefficients, read from register 0x8a.
pub const BME68X_LEN_COEFF1: usize = 23;

/// Length of the second group of coefficients, read from register 0xe1.
pub const BME68X_LEN_COEFF2: usize = 14;

/// Length of the third group of coefficients, read from register 0x00.
pub const BME68X_LEN_COEFF3: usize = 5;

/// Calibration coefficients of one sensor.
#[derive(Debug, Clone, Copy, PartialEq, Eq, Structural)]
pub struct BME68xCalibData {
    /// Humidity coefficient number 1
    pub par_h1: u16,
    /// Humidity coefficient number 2
    pub par_h2: u16,
    /// Humidity coefficient number 3
    pub par_h3: i8,
    /// Humidity coefficient number 4
    pub par_h4: i8,
    /// Humidity coefficient number 5
    pub par_h5: i8,
    /// Humidity coefficient number 6
    pub par_h6: u8,
    /// Humidity coefficient number 7
    pub par_h7: i8,
    /// Gas heater coefficient number 1
    pub par_gh1: i8,
    /// Gas heater coefficient number 2
    pub par_gh2: i16,
    /// Gas heater coefficient number 3
    pub par_gh3: i8,
    /// Temperature coefficient number 1
    pub par_t1: u16,
    /// Temperature coefficient number 2
    pub par_t2: i16,
    /// Temperature coefficient number 3
    pub par_t3: i8,
    /// Pressure coefficient number 1
    pub par_p1: u16,
    /// Pressure coefficient number 2
    pub par_p2: i16,
    /// Pressure coefficient number 3
    pub par_p3: i8,
    /// Pressure coefficient number 4
    pub par_p4: i16,
    /// Pressure coefficient number 5
    pub par_p5: i16,
    /// Pressure coefficient number 6
    pub par_p6: i8,
    /// Pressure coefficient number 7
    pub par_p7: i8,
    /// Pressure coefficient number 8
    pub par_p8: i16,
    /// Pressure coefficient number 9
    pub par_p9: i16,
    /// Pressure coefficient number 10
    pub par_p10: u8,
    /// Heater resistance range
    pub res_heat_range: u8,
    /// Heater resistance value
    pub res_heat_val: i8,
    /// Gas resistance range switching error
    pub range_sw_err: i8,
}

/// The 16-bit word whose high byte is `c[msb]` and low byte `c[lsb]`.
pub open spec fn word(c: Seq<u8>, msb: int, lsb: int) -> u16 {
    (c[msb] as int * 256 + c[lsb] as int) as u16
}

/// The coefficients that a 42-byte coefficient block holds.
pub open spec fn calib_of(c: Seq<u8>) -> BME68xCalibData {
    BME68xCalibData {
        par_t1: word(c, 32, 31),
        par_t2: signed_word(word(c, 1, 0)) as i16,
        par_t3: signed_byte(c[2]) as i8,
        par_p1: word(c, 5, 4),
        par_p2: signed_word(word(c, 7, 6)) as i16,
        par_p3: signed_byte(c[8]) as i8,
        par_p4: signed_word(word(c, 11, 10)) as i16,
        par_p5: signed_word(word(c, 13, 12)) as i16,
        par_p6: signed_byte(c[15]) as i8,
        par_p7: signed_byte(c[14]) as i8,
        par_p8: signed_word(word(c, 19, 18)) as i16,
        par_p9: signed_word(word(c, 21, 20)) as i16,
        par_p10: c[22],
        par_h1: (c[25] as int * 16 + (c[24] & 0x0f) as int) as u16,
        par_h2: (c[23] as int * 16 + c[24] as int / 16) as u16,
        par_h3: signed_byte(c[26]) as i8,
        par_h4: signed_byte(c[27]) as i8,
        par_h5: signed_byte(c[28]) as i8,
        par_h6: c[29],
        par_h7: signed_byte(c[30]) as i8,
        par_gh1: signed_byte(c[35]) as i8,
        par_gh2: signed_word(word(c, 34, 33)) as i16,
        par_gh3: signed_byte(c[36]) as i8,
        res_heat_range: ((c[39] & 0x30) / 16) as u8,
        res_heat_val: signed_byte(c[37]) as i8,
        range_sw_err: (signed_byte(c[41] & 0xf0) / 16) as i8,
    }
}

fn word_at(c: &Vec<u8>, msb: usize, lsb: usize) -> (r: u16)
    requires
        msb < c@.len(),
        lsb < c@.len(),
    ensures
        r == word(c@, msb as int, lsb as int),
{
    concat_bytes(c[msb], c[lsb])
}

impl BME68xCalibData {
    /// Coefficients not read yet: every one 0.
    pub fn new() -> (r: Self)
        ensures
            r == (BME68xCalibData {
            par_h1: 0,
            par_h2: 0,
            par_h3: 0,
            par_h4: 0,
            par_h5: 0,
            par_h6: 0,
            par_h7: 0,
            par_gh1: 0,
            par_gh2: 0,
            par_gh3: 0,
            par_t1: 0,
            par_t2: 0,
            par_t3: 0,
            par_p1: 0,
            par_p2: 0,
            par_p3: 0,
            par_p4: 0,
            par_p5: 0,
            par_p6: 0,
            par_p7: 0,
            par_p8: 0,
            par_p9: 0,
            par_p10: 0,
            res_heat_range: 0,
            res_heat_val: 0,
            range_sw_err: 0,
        }),
    {
        BME68xCalibData {
            par_h1: 0,
            par_h2: 0,
            par_h3: 0,
            par_h4: 0,
            par_h5: 0,
            par_h6: 0,
            par_h7: 0,
            par_gh1: 0,
            par_gh2: 0,
            par_gh3: 0,
            par_t1: 0,
            par_t2: 0,
            par_t3: 0,
            par_p1: 0,
            par_p2: 0,
            par_p3: 0,
            par_p4: 0,
            par_p5: 0,
            par_p6: 0,
            par_p7: 0,
            par_p8: 0,
            par_p9: 0,
            par_p10: 0,
            res_heat_range: 0,
            res_heat_val: 0,
            range_sw_err: 0,
        }
    }

    /// Unpack the 42-byte coefficient block (the three coefficient windows
    /// read one after the other); `InvalidLength` for a block of another length.
    pub fn from_coefficients(c: &Vec<u8>) -> (r: Result<BME68xCalibData, BME68xError>)
        ensures
            c@.len() == BME68X_LEN_COEFF_ALL ==> r == Ok::<BME68xCalibData, BME68xError>(
                calib_of(c@),
            ),
            c@.len() != BME68X_LEN_COEFF_ALL ==> r == Err::<BME68xCalibData, BME68xError>(
                BME68xError::InvalidLength,
            ),
    {
        if c.len() != BME68X_LEN_COEFF_ALL {
            return Err(BME68xError::InvalidLength);
        }
        let hi = c[41] >> 4u8;
        proof {
            let b = c@[41];
            assert(b & 0xf0 == (b >> 4u8) * 16 && (b >> 4u8) < 16) by (bit_vector);
        }
        let range_sw_err: i8 = if hi > 7 {
            hi as i8 - 16
        } else {
            hi as i8
        };
        let r = BME68xCalibData {
            par_t1: word_at(c, 32, 31),
            par_t2: wrap_u2i16(word_at(c, 1, 0)),
            par_t3: wrap_u2i8(c[2]),
            par_p1: word_at(c, 5, 4),
            par_p2: wrap_u2i16(word_at(c, 7, 6)),
            par_p3: wrap_u2i8(c[8]),
            par_p4: wrap_u2i16(word_at(c, 11, 10)),
            par_p5: wrap_u2i16(word_at(c, 13, 12)),
            par_p6: wrap_u2i8(c[15]),
            par_p7: wrap_u2i8(c[14]),
            par_p8: wrap_u2i16(word_at(c, 19, 18)),
            par_p9: wrap_u2i16(word_at(c, 21, 20)),
            par_p10: c[22],
            par_h1: (c[25] as u16) * 16 + ((c[24] & 0x0f) as u16),
            par_h2: (c[23] as u16) * 16 + (c[24] as u16) / 16,
            par_h3: wrap_u2i8(c[26]),
            par_h4: wrap_u2i8(c[27]),
            par_h5: wrap_u2i8(c[28]),
            par_h6: c[29],
            par_h7: wrap_u2i8(c[30]),
            par_gh1: wrap_u2i8(c[35]),
            par_gh2: wrap_u2i16(word_at(c, 34, 33)),
            par_gh3: wrap_u2i8(c[36]),
            res_heat_range: (c[39] & 0x30) / 16,
            res_heat_val: wrap_u2i8(c[37]),
            range_sw_err,
        };
        Ok(r)
    }
}

} // verus!
