//! Oversampling, filter and output-data-rate configuration, and how it sits in
//! the five configuration registers (0x71 to 0x75).
use vstd::prelude::*;
use crate::error::BME68xError;
use crate::registers::{get_bits, set_bits, set_bits_pos_0};
use crate::settings::{
    filter_of_code, odr_of_code, os_of_code, BME68xFilter, BME68xODR, BME68xOpMode, BME68xOs,
};

verus! {

/// Number of configuration registers read and written together.
pub const BME68X_LEN_CONFIG: usize = 5;

/// Mask for the IIR filter in the config register.
pub const BME68X_FILTER_MSK: u8 = 0x1c;

/// Filter bit position.
pub const BME68X_FILTER_POS: u8 = 2;

/// Mask for ODR\[3\] in gas control 1.
pub const BME68X_ODR3_MSK: u8 = 0x80;

/// ODR\[3\] bit position.
pub const BME68X_ODR3_POS: u8 = 7;

/// Mask for ODR\[2:0\] in the config register.
pub const BME68X_ODR20_MSK: u8 = 0xe0;

/// ODR\[2:0\] bit position.
pub const BME68X_ODR20_POS: u8 = 5;

/// Mask for temperature oversampling.
pub const BME68X_OST_MSK: u8 = 0xe0;

/// Temperature oversampling bit position.
pub const BME68X_OST_POS: u8 = 5;

/// Mask for pressure oversampling.
pub const BME68X_OSP_MSK: u8 = 0x1c;

/// Pressure oversampling bit position.
pub const BME68X_OSP_POS: u8 = 2;

/// Mask for humidity oversampling.
pub const BME68X_OSH_MSK: u8 = 0x07;

/// Oversampling, filter and standby-time settings.
#[derive(Debug, Clone, Copy, PartialEq, Eq, Structural)]
pub struct BME68xConf {
    /// Humidity oversampling
    pub os_hum: BME68xOs,
    /// Temperature oversampling
    pub os_temp: BME68xOs,
    /// Pressure oversampling
    pub os_pres: BME68xOs,
    /// Filter coefficient
    pub filter: BME68xFilter,
    /// Standby time between sequential-mode measurement profiles
    pub odr: BME68xODR,
}

/// The bits of `b` under `mask`, shifted down by `pos`.
pub open spec fn field(b: u8, mask: u8, pos: u8) -> u8 {
    (b & mask) >> pos
}

/// `b` with the bits under `mask` replaced by `v` shifted up by `pos`.
pub open spec fn put(b: u8, mask: u8, pos: u8, v: u8) -> u8 {
    (b & !mask) | ((v << pos) & mask)
}

/// The ODR\[2:0\] code written for a standby time.
pub open spec fn odr20_code(odr: BME68xODR) -> u8 {
    if odr == BME68xODR::ODRNone { 0 } else { odr.spec_code() }
}

/// The ODR\[3\] bit written for a standby time: set only for "no standby".
pub open spec fn odr3_code(odr: BME68xODR) -> u8 {
    if odr == BME68xODR::ODRNone { 1 } else { 0 }
}

/// The five configuration registers after writing `conf` over `regs`.
pub open spec fn registers_with_conf(regs: Seq<u8>, conf: BME68xConf) -> Seq<u8> {
    seq![
        put(regs[0], 0x80, 7, odr3_code(conf.odr)),
        (regs[1] & !0x07u8) | (conf.os_hum.spec_code() & 0x07),
        regs[2],
        put(put(regs[3], 0xe0, 5, conf.os_temp.spec_code()), 0x1c, 2, conf.os_pres.spec_code()),
        put(put(regs[4], 0x1c, 2, conf.filter.spec_code()), 0xe0, 5, odr20_code(conf.odr)),
    ]
}

/// The configuration that the five configuration registers hold, if every
/// field holds a known code.
pub open spec fn conf_of_registers(regs: Seq<u8>) -> Option<BME68xConf> {
    let os_hum = os_of_code(regs[1] & 0x07);
    let os_temp = os_of_code(field(regs[3], 0xe0, 5));
    let os_pres = os_of_code(field(regs[3], 0x1c, 2));
    let filter = filter_of_code(field(regs[4], 0x1c, 2));
    let odr = if field(regs[0], 0x80, 7) != 0 {
        Some(BME68xODR::ODRNone)
    } else {
        odr_of_code(field(regs[4], 0xe0, 5))
    };
    if os_hum is Some && os_temp is Some && os_pres is Some && filter is Some && odr is Some {
        Some(
            BME68xConf {
                os_hum: os_hum->0,
                os_temp: os_temp->0,
                os_pres: os_pres->0,
                filter: filter->0,
                odr: odr->0,
            },
        )
    } else {
        None
    }
}

/// Addresses of the five configuration registers, in the order of their values.
pub fn config_register_addresses() -> (r: Vec<u8>)
    ensures
        r@ == seq![0x71u8, 0x72u8, 0x73u8, 0x74u8, 0x75u8],
{
    vec![0x71, 0x72, 0x73, 0x74, 0x75]
}

/// Merge `conf` into the configuration registers read from the device
/// (read-modify-write): only the oversampling, filter and ODR bit-fields change.
pub fn config_register_values(current: &Vec<u8>, conf: &BME68xConf) -> (r: Vec<u8>)
    requires
        current@.len() == BME68X_LEN_CONFIG,
    ensures
        r@ == registers_with_conf(current@, *conf),
        conf_of_registers(r@) == Some(*conf),
{
    let mut odr20: u8 = 0;
    let mut odr3: u8 = 1;
    if conf.odr != BME68xODR::ODRNone {
        odr20 = conf.odr.to_u8();
        odr3 = 0;
    }
    let d4 = set_bits(current[4], BME68X_FILTER_MSK, BME68X_FILTER_POS, conf.filter.to_u8());
    let d4 = set_bits(d4, BME68X_ODR20_MSK, BME68X_ODR20_POS, odr20);
    let d3 = set_bits(current[3], BME68X_OST_MSK, BME68X_OST_POS, conf.os_temp.to_u8());
    let d3 = set_bits(d3, BME68X_OSP_MSK, BME68X_OSP_POS, conf.os_pres.to_u8());
    let d1 = set_bits_pos_0(current[1], BME68X_OSH_MSK, conf.os_hum.to_u8());
    let d0 = set_bits(current[0], BME68X_ODR3_MSK, BME68X_ODR3_POS, odr3);
    let r = vec![d0, d1, current[2], d3, d4];
    proof {
        lemma_config_round_trip(current@, *conf);
    }
    r
}

/// Read the configuration back from the five configuration registers;
/// `CastError` when an oversampling field holds an unknown code.
pub fn decode_config(regs: &Vec<u8>) -> (r: Result<BME68xConf, BME68xError>)
    requires
        regs@.len() == BME68X_LEN_CONFIG,
    ensures
        conf_of_registers(regs@) matches Some(c) ==> r == Ok::<BME68xConf, BME68xError>(c),
        conf_of_registers(regs@) is None ==> r == Err::<BME68xConf, BME68xError>(
            BME68xError::CastError,
        ),
{
    let os_hum = BME68xOs::from_u8(regs[1] & BME68X_OSH_MSK)?;
    let os_temp = BME68xOs::from_u8(get_bits(regs[3], BME68X_OST_MSK, BME68X_OST_POS))?;
    let os_pres = BME68xOs::from_u8(get_bits(regs[3], BME68X_OSP_MSK, BME68X_OSP_POS))?;
    let filter = BME68xFilter::from_u8(get_bits(regs[4], BME68X_FILTER_MSK, BME68X_FILTER_POS))?;
    let odr = if get_bits(regs[0], BME68X_ODR3_MSK, BME68X_ODR3_POS) != 0 {
        BME68xODR::ODRNone
    } else {
        BME68xODR::from_u8(get_bits(regs[4], BME68X_ODR20_MSK, BME68X_ODR20_POS))?
    };
    Ok(BME68xConf { os_hum, os_temp, os_pres, filter, odr })
}

/// Writing a configuration over any register contents and reading it back
/// gives the same configuration, and leaves every bit outside the
/// oversampling, filter and ODR fields as it was.
pub proof fn lemma_config_round_trip(regs: Seq<u8>, conf: BME68xConf)
    requires
        regs.len() == 5,
    ensures
        conf_of_registers(registers_with_conf(regs, conf)) == Some(conf),
        registers_with_conf(regs, conf)[0] & 0x7f == regs[0] & 0x7f,
        registers_with_conf(regs, conf)[1] & 0xf8 == regs[1] & 0xf8,
        registers_with_conf(regs, conf)[2] == regs[2],
        registers_with_conf(regs, conf)[3] & 0x03 == regs[3] & 0x03,
        registers_with_conf(regs, conf)[4] & 0x03 == regs[4] & 0x03,
{
    let w = registers_with_conf(regs, conf);
    let (r0, r1, r3, r4) = (regs[0], regs[1], regs[3], regs[4]);
    let h = conf.os_hum.spec_code();
    let t = conf.os_temp.spec_code();
    let p = conf.os_pres.spec_code();
    let f = conf.filter.spec_code();
    let o20 = odr20_code(conf.odr);
    let o3 = odr3_code(conf.odr);
    assert(h < 8 && t < 8 && p < 8 && f < 8 && o20 < 8 && o3 < 2);
    assert(((r1 & !0x07u8) | (h & 0x07)) & 0x07 == h && ((r1 & !0x07u8) | (h & 0x07)) & 0xf8
        == r1 & 0xf8) by (bit_vector)
        requires
            h < 8,
    ;
    assert(field(put(put(r3, 0xe0, 5, t), 0x1c, 2, p), 0xe0, 5) == t && field(
        put(put(r3, 0xe0, 5, t), 0x1c, 2, p),
        0x1c,
        2,
    ) == p && put(put(r3, 0xe0, 5, t), 0x1c, 2, p) & 0x03 == r3 & 0x03) by (bit_vector)
        requires
            t < 8,
            p < 8,
    ;
    assert(field(put(put(r4, 0x1c, 2, f), 0xe0, 5, o20), 0x1c, 2) == f && field(
        put(put(r4, 0x1c, 2, f), 0xe0, 5, o20),
        0xe0,
        5,
    ) == o20 && put(put(r4, 0x1c, 2, f), 0xe0, 5, o20) & 0x03 == r4 & 0x03) by (bit_vector)
        requires
            f < 8,
            o20 < 8,
    ;
    assert(field(put(r0, 0x80, 7, o3), 0x80, 7) == o3 && put(r0, 0x80, 7, o3) & 0x7f == r0
        & 0x7f) by (bit_vector)
        requires
            o3 < 2,
    ;
}

/// Time of one TPH-and-gas measurement cycle in microseconds, before heating.
pub open spec fn meas_dur(op_mode: BME68xOpMode, conf: BME68xConf) -> int {
    (conf.os_temp.spec_meas_cycles() + conf.os_pres.spec_meas_cycles()
        + conf.os_hum.spec_meas_cycles()) * 1963 + 477 * 4 + 477 * 5 + if op_mode
        == BME68xOpMode::ParallelMode {
        1000int
    } else {
        0int
    }
}

/// Measurement duration in microseconds for a mode and configuration: the
/// remaining part of a cycle can be used for heating.
pub fn get_meas_dur(op_mode: BME68xOpMode, conf: &BME68xConf) -> (r: u32)
    ensures
        r == meas_dur(op_mode, *conf),
{
    let meas_cycles = conf.os_temp.get_meas_cycles() + conf.os_pres.get_meas_cycles()
        + conf.os_hum.get_meas_cycles();
    let mut dur = meas_cycles * 1963;
    dur = dur + 477 * 4;
    dur = dur + 477 * 5;
    if op_mode == BME68xOpMode::ParallelMode {
        dur = dur + 1000;
    }
    dur
}

} // verus!
