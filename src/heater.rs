//! Heater profiles and their register encodings: gas-wait durations, the
//! shared heating duration of parallel mode, and the gas control registers.
use vstd::prelude::*;
use crate::config::put;
use crate::error::BME68xError;
use crate::registers::{set_bits, set_bits_pos_0};
use crate::settings::{BME68xGasEnable, BME68xOpMode, BME68xRegister, BME68xVariant};

verus! {

/// Largest number of steps of a heater profile.
pub const BME68X_MAX_PROFILE_LEN: u8 = 10;

/// Mask for heater control.
pub const BME68X_HCTRL_MSK: u8 = 0x08;

/// Heater control bit position.
pub const BME68X_HCTRL_POS: u8 = 3;

/// Mask for the number of conversions.
pub const BME68X_NBCONV_MSK: u8 = 0x0f;

/// Mask for run gas.
pub const BME68X_RUN_GAS_MSK: u8 = 0x30;

/// Run gas bit position.
pub const BME68X_RUN_GAS_POS: u8 = 4;

/// Heater control value that turns the heater on.
pub const BME68X_ENABLE_HEATER: u8 = 0x00;

/// Heater control value that turns the heater off.
pub const BME68X_DISABLE_HEATER: u8 = 0x01;

/// The register code of a scaled duration: six bits of mantissa and two bits
/// counting how often the value was divided by four to fit them.
pub open spec fn tier_code(d: nat) -> nat
    decreases d,
{
    if d <= 0x3f {
        d
    } else {
        64 + tier_code(d / 4)
    }
}

/// The gas-wait register byte for a duration in milliseconds.
pub open spec fn gas_wait_code(dur: u16) -> nat {
    if dur >= 0xfc0 {
        0xff
    } else {
        tier_code(dur as nat)
    }
}

/// The shared-heater-duration register byte for a duration in milliseconds.
pub open spec fn heatr_dur_shared_code(dur: u16) -> nat {
    if dur >= 0x783 {
        0xff
    } else {
        tier_code((dur as nat * 1000 / 477) as nat)
    }
}

/// `tier_code` never decreases when its argument grows.
pub proof fn lemma_tier_code_monotonic(a: nat, b: nat)
    requires
        a <= b,
    ensures
        tier_code(a) <= tier_code(b),
    decreases b,
{
    if a > 0x3f {
        lemma_tier_code_monotonic(a / 4, b / 4);
    }
}

/// Scaled durations below 0xfc0 encode below 0xff.
pub proof fn lemma_tier_code_below_saturation(d: nat)
    requires
        d < 0xfc0,
    ensures
        tier_code(d) < 0xff,
{
    reveal_with_fuel(tier_code, 5);
    lemma_tier_code_monotonic(d, 0xfbf);
    assert(tier_code(0xfbf) == 254);
}

/// Encode a gas-wait duration (ms) into its register byte; durations of
/// 0xfc0 ms and more saturate at 0xff.
pub fn calc_gas_wait(dur: u16) -> (r: u8)
    ensures
        r == gas_wait_code(dur),
{
    if dur >= 0xfc0 {
        0xff
    } else {
        let mut d: u16 = dur;
        let mut factor: u16 = 0;
        while d > 0x3f
            invariant
                tier_code(dur as nat) == tier_code(d as nat) + 64 * factor,
                factor <= 3,
                d as nat * pow4(factor) < 0xfc0nat,
            decreases d,
        {
            assert(factor < 3) by {
                assert(d as nat * pow4(factor) >= 64 * pow4(factor)) by (nonlinear_arith)
                    requires
                        d > 0x3f,
                ;
            }
            assert((d / 4) as nat * pow4((factor + 1) as u16) <= d as nat * pow4(factor)) by {
                assert(pow4((factor + 1) as u16) == 4 * pow4(factor));
                assert((d / 4) as nat * (4 * pow4(factor)) <= d as nat * pow4(factor))
                    by (nonlinear_arith);
            }
            d = d / 4;
            factor = factor + 1;
        }
        proof {
            lemma_tier_code_below_saturation(dur as nat);
        }
        (d + factor * 64) as u8
    }
}

/// Powers of four up to the largest scaling step.
pub open spec fn pow4(f: u16) -> nat {
    if f == 0 {
        1
    } else if f == 1 {
        4
    } else if f == 2 {
        16
    } else if f == 3 {
        64
    } else {
        256
    }
}

/// Encode the shared heating duration (ms) of parallel mode into its register
/// byte; durations of 0x783 ms and more saturate at 0xff.
pub fn calc_heatr_dur_shared(dur: u16) -> (r: u8)
    ensures
        r == heatr_dur_shared_code(dur),
{
    if dur >= 0x783 {
        0xff
    } else {
        let scaled: u32 = (dur as u32 * 1000) / 477;
        assert(scaled < 0xfc0);
        let mut d: u16 = scaled as u16;
        let mut factor: u16 = 0;
        while d > 0x3f
            invariant
                tier_code(scaled as nat) == tier_code(d as nat) + 64 * factor,
                factor <= 3,
                d as nat * pow4(factor) < 0xfc0nat,
            decreases d,
        {
            assert(factor < 3) by {
                assert(d as nat * pow4(factor) >= 64 * pow4(factor)) by (nonlinear_arith)
                    requires
                        d > 0x3f,
                ;
            }
            assert((d / 4) as nat * pow4((factor + 1) as u16) <= d as nat * pow4(factor)) by {
                assert(pow4((factor + 1) as u16) == 4 * pow4(factor));
                assert((d / 4) as nat * (4 * pow4(factor)) <= d as nat * pow4(factor))
                    by (nonlinear_arith);
            }
            assert(d >> 2 == d / 4) by (bit_vector);
            d = d >> 2;
            factor = factor + 1;
        }
        proof {
            lemma_tier_code_below_saturation(scaled as nat);
        }
        (d + factor * 64) as u8
    }
}

/// The gas-wait encoding never decreases as the duration grows; it is 0 for
/// 0 ms, saturates at 0xff from 0xfc0 ms on, and stays below 0xff before that.
pub proof fn lemma_gas_wait_monotonic(a: u16, b: u16)
    requires
        a <= b,
    ensures
        gas_wait_code(a) <= gas_wait_code(b),
        gas_wait_code(0) == 0,
        gas_wait_code(0xfc0) == 0xff,
        gas_wait_code(0xfbf) < 0xff,
{
    if b < 0xfc0 {
        lemma_tier_code_monotonic(a as nat, b as nat);
    } else if a < 0xfc0 {
        lemma_tier_code_below_saturation(a as nat);
    }
    lemma_tier_code_below_saturation(0xfbf);
}

/// The shared-heater-duration encoding saturates at 0xff from 0x783 ms on and
/// stays below 0xff for every shorter duration.
pub proof fn lemma_heatr_dur_shared_saturation(dur: u16)
    ensures
        dur >= 0x783 ==> heatr_dur_shared_code(dur) == 0xff,
        dur < 0x783 ==> heatr_dur_shared_code(dur) < 0xff,
{
    if dur < 0x783 {
        lemma_tier_code_below_saturation((dur as nat * 1000 / 477) as nat);
    }
}

/// Gas heater configuration.
#[derive(Debug, Clone, Copy)]
pub struct BME68xHeatrConf {
    /// Enable gas measurement
    pub enable: bool,
    /// Heater temperature for forced mode, in degrees Celsius
    pub heatr_temp: u16,
    /// Heating duration for forced mode, in milliseconds
    pub heatr_dur: u16,
    /// Heater temperature profile in degrees Celsius, at most ten steps
    pub heatr_temp_prof: [u16; 10],
    /// Heating duration profile in milliseconds, at most ten steps
    pub heatr_dur_prof: [u16; 10],
    /// Number of steps of the heating profile
    pub profile_len: u8,
    /// Heating duration of parallel mode, in milliseconds
    pub shared_heatr_dur: u16,
}

impl BME68xHeatrConf {
    /// An empty configuration: heater off, every duration and temperature 0.
    pub fn new() -> (r: Self)
        ensures
            !r.enable,
            r.heatr_temp == 0,
            r.heatr_dur == 0,
            forall|i: int| 0 <= i < 10 ==> r.heatr_temp_prof@[i] == 0,
            forall|i: int| 0 <= i < 10 ==> r.heatr_dur_prof@[i] == 0,
            r.profile_len == 0,
            r.shared_heatr_dur == 0,
    {
        BME68xHeatrConf {
            enable: false,
            heatr_temp: 0,
            heatr_dur: 0,
            heatr_temp_prof: [0u16; 10],
            heatr_dur_prof: [0u16; 10],
            profile_len: 0,
            shared_heatr_dur: 0,
        }
    }

    /// The number of heater steps programmed for a mode, or why none can be.
    pub open spec fn step_count(self, op_mode: BME68xOpMode) -> Result<nat, BME68xError> {
        match op_mode {
            BME68xOpMode::SleepMode => Err(BME68xError::DefineOpMode),
            BME68xOpMode::ForcedMode => Ok(1),
            BME68xOpMode::ParallelMode => if self.shared_heatr_dur == 0 {
                Err(BME68xError::DefineShdHeatrDur)
            } else if self.profile_len == 0 || self.profile_len > 10 {
                Err(BME68xError::InvalidLength)
            } else {
                Ok(self.profile_len as nat)
            },
            BME68xOpMode::SequentialMode => if self.profile_len == 0 || self.profile_len > 10 {
                Err(BME68xError::InvalidLength)
            } else {
                Ok(self.profile_len as nat)
            },
        }
    }

    /// The target temperature of step `i` in a mode.
    pub open spec fn step_temp(self, op_mode: BME68xOpMode, i: int) -> u16 {
        if op_mode == BME68xOpMode::ForcedMode {
            self.heatr_temp
        } else {
            self.heatr_temp_prof@[i]
        }
    }

    /// The heating duration of step `i` in a mode.
    pub open spec fn step_dur(self, op_mode: BME68xOpMode, i: int) -> u16 {
        if op_mode == BME68xOpMode::ForcedMode {
            self.heatr_dur
        } else {
            self.heatr_dur_prof@[i]
        }
    }
}

/// Register writes that program a heater configuration.
#[derive(Debug)]
pub struct HeaterRegisters {
    /// Shared heating duration byte, written in parallel mode only
    pub shared_dur: Option<u8>,
    /// Heater resistance register of each step
    pub res_heat_addr: Vec<u8>,
    /// Heater resistance byte of each step
    pub res_heat_data: Vec<u8>,
    /// Gas wait register of each step
    pub gas_wait_addr: Vec<u8>,
    /// Gas wait byte of each step
    pub gas_wait_data: Vec<u8>,
    /// Number of conversions for the gas control register
    pub nb_conv: u8,
}

/// The heater target temperatures to convert into heater-resistance bytes,
/// one per step of `conf` in `op_mode`.
pub fn heater_temperatures(conf: &BME68xHeatrConf, op_mode: BME68xOpMode) -> (r: Result<
    Vec<u16>,
    BME68xError,
>)
    ensures
        conf.step_count(op_mode) matches Err(e) ==> r == Err::<Vec<u16>, BME68xError>(e),
        conf.step_count(op_mode) matches Ok(n) ==> (r matches Ok(v) && v@.len() == n && forall|
            i: int,
        |
            0 <= i < n ==> v@[i] == conf.step_temp(op_mode, i)),
{
    let n = step_count(conf, op_mode)?;
    let mut v: Vec<u16> = Vec::new();
    let mut i: u8 = 0;
    while i < n
        invariant
            conf.step_count(op_mode) == Ok::<nat, BME68xError>(n as nat),
            n <= 10,
            i <= n,
            v@.len() == i,
            forall|k: int| 0 <= k < i ==> v@[k] == conf.step_temp(op_mode, k),
        decreases n - i,
    {
        if op_mode == BME68xOpMode::ForcedMode {
            v.push(conf.heatr_temp);
        } else {
            v.push(conf.heatr_temp_prof[i as usize]);
        }
        i = i + 1;
    }
    Ok(v)
}

/// The number of heater steps programmed for a mode, or why none can be.
fn step_count(conf: &BME68xHeatrConf, op_mode: BME68xOpMode) -> (r: Result<u8, BME68xError>)
    ensures
        conf.step_count(op_mode) matches Err(e) ==> r == Err::<u8, BME68xError>(e),
        conf.step_count(op_mode) matches Ok(n) ==> r == Ok::<u8, BME68xError>(n as u8) && n
            <= 10,
{
    match op_mode {
        BME68xOpMode::SleepMode => Err(BME68xError::DefineOpMode),
        BME68xOpMode::ForcedMode => Ok(1),
        BME68xOpMode::ParallelMode => {
            if conf.shared_heatr_dur == 0 {
                Err(BME68xError::DefineShdHeatrDur)
            } else if conf.profile_len == 0 || conf.profile_len > BME68X_MAX_PROFILE_LEN {
                Err(BME68xError::InvalidLength)
            } else {
                Ok(conf.profile_len)
            }
        },
        BME68xOpMode::SequentialMode => {
            if conf.profile_len == 0 || conf.profile_len > BME68X_MAX_PROFILE_LEN {
                Err(BME68xError::InvalidLength)
            } else {
                Ok(conf.profile_len)
            }
        },
    }
}

/// Whether `h` holds the register writes that program `conf` in `op_mode`
/// with `n` steps, the heater-resistance bytes being `res_heat`.
pub open spec fn is_heater_plan(
    h: HeaterRegisters,
    conf: BME68xHeatrConf,
    op_mode: BME68xOpMode,
    res_heat: Seq<u8>,
    n: nat,
) -> bool {
    &&& h.res_heat_addr@.len() == n
    &&& h.res_heat_data@ == res_heat
    &&& h.gas_wait_addr@.len() == n
    &&& h.gas_wait_data@.len() == n
    &&& forall|i: int|
        0 <= i < n ==> {
            &&& h.res_heat_addr@[i] == 0x5a + i
            &&& h.gas_wait_addr@[i] == 0x64 + i
            &&& h.gas_wait_data@[i] == gas_wait_code(conf.step_dur(op_mode, i))
        }
    &&& h.nb_conv == (if op_mode == BME68xOpMode::ForcedMode {
        0
    } else {
        n
    })
    &&& h.shared_dur == (if op_mode == BME68xOpMode::ParallelMode {
        Some(heatr_dur_shared_code(conf.shared_heatr_dur) as u8)
    } else {
        None
    })
}

/// The register writes that program the heater steps of `conf` in `op_mode`.
/// `res_heat` holds the heater-resistance byte of each step, in the order of
/// `heater_temperatures`; `InvalidLength` when it has another length.
pub fn heater_registers(conf: &BME68xHeatrConf, op_mode: BME68xOpMode, res_heat: &Vec<u8>) -> (r:
    Result<HeaterRegisters, BME68xError>)
    ensures
        conf.step_count(op_mode) matches Err(e) ==> (r matches Err(e2) && e2 == e),
        conf.step_count(op_mode) matches Ok(n) ==> {
            &&& res_heat@.len() != n ==> (r matches Err(e) && e == BME68xError::InvalidLength)
            &&& res_heat@.len() == n ==> (r matches Ok(h) && is_heater_plan(
                h,
                *conf,
                op_mode,
                res_heat@,
                n,
            ))
        },
{
    let n = step_count(conf, op_mode)?;
    if res_heat.len() != n as usize {
        return Err(BME68xError::InvalidLength);
    }
    let mut res_heat_addr: Vec<u8> = Vec::new();
    let mut res_heat_data: Vec<u8> = Vec::new();
    let mut gas_wait_addr: Vec<u8> = Vec::new();
    let mut gas_wait_data: Vec<u8> = Vec::new();
    let mut i: u8 = 0;
    while i < n
        invariant
            n <= 10,
            i <= n,
            res_heat@.len() == n,
            res_heat_addr@.len() == i,
            res_heat_data@ == res_heat@.subrange(0, i as int),
            gas_wait_addr@.len() == i,
            gas_wait_data@.len() == i,
            forall|k: int|
                0 <= k < i ==> {
                    &&& res_heat_addr@[k] == 0x5a + k
                    &&& gas_wait_addr@[k] == 0x64 + k
                    &&& gas_wait_data@[k] == gas_wait_code(conf.step_dur(op_mode, k))
                },
        decreases n - i,
    {
        let dur = if op_mode == BME68xOpMode::ForcedMode {
            conf.heatr_dur
        } else {
            conf.heatr_dur_prof[i as usize]
        };
        res_heat_addr.push(BME68xRegister::ResHeat0.to_u8() + i);
        res_heat_data.push(res_heat[i as usize]);
        gas_wait_addr.push(BME68xRegister::GasWait0.to_u8() + i);
        gas_wait_data.push(calc_gas_wait(dur));
        assert(res_heat@.subrange(0, i + 1) == res_heat@.subrange(0, i as int).push(
            res_heat@[i as int],
        ));
        i = i + 1;
    }
    assert(res_heat@.subrange(0, n as int) == res_heat@);
    let shared_dur = if op_mode == BME68xOpMode::ParallelMode {
        Some(calc_heatr_dur_shared(conf.shared_heatr_dur))
    } else {
        None
    };
    let nb_conv = if op_mode == BME68xOpMode::ForcedMode {
        0
    } else {
        n
    };
    Ok(
        HeaterRegisters {
            shared_dur,
            res_heat_addr,
            res_heat_data,
            gas_wait_addr,
            gas_wait_data,
            nb_conv,
        },
    )
}

/// The heater-control code written for a configuration.
pub open spec fn hctrl_code(enable: bool) -> u8 {
    if enable { 0x00 } else { 0x01 }
}

/// The run-gas code written for a configuration and a gas variant.
pub open spec fn run_gas_code(enable: bool, variant: BME68xVariant) -> u8 {
    if !enable {
        0x00
    } else if variant == BME68xVariant::GasHigh {
        0x02
    } else {
        0x01
    }
}

/// Merge the heater switch, number of conversions and run-gas setting into the
/// two gas control registers read from the device (read-modify-write).
pub fn ctrl_gas_values(
    ctrl_gas0: u8,
    ctrl_gas1: u8,
    enable: bool,
    variant: BME68xVariant,
    nb_conv: u8,
) -> (r: (u8, u8))
    ensures
        r.0 == put(ctrl_gas0, 0x08, 3, hctrl_code(enable)),
        r.1 == put((ctrl_gas1 & !0x0fu8) | (nb_conv & 0x0f), 0x30, 4, run_gas_code(enable, variant)),
{
    let (hctrl, run_gas) = if enable {
        if variant == BME68xVariant::GasHigh {
            (BME68X_ENABLE_HEATER, BME68xGasEnable::EnableHigh)
        } else {
            (BME68X_ENABLE_HEATER, BME68xGasEnable::EnableLow)
        }
    } else {
        (BME68X_DISABLE_HEATER, BME68xGasEnable::Disable)
    };
    let g0 = set_bits(ctrl_gas0, BME68X_HCTRL_MSK, BME68X_HCTRL_POS, hctrl);
    let g1 = set_bits_pos_0(ctrl_gas1, BME68X_NBCONV_MSK, nb_conv);
    let g1 = set_bits(g1, BME68X_RUN_GAS_MSK, BME68X_RUN_GAS_POS, run_gas.to_u8());
    (g0, g1)
}

} // verus!
