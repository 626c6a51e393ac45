//! Register layout of the VEML7700 ambient-light sensor: the configuration
//! word, the power-saving register and the interrupt status.
use vstd::prelude::*;

verus! {

/// I2C address of the sensor.
pub const VEML_ADDR: u8 = 0x10;

/// Errors of the light-sensor logic.
#[derive(Debug, Clone, Copy, PartialEq, Eq, Structural)]
pub enum AppError {
    /// A register field names no value of its enumeration
    EnumConversionError,
}

/// Registers of the VEML7700.
#[derive(Debug, Clone, Copy, PartialEq, Eq, Structural)]
pub enum VemlRegister {
    /// Configuration
    Config,
    /// ALS high threshold window
    ALSHighThreshold,
    /// ALS low threshold window
    ALSLowThreshold,
    /// Power saving
    PowerSaving,
    /// ALS output
    ALSValue,
    /// White output
    WhiteValue,
    /// Interrupt status
    ALSInterruptStatus,
}

impl VemlRegister {
    /// The command code of the register.
    pub fn to_u8(self) -> (r: u8)
        ensures
            r == match self {
                VemlRegister::Config => 0x00u8,
                VemlRegister::ALSHighThreshold => 0x01u8,
                VemlRegister::ALSLowThreshold => 0x02u8,
                VemlRegister::PowerSaving => 0x03u8,
                VemlRegister::ALSValue => 0x04u8,
                VemlRegister::WhiteValue => 0x05u8,
                VemlRegister::ALSInterruptStatus => 0x06u8,
            },
    {
        match self {
            VemlRegister::Config => 0x00,
            VemlRegister::ALSHighThreshold => 0x01,
            VemlRegister::ALSLowThreshold => 0x02,
            VemlRegister::PowerSaving => 0x03,
            VemlRegister::ALSValue => 0x04,
            VemlRegister::WhiteValue => 0x05,
            VemlRegister::ALSInterruptStatus => 0x06,
        }
    }
}

/// Power saving modes of the sensor.
#[derive(Debug, Clone, Copy, PartialEq, Eq, Structural)]
pub enum VemlPowerSavingMode {
    /// Mode 1
    Mode1,
    /// Mode 2
    Mode2,
    /// Mode 3
    Mode3,
    /// Mode 4
    Mode4,
}

/// The value of `VemlPowerSavingMode` that a register field stands for.
pub open spec fn psm_of_code(code: u16) -> Option<VemlPowerSavingMode> {
    if code == 0b00 {
        Some(VemlPowerSavingMode::Mode1)
    } else if code == 0b01 {
        Some(VemlPowerSavingMode::Mode2)
    } else if code == 0b10 {
        Some(VemlPowerSavingMode::Mode3)
    } else if code == 0b11 {
        Some(VemlPowerSavingMode::Mode4)
    } else {
        None
    }
}

impl VemlPowerSavingMode {
    pub open spec fn spec_code(self) -> u16 {
        match self {
            VemlPowerSavingMode::Mode1 => 0b00,
            VemlPowerSavingMode::Mode2 => 0b01,
            VemlPowerSavingMode::Mode3 => 0b10,
            VemlPowerSavingMode::Mode4 => 0b11,
        }
    }

    /// The register field of this value.
    pub fn to_u16(self) -> (r: u16)
        ensures
            r == self.spec_code(),
    {
        match self {
            VemlPowerSavingMode::Mode1 => 0b00,
            VemlPowerSavingMode::Mode2 => 0b01,
            VemlPowerSavingMode::Mode3 => 0b10,
            VemlPowerSavingMode::Mode4 => 0b11,
        }
    }

    /// The value that a register field stands for; `EnumConversionError` for
    /// a field that names none.
    pub fn from_u16(value: u16) -> (r: Result<VemlPowerSavingMode, AppError>)
        ensures
            psm_of_code(value) matches Some(v) ==> r == Ok::<VemlPowerSavingMode, AppError>(v),
            psm_of_code(value) is None ==> r == Err::<VemlPowerSavingMode, AppError>(AppError::EnumConversionError),
    {
        match value {
            0b00 => Ok(VemlPowerSavingMode::Mode1),
            0b01 => Ok(VemlPowerSavingMode::Mode2),
            0b10 => Ok(VemlPowerSavingMode::Mode3),
            0b11 => Ok(VemlPowerSavingMode::Mode4),
            _ => Err(AppError::EnumConversionError),
        }
    }
}

/// Gains of the ALS channel.
#[derive(Debug, Clone, Copy, PartialEq, Eq, Structural)]
pub enum VemlGain {
    /// 1x gain
    Gain1,
    /// 2x gain
    Gain2,
    /// 1/8 gain
    Gain1_8,
    /// 1/4 gain
    Gain1_4,
}

/// The value of `VemlGain` that a register field stands for.
pub open spec fn gain_of_code(code: u16) -> Option<VemlGain> {
    if code == 0b00 {
        Some(VemlGain::Gain1)
    } else if code == 0b01 {
        Some(VemlGain::Gain2)
    } else if code == 0b10 {
        Some(VemlGain::Gain1_8)
    } else if code == 0b11 {
        Some(VemlGain::Gain1_4)
    } else {
        None
    }
}

impl VemlGain {
    pub open spec fn spec_code(self) -> u16 {
        match self {
            VemlGain::Gain1 => 0b00,
            VemlGain::Gain2 => 0b01,
            VemlGain::Gain1_8 => 0b10,
            VemlGain::Gain1_4 => 0b11,
        }
    }

    /// The register field of this value.
    pub fn to_u16(self) -> (r: u16)
        ensures
            r == self.spec_code(),
    {
        match self {
            VemlGain::Gain1 => 0b00,
            VemlGain::Gain2 => 0b01,
            VemlGain::Gain1_8 => 0b10,
            VemlGain::Gain1_4 => 0b11,
        }
    }

    /// The value that a register field stands for; `EnumConversionError` for
    /// a field that names none.
    pub fn from_u16(value: u16) -> (r: Result<VemlGain, AppError>)
        ensures
            gain_of_code(value) matches Some(v) ==> r == Ok::<VemlGain, AppError>(v),
            gain_of_code(value) is None ==> r == Err::<VemlGain, AppError>(AppError::EnumConversionError),
    {
        match value {
            0b00 => Ok(VemlGain::Gain1),
            0b01 => Ok(VemlGain::Gain2),
            0b10 => Ok(VemlGain::Gain1_8),
            0b11 => Ok(VemlGain::Gain1_4),
            _ => Err(AppError::EnumConversionError),
        }
    }
}

/// Integration times of the sensor.
#[derive(Debug, Clone, Copy, PartialEq, Eq, Structural)]
pub enum VemlIntegration {
    /// 25 ms
    Int25,
    /// 50 ms
    Int50,
    /// 100 ms
    Int100,
    /// 200 ms
    Int200,
    /// 400 ms
    Int400,
    /// 800 ms
    Int800,
}

/// The value of `VemlIntegration` that a register field stands for.
pub open spec fn integration_of_code(code: u16) -> Option<VemlIntegration> {
    if code == 0b1100 {
        Some(VemlIntegration::Int25)
    } else if code == 0b1000 {
        Some(VemlIntegration::Int50)
    } else if code == 0b0000 {
        Some(VemlIntegration::Int100)
    } else if code == 0b0001 {
        Some(VemlIntegration::Int200)
    } else if code == 0b0010 {
        Some(VemlIntegration::Int400)
    } else if code == 0b0011 {
        Some(VemlIntegration::Int800)
    } else {
        None
    }
}

impl VemlIntegration {
    pub open spec fn spec_code(self) -> u16 {
        match self {
            VemlIntegration::Int25 => 0b1100,
            VemlIntegration::Int50 => 0b1000,
            VemlIntegration::Int100 => 0b0000,
            VemlIntegration::Int200 => 0b0001,
            VemlIntegration::Int400 => 0b0010,
            VemlIntegration::Int800 => 0b0011,
        }
    }

    /// The register field of this value.
    pub fn to_u16(self) -> (r: u16)
        ensures
            r == self.spec_code(),
    {
        match self {
            VemlIntegration::Int25 => 0b1100,
            VemlIntegration::Int50 => 0b1000,
            VemlIntegration::Int100 => 0b0000,
            VemlIntegration::Int200 => 0b0001,
            VemlIntegration::Int400 => 0b0010,
            VemlIntegration::Int800 => 0b0011,
        }
    }

    /// The value that a register field stands for; `EnumConversionError` for
    /// a field that names none.
    pub fn from_u16(value: u16) -> (r: Result<VemlIntegration, AppError>)
        ensures
            integration_of_code(value) matches Some(v) ==> r == Ok::<VemlIntegration, AppError>(v),
            integration_of_code(value) is None ==> r == Err::<VemlIntegration, AppError>(AppError::EnumConversionError),
    {
        match value {
            0b1100 => Ok(VemlIntegration::Int25),
            0b1000 => Ok(VemlIntegration::Int50),
            0b0000 => Ok(VemlIntegration::Int100),
            0b0001 => Ok(VemlIntegration::Int200),
            0b0010 => Ok(VemlIntegration::Int400),
            0b0011 => Ok(VemlIntegration::Int800),
            _ => Err(AppError::EnumConversionError),
        }
    }
}

/// Persistence protection numbers of the ALS interrupt.
#[derive(Debug, Clone, Copy, PartialEq, Eq, Structural)]
pub enum VemlPersistence {
    /// Persistence protect 1
    Persist1,
    /// Persistence protect 2
    Persist2,
    /// Persistence protect 4
    Persist4,
    /// Persistence protect 8
    Persist8,
}

/// The value of `VemlPersistence` that a register field stands for.
pub open spec fn persistence_of_code(code: u16) -> Option<VemlPersistence> {
    if code == 0b00 {
        Some(VemlPersistence::Persist1)
    } else if code == 0b01 {
        Some(VemlPersistence::Persist2)
    } else if code == 0b10 {
        Some(VemlPersistence::Persist4)
    } else if code == 0b11 {
        Some(VemlPersistence::Persist8)
    } else {
        None
    }
}

impl VemlPersistence {
    pub open spec fn spec_code(self) -> u16 {
        match self {
            VemlPersistence::Persist1 => 0b00,
            VemlPersistence::Persist2 => 0b01,
            VemlPersistence::Persist4 => 0b10,
            VemlPersistence::Persist8 => 0b11,
        }
    }

    /// The register field of this value.
    pub fn to_u16(self) -> (r: u16)
        ensures
            r == self.spec_code(),
    {
        match self {
            VemlPersistence::Persist1 => 0b00,
            VemlPersistence::Persist2 => 0b01,
            VemlPersistence::Persist4 => 0b10,
            VemlPersistence::Persist8 => 0b11,
        }
    }

    /// The value that a register field stands for; `EnumConversionError` for
    /// a field that names none.
    pub fn from_u16(value: u16) -> (r: Result<VemlPersistence, AppError>)
        ensures
            persistence_of_code(value) matches Some(v) ==> r == Ok::<VemlPersistence, AppError>(v),
            persistence_of_code(value) is None ==> r == Err::<VemlPersistence, AppError>(AppError::EnumConversionError),
    {
        match value {
            0b00 => Ok(VemlPersistence::Persist1),
            0b01 => Ok(VemlPersistence::Persist2),
            0b10 => Ok(VemlPersistence::Persist4),
            0b11 => Ok(VemlPersistence::Persist8),
            _ => Err(AppError::EnumConversionError),
        }
    }
}

/// The configuration register of the sensor.
#[derive(Debug, Clone, Copy, PartialEq, Eq, Structural)]
pub struct VemlConfigReg {
    /// Gain of the ALS channel
    pub gain: VemlGain,
    /// Integration time of the ALS channel
    pub integration_time: VemlIntegration,
    /// Persistence protection of the ALS channel
    pub persistence: VemlPersistence,
    /// Whether the ALS interrupt is enabled
    pub interrupt_enabled: bool,
    /// Whether the ALS channel is shut down
    pub shutdown: bool,
}

/// The configuration word of a configuration.
pub open spec fn config_word(c: VemlConfigReg) -> u16 {
    ((c.gain.spec_code() << 11u16) | (c.integration_time.spec_code() << 6u16) | (
    c.persistence.spec_code() << 4u16) | ((if c.interrupt_enabled {
        1u16
    } else {
        0u16
    }) << 1u16) | (if c.shutdown {
        1u16
    } else {
        0u16
    }))
}

/// The configuration a configuration word holds, if every field names a value.
pub open spec fn config_of_word(v: u16) -> Option<VemlConfigReg> {
    let gain = gain_of_code((v >> 11u16) & 0b11);
    let integration_time = integration_of_code((v >> 6u16) & 0b1111);
    let persistence = persistence_of_code((v >> 4u16) & 0b11);
    if gain is Some && integration_time is Some && persistence is Some {
        Some(
            VemlConfigReg {
                gain: gain->0,
                integration_time: integration_time->0,
                persistence: persistence->0,
                interrupt_enabled: v & 0x02 != 0,
                shutdown: v & 0x01 != 0,
            },
        )
    } else {
        None
    }
}

impl VemlConfigReg {
    /// Decode a configuration word; `EnumConversionError` when the
    /// integration-time field names no integration time.
    pub fn from_u16(value: u16) -> (r: Result<VemlConfigReg, AppError>)
        ensures
            config_of_word(value) matches Some(c) ==> r == Ok::<VemlConfigReg, AppError>(c),
            config_of_word(value) is None ==> r == Err::<VemlConfigReg, AppError>(
                AppError::EnumConversionError,
            ),
    {
        let shutdown = (value & 0x01) != 0;
        let interrupt_enabled = (value & 0x02) != 0;
        let persistence = VemlPersistence::from_u16((value >> 4u16) & 0b11)?;
        let integration_time = VemlIntegration::from_u16((value >> 6u16) & 0b1111)?;
        let gain = VemlGain::from_u16((value >> 11u16) & 0b11)?;
        Ok(VemlConfigReg { gain, integration_time, persistence, interrupt_enabled, shutdown })
    }

    /// Encode the configuration into its configuration word.
    pub fn to_u16(self) -> (r: u16)
        ensures
            r == config_word(self),
            config_of_word(r) == Some(self),
    {
        let gain_int = self.gain.to_u16();
        let integration_int = self.integration_time.to_u16();
        let persist_int = self.persistence.to_u16();
        let interrupt_int: u16 = if self.interrupt_enabled {
            1
        } else {
            0
        };
        let shutdown_int: u16 = if self.shutdown {
            1
        } else {
            0
        };
        proof {
            lemma_config_word_round_trip(self);
        }
        (gain_int << 11u16) | (integration_int << 6u16) | (persist_int << 4u16) | (interrupt_int
            << 1u16) | shutdown_int
    }
}

/// Encoding a configuration into its word and decoding the word gives the
/// same configuration.
pub proof fn lemma_config_word_round_trip(c: VemlConfigReg)
    ensures
        config_of_word(config_word(c)) == Some(c),
{
    let g = c.gain.spec_code();
    let t = c.integration_time.spec_code();
    let p = c.persistence.spec_code();
    let i: u16 = if c.interrupt_enabled { 1 } else { 0 };
    let s: u16 = if c.shutdown { 1 } else { 0 };
    let w = config_word(c);
    assert(g < 4 && t < 16 && p < 4 && i < 2 && s < 2);
    assert((((g << 11u16) | (t << 6u16) | (p << 4u16) | (i << 1u16) | s) >> 11u16) & 0b11 == g
        && (((g << 11u16) | (t << 6u16) | (p << 4u16) | (i << 1u16) | s) >> 6u16) & 0b1111 == t
        && (((g << 11u16) | (t << 6u16) | (p << 4u16) | (i << 1u16) | s) >> 4u16) & 0b11 == p
        && ((((g << 11u16) | (t << 6u16) | (p << 4u16) | (i << 1u16) | s) & 0x02 != 0) == (i
        == 1)) && ((((g << 11u16) | (t << 6u16) | (p << 4u16) | (i << 1u16) | s) & 0x01 != 0)
        == (s == 1))) by (bit_vector)
        requires
            g < 4,
            t < 16,
            p < 4,
            i < 2,
            s < 2,
    ;
}

/// The power-saving register value that selects `mode` and switches power
/// saving on or off.
pub fn power_save_register(mode: VemlPowerSavingMode, enable: bool) -> (r: u16)
    ensures
        r == mode.spec_code() * 2 + (if enable {
            1int
        } else {
            0int
        }),
{
    let e: u16 = if enable {
        1
    } else {
        0
    };
    let m = mode.to_u16();
    assert((m << 1u16) | e == m * 2 + e) by (bit_vector)
        requires
            m < 4,
            e < 2,
    ;
    (m << 1u16) | e
}

/// The power-saving mode that the power-saving register selects.
pub fn power_saving_mode_of(reg_val: u16) -> (r: VemlPowerSavingMode)
    ensures
        psm_of_code((reg_val & 0b110) >> 1u16) == Some(r),
{
    let bits = (reg_val & 0b110) >> 1u16;
    assert(bits < 4) by (bit_vector)
        requires
            bits == (reg_val & 0b110) >> 1u16,
    ;
    match VemlPowerSavingMode::from_u16(bits) {
        Ok(m) => m,
        Err(_) => VemlPowerSavingMode::Mode1,
    }
}

/// Whether the power-saving register has power saving switched on.
pub fn power_saving_enabled(reg_val: u16) -> (r: bool)
    ensures
        r == (reg_val & 0b01 == 1),
{
    reg_val & 0b01 == 1
}

/// The interrupt status register: whether the low threshold was crossed, and
/// whether the high threshold was.
pub fn interrupt_status(reg_val: u16) -> (r: (bool, bool))
    ensures
        r.0 == (reg_val & 0x8000 != 0),
        r.1 == (reg_val & 0x4000 != 0),
{
    (reg_val & 0x8000 != 0, reg_val & 0x4000 != 0)
}

/// How many times the lux per count at 2x gain and 800 ms integration the
/// current gain and integration time give.
pub open spec fn als_scale_of(gain: VemlGain, integration_time: VemlIntegration) -> int {
    let g: int = match gain {
        VemlGain::Gain2 => 1,
        VemlGain::Gain1 => 2,
        VemlGain::Gain1_4 => 8,
        VemlGain::Gain1_8 => 16,
    };
    let t: int = match integration_time {
        VemlIntegration::Int25 => 32,
        VemlIntegration::Int50 => 16,
        VemlIntegration::Int100 => 8,
        VemlIntegration::Int200 => 4,
        VemlIntegration::Int400 => 2,
        VemlIntegration::Int800 => 1,
    };
    g * t
}

/// The multiple of the base resolution (0.0036 lux per count) that a gain and
/// integration time give.
pub fn als_scale_factor(gain: VemlGain, integration_time: VemlIntegration) -> (r: u16)
    ensures
        r == als_scale_of(gain, integration_time),
{
    let gain_scale: u16 = match gain {
        VemlGain::Gain2 => 1,
        VemlGain::Gain1 => 2,
        VemlGain::Gain1_4 => 8,
        VemlGain::Gain1_8 => 16,
    };
    let integration_scale: u16 = match integration_time {
        VemlIntegration::Int25 => 32,
        VemlIntegration::Int50 => 16,
        VemlIntegration::Int100 => 8,
        VemlIntegration::Int200 => 4,
        VemlIntegration::Int400 => 2,
        VemlIntegration::Int800 => 1,
    };
    gain_scale * integration_scale
}

/// A data register value from the two bytes read, low byte first.
pub fn word_from_le(lo: u8, hi: u8) -> (r: u16)
    ensures
        r == hi as int * 256 + lo as int,
{
    (hi as u16) * 256 + (lo as u16)
}

/// The two bytes written for a data register value, low byte first.
pub fn word_to_le(data: u16) -> (r: (u8, u8))
    ensures
        r.0 == data % 256,
        r.1 == data / 256,
{
    ((data % 256) as u8, (data / 256) as u8)
}

} // verus!
