//! Operating modes, oversampling, filter and output-data-rate settings of the
//! BME68x, with their register codes.
use vstd::prelude::*;
use crate::error::BME68xError;

verus! {

/// I2C addresses of the device.
#[derive(Debug, Clone, Copy, PartialEq, Eq, Structural)]
pub enum BME68xAddr {
    /// Low address
    LOW,
    /// High address
    HIGH,
}

impl BME68xAddr {
    pub open spec fn spec_code(self) -> u8 {
        match self {
            BME68xAddr::LOW => 0x76,
            BME68xAddr::HIGH => 0x77,
        }
    }

    /// The 7-bit bus address.
    pub fn to_u8(self) -> (r: u8)
        ensures
            r == self.spec_code(),
    {
        match self {
            BME68xAddr::LOW => 0x76,
            BME68xAddr::HIGH => 0x77,
        }
    }
}

/// Oversampling settings.
#[derive(Debug, Clone, Copy, PartialEq, Eq, Structural)]
pub enum BME68xOs {
    /// Switch off measurement
    OsNone,
    /// Perform 1 measurement
    Os1x,
    /// Perform 2 measurements
    Os2x,
    /// Perform 4 measurements
    Os4x,
    /// Perform 8 measurements
    Os8x,
    /// Perform 16 measurements
    Os16x,
}

/// The oversampling setting that a 3-bit register code stands for.
pub open spec fn os_of_code(code: u8) -> Option<BME68xOs> {
    if code == 0 {
        Some(BME68xOs::OsNone)
    } else if code == 1 {
        Some(BME68xOs::Os1x)
    } else if code == 2 {
        Some(BME68xOs::Os2x)
    } else if code == 3 {
        Some(BME68xOs::Os4x)
    } else if code == 4 {
        Some(BME68xOs::Os8x)
    } else if code == 5 {
        Some(BME68xOs::Os16x)
    } else {
        None
    }
}

impl BME68xOs {
    pub open spec fn spec_code(self) -> u8 {
        match self {
            BME68xOs::OsNone => 0,
            BME68xOs::Os1x => 1,
            BME68xOs::Os2x => 2,
            BME68xOs::Os4x => 3,
            BME68xOs::Os8x => 4,
            BME68xOs::Os16x => 5,
        }
    }

    pub open spec fn spec_meas_cycles(self) -> u32 {
        match self {
            BME68xOs::OsNone => 0,
            BME68xOs::Os1x => 1,
            BME68xOs::Os2x => 2,
            BME68xOs::Os4x => 4,
            BME68xOs::Os8x => 8,
            BME68xOs::Os16x => 16,
        }
    }

    /// The number of measurement cycles of this oversampling setting.
    pub fn get_meas_cycles(self) -> (r: u32)
        ensures
            r == self.spec_meas_cycles(),
    {
        match self {
            BME68xOs::OsNone => 0,
            BME68xOs::Os1x => 1,
            BME68xOs::Os2x => 2,
            BME68xOs::Os4x => 4,
            BME68xOs::Os8x => 8,
            BME68xOs::Os16x => 16,
        }
    }

    /// The register code of this setting.
    pub fn to_u8(self) -> (r: u8)
        ensures
            r == self.spec_code(),
    {
        match self {
            BME68xOs::OsNone => 0,
            BME68xOs::Os1x => 1,
            BME68xOs::Os2x => 2,
            BME68xOs::Os4x => 3,
            BME68xOs::Os8x => 4,
            BME68xOs::Os16x => 5,
        }
    }

    /// The setting that a register code stands for; `CastError` for an unknown code.
    pub fn from_u8(value: u8) -> (r: Result<BME68xOs, BME68xError>)
        ensures
            os_of_code(value) matches Some(o) ==> r == Ok::<BME68xOs, BME68xError>(o),
            os_of_code(value) is None ==> r == Err::<BME68xOs, BME68xError>(BME68xError::CastError),
    {
        match value {
            0 => Ok(BME68xOs::OsNone),
            1 => Ok(BME68xOs::Os1x),
            2 => Ok(BME68xOs::Os2x),
            3 => Ok(BME68xOs::Os4x),
            4 => Ok(BME68xOs::Os8x),
            5 => Ok(BME68xOs::Os16x),
            _ => Err(BME68xError::CastError),
        }
    }
}

/// Bus interfaces the device can be attached by.
#[derive(Debug, Clone, Copy, PartialEq, Eq, Structural)]
pub enum BME68xIntf {
    /// SPI interface
    SPIIntf,
    /// I2C interface
    I2CIntf,
}

/// Standby times between sequential-mode measurement profiles.
#[derive(Debug, Clone, Copy, PartialEq, Eq, Structural)]
pub enum BME68xODR {
    /// Standby time of 0.59 ms
    ODR059Ms,
    /// Standby time of 62.5 ms
    ODR625Ms,
    /// Standby time of 125 ms
    ODR125Ms,
    /// Standby time of 250 ms
    ODR250Ms,
    /// Standby time of 500 ms
    ODR500Ms,
    /// Standby time of 1 s
    ODR1000Ms,
    /// Standby time of 10 ms
    ODR10Ms,
    /// Standby time of 20 ms
    ODR20Ms,
    /// No standby time
    ODRNone,
}

/// The value of `BME68xODR` that a register code stands for.
pub open spec fn odr_of_code(code: u8) -> Option<BME68xODR> {
    if code == 0 {
        Some(BME68xODR::ODR059Ms)
    } else if code == 1 {
        Some(BME68xODR::ODR625Ms)
    } else if code == 2 {
        Some(BME68xODR::ODR125Ms)
    } else if code == 3 {
        Some(BME68xODR::ODR250Ms)
    } else if code == 4 {
        Some(BME68xODR::ODR500Ms)
    } else if code == 5 {
        Some(BME68xODR::ODR1000Ms)
    } else if code == 6 {
        Some(BME68xODR::ODR10Ms)
    } else if code == 7 {
        Some(BME68xODR::ODR20Ms)
    } else if code == 8 {
        Some(BME68xODR::ODRNone)
    } else {
        None
    }
}

impl BME68xODR {
    pub open spec fn spec_code(self) -> u8 {
        match self {
            BME68xODR::ODR059Ms => 0,
            BME68xODR::ODR625Ms => 1,
            BME68xODR::ODR125Ms => 2,
            BME68xODR::ODR250Ms => 3,
            BME68xODR::ODR500Ms => 4,
            BME68xODR::ODR1000Ms => 5,
            BME68xODR::ODR10Ms => 6,
            BME68xODR::ODR20Ms => 7,
            BME68xODR::ODRNone => 8,
        }
    }

    /// The register code of this value.
    pub fn to_u8(self) -> (r: u8)
        ensures
            r == self.spec_code(),
    {
        match self {
            BME68xODR::ODR059Ms => 0,
            BME68xODR::ODR625Ms => 1,
            BME68xODR::ODR125Ms => 2,
            BME68xODR::ODR250Ms => 3,
            BME68xODR::ODR500Ms => 4,
            BME68xODR::ODR1000Ms => 5,
            BME68xODR::ODR10Ms => 6,
            BME68xODR::ODR20Ms => 7,
            BME68xODR::ODRNone => 8,
        }
    }

    /// The value that a register code stands for, or an error for an unknown code.
    pub fn from_u8(value: u8) -> (r: Result<BME68xODR, BME68xError>)
        ensures
            odr_of_code(value) matches Some(v) ==> r == Ok::<BME68xODR, BME68xError>(v),
            odr_of_code(value) is None ==> r == Err::<BME68xODR, BME68xError>(BME68xError::CastError),
    {
        match value {
            0 => Ok(BME68xODR::ODR059Ms),
            1 => Ok(BME68xODR::ODR625Ms),
            2 => Ok(BME68xODR::ODR125Ms),
            3 => Ok(BME68xODR::ODR250Ms),
            4 => Ok(BME68xODR::ODR500Ms),
            5 => Ok(BME68xODR::ODR1000Ms),
            6 => Ok(BME68xODR::ODR10Ms),
            7 => Ok(BME68xODR::ODR20Ms),
            8 => Ok(BME68xODR::ODRNone),
            _ => Err(BME68xError::CastError),
        }
    }
}

/// IIR filter coefficients.
#[derive(Debug, Clone, Copy, PartialEq, Eq, Structural)]
pub enum BME68xFilter {
    /// No filtering
    Off,
    /// Filter coefficient of 2
    Size1,
    /// Filter coefficient of 4
    Size3,
    /// Filter coefficient of 8
    Size7,
    /// Filter coefficient of 16
    Size15,
    /// Filter coefficient of 32
    Size31,
    /// Filter coefficient of 64
    Size63,
    /// Filter coefficient of 128
    Size127,
}

/// The value of `BME68xFilter` that a register code stands for.
pub open spec fn filter_of_code(code: u8) -> Option<BME68xFilter> {
    if code == 0 {
        Some(BME68xFilter::Off)
    } else if code == 1 {
        Some(BME68xFilter::Size1)
    } else if code == 2 {
        Some(BME68xFilter::Size3)
    } else if code == 3 {
        Some(BME68xFilter::Size7)
    } else if code == 4 {
        Some(BME68xFilter::Size15)
    } else if code == 5 {
        Some(BME68xFilter::Size31)
    } else if code == 6 {
        Some(BME68xFilter::Size63)
    } else if code == 7 {
        Some(BME68xFilter::Size127)
    } else {
        None
    }
}

impl BME68xFilter {
    pub open spec fn spec_code(self) -> u8 {
        match self {
            BME68xFilter::Off => 0,
            BME68xFilter::Size1 => 1,
            BME68xFilter::Size3 => 2,
            BME68xFilter::Size7 => 3,
            BME68xFilter::Size15 => 4,
            BME68xFilter::Size31 => 5,
            BME68xFilter::Size63 => 6,
            BME68xFilter::Size127 => 7,
        }
    }

    /// The register code of this value.
    pub fn to_u8(self) -> (r: u8)
        ensures
            r == self.spec_code(),
    {
        match self {
            BME68xFilter::Off => 0,
            BME68xFilter::Size1 => 1,
            BME68xFilter::Size3 => 2,
            BME68xFilter::Size7 => 3,
            BME68xFilter::Size15 => 4,
            BME68xFilter::Size31 => 5,
            BME68xFilter::Size63 => 6,
            BME68xFilter::Size127 => 7,
        }
    }

    /// The value that a register code stands for, or an error for an unknown code.
    pub fn from_u8(value: u8) -> (r: Result<BME68xFilter, BME68xError>)
        ensures
            filter_of_code(value) matches Some(v) ==> r == Ok::<BME68xFilter, BME68xError>(v),
            filter_of_code(value) is None ==> r == Err::<BME68xFilter, BME68xError>(BME68xError::CastError),
    {
        match value {
            0 => Ok(BME68xFilter::Off),
            1 => Ok(BME68xFilter::Size1),
            2 => Ok(BME68xFilter::Size3),
            3 => Ok(BME68xFilter::Size7),
            4 => Ok(BME68xFilter::Size15),
            5 => Ok(BME68xFilter::Size31),
            6 => Ok(BME68xFilter::Size63),
            7 => Ok(BME68xFilter::Size127),
            _ => Err(BME68xError::CastError),
        }
    }
}

/// Operating modes of the device.
#[derive(Debug, Clone, Copy, PartialEq, Eq, Structural)]
pub enum BME68xOpMode {
    /// Sleep mode
    SleepMode,
    /// Forced mode
    ForcedMode,
    /// Parallel mode
    ParallelMode,
    /// Sequential mode
    SequentialMode,
}

/// The value of `BME68xOpMode` that a register code stands for.
pub open spec fn op_mode_of_code(code: u8) -> Option<BME68xOpMode> {
    if code == 0 {
        Some(BME68xOpMode::SleepMode)
    } else if code == 1 {
        Some(BME68xOpMode::ForcedMode)
    } else if code == 2 {
        Some(BME68xOpMode::ParallelMode)
    } else if code == 3 {
        Some(BME68xOpMode::SequentialMode)
    } else {
        None
    }
}

impl BME68xOpMode {
    pub open spec fn spec_code(self) -> u8 {
        match self {
            BME68xOpMode::SleepMode => 0,
            BME68xOpMode::ForcedMode => 1,
            BME68xOpMode::ParallelMode => 2,
            BME68xOpMode::SequentialMode => 3,
        }
    }

    /// The register code of this value.
    pub fn to_u8(self) -> (r: u8)
        ensures
            r == self.spec_code(),
    {
        match self {
            BME68xOpMode::SleepMode => 0,
            BME68xOpMode::ForcedMode => 1,
            BME68xOpMode::ParallelMode => 2,
            BME68xOpMode::SequentialMode => 3,
        }
    }

    /// The value that a register code stands for, or an error for an unknown code.
    pub fn from_u8(value: u8) -> (r: Result<BME68xOpMode, BME68xError>)
        ensures
            op_mode_of_code(value) matches Some(v) ==> r == Ok::<BME68xOpMode, BME68xError>(v),
            op_mode_of_code(value) is None ==> r == Err::<BME68xOpMode, BME68xError>(BME68xError::CastError),
    {
        match value {
            0 => Ok(BME68xOpMode::SleepMode),
            1 => Ok(BME68xOpMode::ForcedMode),
            2 => Ok(BME68xOpMode::ParallelMode),
            3 => Ok(BME68xOpMode::SequentialMode),
            _ => Err(BME68xError::CastError),
        }
    }
}

/// Gas-sensing variants, read from the variant-ID register.
#[derive(Debug, Clone, Copy, PartialEq, Eq, Structural)]
pub enum BME68xVariant {
    /// Low gas variant
    GasLow,
    /// High gas variant
    GasHigh,
}

/// The value of `BME68xVariant` that a register code stands for.
pub open spec fn variant_of_code(code: u8) -> Option<BME68xVariant> {
    if code == 0 {
        Some(BME68xVariant::GasLow)
    } else if code == 1 {
        Some(BME68xVariant::GasHigh)
    } else {
        None
    }
}

impl BME68xVariant {
    pub open spec fn spec_code(self) -> u8 {
        match self {
            BME68xVariant::GasLow => 0,
            BME68xVariant::GasHigh => 1,
        }
    }

    /// The register code of this value.
    pub fn to_u8(self) -> (r: u8)
        ensures
            r == self.spec_code(),
    {
        match self {
            BME68xVariant::GasLow => 0,
            BME68xVariant::GasHigh => 1,
        }
    }

    /// The value that a register code stands for, or an error for an unknown code.
    pub fn from_u8(value: u8) -> (r: Result<BME68xVariant, BME68xError>)
        ensures
            variant_of_code(value) matches Some(v) ==> r == Ok::<BME68xVariant, BME68xError>(v),
            variant_of_code(value) is None ==> r == Err::<BME68xVariant, BME68xError>(BME68xError::CastError),
    {
        match value {
            0 => Ok(BME68xVariant::GasLow),
            1 => Ok(BME68xVariant::GasHigh),
            _ => Err(BME68xError::CastError),
        }
    }
}

/// Memory pages of the SPI register map.
#[derive(Debug, Clone, Copy, PartialEq, Eq, Structural)]
pub enum BME68xMemPage {
    /// SPI memory page 0
    Page0,
    /// SPI memory page 1
    Page1,
}

/// The value of `BME68xMemPage` that a register code stands for.
pub open spec fn mem_page_of_code(code: u8) -> Option<BME68xMemPage> {
    if code == 0x10 {
        Some(BME68xMemPage::Page0)
    } else if code == 0x00 {
        Some(BME68xMemPage::Page1)
    } else {
        None
    }
}

impl BME68xMemPage {
    pub open spec fn spec_code(self) -> u8 {
        match self {
            BME68xMemPage::Page0 => 0x10,
            BME68xMemPage::Page1 => 0x00,
        }
    }

    /// The register code of this value.
    pub fn to_u8(self) -> (r: u8)
        ensures
            r == self.spec_code(),
    {
        match self {
            BME68xMemPage::Page0 => 0x10,
            BME68xMemPage::Page1 => 0x00,
        }
    }

    /// The value that a register code stands for, or an error for an unknown code.
    pub fn from_u8(value: u8) -> (r: Result<BME68xMemPage, BME68xError>)
        ensures
            mem_page_of_code(value) matches Some(v) ==> r == Ok::<BME68xMemPage, BME68xError>(v),
            mem_page_of_code(value) is None ==> r == Err::<BME68xMemPage, BME68xError>(BME68xError::CastError),
    {
        match value {
            0x10 => Ok(BME68xMemPage::Page0),
            0x00 => Ok(BME68xMemPage::Page1),
            _ => Err(BME68xError::CastError),
        }
    }
}

/// Gas measurement settings of the run-gas field.
#[derive(Debug, Clone, Copy, PartialEq, Eq, Structural)]
pub enum BME68xGasEnable {
    /// Disable gas measurement
    Disable,
    /// Enable low gas measurement
    EnableLow,
    /// Enable high gas measurement
    EnableHigh,
}

impl BME68xGasEnable {
    pub open spec fn spec_code(self) -> u8 {
        match self {
            BME68xGasEnable::Disable => 0x00,
            BME68xGasEnable::EnableLow => 0x01,
            BME68xGasEnable::EnableHigh => 0x02,
        }
    }

    /// The register code of this value.
    pub fn to_u8(self) -> (r: u8)
        ensures
            r == self.spec_code(),
    {
        match self {
            BME68xGasEnable::Disable => 0x00,
            BME68xGasEnable::EnableLow => 0x01,
            BME68xGasEnable::EnableHigh => 0x02,
        }
    }
}

/// Register addresses of the BME68x.
#[derive(Debug, Clone, Copy, PartialEq, Eq, Structural)]
pub enum BME68xRegister {
    /// Third group of calibration coefficients
    Coeff3,
    /// Field 0
    Field0,
    /// Current DAC of heater step 0
    IdacHeat0,
    /// Heater resistance of step 0
    ResHeat0,
    /// Gas wait of step 0
    GasWait0,
    /// Shared heating duration
    ShdHeatrDur,
    /// Gas control 0
    CtrlGas0,
    /// Gas control 1
    CtrlGas1,
    /// Humidity control
    CtrlHum,
    /// Measurement control
    CtrlMeas,
    /// Configuration
    Config,
    /// SPI memory page
    MemPage,
    /// Unique ID
    UniqueId,
    /// First group of calibration coefficients
    Coeff1,
    /// Chip ID
    ChipId,
    /// Soft reset
    SoftReset,
    /// Second group of calibration coefficients
    Coeff2,
    /// Variant ID
    VariantId,
}

impl BME68xRegister {
    pub open spec fn spec_code(self) -> u8 {
        match self {
            BME68xRegister::Coeff3 => 0x00,
            BME68xRegister::Field0 => 0x1d,
            BME68xRegister::IdacHeat0 => 0x50,
            BME68xRegister::ResHeat0 => 0x5a,
            BME68xRegister::GasWait0 => 0x64,
            BME68xRegister::ShdHeatrDur => 0x6e,
            BME68xRegister::CtrlGas0 => 0x70,
            BME68xRegister::CtrlGas1 => 0x71,
            BME68xRegister::CtrlHum => 0x72,
            BME68xRegister::CtrlMeas => 0x74,
            BME68xRegister::Config => 0x75,
            BME68xRegister::MemPage => 0xf3,
            BME68xRegister::UniqueId => 0x83,
            BME68xRegister::Coeff1 => 0x8a,
            BME68xRegister::ChipId => 0xd0,
            BME68xRegister::SoftReset => 0xe0,
            BME68xRegister::Coeff2 => 0xe1,
            BME68xRegister::VariantId => 0xf0,
        }
    }

    /// The register code of this value.
    pub fn to_u8(self) -> (r: u8)
        ensures
            r == self.spec_code(),
    {
        match self {
            BME68xRegister::Coeff3 => 0x00,
            BME68xRegister::Field0 => 0x1d,
            BME68xRegister::IdacHeat0 => 0x50,
            BME68xRegister::ResHeat0 => 0x5a,
            BME68xRegister::GasWait0 => 0x64,
            BME68xRegister::ShdHeatrDur => 0x6e,
            BME68xRegister::CtrlGas0 => 0x70,
            BME68xRegister::CtrlGas1 => 0x71,
            BME68xRegister::CtrlHum => 0x72,
            BME68xRegister::CtrlMeas => 0x74,
            BME68xRegister::Config => 0x75,
            BME68xRegister::MemPage => 0xf3,
            BME68xRegister::UniqueId => 0x83,
            BME68xRegister::Coeff1 => 0x8a,
            BME68xRegister::ChipId => 0xd0,
            BME68xRegister::SoftReset => 0xe0,
            BME68xRegister::Coeff2 => 0xe1,
            BME68xRegister::VariantId => 0xf0,
        }
    }
}

} // verus!
