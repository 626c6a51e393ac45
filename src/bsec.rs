//! Adapter around the gas-fusion library: its return codes, the mapping of
//! its output channels onto named virtual-sensor slots, the choice of the
//! inputs it asks for, and the device configuration it requests.
//!
//! Signal values cross the library boundary as single-precision floats; here
//! they are carried, never computed with, as their IEEE-754 bit patterns.
#![allow(non_camel_case_types)]
use vstd::prelude::*;
use crate::config::{get_meas_dur, meas_dur, BME68xConf};
use crate::error::BME68xError;
use crate::heater::BME68xHeatrConf;
use crate::settings::{os_of_code, BME68xOpMode, BME68xOs};

verus! {

/// Return code: success.
pub const BSEC_OK: i32 = 0;

/// Return code: invalid input to the step function.
pub const BSEC_E_DOSTEPS_INVALIDINPUT: i32 = -1;

/// Return code: value passed to the step function is out of range.
pub const BSEC_E_DOSTEPS_VALUELIMITS: i32 = -2;

/// Return code: timestamp passed to the step function is smaller than the previous one.
pub const BSEC_W_DOSTEPS_TSINTRADIFFOUTOFRANGE: i32 = 4;

/// Return code: same input provided more than once.
pub const BSEC_E_DOSTEPS_DUPLICATEINPUT: i32 = -6;

/// Return code: no memory allocated for returning outputs.
pub const BSEC_I_DOSTEPS_NOOUTPUTSRETURNABLE: i32 = 2;

/// Return code: not enough memory to hold the return values.
pub const BSEC_W_DOSTEPS_EXCESSOUTPUTS: i32 = 3;

/// Return code: gas index not provided.
pub const BSEC_W_DOSTEPS_GASINDEXMISS: i32 = 5;

/// Return code: data rate of a requested output is 0.
pub const BSEC_E_SU_WRONGDATARATE: i32 = -10;

/// Return code: sample rate not supported for the given output.
pub const BSEC_E_SU_SAMPLERATELIMITS: i32 = -12;

/// Return code: duplicate output requested.
pub const BSEC_E_SU_DUPLICATEGATE: i32 = -13;

/// Return code: invalid sample rate.
pub const BSEC_E_SU_INVALIDSAMPLERATE: i32 = -14;

/// Return code: not enough memory to hold the physical sensor data.
pub const BSEC_E_SU_GATECOUNTEXCEEDSARRAY: i32 = -15;

/// Return code: invalid output sample interval.
pub const BSEC_E_SU_SAMPLINTVLINTEGERMULT: i32 = -16;

/// Return code: invalid output sample interval when gas sensing is required.
pub const BSEC_E_SU_MULTGASSAMPLINTVL: i32 = -17;

/// Return code: measurement duration longer than the requested sample interval.
pub const BSEC_E_SU_HIGHHEATERONDURATION: i32 = -18;

/// Return code: output sensor id not in the valid range.
pub const BSEC_W_SU_UNKNOWNOUTPUTGATE: i32 = 10;

/// Return code: ULP+ cannot be requested in non-ULP mode.
pub const BSEC_W_SU_MODINNOULP: i32 = 11;

/// Return code: no virtual sensor outputs were requested.
pub const BSEC_I_SU_SUBSCRIBEDOUTPUTGATES: i32 = 12;

/// Return code: gas estimate is subscribed and takes precedence.
pub const BSEC_I_SU_GASESTIMATEPRECEDENCE: i32 = 13;

/// Return code: work buffer size not sufficient.
pub const BSEC_E_PARSE_SECTIONEXCEEDSWORKBUFFER: i32 = -32;

/// Return code: configuration failed.
pub const BSEC_E_CONFIG_FAIL: i32 = -33;

/// Return code: serialized settings are for a different library version.
pub const BSEC_E_CONFIG_VERSIONMISMATCH: i32 = -34;

/// Return code: serialized enabled features are for a different library version.
pub const BSEC_E_CONFIG_FEATUREMISMATCH: i32 = -35;

/// Return code: CRC of the serialized settings does not match.
pub const BSEC_E_CONFIG_CRCMISMATCH: i32 = -36;

/// Return code: serialized configuration is too small to be valid.
pub const BSEC_E_CONFIG_EMPTY: i32 = -37;

/// Return code: provided work buffer not large enough for the desired string.
pub const BSEC_E_CONFIG_INSUFFICIENTWORKBUFFER: i32 = -38;

/// Return code: string size does not match the specified string size.
pub const BSEC_E_CONFIG_INVALIDSTRINGSIZE: i32 = -40;

/// Return code: string buffer insufficient to hold the entire configuration.
pub const BSEC_E_CONFIG_INSUFFICIENTBUFFER: i32 = -41;

/// Return code: internal warning that the size of the work buffer in the configuration setter is incorrect.
pub const BSEC_E_SET_INVALIDCHANNELIDENTIFIER: i32 = -100;

/// Return code: internal error code.
pub const BSEC_E_SET_INVALIDLENGTH: i32 = -104;

/// Return code: difference between actual and defined sampling rate too large.
pub const BSEC_W_SC_CALL_TIMING_VIOLATION: i32 = 100;

/// Return code: ULP+ not allowed because a ULP measurement just occurred or is about to.
pub const BSEC_W_SC_MODEXCEEDULPTIMELIMIT: i32 = 101;

/// Return code: ULP+ not allowed because not enough time passed since the last ULP+.
pub const BSEC_W_SC_MODINSUFFICIENTWAITTIME: i32 = 102;

/// Virtual sensor: indoor air quality.
pub const BSEC_OUTPUT_IAQ: u8 = 1;

/// Virtual sensor: unscaled indoor air quality.
pub const BSEC_OUTPUT_STATIC_IAQ: u8 = 2;

/// Virtual sensor: equivalent CO2 estimate (ppm).
pub const BSEC_OUTPUT_CO2_EQUIVALENT: u8 = 3;

/// Virtual sensor: breath VOC estimate (ppm).
pub const BSEC_OUTPUT_BREATH_VOC_EQUIVALENT: u8 = 4;

/// Virtual sensor: raw temperature (degrees C).
pub const BSEC_OUTPUT_RAW_TEMPERATURE: u8 = 6;

/// Virtual sensor: raw pressure (Pa).
pub const BSEC_OUTPUT_RAW_PRESSURE: u8 = 7;

/// Virtual sensor: raw humidity (%).
pub const BSEC_OUTPUT_RAW_HUMIDITY: u8 = 8;

/// Virtual sensor: raw gas sensor (Ohm).
pub const BSEC_OUTPUT_RAW_GAS: u8 = 9;

/// Virtual sensor: stabilization status.
pub const BSEC_OUTPUT_STABILIZATION_STATUS: u8 = 12;

/// Virtual sensor: sensor run-in status.
pub const BSEC_OUTPUT_RUN_IN_STATUS: u8 = 13;

/// Virtual sensor: heat-compensated temperature (degrees C).
pub const BSEC_OUTPUT_SENSOR_HEAT_COMPENSATED_TEMPERATURE: u8 = 14;

/// Virtual sensor: heat-compensated humidity (%).
pub const BSEC_OUTPUT_SENSOR_HEAT_COMPENSATED_HUMIDITY: u8 = 15;

/// Virtual sensor: percentage of the min/max filtered gas value (%).
pub const BSEC_OUTPUT_GAS_PERCENTAGE: u8 = 21;

/// Virtual sensor: gas channel 1 estimate.
pub const BSEC_OUTPUT_GAS_ESTIMATE_1: u8 = 22;

/// Virtual sensor: gas channel 2 estimate.
pub const BSEC_OUTPUT_GAS_ESTIMATE_2: u8 = 23;

/// Virtual sensor: gas channel 3 estimate.
pub const BSEC_OUTPUT_GAS_ESTIMATE_3: u8 = 24;

/// Virtual sensor: gas channel 4 estimate.
pub const BSEC_OUTPUT_GAS_ESTIMATE_4: u8 = 25;

/// Virtual sensor: gas heater profile index.
pub const BSEC_OUTPUT_RAW_GAS_INDEX: u8 = 26;

/// Physical input: pressure.
pub const BSEC_INPUT_PRESSURE: u8 = 1;

/// Physical input: humidity.
pub const BSEC_INPUT_HUMIDITY: u8 = 2;

/// Physical input: temperature.
pub const BSEC_INPUT_TEMPERATURE: u8 = 3;

/// Physical input: gas resistance.
pub const BSEC_INPUT_GASRESISTOR: u8 = 4;

/// Physical input: heat source offset of the temperature.
pub const BSEC_INPUT_HEATSOURCE: u8 = 14;

/// Physical input: heater profile part.
pub const BSEC_INPUT_PROFILE_PART: u8 = 24;

/// Largest number of physical sensor settings the library returns.
pub const BSEC_MAX_PHYSICAL_SENSOR: usize = 8;

/// Largest number of outputs one step of the library returns.
pub const BSEC_NUMBER_OUTPUTS: usize = 19;

/// Length of the heating period of one parallel-mode cycle, in milliseconds.
pub const BSEC_TOTAL_HEAT_DUR: u16 = 140;

/// Errors of the fusion adapter: the library's own codes, and those of the
/// device driver under it.
#[derive(Debug, Clone, Copy, PartialEq, Eq, Structural)]
pub enum BsecError {
    /// Success
    Success,
    /// Invalid input to the step function
    DoStepsInvalidInput,
    /// Value passed to the step function is out of range
    DoStepsValueLimits,
    /// Timestamp passed to the step function is smaller than the previous one
    DoStepsTsIntRadifOutOfRange,
    /// Same input provided more than once
    DoStepsDuplicateInput,
    /// No memory allocated for returning outputs
    DoStepsNoOutputsReturnable,
    /// Not enough memory to hold the return values
    DoStepsExcessOutputs,
    /// Gas index not provided
    DoStepsGasIndexMiss,
    /// Data rate of a requested output is 0
    WrongDataRate,
    /// Sample rate not supported for the given output
    SampleRateLimits,
    /// Duplicate output requested
    DuplicateGate,
    /// Invalid sample rate
    InvalidSampleRate,
    /// Not enough memory to hold the physical sensor data
    GateCountExceedsArray,
    /// Invalid output sample interval
    SampleIntervalIntegerMult,
    /// Invalid output sample interval when gas sensing is required
    MultGasSampleInterval,
    /// Measurement duration longer than the requested sample interval
    HighHeaterDuration,
    /// Output sensor ID not in the valid range
    UnknownOutputGate,
    /// ULP+ cannot be requested in non-ULP mode
    ModInNoULP,
    /// No virtual sensor outputs were requested
    SubscribedOutputGates,
    /// Gas estimate is subscribed and takes precedence
    GasEstimatePrecedence,
    /// Work buffer size not sufficient
    SectionExceedsWorkBuffer,
    /// Configuration failed
    ConfigFail,
    /// Serialized settings are for a different library version
    ConfigVersionMisMatch,
    /// Serialized enabled features are for a different library version
    ConfigFeatureMismatch,
    /// CRC of the serialized settings does not match
    ConfigCRCMisMatch,
    /// Serialized configuration is too small to be valid
    ConfigEmpty,
    /// Provided work buffer not large enough for the desired string
    ConfigInsufficentWorkBuffer,
    /// String size does not match the specified string size
    ConfigInvalidStringSize,
    /// String buffer insufficient to hold the entire configuration
    ConfigInsufficentBuffer,
    /// Internal warning that the size of the work buffer in the configuration setter is incorrect
    SetInvalidChannelIdentifier,
    /// Internal error code
    SetInvalidLength,
    /// Difference between actual and defined sampling rate too large
    CallTimingViolation,
    /// ULP+ not allowed because a ULP measurement just occurred or is about to
    ModExceedULPTimeLimit,
    /// ULP+ not allowed because not enough time passed since the last ULP+
    ModInsufficentWaitTime,
    /// Error of the BME68x driver
    DriverError {
        /// The driver error
        error: BME68xError,
    },
    /// Error converting between numeric types
    NumericConversionErrror,
    /// Unknown return code
    UnknownError {
        /// The unknown code
        code: i32,
    },
}

/// The error that a return code of the library stands for.
pub open spec fn error_of_code(code: i32) -> BsecError {
    if code == BSEC_OK {
        BsecError::Success
    } else if code == BSEC_E_DOSTEPS_INVALIDINPUT {
        BsecError::DoStepsInvalidInput
    } else if code == BSEC_E_DOSTEPS_VALUELIMITS {
        BsecError::DoStepsValueLimits
    } else if code == BSEC_W_DOSTEPS_TSINTRADIFFOUTOFRANGE {
        BsecError::DoStepsTsIntRadifOutOfRange
    } else if code == BSEC_E_DOSTEPS_DUPLICATEINPUT {
        BsecError::DoStepsDuplicateInput
    } else if code == BSEC_I_DOSTEPS_NOOUTPUTSRETURNABLE {
        BsecError::DoStepsNoOutputsReturnable
    } else if code == BSEC_W_DOSTEPS_EXCESSOUTPUTS {
        BsecError::DoStepsExcessOutputs
    } else if code == BSEC_W_DOSTEPS_GASINDEXMISS {
        BsecError::DoStepsGasIndexMiss
    } else if code == BSEC_E_SU_WRONGDATARATE {
        BsecError::WrongDataRate
    } else if code == BSEC_E_SU_SAMPLERATELIMITS {
        BsecError::SampleRateLimits
    } else if code == BSEC_E_SU_DUPLICATEGATE {
        BsecError::DuplicateGate
    } else if code == BSEC_E_SU_INVALIDSAMPLERATE {
        BsecError::InvalidSampleRate
    } else if code == BSEC_E_SU_GATECOUNTEXCEEDSARRAY {
        BsecError::GateCountExceedsArray
    } else if code == BSEC_E_SU_SAMPLINTVLINTEGERMULT {
        BsecError::SampleIntervalIntegerMult
    } else if code == BSEC_E_SU_MULTGASSAMPLINTVL {
        BsecError::MultGasSampleInterval
    } else if code == BSEC_E_SU_HIGHHEATERONDURATION {
        BsecError::HighHeaterDuration
    } else if code == BSEC_W_SU_UNKNOWNOUTPUTGATE {
        BsecError::UnknownOutputGate
    } else if code == BSEC_W_SU_MODINNOULP {
        BsecError::ModInNoULP
    } else if code == BSEC_I_SU_SUBSCRIBEDOUTPUTGATES {
        BsecError::SubscribedOutputGates
    } else if code == BSEC_I_SU_GASESTIMATEPRECEDENCE {
        BsecError::GasEstimatePrecedence
    } else if code == BSEC_E_PARSE_SECTIONEXCEEDSWORKBUFFER {
        BsecError::SectionExceedsWorkBuffer
    } else if code == BSEC_E_CONFIG_FAIL {
        BsecError::ConfigFail
    } else if code == BSEC_E_CONFIG_VERSIONMISMATCH {
        BsecError::ConfigVersionMisMatch
    } else if code == BSEC_E_CONFIG_FEATUREMISMATCH {
        BsecError::ConfigFeatureMismatch
    } else if code == BSEC_E_CONFIG_CRCMISMATCH {
        BsecError::ConfigCRCMisMatch
    } else if code == BSEC_E_CONFIG_EMPTY {
        BsecError::ConfigEmpty
    } else if code == BSEC_E_CONFIG_INSUFFICIENTWORKBUFFER {
        BsecError::ConfigInsufficentWorkBuffer
    } else if code == BSEC_E_CONFIG_INVALIDSTRINGSIZE {
        BsecError::ConfigInvalidStringSize
    } else if code == BSEC_E_CONFIG_INSUFFICIENTBUFFER {
        BsecError::ConfigInsufficentBuffer
    } else if code == BSEC_E_SET_INVALIDCHANNELIDENTIFIER {
        BsecError::SetInvalidChannelIdentifier
    } else if code == BSEC_E_SET_INVALIDLENGTH {
        BsecError::SetInvalidLength
    } else if code == BSEC_W_SC_CALL_TIMING_VIOLATION {
        BsecError::CallTimingViolation
    } else if code == BSEC_W_SC_MODEXCEEDULPTIMELIMIT {
        BsecError::ModExceedULPTimeLimit
    } else if code == BSEC_W_SC_MODINSUFFICIENTWAITTIME {
        BsecError::ModInsufficentWaitTime
    } else {
        BsecError::UnknownError { code }
    }
}

impl BsecError {
    /// The error that a return code of the library stands for; a code the
    /// library does not document becomes `UnknownError` carrying it.
    pub fn from_code(code: i32) -> (r: BsecError)
        ensures
            r == error_of_code(code),
    {
        if code == BSEC_OK {
            BsecError::Success
        } else if code == BSEC_E_DOSTEPS_INVALIDINPUT {
            BsecError::DoStepsInvalidInput
        } else if code == BSEC_E_DOSTEPS_VALUELIMITS {
            BsecError::DoStepsValueLimits
        } else if code == BSEC_W_DOSTEPS_TSINTRADIFFOUTOFRANGE {
            BsecError::DoStepsTsIntRadifOutOfRange
        } else if code == BSEC_E_DOSTEPS_DUPLICATEINPUT {
            BsecError::DoStepsDuplicateInput
        } else if code == BSEC_I_DOSTEPS_NOOUTPUTSRETURNABLE {
            BsecError::DoStepsNoOutputsReturnable
        } else if code == BSEC_W_DOSTEPS_EXCESSOUTPUTS {
            BsecError::DoStepsExcessOutputs
        } else if code == BSEC_W_DOSTEPS_GASINDEXMISS {
            BsecError::DoStepsGasIndexMiss
        } else if code == BSEC_E_SU_WRONGDATARATE {
            BsecError::WrongDataRate
        } else if code == BSEC_E_SU_SAMPLERATELIMITS {
            BsecError::SampleRateLimits
        } else if code == BSEC_E_SU_DUPLICATEGATE {
            BsecError::DuplicateGate
        } else if code == BSEC_E_SU_INVALIDSAMPLERATE {
            BsecError::InvalidSampleRate
        } else if code == BSEC_E_SU_GATECOUNTEXCEEDSARRAY {
            BsecError::GateCountExceedsArray
        } else if code == BSEC_E_SU_SAMPLINTVLINTEGERMULT {
            BsecError::SampleIntervalIntegerMult
        } else if code == BSEC_E_SU_MULTGASSAMPLINTVL {
            BsecError::MultGasSampleInterval
        } else if code == BSEC_E_SU_HIGHHEATERONDURATION {
            BsecError::HighHeaterDuration
        } else if code == BSEC_W_SU_UNKNOWNOUTPUTGATE {
            BsecError::UnknownOutputGate
        } else if code == BSEC_W_SU_MODINNOULP {
            BsecError::ModInNoULP
        } else if code == BSEC_I_SU_SUBSCRIBEDOUTPUTGATES {
            BsecError::SubscribedOutputGates
        } else if code == BSEC_I_SU_GASESTIMATEPRECEDENCE {
            BsecError::GasEstimatePrecedence
        } else if code == BSEC_E_PARSE_SECTIONEXCEEDSWORKBUFFER {
            BsecError::SectionExceedsWorkBuffer
        } else if code == BSEC_E_CONFIG_FAIL {
            BsecError::ConfigFail
        } else if code == BSEC_E_CONFIG_VERSIONMISMATCH {
            BsecError::ConfigVersionMisMatch
        } else if code == BSEC_E_CONFIG_FEATUREMISMATCH {
            BsecError::ConfigFeatureMismatch
        } else if code == BSEC_E_CONFIG_CRCMISMATCH {
            BsecError::ConfigCRCMisMatch
        } else if code == BSEC_E_CONFIG_EMPTY {
            BsecError::ConfigEmpty
        } else if code == BSEC_E_CONFIG_INSUFFICIENTWORKBUFFER {
            BsecError::ConfigInsufficentWorkBuffer
        } else if code == BSEC_E_CONFIG_INVALIDSTRINGSIZE {
            BsecError::ConfigInvalidStringSize
        } else if code == BSEC_E_CONFIG_INSUFFICIENTBUFFER {
            BsecError::ConfigInsufficentBuffer
        } else if code == BSEC_E_SET_INVALIDCHANNELIDENTIFIER {
            BsecError::SetInvalidChannelIdentifier
        } else if code == BSEC_E_SET_INVALIDLENGTH {
            BsecError::SetInvalidLength
        } else if code == BSEC_W_SC_CALL_TIMING_VIOLATION {
            BsecError::CallTimingViolation
        } else if code == BSEC_W_SC_MODEXCEEDULPTIMELIMIT {
            BsecError::ModExceedULPTimeLimit
        } else if code == BSEC_W_SC_MODINSUFFICIENTWAITTIME {
            BsecError::ModInsufficentWaitTime
        } else {
            BsecError::UnknownError { code }
        }
    }

    /// Wrap an error of the device driver.
    pub fn from_driver(error: BME68xError) -> (r: BsecError)
        ensures
            r == (BsecError::DriverError { error }),
    {
        BsecError::DriverError { error }
    }
}

/// Turn a return code of the library into a result: 0 is success, every other
/// code is handed back as the error.
pub fn to_err(result: i32) -> (r: Result<(), i32>)
    ensures
        result == 0 ==> r == Ok::<(), i32>(()),
        result != 0 ==> r == Err::<(), i32>(result),
{
    if result != 0 {
        Err(result)
    } else {
        Ok(())
    }
}

/// Whether the library asks for input `shift` (counted from 1) in the
/// bit mask `value` of requested inputs.
pub fn check_input_request(value: u32, shift: u32) -> (r: bool)
    requires
        1 <= shift <= 32,
    ensures
        r == ((value >> ((shift - 1) as u32)) & 1 == 1),
{
    let s = shift - 1;
    let r = (value & (1u32 << s)) != 0;
    assert(((value & (1u32 << s)) != 0) == ((value >> s) & 1 == 1)) by (bit_vector)
        requires
            s < 32,
    ;
    r
}

/// The named slots of the virtual-sensor outputs.
#[derive(Debug, Clone, Copy, PartialEq, Eq, Structural)]
pub enum OutputSlot {
    /// Indoor air quality
    Iaq,
    /// Unscaled indoor air quality
    StaticIaq,
    /// Equivalent CO2 estimate (ppm)
    Co2Eq,
    /// Breath VOC estimate (ppm)
    BreathVocEq,
    /// Raw temperature (degrees C)
    RawTemp,
    /// Raw pressure (Pa)
    RawPressure,
    /// Raw humidity (%)
    RawHumidity,
    /// Raw gas sensor (Ohm)
    RawGas,
    /// Stabilization status
    StabilizationStatus,
    /// Sensor run-in status
    RunInStatus,
    /// Heat-compensated temperature (degrees C)
    CompensatedTemp,
    /// Heat-compensated humidity (%)
    CompensatedHumidity,
    /// Percentage of the min/max filtered gas value (%)
    GasPercentage,
    /// Gas channel 1 estimate
    GasEstimate1,
    /// Gas channel 2 estimate
    GasEstimate2,
    /// Gas channel 3 estimate
    GasEstimate3,
    /// Gas channel 4 estimate
    GasEstimate4,
    /// Gas heater profile index
    RawGasIndex,
}

/// The slot of a virtual-sensor ID, if it names one.
pub open spec fn slot_of_id(sensor_id: u8) -> Option<OutputSlot> {
    if sensor_id == BSEC_OUTPUT_IAQ {
        Some(OutputSlot::Iaq)
    } else if sensor_id == BSEC_OUTPUT_STATIC_IAQ {
        Some(OutputSlot::StaticIaq)
    } else if sensor_id == BSEC_OUTPUT_CO2_EQUIVALENT {
        Some(OutputSlot::Co2Eq)
    } else if sensor_id == BSEC_OUTPUT_BREATH_VOC_EQUIVALENT {
        Some(OutputSlot::BreathVocEq)
    } else if sensor_id == BSEC_OUTPUT_RAW_TEMPERATURE {
        Some(OutputSlot::RawTemp)
    } else if sensor_id == BSEC_OUTPUT_RAW_PRESSURE {
        Some(OutputSlot::RawPressure)
    } else if sensor_id == BSEC_OUTPUT_RAW_HUMIDITY {
        Some(OutputSlot::RawHumidity)
    } else if sensor_id == BSEC_OUTPUT_RAW_GAS {
        Some(OutputSlot::RawGas)
    } else if sensor_id == BSEC_OUTPUT_STABILIZATION_STATUS {
        Some(OutputSlot::StabilizationStatus)
    } else if sensor_id == BSEC_OUTPUT_RUN_IN_STATUS {
        Some(OutputSlot::RunInStatus)
    } else if sensor_id == BSEC_OUTPUT_SENSOR_HEAT_COMPENSATED_TEMPERATURE {
        Some(OutputSlot::CompensatedTemp)
    } else if sensor_id == BSEC_OUTPUT_SENSOR_HEAT_COMPENSATED_HUMIDITY {
        Some(OutputSlot::CompensatedHumidity)
    } else if sensor_id == BSEC_OUTPUT_GAS_PERCENTAGE {
        Some(OutputSlot::GasPercentage)
    } else if sensor_id == BSEC_OUTPUT_GAS_ESTIMATE_1 {
        Some(OutputSlot::GasEstimate1)
    } else if sensor_id == BSEC_OUTPUT_GAS_ESTIMATE_2 {
        Some(OutputSlot::GasEstimate2)
    } else if sensor_id == BSEC_OUTPUT_GAS_ESTIMATE_3 {
        Some(OutputSlot::GasEstimate3)
    } else if sensor_id == BSEC_OUTPUT_GAS_ESTIMATE_4 {
        Some(OutputSlot::GasEstimate4)
    } else if sensor_id == BSEC_OUTPUT_RAW_GAS_INDEX {
        Some(OutputSlot::RawGasIndex)
    } else {
        None
    }
}

/// The slot of a virtual-sensor ID; `None` for an ID that names no slot,
/// which the caller skips rather than aborting on.
pub fn output_slot(sensor_id: u8) -> (r: Option<OutputSlot>)
    ensures
        r == slot_of_id(sensor_id),
{
    if sensor_id == BSEC_OUTPUT_IAQ {
        Some(OutputSlot::Iaq)
    } else if sensor_id == BSEC_OUTPUT_STATIC_IAQ {
        Some(OutputSlot::StaticIaq)
    } else if sensor_id == BSEC_OUTPUT_CO2_EQUIVALENT {
        Some(OutputSlot::Co2Eq)
    } else if sensor_id == BSEC_OUTPUT_BREATH_VOC_EQUIVALENT {
        Some(OutputSlot::BreathVocEq)
    } else if sensor_id == BSEC_OUTPUT_RAW_TEMPERATURE {
        Some(OutputSlot::RawTemp)
    } else if sensor_id == BSEC_OUTPUT_RAW_PRESSURE {
        Some(OutputSlot::RawPressure)
    } else if sensor_id == BSEC_OUTPUT_RAW_HUMIDITY {
        Some(OutputSlot::RawHumidity)
    } else if sensor_id == BSEC_OUTPUT_RAW_GAS {
        Some(OutputSlot::RawGas)
    } else if sensor_id == BSEC_OUTPUT_STABILIZATION_STATUS {
        Some(OutputSlot::StabilizationStatus)
    } else if sensor_id == BSEC_OUTPUT_RUN_IN_STATUS {
        Some(OutputSlot::RunInStatus)
    } else if sensor_id == BSEC_OUTPUT_SENSOR_HEAT_COMPENSATED_TEMPERATURE {
        Some(OutputSlot::CompensatedTemp)
    } else if sensor_id == BSEC_OUTPUT_SENSOR_HEAT_COMPENSATED_HUMIDITY {
        Some(OutputSlot::CompensatedHumidity)
    } else if sensor_id == BSEC_OUTPUT_GAS_PERCENTAGE {
        Some(OutputSlot::GasPercentage)
    } else if sensor_id == BSEC_OUTPUT_GAS_ESTIMATE_1 {
        Some(OutputSlot::GasEstimate1)
    } else if sensor_id == BSEC_OUTPUT_GAS_ESTIMATE_2 {
        Some(OutputSlot::GasEstimate2)
    } else if sensor_id == BSEC_OUTPUT_GAS_ESTIMATE_3 {
        Some(OutputSlot::GasEstimate3)
    } else if sensor_id == BSEC_OUTPUT_GAS_ESTIMATE_4 {
        Some(OutputSlot::GasEstimate4)
    } else if sensor_id == BSEC_OUTPUT_RAW_GAS_INDEX {
        Some(OutputSlot::RawGasIndex)
    } else {
        None
    }
}

/// One output of a library step.
#[derive(Debug, Clone, Copy, PartialEq, Eq, Structural)]
pub struct bsec_output_t {
    /// Time stamp of the signal, in nanoseconds
    pub time_stamp: i64,
    /// Bit pattern of the single-precision signal value
    pub signal_bits: u32,
    /// Reserved for future use
    pub signal_dimensions: u8,
    /// Virtual sensor ID of the signal
    pub sensor_id: u8,
    /// Accuracy of the signal
    pub accuracy: u8,
}

impl bsec_output_t {
    /// An output with every member zero.
    pub fn new() -> (r: Self)
        ensures
            r == (bsec_output_t {
                time_stamp: 0,
                signal_bits: 0,
                signal_dimensions: 0,
                sensor_id: 0,
                accuracy: 0,
            }),
    {
        bsec_output_t { time_stamp: 0, signal_bits: 0, signal_dimensions: 0, sensor_id: 0, accuracy: 0 }
    }
}

/// The latest value of one virtual sensor.
#[derive(Debug, Clone, Copy, PartialEq, Eq, Structural)]
pub struct VirtualSensorData {
    /// Time stamp of the signal, in nanoseconds
    pub time_stamp: i64,
    /// Bit pattern of the single-precision signal value
    pub signal_bits: u32,
    /// Reserved for future use
    pub signal_dimensions: u8,
    /// Accuracy of the signal
    pub accuracy: u8,
    /// Whether the library produced this value
    pub valid: bool,
}

/// The slot value that an output of the library gives.
pub open spec fn data_of_output(o: bsec_output_t) -> VirtualSensorData {
    VirtualSensorData {
        time_stamp: o.time_stamp,
        signal_bits: o.signal_bits,
        signal_dimensions: o.signal_dimensions,
        accuracy: o.accuracy,
        valid: true,
    }
}

impl VirtualSensorData {
    /// A value not produced yet: every member zero and not valid.
    pub fn new() -> (r: Self)
        ensures
            r == (VirtualSensorData {
                time_stamp: 0,
                signal_bits: 0,
                signal_dimensions: 0,
                accuracy: 0,
                valid: false,
            }),
    {
        VirtualSensorData { time_stamp: 0, signal_bits: 0, signal_dimensions: 0, accuracy: 0, valid: false }
    }
}

/// The latest value of every virtual sensor, by name.
#[derive(Debug, Clone, Copy, PartialEq, Eq, Structural)]
pub struct StructuredOutputs {
    /// Indoor air quality
    pub iaq: VirtualSensorData,
    /// Unscaled indoor air quality
    pub static_iaq: VirtualSensorData,
    /// Equivalent CO2 estimate (ppm)
    pub co2_eq: VirtualSensorData,
    /// Breath VOC estimate (ppm)
    pub breath_voc_eq: VirtualSensorData,
    /// Raw temperature (degrees C)
    pub raw_temp: VirtualSensorData,
    /// Raw pressure (Pa)
    pub raw_pressure: VirtualSensorData,
    /// Raw humidity (%)
    pub raw_humidity: VirtualSensorData,
    /// Raw gas sensor (Ohm)
    pub raw_gas: VirtualSensorData,
    /// Stabilization status
    pub stabilization_status: VirtualSensorData,
    /// Sensor run-in status
    pub run_in_status: VirtualSensorData,
    /// Heat-compensated temperature (degrees C)
    pub compensated_temp: VirtualSensorData,
    /// Heat-compensated humidity (%)
    pub compensated_humidity: VirtualSensorData,
    /// Percentage of the min/max filtered gas value (%)
    pub gas_percentage: VirtualSensorData,
    /// Gas channel 1 estimate
    pub gas_estimate_1: VirtualSensorData,
    /// Gas channel 2 estimate
    pub gas_estimate_2: VirtualSensorData,
    /// Gas channel 3 estimate
    pub gas_estimate_3: VirtualSensorData,
    /// Gas channel 4 estimate
    pub gas_estimate_4: VirtualSensorData,
    /// Gas heater profile index
    pub raw_gas_index: VirtualSensorData,
}

impl StructuredOutputs {
    /// Outputs of which none was produced yet.
    pub fn new() -> (r: Self)
        ensures
            forall|s: OutputSlot| #[trigger] r.get(s) == VirtualSensorData::empty(),
    {
        StructuredOutputs {
            iaq: VirtualSensorData::new(),
            static_iaq: VirtualSensorData::new(),
            co2_eq: VirtualSensorData::new(),
            breath_voc_eq: VirtualSensorData::new(),
            raw_temp: VirtualSensorData::new(),
            raw_pressure: VirtualSensorData::new(),
            raw_humidity: VirtualSensorData::new(),
            raw_gas: VirtualSensorData::new(),
            stabilization_status: VirtualSensorData::new(),
            run_in_status: VirtualSensorData::new(),
            compensated_temp: VirtualSensorData::new(),
            compensated_humidity: VirtualSensorData::new(),
            gas_percentage: VirtualSensorData::new(),
            gas_estimate_1: VirtualSensorData::new(),
            gas_estimate_2: VirtualSensorData::new(),
            gas_estimate_3: VirtualSensorData::new(),
            gas_estimate_4: VirtualSensorData::new(),
            raw_gas_index: VirtualSensorData::new(),
        }
    }

    /// The value held in a slot.
    pub open spec fn get(self, slot: OutputSlot) -> VirtualSensorData {
        match slot {
            OutputSlot::Iaq => self.iaq,
            OutputSlot::StaticIaq => self.static_iaq,
            OutputSlot::Co2Eq => self.co2_eq,
            OutputSlot::BreathVocEq => self.breath_voc_eq,
            OutputSlot::RawTemp => self.raw_temp,
            OutputSlot::RawPressure => self.raw_pressure,
            OutputSlot::RawHumidity => self.raw_humidity,
            OutputSlot::RawGas => self.raw_gas,
            OutputSlot::StabilizationStatus => self.stabilization_status,
            OutputSlot::RunInStatus => self.run_in_status,
            OutputSlot::CompensatedTemp => self.compensated_temp,
            OutputSlot::CompensatedHumidity => self.compensated_humidity,
            OutputSlot::GasPercentage => self.gas_percentage,
            OutputSlot::GasEstimate1 => self.gas_estimate_1,
            OutputSlot::GasEstimate2 => self.gas_estimate_2,
            OutputSlot::GasEstimate3 => self.gas_estimate_3,
            OutputSlot::GasEstimate4 => self.gas_estimate_4,
            OutputSlot::RawGasIndex => self.raw_gas_index,
        }
    }

    /// These outputs with `data` in `slot`.
    pub open spec fn with(self, slot: OutputSlot, data: VirtualSensorData) -> StructuredOutputs {
        match slot {
            OutputSlot::Iaq => StructuredOutputs { iaq: data, ..self },
            OutputSlot::StaticIaq => StructuredOutputs { static_iaq: data, ..self },
            OutputSlot::Co2Eq => StructuredOutputs { co2_eq: data, ..self },
            OutputSlot::BreathVocEq => StructuredOutputs { breath_voc_eq: data, ..self },
            OutputSlot::RawTemp => StructuredOutputs { raw_temp: data, ..self },
            OutputSlot::RawPressure => StructuredOutputs { raw_pressure: data, ..self },
            OutputSlot::RawHumidity => StructuredOutputs { raw_humidity: data, ..self },
            OutputSlot::RawGas => StructuredOutputs { raw_gas: data, ..self },
            OutputSlot::StabilizationStatus => StructuredOutputs { stabilization_status: data, ..self },
            OutputSlot::RunInStatus => StructuredOutputs { run_in_status: data, ..self },
            OutputSlot::CompensatedTemp => StructuredOutputs { compensated_temp: data, ..self },
            OutputSlot::CompensatedHumidity => StructuredOutputs { compensated_humidity: data, ..self },
            OutputSlot::GasPercentage => StructuredOutputs { gas_percentage: data, ..self },
            OutputSlot::GasEstimate1 => StructuredOutputs { gas_estimate_1: data, ..self },
            OutputSlot::GasEstimate2 => StructuredOutputs { gas_estimate_2: data, ..self },
            OutputSlot::GasEstimate3 => StructuredOutputs { gas_estimate_3: data, ..self },
            OutputSlot::GasEstimate4 => StructuredOutputs { gas_estimate_4: data, ..self },
            OutputSlot::RawGasIndex => StructuredOutputs { raw_gas_index: data, ..self },
        }
    }

    /// Store `data` in `slot`.
    pub fn set(&mut self, slot: OutputSlot, data: VirtualSensorData)
        ensures
            *final(self) == old(self).with(slot, data),
    {
        match slot {
            OutputSlot::Iaq => self.iaq = data,
            OutputSlot::StaticIaq => self.static_iaq = data,
            OutputSlot::Co2Eq => self.co2_eq = data,
            OutputSlot::BreathVocEq => self.breath_voc_eq = data,
            OutputSlot::RawTemp => self.raw_temp = data,
            OutputSlot::RawPressure => self.raw_pressure = data,
            OutputSlot::RawHumidity => self.raw_humidity = data,
            OutputSlot::RawGas => self.raw_gas = data,
            OutputSlot::StabilizationStatus => self.stabilization_status = data,
            OutputSlot::RunInStatus => self.run_in_status = data,
            OutputSlot::CompensatedTemp => self.compensated_temp = data,
            OutputSlot::CompensatedHumidity => self.compensated_humidity = data,
            OutputSlot::GasPercentage => self.gas_percentage = data,
            OutputSlot::GasEstimate1 => self.gas_estimate_1 = data,
            OutputSlot::GasEstimate2 => self.gas_estimate_2 = data,
            OutputSlot::GasEstimate3 => self.gas_estimate_3 = data,
            OutputSlot::GasEstimate4 => self.gas_estimate_4 = data,
            OutputSlot::RawGasIndex => self.raw_gas_index = data,
        }
    }

    /// These outputs after applying the outputs of one library step: each
    /// output whose ID names a slot overwrites that slot, in order; the others
    /// are skipped.
    pub open spec fn apply(self, outs: Seq<bsec_output_t>) -> StructuredOutputs
        decreases outs.len(),
    {
        if outs.len() == 0 {
            self
        } else {
            let prev = self.apply(outs.drop_last());
            match slot_of_id(outs.last().sensor_id) {
                Some(s) => prev.with(s, data_of_output(outs.last())),
                None => prev,
            }
        }
    }

    /// Apply the first `num_outputs` outputs of a library step to the slots,
    /// and return the IDs of those that name no slot (they are skipped).
    pub fn update_output_structure(&mut self, outputs: &Vec<bsec_output_t>, num_outputs: usize) -> (r:
        Vec<u8>)
        ensures
            *final(self) == old(self).apply(
                outputs@.take(if num_outputs <= outputs@.len() {
                    num_outputs as int
                } else {
                    outputs@.len() as int
                }),
            ),
            r@ == unknown_ids(
                outputs@.take(if num_outputs <= outputs@.len() {
                    num_outputs as int
                } else {
                    outputs@.len() as int
                }),
            ),
    {
        let n = if num_outputs <= outputs.len() {
            num_outputs
        } else {
            outputs.len()
        };
        let mut unknown: Vec<u8> = Vec::new();
        let mut i: usize = 0;
        while i < n
            invariant
                n <= outputs@.len(),
                i <= n,
                *self == old(self).apply(outputs@.take(i as int)),
                unknown@ == unknown_ids(outputs@.take(i as int)),
            decreases n - i,
        {
            let o = outputs[i];
            assert(outputs@.take(i + 1).drop_last() == outputs@.take(i as int));
            match output_slot(o.sensor_id) {
                Some(slot) => {
                    self.set(
                        slot,
                        VirtualSensorData {
                            time_stamp: o.time_stamp,
                            signal_bits: o.signal_bits,
                            signal_dimensions: o.signal_dimensions,
                            accuracy: o.accuracy,
                            valid: true,
                        },
                    );
                },
                None => {
                    unknown.push(o.sensor_id);
                },
            }
            i = i + 1;
        }
        unknown
    }
}

/// The IDs of the outputs that name no slot, in order.
pub open spec fn unknown_ids(outs: Seq<bsec_output_t>) -> Seq<u8>
    decreases outs.len(),
{
    if outs.len() == 0 {
        seq![]
    } else if slot_of_id(outs.last().sensor_id) is None {
        unknown_ids(outs.drop_last()).push(outs.last().sensor_id)
    } else {
        unknown_ids(outs.drop_last())
    }
}

impl VirtualSensorData {
    /// A value not produced yet.
    pub open spec fn empty() -> VirtualSensorData {
        VirtualSensorData { time_stamp: 0, signal_bits: 0, signal_dimensions: 0, accuracy: 0, valid: false }
    }
}

/// The sensor settings the library requests for the next measurement.
#[derive(Debug, Clone, Copy)]
pub struct bsec_bme_settings_t {
    /// Time stamp of the next call of the library, in nanoseconds
    pub next_call: i64,
    /// Bit mask of the inputs the library asks for
    pub process_data: u32,
    /// Heater temperature for forced mode, in degrees Celsius
    pub heater_temperature: u16,
    /// Heating duration for forced mode, in milliseconds
    pub heater_duration: u16,
    /// Heater temperature profile for parallel mode, in degrees Celsius
    pub heater_temperature_profile: [u16; 10],
    /// Heating duration profile for parallel mode
    pub heater_duration_profile: [u16; 10],
    /// Number of steps of the heater profile
    pub heater_profile_len: u8,
    /// Whether to run a gas measurement
    pub run_gas: u8,
    /// Pressure oversampling code
    pub pressure_oversampling: u8,
    /// Temperature oversampling code
    pub temperature_oversampling: u8,
    /// Humidity oversampling code
    pub humidity_oversampling: u8,
    /// Whether to trigger a measurement
    pub trigger_measurement: u8,
    /// Operation mode code of the device
    pub op_mode: u8,
}

impl bsec_bme_settings_t {
    /// Settings with every member zero.
    pub fn new() -> (r: Self)
        ensures
            r.next_call == 0,
            r.process_data == 0,
            r.heater_temperature == 0,
            r.heater_duration == 0,
            forall|i: int| 0 <= i < 10 ==> r.heater_temperature_profile@[i] == 0,
            forall|i: int| 0 <= i < 10 ==> r.heater_duration_profile@[i] == 0,
            r.heater_profile_len == 0,
            r.run_gas == 0,
            r.pressure_oversampling == 0,
            r.temperature_oversampling == 0,
            r.humidity_oversampling == 0,
            r.trigger_measurement == 0,
            r.op_mode == 0,
    {
        bsec_bme_settings_t {
            next_call: 0,
            process_data: 0,
            heater_temperature: 0,
            heater_duration: 0,
            heater_temperature_profile: [0u16; 10],
            heater_duration_profile: [0u16; 10],
            heater_profile_len: 0,
            run_gas: 0,
            pressure_oversampling: 0,
            temperature_oversampling: 0,
            humidity_oversampling: 0,
            trigger_measurement: 0,
            op_mode: 0,
        }
    }
}

/// The device mode that a mode code of the library requests: sequential mode
/// is not supported by the library's protocol and is refused.
pub open spec fn requested_mode_of(code: u8) -> Result<BME68xOpMode, BsecError> {
    if code == 0 {
        Ok(BME68xOpMode::SleepMode)
    } else if code == 1 {
        Ok(BME68xOpMode::ForcedMode)
    } else if code == 2 {
        Ok(BME68xOpMode::ParallelMode)
    } else if code == 3 {
        Err(BsecError::DriverError { error: BME68xError::DefineOpMode })
    } else {
        Err(BsecError::DriverError { error: BME68xError::CastError })
    }
}

/// The device mode the library requests. Sequential mode fails with
/// `DefineOpMode`, an unknown mode code with `CastError`.
pub fn requested_mode(settings: &bsec_bme_settings_t) -> (r: Result<BME68xOpMode, BsecError>)
    ensures
        r == requested_mode_of(settings.op_mode),
{
    match settings.op_mode {
        0 => Ok(BME68xOpMode::SleepMode),
        1 => Ok(BME68xOpMode::ForcedMode),
        2 => Ok(BME68xOpMode::ParallelMode),
        3 => Err(BsecError::DriverError { error: BME68xError::DefineOpMode }),
        _ => Err(BsecError::DriverError { error: BME68xError::CastError }),
    }
}

/// Whether the library asks to read a measurement after configuring the device.
pub fn should_read(settings: &bsec_bme_settings_t) -> (r: bool)
    ensures
        r == (settings.trigger_measurement != 0 && settings.op_mode != 0),
{
    settings.trigger_measurement != 0 && settings.op_mode != 0
}

/// Decode an oversampling code of the library.
fn oversampling(code: u8) -> (r: Result<BME68xOs, BsecError>)
    ensures
        os_of_code(code) matches Some(o) ==> r == Ok::<BME68xOs, BsecError>(o),
        os_of_code(code) is None ==> r == Err::<BME68xOs, BsecError>(
            BsecError::DriverError { error: BME68xError::CastError },
        ),
{
    match BME68xOs::from_u8(code) {
        Ok(o) => Ok(o),
        Err(e) => Err(BsecError::from_driver(e)),
    }
}

/// `current` with the oversampling settings the library requests; a code
/// that names no oversampling setting fails with `CastError`.
pub fn requested_conf(settings: &bsec_bme_settings_t, current: &BME68xConf) -> (r: Result<
    BME68xConf,
    BsecError,
>)
    ensures
        (os_of_code(settings.humidity_oversampling) is Some && os_of_code(
            settings.temperature_oversampling,
        ) is Some && os_of_code(settings.pressure_oversampling) is Some) ==> r == Ok::<
            BME68xConf,
            BsecError,
        >(
            BME68xConf {
                os_hum: os_of_code(settings.humidity_oversampling)->0,
                os_temp: os_of_code(settings.temperature_oversampling)->0,
                os_pres: os_of_code(settings.pressure_oversampling)->0,
                ..*current
            },
        ),
        !(os_of_code(settings.humidity_oversampling) is Some && os_of_code(
            settings.temperature_oversampling,
        ) is Some && os_of_code(settings.pressure_oversampling) is Some) ==> r == Err::<
            BME68xConf,
            BsecError,
        >(BsecError::DriverError { error: BME68xError::CastError }),
{
    let os_hum = oversampling(settings.humidity_oversampling)?;
    let os_temp = oversampling(settings.temperature_oversampling)?;
    let os_pres = oversampling(settings.pressure_oversampling)?;
    Ok(BME68xConf { os_hum, os_temp, os_pres, filter: current.filter, odr: current.odr })
}

/// The forced-mode heater configuration the library requests: heater on, one
/// step at the requested temperature and duration.
pub fn forced_heater_conf(settings: &bsec_bme_settings_t) -> (r: BME68xHeatrConf)
    ensures
        r.enable,
        r.heatr_temp == settings.heater_temperature,
        r.heatr_dur == settings.heater_duration,
        r.profile_len == 0,
        r.shared_heatr_dur == 0,
{
    let mut conf = BME68xHeatrConf::new();
    conf.enable = true;
    conf.heatr_temp = settings.heater_temperature;
    conf.heatr_dur = settings.heater_duration;
    conf
}

/// The parallel-mode heater configuration the library requests: heater on,
/// its temperature and duration profile, and a shared heating duration of
/// what is left of the 140 ms heating period after a measurement with `conf`.
pub fn parallel_heater_conf(settings: &bsec_bme_settings_t, conf: &BME68xConf) -> (r:
    BME68xHeatrConf)
    ensures
        r.enable,
        r.heatr_temp_prof == settings.heater_temperature_profile,
        r.heatr_dur_prof == settings.heater_duration_profile,
        r.profile_len == settings.heater_profile_len,
        r.shared_heatr_dur == BSEC_TOTAL_HEAT_DUR - meas_dur(BME68xOpMode::ParallelMode, *conf)
            / 1000,
        r.shared_heatr_dur > 0,
{
    let dur = get_meas_dur(BME68xOpMode::ParallelMode, conf);
    assert(conf.os_temp.spec_meas_cycles() <= 16 && conf.os_pres.spec_meas_cycles() <= 16
        && conf.os_hum.spec_meas_cycles() <= 16);
    let mut h = BME68xHeatrConf::new();
    h.enable = true;
    h.heatr_temp_prof = settings.heater_temperature_profile;
    h.heatr_dur_prof = settings.heater_duration_profile;
    h.profile_len = settings.heater_profile_len;
    h.shared_heatr_dur = BSEC_TOTAL_HEAT_DUR - (dur / 1000) as u16;
    h
}

/// The heater profile part reported with a measurement: 0 in forced mode,
/// the field's heater step otherwise.
pub fn profile_part(op_mode: u8, gas_index: u8) -> (r: u8)
    ensures
        op_mode == 1 ==> r == 0,
        op_mode != 1 ==> r == gas_index,
{
    if op_mode == 1 {
        0
    } else {
        gas_index
    }
}

/// Physical inputs handed to the library with a measurement.
#[derive(Debug, Clone, Copy, PartialEq, Eq, Structural)]
pub enum InputSignal {
    /// Pressure in Pa
    Pressure,
    /// Relative humidity in percent
    Humidity,
    /// Temperature in degrees Celsius
    Temperature,
    /// Gas resistance in Ohm
    GasResistor,
    /// Temperature offset of a heat source near the sensor
    HeatSource,
    /// Heater profile part of the measurement
    ProfilePart,
}

impl InputSignal {
    pub open spec fn spec_id(self) -> u8 {
        match self {
            InputSignal::Pressure => BSEC_INPUT_PRESSURE,
            InputSignal::Humidity => BSEC_INPUT_HUMIDITY,
            InputSignal::Temperature => BSEC_INPUT_TEMPERATURE,
            InputSignal::GasResistor => BSEC_INPUT_GASRESISTOR,
            InputSignal::HeatSource => BSEC_INPUT_HEATSOURCE,
            InputSignal::ProfilePart => BSEC_INPUT_PROFILE_PART,
        }
    }

    /// The library's ID of this input.
    pub fn sensor_id(self) -> (r: u8)
        ensures
            r == self.spec_id(),
    {
        match self {
            InputSignal::Pressure => BSEC_INPUT_PRESSURE,
            InputSignal::Humidity => BSEC_INPUT_HUMIDITY,
            InputSignal::Temperature => BSEC_INPUT_TEMPERATURE,
            InputSignal::GasResistor => BSEC_INPUT_GASRESISTOR,
            InputSignal::HeatSource => BSEC_INPUT_HEATSOURCE,
            InputSignal::ProfilePart => BSEC_INPUT_PROFILE_PART,
        }
    }
}

/// Whether the bit mask `process_data` asks for input `s`.
pub open spec fn asks_for(process_data: u32, s: InputSignal) -> bool {
    (process_data >> ((s.spec_id() - 1) as u32)) & 1 == 1
}

/// `s` alone if the bit mask asks for it, else nothing.
pub open spec fn if_asked(process_data: u32, s: InputSignal) -> Seq<InputSignal> {
    if asks_for(process_data, s) {
        seq![s]
    } else {
        seq![]
    }
}

/// The inputs the bit mask asks for, in the order they are handed over.
pub open spec fn requested_inputs_of(process_data: u32) -> Seq<InputSignal> {
    if_asked(process_data, InputSignal::Pressure) + if_asked(process_data, InputSignal::Humidity)
        + if_asked(process_data, InputSignal::Temperature) + if_asked(
        process_data,
        InputSignal::GasResistor,
    ) + if_asked(process_data, InputSignal::HeatSource) + if_asked(
        process_data,
        InputSignal::ProfilePart,
    )
}

fn push_if_asked(v: &mut Vec<InputSignal>, process_data: u32, s: InputSignal)
    ensures
        final(v)@ == old(v)@ + if_asked(process_data, s),
{
    if check_input_request(process_data, s.sensor_id() as u32) {
        v.push(s);
    }
    assert(final(v)@ =~= old(v)@ + if_asked(process_data, s));
}

/// The inputs the library asks for, in the order pressure, humidity,
/// temperature, gas resistance, heat source, profile part.
pub fn requested_inputs(process_data: u32) -> (r: Vec<InputSignal>)
    ensures
        r@ == requested_inputs_of(process_data),
{
    let mut v: Vec<InputSignal> = Vec::new();
    push_if_asked(&mut v, process_data, InputSignal::Pressure);
    push_if_asked(&mut v, process_data, InputSignal::Humidity);
    push_if_asked(&mut v, process_data, InputSignal::Temperature);
    push_if_asked(&mut v, process_data, InputSignal::GasResistor);
    push_if_asked(&mut v, process_data, InputSignal::HeatSource);
    push_if_asked(&mut v, process_data, InputSignal::ProfilePart);
    assert(v@ =~= requested_inputs_of(process_data));
    v
}

/// Sample rates of a virtual-sensor subscription.
#[derive(Debug, Clone, Copy, PartialEq, Eq, Structural)]
pub enum SampleRate {
    /// Output disabled
    Disabled,
    /// Measurement on demand, outside the periodic schedule
    OnDemand,
    /// Ultra-low-power rate: one sample every 300 s
    UltraLowPower,
    /// Low-power rate: one sample every 3 s
    LowPower,
    /// Continuous rate: one sample every second
    Continuous,
    /// Gas-scan rate: one sample every 18 s
    Scan,
}

/// One requested virtual sensor, or one required physical sensor.
#[derive(Debug, Clone, Copy, PartialEq, Eq, Structural)]
pub struct bsec_sensor_configuration_t {
    /// Sample rate of the sensor
    pub sample_rate: SampleRate,
    /// ID of the sensor
    pub sensor_id: u8,
}

impl bsec_sensor_configuration_t {
    /// A configuration of sensor 0 on demand (the all-zero configuration).
    pub fn new() -> (r: Self)
        ensures
            r.sample_rate == SampleRate::OnDemand,
            r.sensor_id == 0,
    {
        bsec_sensor_configuration_t { sample_rate: SampleRate::OnDemand, sensor_id: 0 }
    }
}

/// The virtual sensors that do not need a gas scan, in subscription order.
pub open spec fn non_scan_ids() -> Seq<u8> {
    seq![
        BSEC_OUTPUT_RAW_TEMPERATURE,
        BSEC_OUTPUT_RAW_PRESSURE,
        BSEC_OUTPUT_RAW_HUMIDITY,
        BSEC_OUTPUT_RAW_GAS,
        BSEC_OUTPUT_IAQ,
        BSEC_OUTPUT_STATIC_IAQ,
        BSEC_OUTPUT_CO2_EQUIVALENT,
        BSEC_OUTPUT_BREATH_VOC_EQUIVALENT,
        BSEC_OUTPUT_SENSOR_HEAT_COMPENSATED_TEMPERATURE,
        BSEC_OUTPUT_SENSOR_HEAT_COMPENSATED_HUMIDITY,
        BSEC_OUTPUT_STABILIZATION_STATUS,
        BSEC_OUTPUT_RUN_IN_STATUS,
        BSEC_OUTPUT_GAS_PERCENTAGE,
    ]
}

/// The subscription of every virtual sensor that needs no gas scan, all at
/// `sample_rate`.
pub fn subscribe_all_non_scan(sample_rate: SampleRate) -> (r: Vec<bsec_sensor_configuration_t>)
    ensures
        r@.len() == non_scan_ids().len(),
        forall|i: int|
            0 <= i < r@.len() ==> (#[trigger] r@[i]).sample_rate == sample_rate && r@[i].sensor_id
                == non_scan_ids()[i],
{
    let ids: Vec<u8> = vec![
        BSEC_OUTPUT_RAW_TEMPERATURE,
        BSEC_OUTPUT_RAW_PRESSURE,
        BSEC_OUTPUT_RAW_HUMIDITY,
        BSEC_OUTPUT_RAW_GAS,
        BSEC_OUTPUT_IAQ,
        BSEC_OUTPUT_STATIC_IAQ,
        BSEC_OUTPUT_CO2_EQUIVALENT,
        BSEC_OUTPUT_BREATH_VOC_EQUIVALENT,
        BSEC_OUTPUT_SENSOR_HEAT_COMPENSATED_TEMPERATURE,
        BSEC_OUTPUT_SENSOR_HEAT_COMPENSATED_HUMIDITY,
        BSEC_OUTPUT_STABILIZATION_STATUS,
        BSEC_OUTPUT_RUN_IN_STATUS,
        BSEC_OUTPUT_GAS_PERCENTAGE,
    ];
    assert(ids@ == non_scan_ids());
    let mut r: Vec<bsec_sensor_configuration_t> = Vec::new();
    let mut i: usize = 0;
    while i < ids.len()
        invariant
            ids@ == non_scan_ids(),
            i <= ids@.len(),
            r@.len() == i,
            forall|k: int|
                0 <= k < i ==> (#[trigger] r@[k]).sample_rate == sample_rate && r@[k].sensor_id
                    == ids@[k],
        decreases ids@.len() - i,
    {
        r.push(bsec_sensor_configuration_t { sample_rate, sensor_id: ids[i] });
        i = i + 1;
    }
    r
}

} // verus!
