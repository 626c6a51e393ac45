//! Error kinds of the BME68x driver.
use vstd::prelude::*;

verus! {

/// Error and warning codes of the BME68x driver.
#[derive(Debug, Clone, Copy, PartialEq, Eq, Structural)]
pub enum BME68xError {
    /// Success
    Success,
    /// Null pointer passed
    NullPtr,
    /// Communication failure
    ComFail,
    /// Sensor not found
    DevNotFound,
    /// Incorrect length parameter
    InvalidLength,
    /// Self test error
    SelfTest,
    /// A value read or computed does not fit the type it is converted to
    CastError,
    /// Define a valid operation mode
    DefineOpMode,
    /// No new data was found
    NoNewData,
    /// Define shared heating duration
    DefineShdHeatrDur,
}

} // verus!
