//! The errors of the solar position calculations, and their messages.
use vstd::prelude::*;

verus! {

/// Why a solar position calculation refused its inputs.
#[derive(Debug, Clone, Copy, PartialEq, Eq, Structural)]
pub enum SpaError {
    DeltaUt1OutOfRange,
    LongitudeOutOfRange,
    LatitudeOutOfRange,
    ElevationOutOfRange,
    PressureOutOfRange,
    TemperatureOutOfRange,
    GeometricDipOutOfRange,
    TimeConversionError,
}

/// The message that describes an error.
pub open spec fn spa_error_message(e: SpaError) -> Seq<char> {
    match e {
        SpaError::DeltaUt1OutOfRange => "ΔUT1 out of range"@,
        SpaError::LongitudeOutOfRange => "Longitude out of range"@,
        SpaError::LatitudeOutOfRange => "Latitude out of range"@,
        SpaError::ElevationOutOfRange => "Elevation out of range"@,
        SpaError::PressureOutOfRange => "Pressure out of range"@,
        SpaError::TemperatureOutOfRange => "Temperature out of range"@,
        SpaError::GeometricDipOutOfRange => "Geometric dip out of range"@,
        SpaError::TimeConversionError => "Time conversion error"@,
    }
}

impl SpaError {
    /// The message that describes the error.
    pub fn message(&self) -> (s: &'static str)
        ensures
            s@ == spa_error_message(*self),
    {
        match self {
            SpaError::DeltaUt1OutOfRange => "ΔUT1 out of range",
            SpaError::LongitudeOutOfRange => "Longitude out of range",
            SpaError::LatitudeOutOfRange => "Latitude out of range",
            SpaError::ElevationOutOfRange => "Elevation out of range",
            SpaError::PressureOutOfRange => "Pressure out of range",
            SpaError::TemperatureOutOfRange => "Temperature out of range",
            SpaError::GeometricDipOutOfRange => "Geometric dip out of range",
            SpaError::TimeConversionError => "Time conversion error",
        }
    }
}

} // verus!
