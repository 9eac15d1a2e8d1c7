//! The errors that the driver reports.

use vstd::prelude::*;
use vstd::std_specs::convert::FromSpecImpl;

use crate::bus::BusFault;

verus! {

/// Everything that can go wrong in a driver operation.
#[derive(Debug, Clone, Copy, PartialEq, Eq, Structural)]
pub enum Error {
    /// The specified device count is invalid (exceeds maximum allowed).
    InvalidDeviceCount,
    /// Invalid scan limit value (must be 1-8).
    InvalidScanLimit,
    /// The specified register address is not valid for the MAX7219.
    InvalidRegister,
    /// Invalid device index (exceeds configured number of devices).
    InvalidDeviceIndex,
    /// Invalid digit position (0-7 for MAX7219).
    InvalidDigit,
    /// Invalid intensity value (must be 0-15).
    InvalidIntensity,
    /// SPI communication error.
    SpiError,
}

impl Error {
    /// The text that describes each error.
    pub open spec fn message_spec(self) -> Seq<char> {
        match self {
            Error::SpiError => "SPI communication error"@,
            Error::InvalidDeviceIndex => "Invalid device index"@,
            Error::InvalidDigit => "Invalid digit"@,
            Error::InvalidIntensity => "Invalid intensity value"@,
            Error::InvalidScanLimit => "Invalid scan limit value"@,
            Error::InvalidDeviceCount => "Invalid device count"@,
            Error::InvalidRegister => "Invalid register address"@,
        }
    }

    /// A short human-readable description of the error.
    pub fn message(&self) -> (text: &'static str)
        ensures
            text@ == self.message_spec(),
    {
        match self {
            Error::SpiError => "SPI communication error",
            Error::InvalidDeviceIndex => "Invalid device index",
            Error::InvalidDigit => "Invalid digit",
            Error::InvalidIntensity => "Invalid intensity value",
            Error::InvalidScanLimit => "Invalid scan limit value",
            Error::InvalidDeviceCount => "Invalid device count",
            Error::InvalidRegister => "Invalid register address",
        }
    }
}

impl From<BusFault> for Error {
    /// Every failure of the bus becomes [`Error::SpiError`]; no detail is kept.
    fn from(_value: BusFault) -> (e: Error) {
        Error::SpiError
    }
}

impl FromSpecImpl<BusFault> for Error {
    open spec fn obeys_from_spec() -> bool {
        true
    }

    open spec fn from_spec(_value: BusFault) -> Error {
        Error::SpiError
    }
}

} // verus!
