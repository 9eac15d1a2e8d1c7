//! Register addresses and decode modes of the MAX7219.

use vstd::prelude::*;

use crate::error::Error;

verus! {

/// The registers of one MAX7219.
#[derive(Debug, Clone, Copy, PartialEq, Eq, Structural)]
pub enum Register {
    /// No-op register
    NoOp,
    /// Digit 0 register
    Digit0,
    /// Digit 1 register
    Digit1,
    /// Digit 2 register
    Digit2,
    /// Digit 3 register
    Digit3,
    /// Digit 4 register
    Digit4,
    /// Digit 5 register
    Digit5,
    /// Digit 6 register
    Digit6,
    /// Digit 7 register
    Digit7,
    /// Decode mode register
    DecodeMode,
    /// Intensity register
    Intensity,
    /// Scan limit register
    ScanLimit,
    /// Shutdown register
    Shutdown,
    /// Display test register
    DisplayTest,
}

impl Register {
    /// The address byte of each register.
    pub open spec fn addr_spec(self) -> u8 {
        match self {
            Register::NoOp => 0x00,
            Register::Digit0 => 0x01,
            Register::Digit1 => 0x02,
            Register::Digit2 => 0x03,
            Register::Digit3 => 0x04,
            Register::Digit4 => 0x05,
            Register::Digit5 => 0x06,
            Register::Digit6 => 0x07,
            Register::Digit7 => 0x08,
            Register::DecodeMode => 0x09,
            Register::Intensity => 0x0A,
            Register::ScanLimit => 0x0B,
            Register::Shutdown => 0x0C,
            Register::DisplayTest => 0x0F,
        }
    }

    /// Convert register to u8 value.
    #[verifier::when_used_as_spec(addr_spec)]
    pub fn addr(self) -> (a: u8)
        ensures
            a == self.addr_spec(),
    {
        match self {
            Register::NoOp => 0x00,
            Register::Digit0 => 0x01,
            Register::Digit1 => 0x02,
            Register::Digit2 => 0x03,
            Register::Digit3 => 0x04,
            Register::Digit4 => 0x05,
            Register::Digit5 => 0x06,
            Register::Digit6 => 0x07,
            Register::Digit7 => 0x08,
            Register::DecodeMode => 0x09,
            Register::Intensity => 0x0A,
            Register::ScanLimit => 0x0B,
            Register::Shutdown => 0x0C,
            Register::DisplayTest => 0x0F,
        }
    }

    /// The register of digit `digit`, for `digit` below 8.
    pub open spec fn digit(digit: int) -> Register
        recommends
            0 <= digit < 8,
    {
        if digit == 0 {
            Register::Digit0
        } else if digit == 1 {
            Register::Digit1
        } else if digit == 2 {
            Register::Digit2
        } else if digit == 3 {
            Register::Digit3
        } else if digit == 4 {
            Register::Digit4
        } else if digit == 5 {
            Register::Digit5
        } else if digit == 6 {
            Register::Digit6
        } else {
            Register::Digit7
        }
    }

    /// The eight digit registers in ascending order.
    pub open spec fn digit_seq() -> Seq<Register> {
        Seq::new(8, |d: int| Register::digit(d))
    }

    /// Try to convert a digit index (0-7) into the corresponding digit register.
    ///
    /// Any other index is refused with [`Error::InvalidDigit`].
    pub fn try_digit(digit: u8) -> (r: Result<Register, Error>)
        ensures
            digit < 8 ==> r == Ok::<Register, Error>(Register::digit(digit as int)),
            digit >= 8 ==> r == Err::<Register, Error>(Error::InvalidDigit),
    {
        match digit {
            0 => Ok(Register::Digit0),
            1 => Ok(Register::Digit1),
            2 => Ok(Register::Digit2),
            3 => Ok(Register::Digit3),
            4 => Ok(Register::Digit4),
            5 => Ok(Register::Digit5),
            6 => Ok(Register::Digit6),
            7 => Ok(Register::Digit7),
            _ => Err(Error::InvalidDigit),
        }
    }

    /// All digit registers, `Digit0` to `Digit7`, in that order.
    ///
    /// Useful for walking through display rows or columns when writing to all
    /// digits of a device in order.
    pub fn digits() -> (all: [Register; 8])
        ensures
            all@ == Register::digit_seq(),
    {
        let all = [
            Register::Digit0,
            Register::Digit1,
            Register::Digit2,
            Register::Digit3,
            Register::Digit4,
            Register::Digit5,
            Register::Digit6,
            Register::Digit7,
        ];
        assert(all@ =~= Register::digit_seq());
        all
    }

    /// The digit registers occupy the addresses 1 to 8: digit `d` has address
    /// `d + 1`, so no two digits share an address.
    pub proof fn lemma_digit_addr(digit: int)
        requires
            0 <= digit < 8,
        ensures
            Register::digit(digit).addr_spec() == digit + 1,
    {
    }
}

/// Decode mode configuration for the MAX7219 display driver.
///
/// Code B decoding allows the chip to convert certain values (such as 0-9, E,
/// H, L, and others) into their 7-segment patterns by itself. Digits not using
/// Code B must be controlled with raw segment data.
#[derive(Debug, Clone, Copy, PartialEq, Eq, Structural)]
pub enum DecodeMode {
    /// Disable Code B decoding for all digits (DIG0 to DIG7).
    NoDecode,
    /// Enable Code B decoding for only digit 0 (DIG0).
    Digit0,
    /// Enable Code B decoding for digits 0 through 3 (DIG0 to DIG3).
    Digits0To3,
    /// Enable Code B decoding for all digits (DIG0 to DIG7).
    AllDigits,
}

impl DecodeMode {
    /// The configuration byte of each mode: one bit per decoded digit.
    pub open spec fn value_spec(self) -> u8 {
        match self {
            DecodeMode::NoDecode => 0x00,
            DecodeMode::Digit0 => 0x01,
            DecodeMode::Digits0To3 => 0x0F,
            DecodeMode::AllDigits => 0xFF,
        }
    }

    /// Convert decode mode to u8 value.
    #[verifier::when_used_as_spec(value_spec)]
    pub fn value(self) -> (v: u8)
        ensures
            v == self.value_spec(),
    {
        match self {
            DecodeMode::NoDecode => 0x00,
            DecodeMode::Digit0 => 0x01,
            DecodeMode::Digits0To3 => 0x0F,
            DecodeMode::AllDigits => 0xFF,
        }
    }
}

} // verus!
