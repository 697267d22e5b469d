//! Register addresses and control values of the chained display chip.
//!
//! Every register and control value is a closed set of variants with an
//! explicit total mapping to its raw byte, so that no contract ever rests on
//! an implicit numeric coercion.

use vstd::prelude::*;

verus! {

/// The addressable registers of one display chip. Addresses 1 through 8
/// select the eight display digits (rows); the rest configure the chip.
#[derive(Clone, Copy, Debug, PartialEq, Eq, Structural)]
pub enum RegisterAddressMap {
    Noop,
    Digit0,
    Digit1,
    Digit2,
    Digit3,
    Digit4,
    Digit5,
    Digit6,
    Digit7,
    DecodeMode,
    Intensity,
    ScanLimit,
    Shutdown,
    DisplayTest,
}

impl RegisterAddressMap {
    /// The raw address byte of this register.
    pub open spec fn spec_byte(self) -> u8 {
        match self {
            RegisterAddressMap::Noop => 0x0,
            RegisterAddressMap::Digit0 => 0x1,
            RegisterAddressMap::Digit1 => 0x2,
            RegisterAddressMap::Digit2 => 0x3,
            RegisterAddressMap::Digit3 => 0x4,
            RegisterAddressMap::Digit4 => 0x5,
            RegisterAddressMap::Digit5 => 0x6,
            RegisterAddressMap::Digit6 => 0x7,
            RegisterAddressMap::Digit7 => 0x8,
            RegisterAddressMap::DecodeMode => 0x9,
            RegisterAddressMap::Intensity => 0xA,
            RegisterAddressMap::ScanLimit => 0xB,
            RegisterAddressMap::Shutdown => 0xC,
            RegisterAddressMap::DisplayTest => 0xF,
        }
    }

    /// The raw address byte of this register.
    #[verifier::when_used_as_spec(spec_byte)]
    pub fn byte(self) -> (b: u8)
        ensures
            b == self.spec_byte(),
    {
        match self {
            RegisterAddressMap::Noop => 0x0,
            RegisterAddressMap::Digit0 => 0x1,
            RegisterAddressMap::Digit1 => 0x2,
            RegisterAddressMap::Digit2 => 0x3,
            RegisterAddressMap::Digit3 => 0x4,
            RegisterAddressMap::Digit4 => 0x5,
            RegisterAddressMap::Digit5 => 0x6,
            RegisterAddressMap::Digit6 => 0x7,
            RegisterAddressMap::Digit7 => 0x8,
            RegisterAddressMap::DecodeMode => 0x9,
            RegisterAddressMap::Intensity => 0xA,
            RegisterAddressMap::ScanLimit => 0xB,
            RegisterAddressMap::Shutdown => 0xC,
            RegisterAddressMap::DisplayTest => 0xF,
        }
    }
}

/// The sixteen display intensity levels, named by their duty cycle in
/// thirty-seconds.
#[derive(Clone, Copy, Debug, PartialEq, Eq, Structural)]
pub enum Intensity {
    OneThirtyTwo,
    ThreeThirtyTwo,
    FiveThirtyTwo,
    SevenThirtyTwo,
    NineThirtyTwo,
    ElevenThirtyTwo,
    ThirteenThirtyTwo,
    FifteenThirtyTwo,
    SeventeenThirtyTwo,
    NineteenThirtyTwo,
    TwentyOneThirtyTwo,
    TwentyThreeThirtyTwo,
    TwentyFiveThirtyTwo,
    TwentySevenThirtyTwo,
    TwentyNineThirtyTwo,
    ThirtyOneThirtyTwo,
}

impl Intensity {
    /// The raw value written to the intensity register.
    pub open spec fn spec_byte(self) -> u8 {
        match self {
            Intensity::OneThirtyTwo => 0x00,
            Intensity::ThreeThirtyTwo => 0x01,
            Intensity::FiveThirtyTwo => 0x02,
            Intensity::SevenThirtyTwo => 0x03,
            Intensity::NineThirtyTwo => 0x04,
            Intensity::ElevenThirtyTwo => 0x05,
            Intensity::ThirteenThirtyTwo => 0x06,
            Intensity::FifteenThirtyTwo => 0x07,
            Intensity::SeventeenThirtyTwo => 0x08,
            Intensity::NineteenThirtyTwo => 0x09,
            Intensity::TwentyOneThirtyTwo => 0x0A,
            Intensity::TwentyThreeThirtyTwo => 0x0B,
            Intensity::TwentyFiveThirtyTwo => 0x0C,
            Intensity::TwentySevenThirtyTwo => 0x0D,
            Intensity::TwentyNineThirtyTwo => 0x0E,
            Intensity::ThirtyOneThirtyTwo => 0x0F,
        }
    }

    /// The raw value written to the intensity register.
    #[verifier::when_used_as_spec(spec_byte)]
    pub fn byte(self) -> (b: u8)
        ensures
            b == self.spec_byte(),
    {
        match self {
            Intensity::OneThirtyTwo => 0x00,
            Intensity::ThreeThirtyTwo => 0x01,
            Intensity::FiveThirtyTwo => 0x02,
            Intensity::SevenThirtyTwo => 0x03,
            Intensity::NineThirtyTwo => 0x04,
            Intensity::ElevenThirtyTwo => 0x05,
            Intensity::ThirteenThirtyTwo => 0x06,
            Intensity::FifteenThirtyTwo => 0x07,
            Intensity::SeventeenThirtyTwo => 0x08,
            Intensity::NineteenThirtyTwo => 0x09,
            Intensity::TwentyOneThirtyTwo => 0x0A,
            Intensity::TwentyThreeThirtyTwo => 0x0B,
            Intensity::TwentyFiveThirtyTwo => 0x0C,
            Intensity::TwentySevenThirtyTwo => 0x0D,
            Intensity::TwentyNineThirtyTwo => 0x0E,
            Intensity::ThirtyOneThirtyTwo => 0x0F,
        }
    }
}

/// How many display digits (rows) the chip scans.
#[derive(Clone, Copy, Debug, PartialEq, Eq, Structural)]
pub enum ScanLimit {
    DisplayDigit0,
    DisplayDigit0And1,
    DisplayDigit0To2,
    DisplayDigit0To3,
    DisplayDigit0To4,
    DisplayDigit0To5,
    DisplayDigit0To6,
    DisplayDigit0To7,
}

impl ScanLimit {
    /// The raw value written to the scan-limit register.
    pub open spec fn spec_byte(self) -> u8 {
        match self {
            ScanLimit::DisplayDigit0 => 0x00,
            ScanLimit::DisplayDigit0And1 => 0x01,
            ScanLimit::DisplayDigit0To2 => 0x02,
            ScanLimit::DisplayDigit0To3 => 0x03,
            ScanLimit::DisplayDigit0To4 => 0x04,
            ScanLimit::DisplayDigit0To5 => 0x05,
            ScanLimit::DisplayDigit0To6 => 0x06,
            ScanLimit::DisplayDigit0To7 => 0x07,
        }
    }

    /// The raw value written to the scan-limit register.
    #[verifier::when_used_as_spec(spec_byte)]
    pub fn byte(self) -> (b: u8)
        ensures
            b == self.spec_byte(),
    {
        match self {
            ScanLimit::DisplayDigit0 => 0x00,
            ScanLimit::DisplayDigit0And1 => 0x01,
            ScanLimit::DisplayDigit0To2 => 0x02,
            ScanLimit::DisplayDigit0To3 => 0x03,
            ScanLimit::DisplayDigit0To4 => 0x04,
            ScanLimit::DisplayDigit0To5 => 0x05,
            ScanLimit::DisplayDigit0To6 => 0x06,
            ScanLimit::DisplayDigit0To7 => 0x07,
        }
    }
}

/// Whether the chip decodes digit data as BCD or leaves it raw.
#[derive(Clone, Copy, Debug, PartialEq, Eq, Structural)]
pub enum DecodeMode {
    NoDecode,
    CodeB,
    CodeBC,
    CodeBDE,
}

impl DecodeMode {
    /// The raw value written to the decode-mode register.
    pub open spec fn spec_byte(self) -> u8 {
        match self {
            DecodeMode::NoDecode => 0x00,
            DecodeMode::CodeB => 0x01,
            DecodeMode::CodeBC => 0x0F,
            DecodeMode::CodeBDE => 0xFF,
        }
    }

    /// The raw value written to the decode-mode register.
    #[verifier::when_used_as_spec(spec_byte)]
    pub fn byte(self) -> (b: u8)
        ensures
            b == self.spec_byte(),
    {
        match self {
            DecodeMode::NoDecode => 0x00,
            DecodeMode::CodeB => 0x01,
            DecodeMode::CodeBC => 0x0F,
            DecodeMode::CodeBDE => 0xFF,
        }
    }
}

/// Whether the chip is shut down or running.
#[derive(Clone, Copy, Debug, PartialEq, Eq, Structural)]
pub enum Mode {
    Shutdown,
    NormalOperation,
}

impl Mode {
    /// The raw value written to the shutdown register.
    pub open spec fn spec_byte(self) -> u8 {
        match self {
            Mode::Shutdown => 0x00,
            Mode::NormalOperation => 0x01,
        }
    }

    /// The raw value written to the shutdown register.
    #[verifier::when_used_as_spec(spec_byte)]
    pub fn byte(self) -> (b: u8)
        ensures
            b == self.spec_byte(),
    {
        match self {
            Mode::Shutdown => 0x00,
            Mode::NormalOperation => 0x01,
        }
    }
}

} // verus!
