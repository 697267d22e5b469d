//! The accelerometer's register encodings and the decoding of its raw
//! axis data. The I2C transfers stay with the host; the logic here turns
//! the eight bytes a burst read returns into the three signed axis
//! values.

use vstd::prelude::*;

verus! {

/// The power-control flags of the accelerometer.
#[derive(Clone, Copy, Debug, PartialEq, Eq, Structural)]
pub enum PowerControl {
    Link,
    AutoSleep,
    Measure,
    WakeUp8Hz,
    WakeUp4Hz,
    WakeUp2Hz,
    WakeUp1Hz,
}

impl PowerControl {
    /// The raw bits of this flag.
    pub open spec fn spec_byte(self) -> u8 {
        match self {
            PowerControl::Link => 0b00100000,
            PowerControl::AutoSleep => 0b00010000,
            PowerControl::Measure => 0b00001000,
            PowerControl::WakeUp8Hz => 0b00000000,
            PowerControl::WakeUp4Hz => 0b00000001,
            PowerControl::WakeUp2Hz => 0b00000010,
            PowerControl::WakeUp1Hz => 0b00000011,
        }
    }

    /// The raw bits of this flag.
    #[verifier::when_used_as_spec(spec_byte)]
    pub fn byte(self) -> (b: u8)
        ensures
            b == self.spec_byte(),
    {
        match self {
            PowerControl::Link => 0b00100000,
            PowerControl::AutoSleep => 0b00010000,
            PowerControl::Measure => 0b00001000,
            PowerControl::WakeUp8Hz => 0b00000000,
            PowerControl::WakeUp4Hz => 0b00000001,
            PowerControl::WakeUp2Hz => 0b00000010,
            PowerControl::WakeUp1Hz => 0b00000011,
        }
    }
}

/// The registers the driver reads and writes.
#[derive(Clone, Copy, Debug, PartialEq, Eq, Structural)]
pub enum RegisterMap {
    DeviceId,
    AxisXData0,
    PowerControl,
}

impl RegisterMap {
    /// The raw address of this register.
    pub open spec fn spec_byte(self) -> u8 {
        match self {
            RegisterMap::DeviceId => 0x00,
            RegisterMap::AxisXData0 => 0x32,
            RegisterMap::PowerControl => 0x2D,
        }
    }

    /// The raw address of this register.
    #[verifier::when_used_as_spec(spec_byte)]
    pub fn byte(self) -> (b: u8)
        ensures
            b == self.spec_byte(),
    {
        match self {
            RegisterMap::DeviceId => 0x00,
            RegisterMap::AxisXData0 => 0x32,
            RegisterMap::PowerControl => 0x2D,
        }
    }
}

/// The signed 16-bit value of a little-endian byte pair, in two's
/// complement.
pub open spec fn i16_from_le(lo: u8, hi: u8) -> int {
    let unsigned = lo + 256 * (hi as int);
    if unsigned < 32768 {
        unsigned
    } else {
        unsigned - 65536
    }
}

/// Decodes one little-endian signed 16-bit axis value.
pub fn decode_axis(lo: u8, hi: u8) -> (v: i16)
    ensures
        v as int == i16_from_le(lo, hi),
{
    let unsigned: u16 = lo as u16 + 256 * (hi as u16);
    if unsigned < 32768 {
        unsigned as i16
    } else {
        -((65535 - unsigned) as i16) - 1
    }
}

/// Decodes a burst read starting at the x-axis data register into the
/// three axis values, each two little-endian bytes.
pub fn decode_acceleration(response: &Vec<u8>) -> (axes: (i16, i16, i16))
    requires
        response@.len() >= 6,
    ensures
        axes.0 as int == i16_from_le(response@[0], response@[1]),
        axes.1 as int == i16_from_le(response@[2], response@[3]),
        axes.2 as int == i16_from_le(response@[4], response@[5]),
{
    (
        decode_axis(response[0], response[1]),
        decode_axis(response[2], response[3]),
        decode_axis(response[4], response[5]),
    )
}

} // verus!
