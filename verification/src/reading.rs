//! One sample of the sensor.

use vstd::prelude::*;

verus! {

/// A temperature and a relative humidity taken together.
///
/// Each field is the IEEE 754 binary32 pattern of the measured number
/// (degrees Celsius, per cent), exactly as the sensor driver produced it, so
/// that a reading can be stored, compared and handed on without loss.
#[derive(Clone, Copy, Debug, PartialEq, Eq, Structural)]
pub struct Reading {
    pub temperature: u32,
    pub humidity: u32,
}

impl Reading {
    /// The reading whose two numbers are both positive zero.
    pub open spec fn zero() -> Reading {
        Reading { temperature: 0, humidity: 0 }
    }

    /// The reading a node holds before its sensor has answered once.
    pub fn new() -> (reading: Reading)
        ensures
            reading == Reading::zero(),
    {
        Reading { temperature: 0, humidity: 0 }
    }

    /// The reading made of the two given binary32 patterns.
    pub fn from_bits(temperature: u32, humidity: u32) -> (reading: Reading)
        ensures
            reading.temperature == temperature,
            reading.humidity == humidity,
    {
        Reading { temperature, humidity }
    }
}

} // verus!
