//! The sensor sample that the gateway holds.

use vstd::prelude::*;

verus! {

/// One complete sample reported by the sensor.
///
/// A reading is a value: it is built whole, copied whole and replaced whole.
/// The temperature is carried as the bit pattern of an IEEE-754 binary64
/// number of degrees Celsius, so that two readings are equal exactly when
/// every field, bit for bit, is the same.
#[derive(Clone, Copy, Debug, PartialEq, Eq, Structural)]
pub struct Reading {
    /// WiFi signal strength, in dBm.
    pub wifi: i64,
    /// CO2 concentration, in ppm.
    pub co2: i64,
    /// Particulate matter PM2.5, in micrograms per cubic metre.
    pub pm25: i64,
    /// Temperature in degrees Celsius, as binary64 bits.
    pub temperature_bits: u64,
    /// Relative humidity, in percent.
    pub humidity: i64,
}

impl Reading {
    /// The reading that a store holds before the first sample arrives: every
    /// field zero (the bit pattern zero is the temperature 0.0).
    pub open spec fn zero() -> Reading {
        Reading { wifi: 0, co2: 0, pm25: 0, temperature_bits: 0, humidity: 0 }
    }
}

impl Default for Reading {
    fn default() -> (reading: Reading)
        ensures
            reading == Reading::zero(),
    {
        Reading { wifi: 0, co2: 0, pm25: 0, temperature_bits: 0, humidity: 0 }
    }
}

} // verus!
