//! What a reading is published as: the set of named gauges for a scrape, and
//! the record for a query.
//!
//! Both are made from one copy of a reading, so neither can show fields of
//! two readings side by side. The heat index is derived from the reading's
//! temperature and humidity by floating-point arithmetic; the caller computes
//! it from that same copy and passes its bits in. Rendering the result as
//! text is the caller's business as well.

use crate::reading::Reading;
use crate::store::StoreState;
use vstd::prelude::*;

verus! {

/// The six gauges of the gateway.
#[derive(Clone, Copy, Debug, PartialEq, Eq, Structural)]
pub enum GaugeName {
    /// Particulate matter PM2.5.
    Pm02,
    /// CO2 level.
    Rco2,
    /// Temperature.
    Atmp,
    /// Relative humidity.
    Rhum,
    /// Heat index.
    Heat,
    /// WiFi signal strength.
    Wifi,
}

/// The value of a gauge.
#[derive(Clone, Copy, Debug, PartialEq, Eq, Structural)]
pub enum GaugeValue {
    /// A whole number.
    Integer(i64),
    /// The bit pattern of an IEEE-754 binary64 number.
    Binary64(u64),
}

impl GaugeName {
    /// The name under which the gauge is scraped.
    pub open spec fn name_text(self) -> Seq<char> {
        match self {
            GaugeName::Pm02 => "pm02"@,
            GaugeName::Rco2 => "rco2"@,
            GaugeName::Atmp => "atmp"@,
            GaugeName::Rhum => "rhum"@,
            GaugeName::Heat => "heat"@,
            GaugeName::Wifi => "wifi"@,
        }
    }

    /// The value of the gauge's `id` label: `Airgradient` for what the sensor
    /// measures itself, `Extra` for what is derived or incidental.
    pub open spec fn sensor_text(self) -> Seq<char> {
        match self {
            GaugeName::Pm02 | GaugeName::Rco2 | GaugeName::Atmp | GaugeName::Rhum => "Airgradient"@,
            GaugeName::Heat | GaugeName::Wifi => "Extra"@,
        }
    }

    /// The line of help shown with the gauge.
    pub open spec fn help_text(self) -> Seq<char> {
        match self {
            GaugeName::Pm02 => "Particulate Matter PM2.5 value"@,
            GaugeName::Rco2 => "CO2 value, in ppm"@,
            GaugeName::Atmp => "Temperature, in degrees Celcius"@,
            GaugeName::Rhum => "Relative humidity, in percent"@,
            GaugeName::Heat => "Heat index, in degrees Celcius"@,
            GaugeName::Wifi => "WiFi RSSI of Airgradient"@,
        }
    }

    /// True for the gauges that hold a whole number; the temperature and the
    /// heat index hold a binary64 number.
    pub open spec fn is_integer(self) -> bool {
        self != GaugeName::Atmp && self != GaugeName::Heat
    }

    /// The name under which the gauge is scraped.
    pub fn name(self) -> (text: &'static str)
        ensures
            text@ == self.name_text(),
    {
        match self {
            GaugeName::Pm02 => "pm02",
            GaugeName::Rco2 => "rco2",
            GaugeName::Atmp => "atmp",
            GaugeName::Rhum => "rhum",
            GaugeName::Heat => "heat",
            GaugeName::Wifi => "wifi",
        }
    }

    /// The value of the gauge's `id` label.
    pub fn sensor(self) -> (text: &'static str)
        ensures
            text@ == self.sensor_text(),
    {
        match self {
            GaugeName::Pm02 | GaugeName::Rco2 | GaugeName::Atmp | GaugeName::Rhum => "Airgradient",
            GaugeName::Heat | GaugeName::Wifi => "Extra",
        }
    }

    /// The line of help shown with the gauge.
    pub fn help(self) -> (text: &'static str)
        ensures
            text@ == self.help_text(),
    {
        match self {
            GaugeName::Pm02 => "Particulate Matter PM2.5 value",
            GaugeName::Rco2 => "CO2 value, in ppm",
            GaugeName::Atmp => "Temperature, in degrees Celcius",
            GaugeName::Rhum => "Relative humidity, in percent",
            GaugeName::Heat => "Heat index, in degrees Celcius",
            GaugeName::Wifi => "WiFi RSSI of Airgradient",
        }
    }
}

/// The values of the six gauges at one moment.
#[derive(Clone, Copy, Debug, PartialEq, Eq, Structural)]
pub struct GaugeSet {
    /// Particulate matter PM2.5, in micrograms per cubic metre.
    pub pm02: i64,
    /// CO2 level, in ppm.
    pub rco2: i64,
    /// Temperature in degrees Celsius, as binary64 bits.
    pub atmp: u64,
    /// Relative humidity, in percent.
    pub rhum: i64,
    /// Heat index in degrees Celsius, as binary64 bits.
    pub heat: u64,
    /// WiFi signal strength, in dBm.
    pub wifi: i64,
}

impl GaugeSet {
    /// The gauges that show `reading`, with the heat index derived from it.
    pub open spec fn of(reading: Reading, heat_index_bits: u64) -> GaugeSet {
        GaugeSet {
            pm02: reading.pm25,
            rco2: reading.co2,
            atmp: reading.temperature_bits,
            rhum: reading.humidity,
            heat: heat_index_bits,
            wifi: reading.wifi,
        }
    }

    /// The value that the set holds for the gauge `name`.
    pub open spec fn value(self, name: GaugeName) -> GaugeValue {
        match name {
            GaugeName::Pm02 => GaugeValue::Integer(self.pm02),
            GaugeName::Rco2 => GaugeValue::Integer(self.rco2),
            GaugeName::Atmp => GaugeValue::Binary64(self.atmp),
            GaugeName::Rhum => GaugeValue::Integer(self.rhum),
            GaugeName::Heat => GaugeValue::Binary64(self.heat),
            GaugeName::Wifi => GaugeValue::Integer(self.wifi),
        }
    }

    /// The value that the set holds for the gauge `name`.
    pub fn get(&self, name: GaugeName) -> (value: GaugeValue)
        ensures
            value == self.value(name),
            value is Integer <==> name.is_integer(),
    {
        match name {
            GaugeName::Pm02 => GaugeValue::Integer(self.pm02),
            GaugeName::Rco2 => GaugeValue::Integer(self.rco2),
            GaugeName::Atmp => GaugeValue::Binary64(self.atmp),
            GaugeName::Rhum => GaugeValue::Integer(self.rhum),
            GaugeName::Heat => GaugeValue::Binary64(self.heat),
            GaugeName::Wifi => GaugeValue::Integer(self.wifi),
        }
    }
}

/// The record that answers a query for the current values.
#[derive(Clone, Copy, Debug, PartialEq, Eq, Structural)]
pub struct AirQualityOutput {
    /// WiFi signal strength, in dBm.
    pub wifi: i64,
    /// CO2 level, in ppm.
    pub co2: i64,
    /// Particulate matter PM2.5, in micrograms per cubic metre.
    pub pm25: i64,
    /// Temperature in degrees Celsius, as binary64 bits.
    pub temp: u64,
    /// Relative humidity, in percent.
    pub hum: i64,
    /// Heat index in degrees Celsius, as binary64 bits.
    pub heat_index: u64,
}

impl AirQualityOutput {
    /// The record that shows `reading`, with the heat index derived from it.
    pub open spec fn of(reading: Reading, heat_index_bits: u64) -> AirQualityOutput {
        AirQualityOutput {
            wifi: reading.wifi,
            co2: reading.co2,
            pm25: reading.pm25,
            temp: reading.temperature_bits,
            hum: reading.humidity,
            heat_index: heat_index_bits,
        }
    }
}

/// The gauges for one copy of the current reading. `heat_index_bits` is the
/// heat index computed from the temperature and humidity of `reading`.
pub fn snapshot(reading: &Reading, heat_index_bits: u64) -> (gauges: GaugeSet)
    ensures
        gauges == GaugeSet::of(*reading, heat_index_bits),
{
    GaugeSet {
        pm02: reading.pm25,
        rco2: reading.co2,
        atmp: reading.temperature_bits,
        rhum: reading.humidity,
        heat: heat_index_bits,
        wifi: reading.wifi,
    }
}

/// The query record for one copy of the current reading. `heat_index_bits`
/// is the heat index computed from the temperature and humidity of `reading`.
pub fn metrics_json(reading: &Reading, heat_index_bits: u64) -> (output: AirQualityOutput)
    ensures
        output == AirQualityOutput::of(*reading, heat_index_bits),
{
    AirQualityOutput {
        wifi: reading.wifi,
        co2: reading.co2,
        pm25: reading.pm25,
        temp: reading.temperature_bits,
        hum: reading.humidity,
        heat_index: heat_index_bits,
    }
}

/// Snapshots taken with no installation in between are identical: whatever
/// thresholds were set meanwhile, the store shows the same reading, and the
/// gauges are a function of that reading and of the heat index derived from
/// it.
pub proof fn lemma_snapshot_idempotent(
    state: StoreState,
    thresholds: Seq<u64>,
    heat_index_bits: u64,
)
    ensures
        state.set_threshold_all(thresholds).current == state.current,
        GaugeSet::of(state.set_threshold_all(thresholds).current, heat_index_bits) == GaugeSet::of(
            state.current,
            heat_index_bits,
        ),
    decreases thresholds.len(),
{
    if thresholds.len() > 0 {
        lemma_snapshot_idempotent(state, thresholds.drop_last(), heat_index_bits);
    }
}

} // verus!
