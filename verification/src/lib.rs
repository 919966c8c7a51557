//! Core of an air-quality gateway: the store that holds the latest sensor
//! reading, the rule that decides when the CO2 alarm is due, and the set of
//! named gauges under which a reading is published.
//!
//! Everything here works on plain values and borrows; sharing a store between
//! request handlers, talking to the network and rendering are left to the
//! program that embeds the library.

pub mod alarm;
pub mod endpoint;
pub mod exporter;
pub mod gateway;
pub mod reading;
pub mod store;
pub mod threshold;
