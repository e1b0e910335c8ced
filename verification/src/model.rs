//! The internal domain model: a stable shape that the metrics renderer
//! consumes, produced fresh from upstream payloads on every poll.
//!
//! Readings (temperatures, percentages) are IEEE-754 doubles upstream. The
//! library never computes on them, it only carries them, so each reading is
//! held as its raw 64-bit pattern.

use vstd::prelude::*;

verus! {

/// One numeric reading, carried as the bit pattern of an IEEE-754 double.
#[derive(Clone, Copy, Debug, PartialEq, Eq, Structural)]
pub struct FloatBits {
    pub bits: u64,
}

impl FloatBits {
    /// Wraps a raw bit pattern.
    pub fn from_bits(bits: u64) -> (r: FloatBits)
        ensures
            r.bits == bits,
    {
        FloatBits { bits }
    }
}

/// An outdoor temperature in both units.
#[derive(Clone, Copy, Debug, PartialEq, Eq, Structural)]
pub struct Temperature {
    pub celsius: FloatBits,
    pub fahrenheit: FloatBits,
}

/// A temperature in one unit.
#[derive(Clone, Copy, Debug, PartialEq, Eq, Structural)]
pub struct SingleTemperature {
    pub value: FloatBits,
}

/// Heating power as a percentage.
#[derive(Clone, Copy, Debug, PartialEq, Eq, Structural)]
pub struct HeatingPower {
    pub percentage: FloatBits,
}

/// Relative humidity as a percentage.
#[derive(Clone, Copy, Debug, PartialEq, Eq, Structural)]
pub struct Humidity {
    pub percentage: FloatBits,
}

/// Solar intensity as a percentage.
#[derive(Clone, Copy, Debug, PartialEq, Eq, Structural)]
pub struct SolarIntensity {
    pub percentage: FloatBits,
}

/// Marks that an open window was detected in a zone.
#[derive(Clone, Copy, Debug, PartialEq, Eq, Structural)]
pub struct ZoneStateOpenWindow {}

/// The configured setting of a zone; the target temperature is absent when
/// the zone's heating mode is off.
#[derive(Clone, Copy, Debug, PartialEq, Eq)]
pub struct ZoneStateSetting {
    pub temperature: Option<SingleTemperature>,
}

/// The measured sensor readings of a zone; either may be absent.
#[derive(Clone, Copy, Debug, PartialEq, Eq)]
pub struct ZoneStateSensorDataPoints {
    pub inside_temperature: Option<SingleTemperature>,
    pub humidity: Option<Humidity>,
}

/// The live state of one zone: an immutable snapshot produced on every poll.
#[derive(Clone, Debug, PartialEq)]
pub struct ZoneState {
    pub name: String,
    pub id: i32,
    pub setting: ZoneStateSetting,
    pub heating_power: Option<HeatingPower>,
    pub sensor_data_points: ZoneStateSensorDataPoints,
    pub open_window: Option<ZoneStateOpenWindow>,
}

/// Current outdoor conditions: a snapshot with no history.
#[derive(Clone, Copy, Debug, PartialEq, Eq)]
pub struct Weather {
    pub outside_temperature: Temperature,
    pub solar_intensity: SolarIntensity,
}

/// One timestamped value of a time series. The timestamp is an RFC 3339
/// string, kept verbatim from the upstream payload.
#[derive(Clone, Debug, PartialEq)]
pub struct DataPoint<T> {
    pub timestamp: String,
    pub value: T,
}

/// The accumulated temperature time series of one zone, keyed by zone name.
/// The sequence grows by concatenation across polls and is never reordered
/// or deduplicated.
#[derive(Clone, Debug, PartialEq)]
pub struct HistoryReport {
    pub name: String,
    pub inside_temperature: Vec<DataPoint<Temperature>>,
}

} // verus!
