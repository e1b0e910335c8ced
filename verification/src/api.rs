//! The upstream payload shapes, one tagged structure per endpoint response,
//! with explicit optional members wherever the endpoint does not guarantee a
//! field. Transport code outside the library deserializes raw JSON into
//! mirror structures and hands these plain values in.

#![allow(non_snake_case)]

use vstd::prelude::*;

use crate::model::{DataPoint, FloatBits};

verus! {

/// The device-authorization endpoint's answer that starts a device-code flow.
#[derive(Clone, Debug, PartialEq)]
pub struct AuthStartResponse {
    pub device_code: String,
    pub expires_in: u64,
    pub interval: u64,
    pub verification_uri_complete: String,
}

/// The error body of a rejected token-endpoint poll.
#[derive(Clone, Debug, PartialEq)]
pub struct AuthTokensErrorResponse {
    pub error: String,
}

/// A token pair with its validity in seconds; the single record that is
/// persisted across restarts.
#[derive(Clone, Debug, PartialEq)]
pub struct AuthTokensResponse {
    pub access_token: String,
    pub expires_in: u64,
    pub refresh_token: String,
}

/// The account metadata answer, listing the homes of the account.
#[derive(Clone, Debug, PartialEq)]
pub struct MeApiResponse {
    pub homes: Vec<HomesApiResponse>,
}

/// One home of the account.
#[derive(Clone, Copy, Debug, PartialEq, Eq, Structural)]
pub struct HomesApiResponse {
    pub id: i32,
}

/// One zone of the zone directory, with its live state.
#[derive(Clone, Debug, PartialEq)]
pub struct ZonesApiResponse {
    pub id: i32,
    pub name: String,
    pub setting: ZoneStateSettingApiResponse,
    pub heatingPower: Option<ActivityDataPointsHeatingPowerApiResponse>,
    pub sensorDataPoints: ZoneStateSensorDataPointsApiResponse,
    pub openWindow: Option<ZoneStateOpenWindowApiResponse>,
}

/// The live state of one zone, as the per-zone state endpoint answers it.
#[derive(Clone, Debug, PartialEq)]
pub struct ZoneStateApiResponse {
    pub setting: ZoneStateSettingApiResponse,
    pub heatingPower: Option<ActivityDataPointsHeatingPowerApiResponse>,
    pub sensorDataPoints: ZoneStateSensorDataPointsApiResponse,
    pub openWindow: Option<ZoneStateOpenWindowApiResponse>,
}

/// The open-window marker of a zone state.
#[derive(Clone, Debug, PartialEq)]
pub struct ZoneStateOpenWindowApiResponse {
    /// An RFC 3339 timestamp.
    pub detectedTime: String,
    pub durationInSeconds: i32,
    pub expiry: String,
    pub remainingTimeInSeconds: i32,
}

/// The configured setting of a zone; `power` is guaranteed by the endpoint,
/// the target temperature is absent when heating is off.
#[derive(Clone, Debug, PartialEq)]
pub struct ZoneStateSettingApiResponse {
    pub power: String,
    pub temperature: Option<ZoneStateSettingTemperatureApiResponse>,
}

/// The target temperature of a zone setting.
#[derive(Clone, Copy, Debug, PartialEq, Eq, Structural)]
pub struct ZoneStateSettingTemperatureApiResponse {
    pub value: FloatBits,
}

/// The activity data points of a zone state.
#[derive(Clone, Debug, PartialEq)]
pub struct ZoneStateActivityDataPointsApiResponse {
    pub heatingPower: Option<ActivityDataPointsHeatingPowerApiResponse>,
    pub acPower: Option<ActivityDataPointsAcPowerApiResponse>,
}

/// Heating power of a zone, as a percentage.
#[derive(Clone, Copy, Debug, PartialEq, Eq, Structural)]
pub struct ActivityDataPointsHeatingPowerApiResponse {
    pub percentage: FloatBits,
}

/// Air-conditioning power of a zone, as an on/off word.
#[derive(Clone, Debug, PartialEq)]
pub struct ActivityDataPointsAcPowerApiResponse {
    pub value: String,
}

/// The sensor readings of a zone state; either may be absent.
#[derive(Clone, Copy, Debug, PartialEq, Eq)]
pub struct ZoneStateSensorDataPointsApiResponse {
    pub insideTemperature: Option<SensorDataPointsInsideTemperatureApiResponse>,
    pub humidity: Option<SensorDataPointsHumidityApiResponse>,
}

/// The measured inside temperature of a zone.
#[derive(Clone, Copy, Debug, PartialEq, Eq, Structural)]
pub struct SensorDataPointsInsideTemperatureApiResponse {
    pub value: FloatBits,
}

/// The measured humidity of a zone, as a percentage.
#[derive(Clone, Copy, Debug, PartialEq, Eq, Structural)]
pub struct SensorDataPointsHumidityApiResponse {
    pub percentage: FloatBits,
}

/// The weather endpoint's answer.
#[derive(Clone, Copy, Debug, PartialEq, Eq)]
pub struct WeatherApiResponse {
    pub solarIntensity: WeatherSolarIntensityApiResponse,
    pub outsideTemperature: WeatherOutsideTemperatureApiResponse,
}

/// Solar intensity outside the home, as a percentage.
#[derive(Clone, Copy, Debug, PartialEq, Eq, Structural)]
pub struct WeatherSolarIntensityApiResponse {
    pub percentage: FloatBits,
}

/// The outside temperature in both units.
#[derive(Clone, Copy, Debug, PartialEq, Eq, Structural)]
pub struct WeatherOutsideTemperatureApiResponse {
    pub fahrenheit: FloatBits,
    pub celsius: FloatBits,
}

/// A zone's name and identifier joined with its state answer.
#[derive(Clone, Debug, PartialEq)]
pub struct ZoneStateResponse {
    pub name: String,
    pub id: i32,
    pub state_response: ZoneStateApiResponse,
}

/// A closed interval of two RFC 3339 timestamps.
#[derive(Clone, Debug, PartialEq)]
pub struct TimeInterval {
    pub from: String,
    pub to: String,
}

/// A boolean value holding over an interval of two RFC 3339 timestamps.
#[derive(Clone, Debug, PartialEq)]
pub struct DataInterval {
    pub from: String,
    pub to: String,
    pub value: bool,
}

/// The device-connected intervals of a day report.
#[derive(Clone, Debug, PartialEq)]
pub struct ZoneDayReportMeasuredDataMeasuringDeviceConnectedApiResponse {
    pub timeSeriesType: String,
    pub valueType: String,
    pub dataIntervals: Vec<DataInterval>,
}

/// The inside-temperature series of a day report.
#[derive(Clone, Debug, PartialEq)]
pub struct ZoneDayReportMeasuredDataInsideTemperatureApiResponse {
    pub timeSeriesType: String,
    pub valueType: String,
    pub min: WeatherOutsideTemperatureApiResponse,
    pub max: WeatherOutsideTemperatureApiResponse,
    pub dataPoints: Vec<DataPoint<WeatherOutsideTemperatureApiResponse>>,
}

/// The humidity series of a day report.
#[derive(Clone, Debug, PartialEq)]
pub struct ZoneDayReportMeasuredDataHumidityApiResponse {
    pub timeSeriesType: String,
    pub valueType: String,
    pub percentageUnit: String,
    pub min: FloatBits,
    pub max: FloatBits,
    pub dataPoints: Vec<DataPoint<FloatBits>>,
}

/// The measured series of a day report.
#[derive(Clone, Debug, PartialEq)]
pub struct ZoneDayReportMeasuredDataApiResponse {
    pub measuringDeviceConnected: ZoneDayReportMeasuredDataMeasuringDeviceConnectedApiResponse,
    pub insideTemperature: ZoneDayReportMeasuredDataInsideTemperatureApiResponse,
    pub humidity: ZoneDayReportMeasuredDataHumidityApiResponse,
}

/// The day-report endpoint's answer: one zone's full-day history.
#[derive(Clone, Debug, PartialEq)]
pub struct ZoneDayReportApiResponse {
    pub zoneType: String,
    pub interval: TimeInterval,
    pub hoursInDay: i32,
    pub measuredData: ZoneDayReportMeasuredDataApiResponse,
}

} // verus!
