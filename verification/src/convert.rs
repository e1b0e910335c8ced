//! The Response Converter: pure, total, side-effect-free mappings from each
//! upstream payload shape to the internal model. Every optional upstream
//! field maps to an optional internal field; absence is preserved, never
//! defaulted, and present values are carried over exactly.

use vstd::prelude::*;

use crate::api::{
    ActivityDataPointsHeatingPowerApiResponse, SensorDataPointsHumidityApiResponse,
    SensorDataPointsInsideTemperatureApiResponse, WeatherApiResponse,
    WeatherOutsideTemperatureApiResponse, WeatherSolarIntensityApiResponse,
    ZoneDayReportApiResponse, ZoneStateOpenWindowApiResponse,
    ZoneStateSensorDataPointsApiResponse, ZoneStateSettingApiResponse,
    ZoneStateSettingTemperatureApiResponse, ZonesApiResponse,
};
use crate::model::{
    DataPoint, HeatingPower, Humidity, SingleTemperature, SolarIntensity, Temperature, Weather,
    ZoneState, ZoneStateOpenWindow, ZoneStateSensorDataPoints, ZoneStateSetting,
};

verus! {

impl ZoneStateSettingTemperatureApiResponse {
    /// What the conversion of a target temperature is.
    pub open spec fn spec_convert(self) -> SingleTemperature {
        SingleTemperature { value: self.value }
    }

    /// Converts the target temperature, preserving the reading exactly.
    pub fn convert(&self) -> (r: SingleTemperature)
        ensures
            r == self.spec_convert(),
    {
        SingleTemperature { value: self.value }
    }
}

impl ActivityDataPointsHeatingPowerApiResponse {
    /// What the conversion of a heating-power reading is.
    pub open spec fn spec_convert(self) -> HeatingPower {
        HeatingPower { percentage: self.percentage }
    }

    /// Converts the heating power, preserving the percentage exactly.
    pub fn convert(&self) -> (r: HeatingPower)
        ensures
            r == self.spec_convert(),
    {
        HeatingPower { percentage: self.percentage }
    }
}

impl SensorDataPointsHumidityApiResponse {
    /// What the conversion of a humidity reading is.
    pub open spec fn spec_convert(self) -> Humidity {
        Humidity { percentage: self.percentage }
    }

    /// Converts the humidity, preserving the percentage exactly.
    pub fn convert(&self) -> (r: Humidity)
        ensures
            r == self.spec_convert(),
    {
        Humidity { percentage: self.percentage }
    }
}

impl SensorDataPointsInsideTemperatureApiResponse {
    /// What the conversion of a measured inside temperature is.
    pub open spec fn spec_convert(self) -> SingleTemperature {
        SingleTemperature { value: self.value }
    }

    /// Converts the measured temperature, preserving the reading exactly.
    pub fn convert(&self) -> (r: SingleTemperature)
        ensures
            r == self.spec_convert(),
    {
        SingleTemperature { value: self.value }
    }
}

impl WeatherOutsideTemperatureApiResponse {
    /// What the conversion of an outside temperature is.
    pub open spec fn spec_convert(self) -> Temperature {
        Temperature { celsius: self.celsius, fahrenheit: self.fahrenheit }
    }

    /// Converts the outside temperature, preserving both units exactly.
    pub fn convert(&self) -> (r: Temperature)
        ensures
            r == self.spec_convert(),
    {
        Temperature { celsius: self.celsius, fahrenheit: self.fahrenheit }
    }
}

impl WeatherSolarIntensityApiResponse {
    /// What the conversion of a solar-intensity reading is.
    pub open spec fn spec_convert(self) -> SolarIntensity {
        SolarIntensity { percentage: self.percentage }
    }

    /// Converts the solar intensity, preserving the percentage exactly.
    pub fn convert(&self) -> (r: SolarIntensity)
        ensures
            r == self.spec_convert(),
    {
        SolarIntensity { percentage: self.percentage }
    }
}

impl WeatherApiResponse {
    /// What the conversion of a weather answer is: both members converted,
    /// nothing added, nothing dropped.
    pub open spec fn spec_convert(self) -> Weather {
        Weather {
            outside_temperature: self.outsideTemperature.spec_convert(),
            solar_intensity: self.solarIntensity.spec_convert(),
        }
    }

    /// Converts the weather answer into the internal model.
    pub fn convert(&self) -> (r: Weather)
        ensures
            r == self.spec_convert(),
    {
        Weather {
            outside_temperature: self.outsideTemperature.convert(),
            solar_intensity: self.solarIntensity.convert(),
        }
    }
}

impl ZoneStateOpenWindowApiResponse {
    /// What the conversion of an open-window marker is: only the presence of
    /// the marker carries over.
    pub open spec fn spec_convert(self) -> ZoneStateOpenWindow {
        ZoneStateOpenWindow {  }
    }

    /// Converts the open-window marker.
    pub fn convert(&self) -> (r: ZoneStateOpenWindow)
        ensures
            r == self.spec_convert(),
    {
        ZoneStateOpenWindow {  }
    }
}

impl ZoneStateSettingApiResponse {
    /// What the conversion of a zone setting is: an absent target temperature
    /// stays absent, a present one is converted.
    pub open spec fn spec_convert(self) -> ZoneStateSetting {
        ZoneStateSetting {
            temperature: match self.temperature {
                Some(t) => Some(t.spec_convert()),
                None => None,
            },
        }
    }

    /// Converts the zone setting, preserving absence of the target
    /// temperature.
    pub fn convert(&self) -> (r: ZoneStateSetting)
        ensures
            r == self.spec_convert(),
    {
        ZoneStateSetting {
            temperature: match &self.temperature {
                Some(t) => Some(t.convert()),
                None => None,
            },
        }
    }
}

impl ZoneStateSensorDataPointsApiResponse {
    /// What the conversion of the sensor readings is: each absent reading
    /// stays absent, each present one is converted.
    pub open spec fn spec_convert(self) -> ZoneStateSensorDataPoints {
        ZoneStateSensorDataPoints {
            inside_temperature: match self.insideTemperature {
                Some(t) => Some(t.spec_convert()),
                None => None,
            },
            humidity: match self.humidity {
                Some(h) => Some(h.spec_convert()),
                None => None,
            },
        }
    }

    /// Converts the sensor readings, preserving absence.
    pub fn convert(&self) -> (r: ZoneStateSensorDataPoints)
        ensures
            r == self.spec_convert(),
    {
        ZoneStateSensorDataPoints {
            inside_temperature: match &self.insideTemperature {
                Some(t) => Some(t.convert()),
                None => None,
            },
            humidity: match &self.humidity {
                Some(h) => Some(h.convert()),
                None => None,
            },
        }
    }
}

impl ZonesApiResponse {
    /// What the conversion of one zone answer is: name and identifier kept,
    /// every optional member preserved as present or absent.
    pub open spec fn spec_convert(self) -> ZoneState {
        ZoneState {
            name: self.name,
            id: self.id,
            setting: self.setting.spec_convert(),
            heating_power: match self.heatingPower {
                Some(h) => Some(h.spec_convert()),
                None => None,
            },
            sensor_data_points: self.sensorDataPoints.spec_convert(),
            open_window: match self.openWindow {
                Some(w) => Some(w.spec_convert()),
                None => None,
            },
        }
    }

    /// Converts one zone answer into the internal zone state.
    pub fn convert(&self) -> (r: ZoneState)
        ensures
            r == self.spec_convert(),
    {
        ZoneState {
            name: self.name.clone(),
            id: self.id,
            setting: self.setting.convert(),
            heating_power: match &self.heatingPower {
                Some(h) => Some(h.convert()),
                None => None,
            },
            sensor_data_points: self.sensorDataPoints.convert(),
            open_window: match &self.openWindow {
                Some(w) => Some(w.convert()),
                None => None,
            },
        }
    }
}

impl ZoneDayReportApiResponse {
    /// What one converted history data point is: the timestamp kept verbatim,
    /// the temperature converted.
    pub open spec fn spec_convert_point(
        p: DataPoint<WeatherOutsideTemperatureApiResponse>,
    ) -> DataPoint<Temperature> {
        DataPoint { timestamp: p.timestamp, value: p.value.spec_convert() }
    }

    /// What the converted inside-temperature series of a day report is: every
    /// data point converted, in the order the report gives them.
    pub open spec fn spec_convert_inside_temperature(self) -> Seq<DataPoint<Temperature>> {
        self.measuredData.insideTemperature.dataPoints@.map_values(
            |p: DataPoint<WeatherOutsideTemperatureApiResponse>| Self::spec_convert_point(p),
        )
    }

    /// Converts the day report's inside-temperature series, keeping length
    /// and order.
    pub fn convert_inside_temperature(&self) -> (r: Vec<DataPoint<Temperature>>)
        ensures
            r@ == self.spec_convert_inside_temperature(),
    {
        let points = &self.measuredData.insideTemperature.dataPoints;
        let mut out: Vec<DataPoint<Temperature>> = Vec::new();
        let mut i: usize = 0;
        while i < points.len()
            invariant
                i <= points@.len(),
                out@ == points@.subrange(0, i as int).map_values(
                    |p: DataPoint<WeatherOutsideTemperatureApiResponse>| Self::spec_convert_point(
                        p,
                    ),
                ),
            decreases points@.len() - i,
        {
            let p = &points[i];
            out.push(DataPoint { timestamp: p.timestamp.clone(), value: p.value.convert() });
            proof {
                assert(points@.subrange(0, i + 1 as int).drop_last() =~= points@.subrange(
                    0,
                    i as int,
                ));
                assert(out@ =~= points@.subrange(0, i + 1 as int).map_values(
                    |p: DataPoint<WeatherOutsideTemperatureApiResponse>| Self::spec_convert_point(
                        p,
                    ),
                ));
            }
            i = i + 1;
        }
        proof {
            assert(points@.subrange(0, points@.len() as int) =~= points@);
        }
        out
    }
}

} // verus!
