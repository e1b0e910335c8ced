#![allow(non_snake_case)]

use tado_exporter::api::{
    ActivityDataPointsHeatingPowerApiResponse, DataInterval, TimeInterval, WeatherApiResponse,
    WeatherOutsideTemperatureApiResponse, WeatherSolarIntensityApiResponse,
    ZoneDayReportApiResponse, ZoneDayReportMeasuredDataApiResponse,
    ZoneDayReportMeasuredDataHumidityApiResponse,
    ZoneDayReportMeasuredDataInsideTemperatureApiResponse,
    ZoneDayReportMeasuredDataMeasuringDeviceConnectedApiResponse,
    ZoneStateSensorDataPointsApiResponse, ZoneStateSettingApiResponse, ZonesApiResponse,
};
use tado_exporter::model::{DataPoint, FloatBits, HeatingPower};

fn bits(x: f64) -> FloatBits {
    FloatBits::from_bits(x.to_bits())
}

fn temp(celsius: f64, fahrenheit: f64) -> WeatherOutsideTemperatureApiResponse {
    WeatherOutsideTemperatureApiResponse { celsius: bits(celsius), fahrenheit: bits(fahrenheit) }
}

#[test]
fn zone_state_with_nulls_keeps_absence_and_present_fields() {
    let payload = ZonesApiResponse {
        id: 1,
        name: "Living".to_string(),
        setting: ZoneStateSettingApiResponse { power: "ON".to_string(), temperature: None },
        heatingPower: Some(ActivityDataPointsHeatingPowerApiResponse { percentage: bits(0.0) }),
        sensorDataPoints: ZoneStateSensorDataPointsApiResponse {
            insideTemperature: None,
            humidity: None,
        },
        openWindow: None,
    };

    let z = payload.convert();

    assert_eq!(z.name, "Living");
    assert_eq!(z.id, 1);
    assert_eq!(z.setting.temperature, None);
    assert_eq!(z.open_window, None);
    assert_eq!(z.sensor_data_points.inside_temperature, None);
    assert_eq!(z.sensor_data_points.humidity, None);
    assert_eq!(z.heating_power, Some(HeatingPower { percentage: bits(0.0) }));
    assert_eq!(f64::from_bits(z.heating_power.unwrap().percentage.bits), 0.0);
}

#[test]
fn weather_payload_converts_exactly() {
    let payload = WeatherApiResponse {
        solarIntensity: WeatherSolarIntensityApiResponse { percentage: bits(18.3) },
        outsideTemperature: temp(21.53, 70.75),
    };

    let w = payload.convert();

    assert_eq!(f64::from_bits(w.solar_intensity.percentage.bits), 18.3);
    assert_eq!(f64::from_bits(w.outside_temperature.celsius.bits), 21.53);
    assert_eq!(f64::from_bits(w.outside_temperature.fahrenheit.bits), 70.75);
}

#[test]
fn day_report_series_converts_in_order() {
    let payload = ZoneDayReportApiResponse {
        zoneType: "HEATING".to_string(),
        interval: TimeInterval {
            from: "2022-09-02T22:00:00Z".to_string(),
            to: "2022-09-03T22:00:00Z".to_string(),
        },
        hoursInDay: 24,
        measuredData: ZoneDayReportMeasuredDataApiResponse {
            measuringDeviceConnected: ZoneDayReportMeasuredDataMeasuringDeviceConnectedApiResponse {
                timeSeriesType: "dataIntervals".to_string(),
                valueType: "boolean".to_string(),
                dataIntervals: vec![DataInterval {
                    from: "2022-09-02T22:00:00Z".to_string(),
                    to: "2022-09-03T22:00:00Z".to_string(),
                    value: true,
                }],
            },
            insideTemperature: ZoneDayReportMeasuredDataInsideTemperatureApiResponse {
                timeSeriesType: "dataPoints".to_string(),
                valueType: "temperature".to_string(),
                min: temp(18.0, 64.4),
                max: temp(21.0, 69.8),
                dataPoints: vec![
                    DataPoint {
                        timestamp: "2022-09-03T01:00:00Z".to_string(),
                        value: temp(19.5, 67.1),
                    },
                    DataPoint {
                        timestamp: "2022-09-03T02:00:00Z".to_string(),
                        value: temp(19.7, 67.46),
                    },
                ],
            },
            humidity: ZoneDayReportMeasuredDataHumidityApiResponse {
                timeSeriesType: "dataPoints".to_string(),
                valueType: "percentage".to_string(),
                percentageUnit: "UNIT_INTERVAL".to_string(),
                min: bits(0.4),
                max: bits(0.6),
                dataPoints: vec![],
            },
        },
    };

    let series = payload.convert_inside_temperature();

    assert_eq!(series.len(), 2);
    assert_eq!(series[0].timestamp, "2022-09-03T01:00:00Z");
    assert_eq!(f64::from_bits(series[0].value.celsius.bits), 19.5);
    assert_eq!(f64::from_bits(series[0].value.fahrenheit.bits), 67.1);
    assert_eq!(series[1].timestamp, "2022-09-03T02:00:00Z");
    assert_eq!(f64::from_bits(series[1].value.celsius.bits), 19.7);
}
