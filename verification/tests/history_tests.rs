use tado_exporter::api::{
    TimeInterval, WeatherOutsideTemperatureApiResponse, ZoneDayReportApiResponse,
    ZoneDayReportMeasuredDataApiResponse, ZoneDayReportMeasuredDataHumidityApiResponse,
    ZoneDayReportMeasuredDataInsideTemperatureApiResponse,
    ZoneDayReportMeasuredDataMeasuringDeviceConnectedApiResponse,
};
use tado_exporter::client::Client;
use tado_exporter::history::HistoryMap;
use tado_exporter::model::{ZoneState, ZoneStateSensorDataPoints, ZoneStateSetting};
use tado_exporter::model::{DataPoint, FloatBits, HistoryReport, Temperature};

fn point(ts: &str, celsius: f64) -> DataPoint<Temperature> {
    DataPoint {
        timestamp: ts.to_string(),
        value: Temperature {
            celsius: FloatBits::from_bits(celsius.to_bits()),
            fahrenheit: FloatBits::from_bits((celsius * 9.0 / 5.0 + 32.0).to_bits()),
        },
    }
}

fn report(name: &str, timestamps: &[&str]) -> HistoryReport {
    HistoryReport {
        name: name.to_string(),
        inside_temperature: timestamps.iter().map(|t| point(t, 20.0)).collect(),
    }
}

#[test]
fn merge_inserts_new_zone_as_given() {
    let mut map = HistoryMap::new();
    map.merge(report("Kitchen", &["a", "b"]));

    assert_eq!(map.len(), 1);
    assert_eq!(map.get(0).name, "Kitchen");
    assert_eq!(map.get(0).inside_temperature.len(), 2);
}

#[test]
fn merge_same_zone_concatenates_in_input_then_new_order() {
    let mut map = HistoryMap::new();
    map.merge(report("Kitchen", &["a", "b"]));
    map.merge(report("Kitchen", &["c", "d", "e"]));

    assert_eq!(map.len(), 1);
    let merged = map.get(0);
    assert_eq!(merged.inside_temperature.len(), 2 + 3);
    let order: Vec<&str> =
        merged.inside_temperature.iter().map(|p| p.timestamp.as_str()).collect();
    assert_eq!(order, vec!["a", "b", "c", "d", "e"]);
}

#[test]
fn merge_leaves_other_zones_untouched() {
    let mut map = HistoryMap::new();
    map.merge(report("Kitchen", &["a"]));
    map.merge(report("Bedroom", &["x", "y"]));
    map.merge(report("Kitchen", &["b"]));

    assert_eq!(map.len(), 2);
    assert_eq!(map.get(0).name, "Kitchen");
    assert_eq!(map.get(0).inside_temperature.len(), 2);
    assert_eq!(map.get(1).name, "Bedroom");
    assert_eq!(map.get(1).inside_temperature.len(), 2);
}

#[test]
fn merge_keeps_duplicate_timestamps() {
    // Overlapping day windows are not deduplicated by timestamp.
    let mut map = HistoryMap::new();
    map.merge(report("Kitchen", &["a", "b"]));
    map.merge(report("Kitchen", &["b", "c"]));

    let order: Vec<&str> =
        map.get(0).inside_temperature.iter().map(|p| p.timestamp.as_str()).collect();
    assert_eq!(order, vec!["a", "b", "b", "c"]);
}

#[test]
fn set_history_replaces_per_zone_and_keeps_the_rest() {
    let mut served = HistoryMap::new();
    served.merge(report("Kitchen", &["a", "b"]));
    served.merge(report("Bedroom", &["x"]));

    let mut pulled = HistoryMap::new();
    pulled.merge(report("Kitchen", &["c"]));
    pulled.merge(report("Office", &["o1", "o2"]));

    tado_exporter::history::set_history(&mut served, pulled);

    assert_eq!(served.len(), 3);
    assert_eq!(served.get(0).name, "Kitchen");
    let kitchen: Vec<&str> =
        served.get(0).inside_temperature.iter().map(|p| p.timestamp.as_str()).collect();
    assert_eq!(kitchen, vec!["c"]);
    assert_eq!(served.get(1).name, "Bedroom");
    assert_eq!(served.get(1).inside_temperature.len(), 1);
    assert_eq!(served.get(2).name, "Office");
    assert_eq!(served.get(2).inside_temperature.len(), 2);
}

#[test]
fn client_merge_history_delegates() {
    let mut client = Client::new("cid".to_string());
    let mut map = HistoryMap::new();
    client.merge_history(&mut map, report("Kitchen", &["a"]));
    client.merge_history(&mut map, report("Kitchen", &["b"]));

    assert_eq!(map.len(), 1);
    assert_eq!(map.get(0).inside_temperature.len(), 2);
}

#[test]
fn history_date_joins_zone_name_and_series() {
    let client = Client::new("cid".to_string());
    let zone = ZoneState {
        name: "Kitchen".to_string(),
        id: 4,
        setting: ZoneStateSetting { temperature: None },
        heating_power: None,
        sensor_data_points: ZoneStateSensorDataPoints { inside_temperature: None, humidity: None },
        open_window: None,
    };
    let wire_temp = WeatherOutsideTemperatureApiResponse {
        celsius: FloatBits::from_bits(19.5f64.to_bits()),
        fahrenheit: FloatBits::from_bits(67.1f64.to_bits()),
    };
    let report = ZoneDayReportApiResponse {
        zoneType: "HEATING".to_string(),
        interval: TimeInterval { from: "a".to_string(), to: "b".to_string() },
        hoursInDay: 24,
        measuredData: ZoneDayReportMeasuredDataApiResponse {
            measuringDeviceConnected:
                ZoneDayReportMeasuredDataMeasuringDeviceConnectedApiResponse {
                    timeSeriesType: "dataIntervals".to_string(),
                    valueType: "boolean".to_string(),
                    dataIntervals: vec![],
                },
            insideTemperature: ZoneDayReportMeasuredDataInsideTemperatureApiResponse {
                timeSeriesType: "dataPoints".to_string(),
                valueType: "temperature".to_string(),
                min: wire_temp.clone(),
                max: wire_temp.clone(),
                dataPoints: vec![DataPoint { timestamp: "t1".to_string(), value: wire_temp }],
            },
            humidity: ZoneDayReportMeasuredDataHumidityApiResponse {
                timeSeriesType: "dataPoints".to_string(),
                valueType: "percentage".to_string(),
                percentageUnit: "UNIT_INTERVAL".to_string(),
                min: FloatBits::from_bits(0),
                max: FloatBits::from_bits(0),
                dataPoints: vec![],
            },
        },
    };

    let day = client.history_date(&zone, &report);
    assert_eq!(day.name, "Kitchen");
    assert_eq!(day.inside_temperature.len(), 1);
    assert_eq!(day.inside_temperature[0].timestamp, "t1");
    assert_eq!(f64::from_bits(day.inside_temperature[0].value.celsius.bits), 19.5);
}

#[test]
fn client_history_folds_all_reports() {
    let mut client = Client::new("cid".to_string());
    let reports = vec![
        report("Kitchen", &["a"]),
        report("Bedroom", &["x"]),
        report("Kitchen", &["b", "c"]),
    ];

    let map = client.history(reports);

    assert_eq!(map.len(), 2);
    assert_eq!(map.get(0).name, "Kitchen");
    assert_eq!(map.get(0).inside_temperature.len(), 3);
    assert_eq!(map.get(1).name, "Bedroom");
    assert_eq!(map.get(1).inside_temperature.len(), 1);
}
