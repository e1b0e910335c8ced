use tado_exporter::api::{
    AuthTokensResponse, HomesApiResponse, MeApiResponse, WeatherApiResponse,
    WeatherOutsideTemperatureApiResponse, WeatherSolarIntensityApiResponse,
    ZoneStateSensorDataPointsApiResponse, ZoneStateSettingApiResponse, ZonesApiResponse,
};
use tado_exporter::client::Client;
use tado_exporter::date::Date;
use tado_exporter::model::FloatBits;

fn bare_zone(id: i32, name: &str) -> ZonesApiResponse {
    ZonesApiResponse {
        id,
        name: name.to_string(),
        setting: ZoneStateSettingApiResponse { power: "ON".to_string(), temperature: None },
        heatingPower: None,
        sensorDataPoints: ZoneStateSensorDataPointsApiResponse {
            insideTemperature: None,
            humidity: None,
        },
        openWindow: None,
    }
}

#[test]
fn test_new() {
    let client = Client::new("client_id".to_string());

    assert_eq!(client.client_id, "client_id");
    assert_eq!(client.base_url, "https://my.tado.com/api/v2/");
}

#[test]
fn test_with_base_url() {
    let client = Client::with_base_url(
        "https://example.com".to_string(),
        "https://example.com".to_string(),
        "client_id".to_string(),
    );

    assert_eq!(client.client_id, "client_id");
    assert_eq!(client.base_url, "https://example.com");
}

#[test]
fn refresh_deadline_keeps_safety_margin() {
    let mut client = Client::new("client_id".to_string());
    client.set_tokens(
        AuthTokensResponse {
            access_token: "at".to_string(),
            expires_in: 600,
            refresh_token: "rt".to_string(),
        },
        1_000,
    );

    assert_eq!(client.tokens_refresh_by, 1_000 + 600 - 10);
    assert!(!client.needs_refresh(1_589));
    assert!(client.needs_refresh(1_590));
}

#[test]
fn refresh_deadline_short_validity_is_immediate() {
    let mut client = Client::new("client_id".to_string());
    client.set_tokens(
        AuthTokensResponse {
            access_token: "at".to_string(),
            expires_in: 7,
            refresh_token: "rt".to_string(),
        },
        500,
    );

    assert_eq!(client.tokens_refresh_by, 500);
    assert!(client.needs_refresh(500));
}

#[test]
fn endpoint_urls() {
    let mut client = Client::new("client_id".to_string());
    assert_eq!(client.me_url(), "https://my.tado.com/api/v2/me");

    client.resolve_home_id(Some(MeApiResponse { homes: vec![HomesApiResponse { id: 12345 }] }));
    assert_eq!(client.home_id(), Some(12345));
    assert_eq!(client.zones_url(), "https://hops.tado.com/homes/12345/rooms");
    assert_eq!(client.weather_url(), "https://my.tado.com/api/v2/homes/12345/weather/");
    assert_eq!(
        client.day_report_url(7, Date { year: 2022, month: 9, day: 3 }),
        "https://my.tado.com/api/v2/homes/12345/zones/7/dayReport?date=2022-09-03"
    );
}

#[test]
fn home_id_is_cached_once() {
    let mut client = Client::new("client_id".to_string());
    client.resolve_home_id(Some(MeApiResponse { homes: vec![HomesApiResponse { id: 1 }] }));
    assert_eq!(client.home_id(), Some(1));
    client.resolve_home_id(Some(MeApiResponse { homes: vec![HomesApiResponse { id: 2 }] }));
    assert_eq!(client.home_id(), Some(1));
}

#[test]
fn home_id_unresolved_on_failure_or_empty_homes() {
    let mut client = Client::new("client_id".to_string());
    client.resolve_home_id(None);
    assert_eq!(client.home_id(), None);
    client.resolve_home_id(Some(MeApiResponse { homes: vec![] }));
    assert_eq!(client.home_id(), None);
}

#[test]
fn retrieve_zones_degrades_to_empty() {
    let mut client = Client::new("client_id".to_string());

    // No home lookup answer: nothing this tick, home still unresolved.
    let zones = client.retrieve_zones(None, Some(vec![bare_zone(1, "Kitchen")]));
    assert!(zones.is_empty());
    assert_eq!(client.home_id(), None);

    // Home resolves but the zone fetch failed: empty, never partial.
    let me = MeApiResponse { homes: vec![HomesApiResponse { id: 9 }] };
    let zones = client.retrieve_zones(Some(me), None);
    assert!(zones.is_empty());
    assert_eq!(client.home_id(), Some(9));
}

#[test]
fn retrieve_zones_converts_all() {
    let mut client = Client::new("client_id".to_string());
    let me = MeApiResponse { homes: vec![HomesApiResponse { id: 9 }] };
    let zones = client.retrieve_zones(
        Some(me),
        Some(vec![bare_zone(1, "Kitchen"), bare_zone(2, "Bedroom")]),
    );
    assert_eq!(zones.len(), 2);
    assert_eq!(zones[0].name, "Kitchen");
    assert_eq!(zones[0].id, 1);
    assert_eq!(zones[1].name, "Bedroom");
    assert_eq!(zones[1].id, 2);
}

#[test]
fn retrieve_weather_needs_home_and_answer() {
    let mut client = Client::new("client_id".to_string());
    let payload = WeatherApiResponse {
        solarIntensity: WeatherSolarIntensityApiResponse {
            percentage: FloatBits::from_bits(50.0f64.to_bits()),
        },
        outsideTemperature: WeatherOutsideTemperatureApiResponse {
            celsius: FloatBits::from_bits(10.0f64.to_bits()),
            fahrenheit: FloatBits::from_bits(50.0f64.to_bits()),
        },
    };

    assert_eq!(client.retrieve_weather(None, Some(payload.clone())), None);

    let me = MeApiResponse { homes: vec![HomesApiResponse { id: 3 }] };
    let weather = client.retrieve_weather(Some(me), Some(payload)).unwrap();
    assert_eq!(f64::from_bits(weather.outside_temperature.celsius.bits), 10.0);

    assert_eq!(client.retrieve_weather(None, None), None);
}
