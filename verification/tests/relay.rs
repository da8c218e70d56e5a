use weather_relay::EnvKey;
use weather_relay::Position;
use weather_relay::RelayError;
use weather_relay::WeatherData;
use weather_relay::escape_json;
use weather_relay::handle_response;
use weather_relay::i64_to_dec;
use weather_relay::parse_timestamp;
use weather_relay::weather_url;

fn position() -> Position {
    Position {
        city: String::from("Lisbon"),
        state: String::from("Lisbon"),
        country: String::from("Portugal"),
    }
}

#[test]
fn read_location_returns_exact_values() {
    let r = Position::from_env_values(
        Some(String::from("Lisbon")),
        Some(String::from("Lisbon District")),
        Some(String::from("Portugal")),
    );
    let p = r.unwrap();
    assert_eq!(p.city, "Lisbon");
    assert_eq!(p.state, "Lisbon District");
    assert_eq!(p.country, "Portugal");
}

#[test]
fn read_location_missing_city() {
    let r = Position::from_env_values(
        None,
        Some(String::from("Lisbon District")),
        Some(String::from("Portugal")),
    );
    assert_eq!(r.unwrap_err(), RelayError::Config(EnvKey::City));
}

#[test]
fn read_location_missing_state() {
    let r = Position::from_env_values(
        Some(String::from("Lisbon")),
        None,
        Some(String::from("Portugal")),
    );
    assert_eq!(r.unwrap_err(), RelayError::Config(EnvKey::State));
}

#[test]
fn read_location_missing_country() {
    let r = Position::from_env_values(
        Some(String::from("Lisbon")),
        Some(String::from("Lisbon District")),
        None,
    );
    assert_eq!(r.unwrap_err(), RelayError::Config(EnvKey::Country));
}

#[test]
fn read_location_keeps_empty_values() {
    // an empty value is still a set variable; only absence is an error
    let r = Position::from_env_values(
        Some(String::new()),
        Some(String::new()),
        Some(String::new()),
    );
    let p = r.unwrap();
    assert_eq!(p.city, "");
    assert_eq!(p.state, "");
    assert_eq!(p.country, "");
}

#[test]
fn env_key_names() {
    assert_eq!(EnvKey::City.name(), "CITY");
    assert_eq!(EnvKey::State.name(), "STATE");
    assert_eq!(EnvKey::Country.name(), "COUNTRY");
}

#[test]
fn timestamp_example_instant() {
    assert_eq!(parse_timestamp("2024-03-01T12:30:45.123Z"), Some(1709296245));
}

#[test]
fn timestamp_epoch_origin() {
    assert_eq!(parse_timestamp("1970-01-01T00:00:00.000Z"), Some(0));
}

#[test]
fn timestamp_before_epoch() {
    assert_eq!(parse_timestamp("1969-12-31T23:59:59.999Z"), Some(-1));
}

#[test]
fn timestamp_leap_day_accepted() {
    // 2024-02-29 00:00:00 UTC
    assert_eq!(parse_timestamp("2024-02-29T00:00:00.000Z"), Some(1709164800));
}

#[test]
fn timestamp_rejects_malformed() {
    assert_eq!(parse_timestamp(""), None);
    assert_eq!(parse_timestamp("2024-03-01 12:30:45.123Z"), None);
    assert_eq!(parse_timestamp("2024-03-01T12:30:45.123"), None);
    assert_eq!(parse_timestamp("2024-03-01T12:30:45.12Z"), None);
    assert_eq!(parse_timestamp("2024-03-01T12:30:45Z"), None);
    assert_eq!(parse_timestamp("2023-02-29T00:00:00.000Z"), None);
    assert_eq!(parse_timestamp("2024-13-01T00:00:00.000Z"), None);
    assert_eq!(parse_timestamp("2024-00-01T00:00:00.000Z"), None);
    assert_eq!(parse_timestamp("2024-04-31T00:00:00.000Z"), None);
    assert_eq!(parse_timestamp("2024-03-00T00:00:00.000Z"), None);
    assert_eq!(parse_timestamp("2024-03-01T24:00:00.000Z"), None);
    assert_eq!(parse_timestamp("2024-03-01T12:60:00.000Z"), None);
    assert_eq!(parse_timestamp("2024-03-01T12:30:60.000Z"), None);
    assert_eq!(parse_timestamp("2O24-03-01T12:30:45.123Z"), None);
}

#[test]
fn transform_success_payload() {
    let body = "{\"data\":{\"current\":{\"weather\":{\"ts\":\"2024-03-01T12:30:45.123Z\",\"tp\":15.5,\"pr\":1013.2,\"ws\":3.4}}}}";
    let json = handle_response(200, body).unwrap();
    let w = WeatherData::from_json(&json, position()).unwrap();
    assert_eq!(w.timestamp, 1709296245);
    assert_eq!(w.temperature, "15.5");
    assert_eq!(w.pressure, "1013.2");
    assert_eq!(w.wind_speed, "3.4");
    assert_eq!(w.position, position());
}

#[test]
fn rate_limit_is_reported_without_parsing() {
    // the body is not JSON; a 429 must be reported before parsing is tried
    let r = handle_response(429, "this is not json");
    assert_eq!(r.unwrap_err(), RelayError::Response(429));
}

#[test]
fn not_found_is_reported_verbatim() {
    let r = handle_response(404, "{}");
    assert_eq!(r.unwrap_err(), RelayError::Response(404));
}

#[test]
fn invalid_success_body_is_synthetic_500() {
    let r = handle_response(200, "this is not json");
    assert_eq!(r.unwrap_err(), RelayError::Response(500));
}

#[test]
fn success_body_parses() {
    assert!(handle_response(200, "{\"a\":1}").is_ok());
}

#[test]
fn transform_missing_ts_is_parse_error() {
    let body = "{\"data\":{\"current\":{\"weather\":{\"tp\":15.5,\"pr\":1013.2,\"ws\":3.4}}}}";
    let json = handle_response(200, body).unwrap();
    let r = WeatherData::from_json(&json, position());
    assert_eq!(r.unwrap_err(), RelayError::Parse);
}

#[test]
fn transform_malformed_ts_is_parse_error() {
    let body = "{\"data\":{\"current\":{\"weather\":{\"ts\":\"March 1st\",\"tp\":15.5,\"pr\":1013.2,\"ws\":3.4}}}}";
    let json = handle_response(200, body).unwrap();
    let r = WeatherData::from_json(&json, position());
    assert_eq!(r.unwrap_err(), RelayError::Parse);
}

#[test]
fn transform_non_string_ts_is_parse_error() {
    let body = "{\"data\":{\"current\":{\"weather\":{\"ts\":1709296245,\"tp\":15.5,\"pr\":1013.2,\"ws\":3.4}}}}";
    let json = handle_response(200, body).unwrap();
    let r = WeatherData::from_json(&json, position());
    assert_eq!(r.unwrap_err(), RelayError::Parse);
}

#[test]
fn transform_missing_measurement_is_parse_error() {
    let body = "{\"data\":{\"current\":{\"weather\":{\"ts\":\"2024-03-01T12:30:45.123Z\",\"tp\":15.5,\"ws\":3.4}}}}";
    let json = handle_response(200, body).unwrap();
    let r = WeatherData::from_json(&json, position());
    assert_eq!(r.unwrap_err(), RelayError::Parse);
}

#[test]
fn transform_non_numeric_measurement_is_parse_error() {
    let body = "{\"data\":{\"current\":{\"weather\":{\"ts\":\"2024-03-01T12:30:45.123Z\",\"tp\":\"warm\",\"pr\":1013.2,\"ws\":3.4}}}}";
    let json = handle_response(200, body).unwrap();
    let r = WeatherData::from_json(&json, position());
    assert_eq!(r.unwrap_err(), RelayError::Parse);
}

#[test]
fn transform_missing_path_step_is_parse_error() {
    let body = "{\"data\":{\"weather\":{\"ts\":\"2024-03-01T12:30:45.123Z\",\"tp\":15.5,\"pr\":1013.2,\"ws\":3.4}}}";
    let json = handle_response(200, body).unwrap();
    let r = WeatherData::from_json(&json, position());
    assert_eq!(r.unwrap_err(), RelayError::Parse);
}

#[test]
fn decimal_rendering() {
    assert_eq!(i64_to_dec(0), "0");
    assert_eq!(i64_to_dec(7), "7");
    assert_eq!(i64_to_dec(1709296245), "1709296245");
    assert_eq!(i64_to_dec(-42), "-42");
    assert_eq!(i64_to_dec(i64::MIN), "-9223372036854775808");
    assert_eq!(i64_to_dec(i64::MAX), "9223372036854775807");
}

#[test]
fn escaping_quotes_and_backslashes() {
    assert_eq!(escape_json("plain"), "plain");
    assert_eq!(escape_json("a\"b"), "a\\\"b");
    assert_eq!(escape_json("a\\b"), "a\\\\b");
    assert_eq!(escape_json(""), "");
}

#[test]
fn url_embeds_position_and_key() {
    let url = weather_url(&position(), "test-key");
    assert_eq!(
        url,
        "http://api.airvisual.com/v2/city?city=Lisbon&state=Lisbon&country=Portugal&key=test-key"
    );
}

#[test]
fn record_body_exact() {
    let w = WeatherData {
        timestamp: 1709296245,
        temperature: String::from("15.5"),
        pressure: String::from("1013.2"),
        wind_speed: String::from("3.4"),
        position: position(),
    };
    assert_eq!(
        w.to_json(),
        "{\"timestamp\":1709296245,\"temperature\":15.5,\"pressure\":1013.2,\"wind_speed\":3.4,\"position\":{\"city\":\"Lisbon\",\"state\":\"Lisbon\",\"country\":\"Portugal\"}}"
    );
}

#[test]
fn record_round_trips_through_json() {
    let w = WeatherData {
        timestamp: -123456789,
        temperature: String::from("-3.25"),
        pressure: String::from("990"),
        wind_speed: String::from("12.75"),
        position: Position {
            city: String::from("Rio \"Grande\""),
            state: String::from("Back\\slash"),
            country: String::from("Brazil"),
        },
    };
    let body = w.to_json();
    let v: serde_json::Value = serde_json::from_str(&body).unwrap();
    assert_eq!(v["timestamp"].as_i64().unwrap(), w.timestamp);
    assert_eq!(v["temperature"].to_string(), w.temperature);
    assert_eq!(v["pressure"].to_string(), w.pressure);
    assert_eq!(v["wind_speed"].to_string(), w.wind_speed);
    assert_eq!(v["position"]["city"].as_str().unwrap(), w.position.city);
    assert_eq!(v["position"]["state"].as_str().unwrap(), w.position.state);
    assert_eq!(v["position"]["country"].as_str().unwrap(), w.position.country);
}
