use mvg_api::json::JsonValue;
use mvg_api::number::{integer_to_text, parse_integer};
use mvg_api::{
    decode_departures, decode_lines, decode_locations, decode_stations, DepartureInfo, Line,
    Location, Station,
};

fn s(v: &str) -> Option<String> {
    Some(v.to_string())
}

#[test]
fn station_round_trip() {
    let st = Station {
        abbreviation: s("KA"),
        diva_id: Some(4294967295),
        id: s("de:09162:1"),
        latitude: s("48.13951"),
        longitude: s("11.56613"),
        name: s("Karlsplatz (Stachus)"),
        place: s("München"),
        products: Some(vec!["UBAHN".to_string(), "BUS".to_string()]),
        tariff_zones: s("1|2"),
    };
    let back = decode_stations(&Some(JsonValue::Array(vec![st.to_json()]))).unwrap();
    assert_eq!(back, vec![st]);
}

#[test]
fn line_round_trip() {
    let line = Line { line_number: Some(-2147483648), name: s("N19"), product: s("TRAM") };
    let back = decode_lines(&Some(JsonValue::Array(vec![line.to_json()]))).unwrap();
    assert_eq!(back, vec![line]);
}

#[test]
fn departure_round_trip() {
    let dep = DepartureInfo {
        banner_hash: s("abc"),
        cancelled: Some(true),
        delay_in_minutes: Some(-3),
        destination: s("Ebersberg"),
        diva_id: s("92M06"),
        label: s("S6"),
        messages: Some(vec!["Bauarbeiten".to_string()]),
        network: s("ddb"),
        occupancy: s("UNKNOWN"),
        planned_departure_time: Some(-9223372036854775808),
        platform: Some(1),
        platform_changed: Some(false),
        realtime: Some(true),
        realtime_departure_time: Some(9223372036854775807),
        sev: Some(false),
        stop_point_global_id: s("de:09162:1:2:3"),
        stop_position_number: Some(0),
        train_type: s("ET423"),
        transport_type: s("SBAHN"),
    };
    let back = decode_departures(&Some(JsonValue::Array(vec![dep.to_json()]))).unwrap();
    assert_eq!(back, vec![dep]);
}

#[test]
fn location_round_trip_with_absent_fields() {
    let loc = Location {
        aliases: None,
        distance_in_meters: Some(250),
        diva_id: Some(1),
        global_id: s("de:09162:1"),
        has_zoom_data: None,
        latitude: s("48.13951"),
        longitude: None,
        name: s("Karlsplatz (Stachus)"),
        place: s("München"),
        surrounding_plan_link: s("KA"),
        tariff_zones: s("m"),
        transport_types: Some(vec![]),
        location_type: s("STATION"),
    };
    let back = decode_locations(&Some(JsonValue::Array(vec![loc.to_json()]))).unwrap();
    assert_eq!(back, vec![loc]);
}

#[test]
fn encoded_members_in_order() {
    let line = Line { line_number: Some(2012), name: None, product: s("TRAM") };
    let members = line.to_members();
    assert_eq!(members.len(), 3);
    assert_eq!(members[0], ("lineNumber".to_string(), JsonValue::Number("2012".to_string())));
    assert_eq!(members[1], ("name".to_string(), JsonValue::Null));
    assert_eq!(members[2], ("product".to_string(), JsonValue::Str("TRAM".to_string())));
}

#[test]
fn integer_text() {
    assert_eq!(integer_to_text(0), "0");
    assert_eq!(integer_to_text(-42), "-42");
    assert_eq!(integer_to_text(1708433340000), "1708433340000");
    assert_eq!(integer_to_text(i64::MIN), "-9223372036854775808");
}

#[test]
fn integer_parsing() {
    assert_eq!(parse_integer("-3"), Some(-3));
    assert_eq!(parse_integer("2017"), Some(2017));
    assert_eq!(parse_integer("9223372036854775807"), Some(i64::MAX));
    assert_eq!(parse_integer("-9223372036854775808"), Some(i64::MIN));
    assert_eq!(parse_integer("9223372036854775808"), None);
    assert_eq!(parse_integer("123456789012345678901234567890"), None);
    assert_eq!(parse_integer("48.13951"), None);
    assert_eq!(parse_integer("1e3"), None);
    assert_eq!(parse_integer("-"), None);
    assert_eq!(parse_integer(""), None);
}
