use mvg_api::json::JsonValue;
use mvg_api::{
    decode_departures, decode_global_ids, decode_lines, decode_locations, decode_stations,
    DecodeError, DepartureInfo, Line, Station,
};

fn text(s: &str) -> JsonValue {
    JsonValue::Str(s.to_string())
}

fn num(s: &str) -> JsonValue {
    JsonValue::Number(s.to_string())
}

fn obj(members: Vec<(&str, JsonValue)>) -> JsonValue {
    JsonValue::Object(members.into_iter().map(|(k, v)| (k.to_string(), v)).collect())
}

fn texts(items: &[&str]) -> JsonValue {
    JsonValue::Array(items.iter().map(|s| text(s)).collect())
}

fn strings(items: &[&str]) -> Option<Vec<String>> {
    Some(items.iter().map(|s| s.to_string()).collect())
}

fn s(v: &str) -> Option<String> {
    Some(v.to_string())
}

fn karlsplatz() -> JsonValue {
    obj(vec![
        ("abbreviation", text("KA")),
        ("divaId", num("1")),
        ("id", text("de:09162:1")),
        ("latitude", num("48.13951")),
        ("longitude", num("11.56613")),
        ("name", text("Karlsplatz (Stachus)")),
        ("place", text("München")),
        ("products", texts(&["UBAHN", "BUS", "TRAM", "SBAHN"])),
        ("tariffZones", text("m")),
    ])
}

#[test]
fn station_list_with_all_fields() {
    let doc = Some(JsonValue::Array(vec![karlsplatz()]));
    let stations = decode_stations(&doc).unwrap();
    assert_eq!(
        stations,
        vec![Station {
            abbreviation: s("KA"),
            diva_id: Some(1),
            id: s("de:09162:1"),
            latitude: s("48.13951"),
            longitude: s("11.56613"),
            name: s("Karlsplatz (Stachus)"),
            place: s("München"),
            products: strings(&["UBAHN", "BUS", "TRAM", "SBAHN"]),
            tariff_zones: s("m"),
        }]
    );
}

#[test]
fn station_with_only_a_name() {
    let doc = Some(JsonValue::Array(vec![obj(vec![("name", text("Karlsplatz (Stachus)"))])]));
    let stations = decode_stations(&doc).unwrap();
    assert_eq!(stations.len(), 1);
    let st = &stations[0];
    assert_eq!(st.name, s("Karlsplatz (Stachus)"));
    assert_eq!(st.abbreviation, None);
    assert_eq!(st.diva_id, None);
    assert_eq!(st.id, None);
    assert_eq!(st.latitude, None);
    assert_eq!(st.longitude, None);
    assert_eq!(st.place, None);
    assert_eq!(st.products, None);
    assert_eq!(st.tariff_zones, None);
}

#[test]
fn empty_object_is_still_a_record() {
    let doc = Some(JsonValue::Array(vec![obj(vec![]), obj(vec![])]));
    let lines = decode_lines(&doc).unwrap();
    assert_eq!(lines.len(), 2);
    assert_eq!(lines[0], Line { line_number: None, name: None, product: None });
}

#[test]
fn lines_keep_order() {
    let doc = Some(JsonValue::Array(vec![
        obj(vec![("lineNumber", num("-1")), ("name", text("N19")), ("product", text("TRAM"))]),
        obj(vec![("lineNumber", num("2012")), ("name", text("12")), ("product", text("TRAM"))]),
        obj(vec![("lineNumber", num("2017")), ("name", text("17")), ("product", text("TRAM"))]),
    ]));
    let lines = decode_lines(&doc).unwrap();
    assert_eq!(lines.len(), 3);
    assert_eq!(lines[0].line_number, Some(-1));
    assert_eq!(lines[0].name, s("N19"));
    assert_eq!(lines[1].line_number, Some(2012));
    assert_eq!(lines[1].name, s("12"));
    assert_eq!(lines[2].line_number, Some(2017));
    assert_eq!(lines[2].product, s("TRAM"));
}

#[test]
fn body_that_is_not_json() {
    assert_eq!(decode_stations(&None), Err(DecodeError::InvalidJson));
    assert_eq!(decode_global_ids(&None), Err(DecodeError::InvalidJson));
    assert_eq!(decode_departures(&None).unwrap_err(), DecodeError::InvalidJson);
}

#[test]
fn single_object_instead_of_array() {
    let doc = Some(karlsplatz());
    assert_eq!(decode_stations(&doc), Err(DecodeError::NotAnArray));
    assert_eq!(decode_locations(&doc).unwrap_err(), DecodeError::NotAnArray);
}

#[test]
fn array_item_that_is_not_an_object() {
    let doc = Some(JsonValue::Array(vec![karlsplatz(), num("1")]));
    assert_eq!(decode_stations(&doc), Err(DecodeError::UnexpectedItem));
}

#[test]
fn empty_array_is_empty_list() {
    let doc = Some(JsonValue::Array(vec![]));
    assert_eq!(decode_stations(&doc), Ok(vec![]));
}

#[test]
fn negative_delay_is_kept() {
    let doc = Some(JsonValue::Array(vec![obj(vec![
        ("delayInMinutes", num("-3")),
        ("label", text("S6")),
    ])]));
    let deps = decode_departures(&doc).unwrap();
    assert_eq!(deps[0].delay_in_minutes, Some(-3));
    assert_eq!(deps[0].label, s("S6"));
}

#[test]
fn full_departure() {
    let doc = Some(JsonValue::Array(vec![obj(vec![
        ("bannerHash", text("")),
        ("cancelled", JsonValue::Bool(false)),
        ("delayInMinutes", num("2")),
        ("destination", text("Ebersberg")),
        ("divaId", text("92M06")),
        ("label", text("S6")),
        ("messages", texts(&[])),
        ("network", text("ddb")),
        ("occupancy", text("UNKNOWN")),
        ("plannedDepartureTime", num("1708433340000")),
        ("platform", num("1")),
        ("platformChanged", JsonValue::Bool(false)),
        ("realtime", JsonValue::Bool(true)),
        ("realtimeDepartureTime", num("1708433460000")),
        ("sev", JsonValue::Bool(false)),
        ("stopPointGlobalId", text("")),
        ("trainType", text("")),
        ("transportType", text("SBAHN")),
        ("unknownExtra", text("ignored")),
    ])]));
    let deps = decode_departures(&doc).unwrap();
    assert_eq!(
        deps,
        vec![DepartureInfo {
            banner_hash: s(""),
            cancelled: Some(false),
            delay_in_minutes: Some(2),
            destination: s("Ebersberg"),
            diva_id: s("92M06"),
            label: s("S6"),
            messages: Some(vec![]),
            network: s("ddb"),
            occupancy: s("UNKNOWN"),
            planned_departure_time: Some(1708433340000),
            platform: Some(1),
            platform_changed: Some(false),
            realtime: Some(true),
            realtime_departure_time: Some(1708433460000),
            sev: Some(false),
            stop_point_global_id: s(""),
            stop_position_number: None,
            train_type: s(""),
            transport_type: s("SBAHN"),
        }]
    );
}

#[test]
fn mistyped_members_read_as_absent() {
    let doc = Some(JsonValue::Array(vec![obj(vec![
        ("abbreviation", num("7")),
        ("divaId", text("1")),
        ("id", JsonValue::Null),
        ("latitude", text("48.1")),
        ("name", text("Marienplatz")),
        ("products", JsonValue::Array(vec![text("BUS"), num("3")])),
        ("tariffZones", obj(vec![])),
    ])]));
    let st = decode_stations(&doc).unwrap().remove(0);
    assert_eq!(st.abbreviation, None);
    assert_eq!(st.diva_id, None);
    assert_eq!(st.id, None);
    assert_eq!(st.latitude, None);
    assert_eq!(st.name, s("Marienplatz"));
    assert_eq!(st.products, None);
    assert_eq!(st.tariff_zones, None);
}

#[test]
fn integers_out_of_range_read_as_absent() {
    let doc = Some(JsonValue::Array(vec![obj(vec![
        ("platform", num("-1")),
        ("delayInMinutes", num("2147483648")),
        ("plannedDepartureTime", num("1.5")),
        ("stopPositionNumber", num("4294967295")),
        ("realtimeDepartureTime", num("99999999999999999999")),
    ])]));
    let d = decode_departures(&doc).unwrap().remove(0);
    assert_eq!(d.platform, None);
    assert_eq!(d.delay_in_minutes, None);
    assert_eq!(d.planned_departure_time, None);
    assert_eq!(d.stop_position_number, Some(4294967295));
    assert_eq!(d.realtime_departure_time, None);
}

#[test]
fn first_of_repeated_members_wins() {
    let doc = Some(JsonValue::Array(vec![obj(vec![("name", text("A")), ("name", text("B"))])]));
    assert_eq!(decode_lines(&doc).unwrap()[0].name, s("A"));
}

#[test]
fn global_ids() {
    let doc = Some(texts(&["de:09162:1", "de:09162:9029"]));
    assert_eq!(
        decode_global_ids(&doc),
        Ok(vec!["de:09162:1".to_string(), "de:09162:9029".to_string()])
    );
    let bad = Some(JsonValue::Array(vec![text("de:09162:1"), num("2")]));
    assert_eq!(decode_global_ids(&bad), Err(DecodeError::UnexpectedItem));
    assert_eq!(decode_global_ids(&Some(obj(vec![]))), Err(DecodeError::NotAnArray));
}

#[test]
fn location_with_type_and_distance() {
    let doc = Some(JsonValue::Array(vec![obj(vec![
        ("aliases", text("Stachus Bf. Bahnhof Muenchen Munchen KA")),
        ("distanceInMeters", num("120")),
        ("globalId", text("de:09162:1")),
        ("hasZoomData", JsonValue::Bool(true)),
        ("transportTypes", texts(&["UBAHN", "BUS"])),
        ("type", text("STATION")),
    ])]));
    let loc = decode_locations(&doc).unwrap().remove(0);
    assert_eq!(loc.aliases, s("Stachus Bf. Bahnhof Muenchen Munchen KA"));
    assert_eq!(loc.distance_in_meters, Some(120));
    assert_eq!(loc.global_id, s("de:09162:1"));
    assert_eq!(loc.has_zoom_data, Some(true));
    assert_eq!(loc.transport_types, strings(&["UBAHN", "BUS"]));
    assert_eq!(loc.location_type, s("STATION"));
    assert_eq!(loc.diva_id, None);
}
