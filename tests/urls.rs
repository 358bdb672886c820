use mvg_api::endpoints::{
    departures_url, lines_url, location_url, nearby_location_url, station_global_ids_url,
    stations_url,
};
use mvg_api::query::escape_query_value;

#[test]
fn fixed_urls() {
    assert_eq!(stations_url(), "https://www.mvg.de/.rest/zdm/stations");
    assert_eq!(station_global_ids_url(), "https://www.mvg.de/.rest/zdm/mvgStationGlobalIds");
    assert_eq!(lines_url(), "https://www.mvg.de/.rest/zdm/lines");
}

#[test]
fn departures_url_encodes_id() {
    assert_eq!(
        departures_url("de:09162:1"),
        "https://www.mvg.de/api/fib/v2/departure?globalId=de%3A09162%3A1"
    );
}

#[test]
fn location_url_encodes_query() {
    assert_eq!(
        location_url("Karlsplatz (Stachus)"),
        "https://www.mvg.de/api/fib/v2/location?query=Karlsplatz%20%28Stachus%29"
    );
}

#[test]
fn nearby_url() {
    assert_eq!(
        nearby_location_url("48.13951", "-11.5"),
        "https://www.mvg.de/api/fib/v2/station/nearby?latitude=48.13951&longitude=-11.5"
    );
}

#[test]
fn escaping() {
    assert_eq!(escape_query_value(""), "");
    assert_eq!(escape_query_value("A-z_0.9~"), "A-z_0.9~");
    assert_eq!(escape_query_value("München"), "M%C3%BCnchen");
    assert_eq!(escape_query_value("a&b=c"), "a%26b%3Dc");
    assert_eq!(escape_query_value("€"), "%E2%82%AC");
}
