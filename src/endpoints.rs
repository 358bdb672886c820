//! The endpoints of the API and the URLs of their requests. Parameters are
//! passed through as given, percent-encoded; the service judges them.
use crate::query::{escape_query_value, escaped};
use vstd::prelude::*;

verus! {

/// URL of the list of all stations.
pub fn stations_url() -> (r: String)
    ensures
        r@ == "https://www.mvg.de/.rest/zdm/stations"@,
{
    String::from_str("https://www.mvg.de/.rest/zdm/stations")
}

/// URL of the list of all global station ids.
pub fn station_global_ids_url() -> (r: String)
    ensures
        r@ == "https://www.mvg.de/.rest/zdm/mvgStationGlobalIds"@,
{
    String::from_str("https://www.mvg.de/.rest/zdm/mvgStationGlobalIds")
}

/// URL of the list of all lines.
pub fn lines_url() -> (r: String)
    ensures
        r@ == "https://www.mvg.de/.rest/zdm/lines"@,
{
    String::from_str("https://www.mvg.de/.rest/zdm/lines")
}

/// URL of the upcoming departures at the station with this global id.
pub fn departures_url(global_id: &str) -> (r: String)
    ensures
        r@ == "https://www.mvg.de/api/fib/v2/departure?globalId="@ + escaped(global_id@),
{
    let mut url = String::from_str("https://www.mvg.de/api/fib/v2/departure?globalId=");
    let id = escape_query_value(global_id);
    url.append(id.as_str());
    url
}

/// URL of a location search by free text.
pub fn location_url(query: &str) -> (r: String)
    ensures
        r@ == "https://www.mvg.de/api/fib/v2/location?query="@ + escaped(query@),
{
    let mut url = String::from_str("https://www.mvg.de/api/fib/v2/location?query=");
    let q = escape_query_value(query);
    url.append(q.as_str());
    url
}

/// URL of a search for locations near a point, given as decimal texts.
pub fn nearby_location_url(latitude: &str, longitude: &str) -> (r: String)
    ensures
        r@ == "https://www.mvg.de/api/fib/v2/station/nearby?latitude="@ + escaped(latitude@)
            + "&longitude="@ + escaped(longitude@),
{
    let mut url = String::from_str("https://www.mvg.de/api/fib/v2/station/nearby?latitude=");
    let lat = escape_query_value(latitude);
    url.append(lat.as_str());
    url.append("&longitude=");
    let lon = escape_query_value(longitude);
    url.append(lon.as_str());
    url
}

} // verus!
