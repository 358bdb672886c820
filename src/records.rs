//! The record types of the API, each field optional. Reading a record from
//! an object never fails: a member that is missing, null or of another type
//! leaves its field absent, and unknown members are ignored.
use crate::document::{all_objects, array_items, shape_error, DecodeError};
use crate::json::{
    bool_json, bool_value, encodes_bool, encodes_integer, encodes_number, encodes_text,
    encodes_texts, has_member, i32_json, i32_view, i64_json, i64_view, integer_member,
    lemma_integer_back, lemma_missing_member, member, number_json, number_value, read_bool,
    read_i32, read_i64, read_number, read_text, read_texts, read_u32, text_json, text_value,
    text_view, texts_json, texts_value, texts_view, u32_json, u32_view, within, JsonValue,
    Members,
};
use vstd::prelude::*;

verus! {

/// A station ("Haltestelle").
#[derive(Debug, Clone, PartialEq)]
pub struct Station {
    /// Short code, e.g. `KA`.
    pub abbreviation: Option<String>,
    /// The operator's internal numeric identifier.
    pub diva_id: Option<u32>,
    /// Global id of the form `<country>:<region>:<id>`, e.g. `de:09162:1`.
    pub id: Option<String>,
    /// Latitude, as the literal text of the JSON number.
    pub latitude: Option<String>,
    /// Longitude, as the literal text of the JSON number.
    pub longitude: Option<String>,
    pub name: Option<String>,
    pub place: Option<String>,
    /// Transport modes served, e.g. `UBAHN`, `BUS`.
    pub products: Option<Vec<String>>,
    /// Tariff zones, possibly a range such as `1|2`.
    pub tariff_zones: Option<String>,
}

/// `s` holds what `fields` gives for each of its members.
pub open spec fn station_read(s: Station, fields: Seq<(String, JsonValue)>) -> bool {
    &&& text_view(s.abbreviation) == text_value(member(fields, "abbreviation"@))
    &&& u32_view(s.diva_id) == within(
        integer_member(member(fields, "divaId"@)),
        0,
        u32::MAX as int,
    )
    &&& text_view(s.id) == text_value(member(fields, "id"@))
    &&& text_view(s.latitude) == number_value(member(fields, "latitude"@))
    &&& text_view(s.longitude) == number_value(member(fields, "longitude"@))
    &&& text_view(s.name) == text_value(member(fields, "name"@))
    &&& text_view(s.place) == text_value(member(fields, "place"@))
    &&& texts_view(s.products) == texts_value(member(fields, "products"@))
    &&& text_view(s.tariff_zones) == text_value(member(fields, "tariffZones"@))
}

/// `fields` lists the members of `s`, one per field in declaration order,
/// an absent field as null.
pub open spec fn station_written(s: Station, fields: Seq<(String, JsonValue)>) -> bool {
    &&& fields.len() == 9
    &&& fields[0].0@ == "abbreviation"@
    &&& encodes_text(fields[0].1, s.abbreviation)
    &&& fields[1].0@ == "divaId"@
    &&& encodes_integer(fields[1].1, u32_view(s.diva_id))
    &&& fields[2].0@ == "id"@
    &&& encodes_text(fields[2].1, s.id)
    &&& fields[3].0@ == "latitude"@
    &&& encodes_number(fields[3].1, s.latitude)
    &&& fields[4].0@ == "longitude"@
    &&& encodes_number(fields[4].1, s.longitude)
    &&& fields[5].0@ == "name"@
    &&& encodes_text(fields[5].1, s.name)
    &&& fields[6].0@ == "place"@
    &&& encodes_text(fields[6].1, s.place)
    &&& fields[7].0@ == "products"@
    &&& encodes_texts(fields[7].1, s.products)
    &&& fields[8].0@ == "tariffZones"@
    &&& encodes_text(fields[8].1, s.tariff_zones)
}

/// The two records hold the same values.
pub open spec fn same_station(a: Station, b: Station) -> bool {
    &&& text_view(a.abbreviation) == text_view(b.abbreviation)
    &&& a.diva_id == b.diva_id
    &&& text_view(a.id) == text_view(b.id)
    &&& text_view(a.latitude) == text_view(b.latitude)
    &&& text_view(a.longitude) == text_view(b.longitude)
    &&& text_view(a.name) == text_view(b.name)
    &&& text_view(a.place) == text_view(b.place)
    &&& texts_view(a.products) == texts_view(b.products)
    &&& text_view(a.tariff_zones) == text_view(b.tariff_zones)
}

impl Station {
    /// Reads a record from the members of an object.
    pub fn from_members(fields: &Members) -> (r: Station)
        ensures
            station_read(r, fields@),
    {
        Station {
            abbreviation: read_text(fields, "abbreviation"),
            diva_id: read_u32(fields, "divaId"),
            id: read_text(fields, "id"),
            latitude: read_number(fields, "latitude"),
            longitude: read_number(fields, "longitude"),
            name: read_text(fields, "name"),
            place: read_text(fields, "place"),
            products: read_texts(fields, "products"),
            tariff_zones: read_text(fields, "tariffZones"),
        }
    }

    /// The members of an object that holds this record.
    pub fn to_members(&self) -> (r: Members)
        ensures
            station_written(*self, r@),
    {
        let s = self;
        let mut fields: Members = Vec::new();
        fields.push((String::from_str("abbreviation"), text_json(&s.abbreviation)));
        fields.push((String::from_str("divaId"), u32_json(s.diva_id)));
        fields.push((String::from_str("id"), text_json(&s.id)));
        fields.push((String::from_str("latitude"), number_json(&s.latitude)));
        fields.push((String::from_str("longitude"), number_json(&s.longitude)));
        fields.push((String::from_str("name"), text_json(&s.name)));
        fields.push((String::from_str("place"), text_json(&s.place)));
        fields.push((String::from_str("products"), texts_json(&s.products)));
        fields.push((String::from_str("tariffZones"), text_json(&s.tariff_zones)));
        fields
    }

    /// The record as a JSON object.
    pub fn to_json(&self) -> (r: JsonValue)
        ensures
            r is Object && station_written(*self, r->Object_0@),
    {
        JsonValue::Object(self.to_members())
    }
}

/// Writing a record out and reading it back gives the same record.
pub proof fn lemma_station_round_trip(
    s: Station,
    fields: Seq<(String, JsonValue)>,
    back: Station,
)
    requires
        station_written(s, fields),
        station_read(back, fields),
    ensures
        same_station(back, s),
{
    reveal_strlit("abbreviation");
    reveal_strlit("divaId");
    reveal_strlit("id");
    reveal_strlit("latitude");
    reveal_strlit("longitude");
    reveal_strlit("name");
    reveal_strlit("place");
    reveal_strlit("products");
    reveal_strlit("tariffZones");
    assert("abbreviation"@.len() == 12);
    assert("divaId"@.len() == 6);
    assert("id"@.len() == 2);
    assert("latitude"@.len() == 8);
    assert("longitude"@.len() == 9);
    assert("name"@.len() == 4);
    assert("place"@.len() == 5);
    assert("products"@.len() == 8);
    assert("tariffZones"@.len() == 11);
    assert("latitude"@[0] == 'l' && "products"@[0] == 'p');
    reveal_with_fuel(member, 10);
    assert(member(fields, "abbreviation"@) == Some(fields[0].1));
    assert(member(fields, "divaId"@) == Some(fields[1].1));
    lemma_integer_back(
        fields[1].1,
        u32_view(s.diva_id),
        0,
        u32::MAX as int,
    );
    assert(member(fields, "id"@) == Some(fields[2].1));
    assert(member(fields, "latitude"@) == Some(fields[3].1));
    assert(member(fields, "longitude"@) == Some(fields[4].1));
    assert(member(fields, "name"@) == Some(fields[5].1));
    assert(member(fields, "place"@) == Some(fields[6].1));
    assert(member(fields, "products"@) == Some(fields[7].1));
    assert(member(fields, "tariffZones"@) == Some(fields[8].1));
}

/// A member that the object lacks leaves its field absent.
pub proof fn lemma_station_missing_members(s: Station, fields: Seq<(String, JsonValue)>)
    requires
        station_read(s, fields),
    ensures
        !has_member(fields, "abbreviation"@) ==> s.abbreviation is None,
        !has_member(fields, "divaId"@) ==> s.diva_id is None,
        !has_member(fields, "id"@) ==> s.id is None,
        !has_member(fields, "latitude"@) ==> s.latitude is None,
        !has_member(fields, "longitude"@) ==> s.longitude is None,
        !has_member(fields, "name"@) ==> s.name is None,
        !has_member(fields, "place"@) ==> s.place is None,
        !has_member(fields, "products"@) ==> s.products is None,
        !has_member(fields, "tariffZones"@) ==> s.tariff_zones is None,
{
    if !has_member(fields, "abbreviation"@) {
        lemma_missing_member(fields, "abbreviation"@);
    }
    if !has_member(fields, "divaId"@) {
        lemma_missing_member(fields, "divaId"@);
    }
    if !has_member(fields, "id"@) {
        lemma_missing_member(fields, "id"@);
    }
    if !has_member(fields, "latitude"@) {
        lemma_missing_member(fields, "latitude"@);
    }
    if !has_member(fields, "longitude"@) {
        lemma_missing_member(fields, "longitude"@);
    }
    if !has_member(fields, "name"@) {
        lemma_missing_member(fields, "name"@);
    }
    if !has_member(fields, "place"@) {
        lemma_missing_member(fields, "place"@);
    }
    if !has_member(fields, "products"@) {
        lemma_missing_member(fields, "products"@);
    }
    if !has_member(fields, "tariffZones"@) {
        lemma_missing_member(fields, "tariffZones"@);
    }
}

/// Each item of `items` is an object, read into the record at its position.
pub open spec fn station_list(items: Seq<JsonValue>, out: Seq<Station>) -> bool {
    &&& out.len() == items.len()
    &&& forall|i: int| 0 <= i < items.len() ==> station_read(#[trigger] out[i], items[i]->Object_0@)
}

/// Decodes a response document that should be an array of objects. A body
/// that was not JSON, a document that is not an array, and an array with an
/// item that is not an object are errors; an empty array is an empty list.
pub fn decode_stations(doc: &Option<JsonValue>) -> (r: Result<Vec<Station>, DecodeError>)
    ensures
        shape_error(*doc, false) is Some ==> r == Err::<Vec<Station>, DecodeError>(
            shape_error(*doc, false)->0,
        ),
        shape_error(*doc, false) is None ==> r is Ok && station_list(doc->0->Array_0@, r->Ok_0@),
{
    let items = match array_items(doc) {
        Ok(items) => items,
        Err(e) => return Err(e),
    };
    let mut out: Vec<Station> = Vec::new();
    let mut i: usize = 0;
    while i < items.len()
        invariant
            i <= items@.len(),
            *doc == Some(JsonValue::Array(*items)),
            all_objects(items@.subrange(0, i as int)),
            out@.len() == i,
            forall|k: int| 0 <= k < i ==> station_read(#[trigger] out@[k], items@[k]->Object_0@),
        decreases items@.len() - i,
    {
        match &items[i] {
            JsonValue::Object(m) => out.push(Station::from_members(m)),
            _ => {
                assert(!all_objects(items@));
                return Err(DecodeError::UnexpectedItem);
            },
        }
        assert(all_objects(items@.subrange(0, i + 1))) by {
            assert forall|k: int|
                0 <= k < i + 1 implies (#[trigger] items@.subrange(0, i + 1)[k]) is Object by {
                if k < i {
                    assert(items@.subrange(0, i as int)[k] == items@[k]);
                }
            }
        }
        i += 1;
    }
    assert(items@.subrange(0, i as int) =~= items@);
    Ok(out)
}

/// A line of the network.
#[derive(Debug, Clone, PartialEq)]
pub struct Line {
    /// Line number; negative values mark unassigned (night) lines.
    pub line_number: Option<i32>,
    /// Display label, e.g. `N19`.
    pub name: Option<String>,
    /// Transport mode.
    pub product: Option<String>,
}

/// `s` holds what `fields` gives for each of its members.
pub open spec fn line_read(s: Line, fields: Seq<(String, JsonValue)>) -> bool {
    &&& i32_view(s.line_number) == within(
        integer_member(member(fields, "lineNumber"@)),
        i32::MIN as int,
        i32::MAX as int,
    )
    &&& text_view(s.name) == text_value(member(fields, "name"@))
    &&& text_view(s.product) == text_value(member(fields, "product"@))
}

/// `fields` lists the members of `s`, one per field in declaration order,
/// an absent field as null.
pub open spec fn line_written(s: Line, fields: Seq<(String, JsonValue)>) -> bool {
    &&& fields.len() == 3
    &&& fields[0].0@ == "lineNumber"@
    &&& encodes_integer(fields[0].1, i32_view(s.line_number))
    &&& fields[1].0@ == "name"@
    &&& encodes_text(fields[1].1, s.name)
    &&& fields[2].0@ == "product"@
    &&& encodes_text(fields[2].1, s.product)
}

/// The two records hold the same values.
pub open spec fn same_line(a: Line, b: Line) -> bool {
    &&& a.line_number == b.line_number
    &&& text_view(a.name) == text_view(b.name)
    &&& text_view(a.product) == text_view(b.product)
}

impl Line {
    /// Reads a record from the members of an object.
    pub fn from_members(fields: &Members) -> (r: Line)
        ensures
            line_read(r, fields@),
    {
        Line {
            line_number: read_i32(fields, "lineNumber"),
            name: read_text(fields, "name"),
            product: read_text(fields, "product"),
        }
    }

    /// The members of an object that holds this record.
    pub fn to_members(&self) -> (r: Members)
        ensures
            line_written(*self, r@),
    {
        let s = self;
        let mut fields: Members = Vec::new();
        fields.push((String::from_str("lineNumber"), i32_json(s.line_number)));
        fields.push((String::from_str("name"), text_json(&s.name)));
        fields.push((String::from_str("product"), text_json(&s.product)));
        fields
    }

    /// The record as a JSON object.
    pub fn to_json(&self) -> (r: JsonValue)
        ensures
            r is Object && line_written(*self, r->Object_0@),
    {
        JsonValue::Object(self.to_members())
    }
}

/// Writing a record out and reading it back gives the same record.
pub proof fn lemma_line_round_trip(
    s: Line,
    fields: Seq<(String, JsonValue)>,
    back: Line,
)
    requires
        line_written(s, fields),
        line_read(back, fields),
    ensures
        same_line(back, s),
{
    reveal_strlit("lineNumber");
    reveal_strlit("name");
    reveal_strlit("product");
    assert("lineNumber"@.len() == 10);
    assert("name"@.len() == 4);
    assert("product"@.len() == 7);
    reveal_with_fuel(member, 4);
    assert(member(fields, "lineNumber"@) == Some(fields[0].1));
    lemma_integer_back(
        fields[0].1,
        i32_view(s.line_number),
        i32::MIN as int,
        i32::MAX as int,
    );
    assert(member(fields, "name"@) == Some(fields[1].1));
    assert(member(fields, "product"@) == Some(fields[2].1));
}

/// A member that the object lacks leaves its field absent.
pub proof fn lemma_line_missing_members(s: Line, fields: Seq<(String, JsonValue)>)
    requires
        line_read(s, fields),
    ensures
        !has_member(fields, "lineNumber"@) ==> s.line_number is None,
        !has_member(fields, "name"@) ==> s.name is None,
        !has_member(fields, "product"@) ==> s.product is None,
{
    if !has_member(fields, "lineNumber"@) {
        lemma_missing_member(fields, "lineNumber"@);
    }
    if !has_member(fields, "name"@) {
        lemma_missing_member(fields, "name"@);
    }
    if !has_member(fields, "product"@) {
        lemma_missing_member(fields, "product"@);
    }
}

/// Each item of `items` is an object, read into the record at its position.
pub open spec fn line_list(items: Seq<JsonValue>, out: Seq<Line>) -> bool {
    &&& out.len() == items.len()
    &&& forall|i: int| 0 <= i < items.len() ==> line_read(#[trigger] out[i], items[i]->Object_0@)
}

/// Decodes a response document that should be an array of objects. A body
/// that was not JSON, a document that is not an array, and an array with an
/// item that is not an object are errors; an empty array is an empty list.
pub fn decode_lines(doc: &Option<JsonValue>) -> (r: Result<Vec<Line>, DecodeError>)
    ensures
        shape_error(*doc, false) is Some ==> r == Err::<Vec<Line>, DecodeError>(
            shape_error(*doc, false)->0,
        ),
        shape_error(*doc, false) is None ==> r is Ok && line_list(doc->0->Array_0@, r->Ok_0@),
{
    let items = match array_items(doc) {
        Ok(items) => items,
        Err(e) => return Err(e),
    };
    let mut out: Vec<Line> = Vec::new();
    let mut i: usize = 0;
    while i < items.len()
        invariant
            i <= items@.len(),
            *doc == Some(JsonValue::Array(*items)),
            all_objects(items@.subrange(0, i as int)),
            out@.len() == i,
            forall|k: int| 0 <= k < i ==> line_read(#[trigger] out@[k], items@[k]->Object_0@),
        decreases items@.len() - i,
    {
        match &items[i] {
            JsonValue::Object(m) => out.push(Line::from_members(m)),
            _ => {
                assert(!all_objects(items@));
                return Err(DecodeError::UnexpectedItem);
            },
        }
        assert(all_objects(items@.subrange(0, i + 1))) by {
            assert forall|k: int|
                0 <= k < i + 1 implies (#[trigger] items@.subrange(0, i + 1)[k]) is Object by {
                if k < i {
                    assert(items@.subrange(0, i as int)[k] == items@[k]);
                }
            }
        }
        i += 1;
    }
    assert(items@.subrange(0, i as int) =~= items@);
    Ok(out)
}

/// An upcoming departure.
#[derive(Debug, Clone, PartialEq)]
pub struct DepartureInfo {
    /// Empty when there is no banner.
    pub banner_hash: Option<String>,
    pub cancelled: Option<bool>,
    /// Negative when early.
    pub delay_in_minutes: Option<i32>,
    pub destination: Option<String>,
    /// Text here, unlike the numeric id of a station.
    pub diva_id: Option<String>,
    pub label: Option<String>,
    /// Service messages, in order.
    pub messages: Option<Vec<String>>,
    pub network: Option<String>,
    /// E.g. `UNKNOWN`.
    pub occupancy: Option<String>,
    /// Unix milliseconds, Central European clock.
    pub planned_departure_time: Option<i64>,
    pub platform: Option<u32>,
    pub platform_changed: Option<bool>,
    /// Whether the realtime departure time is meaningful.
    pub realtime: Option<bool>,
    /// Unix milliseconds, Central European clock.
    pub realtime_departure_time: Option<i64>,
    /// Replacement service (Schienenersatzverkehr).
    pub sev: Option<bool>,
    pub stop_point_global_id: Option<String>,
    pub stop_position_number: Option<u32>,
    pub train_type: Option<String>,
    /// Transport mode.
    pub transport_type: Option<String>,
}

/// `s` holds what `fields` gives for each of its members.
pub open spec fn departure_read(s: DepartureInfo, fields: Seq<(String, JsonValue)>) -> bool {
    &&& text_view(s.banner_hash) == text_value(member(fields, "bannerHash"@))
    &&& s.cancelled == bool_value(member(fields, "cancelled"@))
    &&& i32_view(s.delay_in_minutes) == within(
        integer_member(member(fields, "delayInMinutes"@)),
        i32::MIN as int,
        i32::MAX as int,
    )
    &&& text_view(s.destination) == text_value(member(fields, "destination"@))
    &&& text_view(s.diva_id) == text_value(member(fields, "divaId"@))
    &&& text_view(s.label) == text_value(member(fields, "label"@))
    &&& texts_view(s.messages) == texts_value(member(fields, "messages"@))
    &&& text_view(s.network) == text_value(member(fields, "network"@))
    &&& text_view(s.occupancy) == text_value(member(fields, "occupancy"@))
    &&& i64_view(s.planned_departure_time) == within(
        integer_member(member(fields, "plannedDepartureTime"@)),
        i64::MIN as int,
        i64::MAX as int,
    )
    &&& u32_view(s.platform) == within(
        integer_member(member(fields, "platform"@)),
        0,
        u32::MAX as int,
    )
    &&& s.platform_changed == bool_value(member(fields, "platformChanged"@))
    &&& s.realtime == bool_value(member(fields, "realtime"@))
    &&& i64_view(s.realtime_departure_time) == within(
        integer_member(member(fields, "realtimeDepartureTime"@)),
        i64::MIN as int,
        i64::MAX as int,
    )
    &&& s.sev == bool_value(member(fields, "sev"@))
    &&& text_view(s.stop_point_global_id) == text_value(member(fields, "stopPointGlobalId"@))
    &&& u32_view(s.stop_position_number) == within(
        integer_member(member(fields, "stopPositionNumber"@)),
        0,
        u32::MAX as int,
    )
    &&& text_view(s.train_type) == text_value(member(fields, "trainType"@))
    &&& text_view(s.transport_type) == text_value(member(fields, "transportType"@))
}

/// `fields` lists the members of `s`, one per field in declaration order,
/// an absent field as null.
pub open spec fn departure_written(s: DepartureInfo, fields: Seq<(String, JsonValue)>) -> bool {
    &&& fields.len() == 19
    &&& fields[0].0@ == "bannerHash"@
    &&& encodes_text(fields[0].1, s.banner_hash)
    &&& fields[1].0@ == "cancelled"@
    &&& encodes_bool(fields[1].1, s.cancelled)
    &&& fields[2].0@ == "delayInMinutes"@
    &&& encodes_integer(fields[2].1, i32_view(s.delay_in_minutes))
    &&& fields[3].0@ == "destination"@
    &&& encodes_text(fields[3].1, s.destination)
    &&& fields[4].0@ == "divaId"@
    &&& encodes_text(fields[4].1, s.diva_id)
    &&& fields[5].0@ == "label"@
    &&& encodes_text(fields[5].1, s.label)
    &&& fields[6].0@ == "messages"@
    &&& encodes_texts(fields[6].1, s.messages)
    &&& fields[7].0@ == "network"@
    &&& encodes_text(fields[7].1, s.network)
    &&& fields[8].0@ == "occupancy"@
    &&& encodes_text(fields[8].1, s.occupancy)
    &&& fields[9].0@ == "plannedDepartureTime"@
    &&& encodes_integer(fields[9].1, i64_view(s.planned_departure_time))
    &&& fields[10].0@ == "platform"@
    &&& encodes_integer(fields[10].1, u32_view(s.platform))
    &&& fields[11].0@ == "platformChanged"@
    &&& encodes_bool(fields[11].1, s.platform_changed)
    &&& fields[12].0@ == "realtime"@
    &&& encodes_bool(fields[12].1, s.realtime)
    &&& fields[13].0@ == "realtimeDepartureTime"@
    &&& encodes_integer(fields[13].1, i64_view(s.realtime_departure_time))
    &&& fields[14].0@ == "sev"@
    &&& encodes_bool(fields[14].1, s.sev)
    &&& fields[15].0@ == "stopPointGlobalId"@
    &&& encodes_text(fields[15].1, s.stop_point_global_id)
    &&& fields[16].0@ == "stopPositionNumber"@
    &&& encodes_integer(fields[16].1, u32_view(s.stop_position_number))
    &&& fields[17].0@ == "trainType"@
    &&& encodes_text(fields[17].1, s.train_type)
    &&& fields[18].0@ == "transportType"@
    &&& encodes_text(fields[18].1, s.transport_type)
}

/// The two records hold the same values.
pub open spec fn same_departure(a: DepartureInfo, b: DepartureInfo) -> bool {
    &&& text_view(a.banner_hash) == text_view(b.banner_hash)
    &&& a.cancelled == b.cancelled
    &&& a.delay_in_minutes == b.delay_in_minutes
    &&& text_view(a.destination) == text_view(b.destination)
    &&& text_view(a.diva_id) == text_view(b.diva_id)
    &&& text_view(a.label) == text_view(b.label)
    &&& texts_view(a.messages) == texts_view(b.messages)
    &&& text_view(a.network) == text_view(b.network)
    &&& text_view(a.occupancy) == text_view(b.occupancy)
    &&& a.planned_departure_time == b.planned_departure_time
    &&& a.platform == b.platform
    &&& a.platform_changed == b.platform_changed
    &&& a.realtime == b.realtime
    &&& a.realtime_departure_time == b.realtime_departure_time
    &&& a.sev == b.sev
    &&& text_view(a.stop_point_global_id) == text_view(b.stop_point_global_id)
    &&& a.stop_position_number == b.stop_position_number
    &&& text_view(a.train_type) == text_view(b.train_type)
    &&& text_view(a.transport_type) == text_view(b.transport_type)
}

impl DepartureInfo {
    /// Reads a record from the members of an object.
    pub fn from_members(fields: &Members) -> (r: DepartureInfo)
        ensures
            departure_read(r, fields@),
    {
        DepartureInfo {
            banner_hash: read_text(fields, "bannerHash"),
            cancelled: read_bool(fields, "cancelled"),
            delay_in_minutes: read_i32(fields, "delayInMinutes"),
            destination: read_text(fields, "destination"),
            diva_id: read_text(fields, "divaId"),
            label: read_text(fields, "label"),
            messages: read_texts(fields, "messages"),
            network: read_text(fields, "network"),
            occupancy: read_text(fields, "occupancy"),
            planned_departure_time: read_i64(fields, "plannedDepartureTime"),
            platform: read_u32(fields, "platform"),
            platform_changed: read_bool(fields, "platformChanged"),
            realtime: read_bool(fields, "realtime"),
            realtime_departure_time: read_i64(fields, "realtimeDepartureTime"),
            sev: read_bool(fields, "sev"),
            stop_point_global_id: read_text(fields, "stopPointGlobalId"),
            stop_position_number: read_u32(fields, "stopPositionNumber"),
            train_type: read_text(fields, "trainType"),
            transport_type: read_text(fields, "transportType"),
        }
    }

    /// The members of an object that holds this record.
    pub fn to_members(&self) -> (r: Members)
        ensures
            departure_written(*self, r@),
    {
        let s = self;
        let mut fields: Members = Vec::new();
        fields.push((String::from_str("bannerHash"), text_json(&s.banner_hash)));
        fields.push((String::from_str("cancelled"), bool_json(s.cancelled)));
        fields.push((String::from_str("delayInMinutes"), i32_json(s.delay_in_minutes)));
        fields.push((String::from_str("destination"), text_json(&s.destination)));
        fields.push((String::from_str("divaId"), text_json(&s.diva_id)));
        fields.push((String::from_str("label"), text_json(&s.label)));
        fields.push((String::from_str("messages"), texts_json(&s.messages)));
        fields.push((String::from_str("network"), text_json(&s.network)));
        fields.push((String::from_str("occupancy"), text_json(&s.occupancy)));
        fields.push((String::from_str("plannedDepartureTime"), i64_json(s.planned_departure_time)));
        fields.push((String::from_str("platform"), u32_json(s.platform)));
        fields.push((String::from_str("platformChanged"), bool_json(s.platform_changed)));
        fields.push((String::from_str("realtime"), bool_json(s.realtime)));
        fields.push((String::from_str("realtimeDepartureTime"), i64_json(s.realtime_departure_time)));
        fields.push((String::from_str("sev"), bool_json(s.sev)));
        fields.push((String::from_str("stopPointGlobalId"), text_json(&s.stop_point_global_id)));
        fields.push((String::from_str("stopPositionNumber"), u32_json(s.stop_position_number)));
        fields.push((String::from_str("trainType"), text_json(&s.train_type)));
        fields.push((String::from_str("transportType"), text_json(&s.transport_type)));
        fields
    }

    /// The record as a JSON object.
    pub fn to_json(&self) -> (r: JsonValue)
        ensures
            r is Object && departure_written(*self, r->Object_0@),
    {
        JsonValue::Object(self.to_members())
    }
}

/// Writing a record out and reading it back gives the same record.
pub proof fn lemma_departure_round_trip(
    s: DepartureInfo,
    fields: Seq<(String, JsonValue)>,
    back: DepartureInfo,
)
    requires
        departure_written(s, fields),
        departure_read(back, fields),
    ensures
        same_departure(back, s),
{
    reveal_strlit("bannerHash");
    reveal_strlit("cancelled");
    reveal_strlit("delayInMinutes");
    reveal_strlit("destination");
    reveal_strlit("divaId");
    reveal_strlit("label");
    reveal_strlit("messages");
    reveal_strlit("network");
    reveal_strlit("occupancy");
    reveal_strlit("plannedDepartureTime");
    reveal_strlit("platform");
    reveal_strlit("platformChanged");
    reveal_strlit("realtime");
    reveal_strlit("realtimeDepartureTime");
    reveal_strlit("sev");
    reveal_strlit("stopPointGlobalId");
    reveal_strlit("stopPositionNumber");
    reveal_strlit("trainType");
    reveal_strlit("transportType");
    assert("bannerHash"@.len() == 10);
    assert("cancelled"@.len() == 9);
    assert("delayInMinutes"@.len() == 14);
    assert("destination"@.len() == 11);
    assert("divaId"@.len() == 6);
    assert("label"@.len() == 5);
    assert("messages"@.len() == 8);
    assert("network"@.len() == 7);
    assert("occupancy"@.len() == 9);
    assert("plannedDepartureTime"@.len() == 20);
    assert("platform"@.len() == 8);
    assert("platformChanged"@.len() == 15);
    assert("realtime"@.len() == 8);
    assert("realtimeDepartureTime"@.len() == 21);
    assert("sev"@.len() == 3);
    assert("stopPointGlobalId"@.len() == 17);
    assert("stopPositionNumber"@.len() == 18);
    assert("trainType"@.len() == 9);
    assert("transportType"@.len() == 13);
    assert("cancelled"@[0] == 'c' && "occupancy"@[0] == 'o');
    assert("cancelled"@[0] == 'c' && "trainType"@[0] == 't');
    assert("messages"@[0] == 'm' && "platform"@[0] == 'p');
    assert("messages"@[0] == 'm' && "realtime"@[0] == 'r');
    assert("occupancy"@[0] == 'o' && "trainType"@[0] == 't');
    assert("platform"@[0] == 'p' && "realtime"@[0] == 'r');
    reveal_with_fuel(member, 20);
    assert(member(fields, "bannerHash"@) == Some(fields[0].1));
    assert(member(fields, "cancelled"@) == Some(fields[1].1));
    assert(member(fields, "delayInMinutes"@) == Some(fields[2].1));
    lemma_integer_back(
        fields[2].1,
        i32_view(s.delay_in_minutes),
        i32::MIN as int,
        i32::MAX as int,
    );
    assert(member(fields, "destination"@) == Some(fields[3].1));
    assert(member(fields, "divaId"@) == Some(fields[4].1));
    assert(member(fields, "label"@) == Some(fields[5].1));
    assert(member(fields, "messages"@) == Some(fields[6].1));
    assert(member(fields, "network"@) == Some(fields[7].1));
    assert(member(fields, "occupancy"@) == Some(fields[8].1));
    assert(member(fields, "plannedDepartureTime"@) == Some(fields[9].1));
    lemma_integer_back(
        fields[9].1,
        i64_view(s.planned_departure_time),
        i64::MIN as int,
        i64::MAX as int,
    );
    assert(member(fields, "platform"@) == Some(fields[10].1));
    lemma_integer_back(
        fields[10].1,
        u32_view(s.platform),
        0,
        u32::MAX as int,
    );
    assert(member(fields, "platformChanged"@) == Some(fields[11].1));
    assert(member(fields, "realtime"@) == Some(fields[12].1));
    assert(member(fields, "realtimeDepartureTime"@) == Some(fields[13].1));
    lemma_integer_back(
        fields[13].1,
        i64_view(s.realtime_departure_time),
        i64::MIN as int,
        i64::MAX as int,
    );
    assert(member(fields, "sev"@) == Some(fields[14].1));
    assert(member(fields, "stopPointGlobalId"@) == Some(fields[15].1));
    assert(member(fields, "stopPositionNumber"@) == Some(fields[16].1));
    lemma_integer_back(
        fields[16].1,
        u32_view(s.stop_position_number),
        0,
        u32::MAX as int,
    );
    assert(member(fields, "trainType"@) == Some(fields[17].1));
    assert(member(fields, "transportType"@) == Some(fields[18].1));
}

/// A member that the object lacks leaves its field absent.
pub proof fn lemma_departure_missing_members(s: DepartureInfo, fields: Seq<(String, JsonValue)>)
    requires
        departure_read(s, fields),
    ensures
        !has_member(fields, "bannerHash"@) ==> s.banner_hash is None,
        !has_member(fields, "cancelled"@) ==> s.cancelled is None,
        !has_member(fields, "delayInMinutes"@) ==> s.delay_in_minutes is None,
        !has_member(fields, "destination"@) ==> s.destination is None,
        !has_member(fields, "divaId"@) ==> s.diva_id is None,
        !has_member(fields, "label"@) ==> s.label is None,
        !has_member(fields, "messages"@) ==> s.messages is None,
        !has_member(fields, "network"@) ==> s.network is None,
        !has_member(fields, "occupancy"@) ==> s.occupancy is None,
        !has_member(fields, "plannedDepartureTime"@) ==> s.planned_departure_time is None,
        !has_member(fields, "platform"@) ==> s.platform is None,
        !has_member(fields, "platformChanged"@) ==> s.platform_changed is None,
        !has_member(fields, "realtime"@) ==> s.realtime is None,
        !has_member(fields, "realtimeDepartureTime"@) ==> s.realtime_departure_time is None,
        !has_member(fields, "sev"@) ==> s.sev is None,
        !has_member(fields, "stopPointGlobalId"@) ==> s.stop_point_global_id is None,
        !has_member(fields, "stopPositionNumber"@) ==> s.stop_position_number is None,
        !has_member(fields, "trainType"@) ==> s.train_type is None,
        !has_member(fields, "transportType"@) ==> s.transport_type is None,
{
    if !has_member(fields, "bannerHash"@) {
        lemma_missing_member(fields, "bannerHash"@);
    }
    if !has_member(fields, "cancelled"@) {
        lemma_missing_member(fields, "cancelled"@);
    }
    if !has_member(fields, "delayInMinutes"@) {
        lemma_missing_member(fields, "delayInMinutes"@);
    }
    if !has_member(fields, "destination"@) {
        lemma_missing_member(fields, "destination"@);
    }
    if !has_member(fields, "divaId"@) {
        lemma_missing_member(fields, "divaId"@);
    }
    if !has_member(fields, "label"@) {
        lemma_missing_member(fields, "label"@);
    }
    if !has_member(fields, "messages"@) {
        lemma_missing_member(fields, "messages"@);
    }
    if !has_member(fields, "network"@) {
        lemma_missing_member(fields, "network"@);
    }
    if !has_member(fields, "occupancy"@) {
        lemma_missing_member(fields, "occupancy"@);
    }
    if !has_member(fields, "plannedDepartureTime"@) {
        lemma_missing_member(fields, "plannedDepartureTime"@);
    }
    if !has_member(fields, "platform"@) {
        lemma_missing_member(fields, "platform"@);
    }
    if !has_member(fields, "platformChanged"@) {
        lemma_missing_member(fields, "platformChanged"@);
    }
    if !has_member(fields, "realtime"@) {
        lemma_missing_member(fields, "realtime"@);
    }
    if !has_member(fields, "realtimeDepartureTime"@) {
        lemma_missing_member(fields, "realtimeDepartureTime"@);
    }
    if !has_member(fields, "sev"@) {
        lemma_missing_member(fields, "sev"@);
    }
    if !has_member(fields, "stopPointGlobalId"@) {
        lemma_missing_member(fields, "stopPointGlobalId"@);
    }
    if !has_member(fields, "stopPositionNumber"@) {
        lemma_missing_member(fields, "stopPositionNumber"@);
    }
    if !has_member(fields, "trainType"@) {
        lemma_missing_member(fields, "trainType"@);
    }
    if !has_member(fields, "transportType"@) {
        lemma_missing_member(fields, "transportType"@);
    }
}

/// Each item of `items` is an object, read into the record at its position.
pub open spec fn departure_list(items: Seq<JsonValue>, out: Seq<DepartureInfo>) -> bool {
    &&& out.len() == items.len()
    &&& forall|i: int| 0 <= i < items.len() ==> departure_read(#[trigger] out[i], items[i]->Object_0@)
}

/// Decodes a response document that should be an array of objects. A body
/// that was not JSON, a document that is not an array, and an array with an
/// item that is not an object are errors; an empty array is an empty list.
pub fn decode_departures(doc: &Option<JsonValue>) -> (r: Result<Vec<DepartureInfo>, DecodeError>)
    ensures
        shape_error(*doc, false) is Some ==> r == Err::<Vec<DepartureInfo>, DecodeError>(
            shape_error(*doc, false)->0,
        ),
        shape_error(*doc, false) is None ==> r is Ok && departure_list(doc->0->Array_0@, r->Ok_0@),
{
    let items = match array_items(doc) {
        Ok(items) => items,
        Err(e) => return Err(e),
    };
    let mut out: Vec<DepartureInfo> = Vec::new();
    let mut i: usize = 0;
    while i < items.len()
        invariant
            i <= items@.len(),
            *doc == Some(JsonValue::Array(*items)),
            all_objects(items@.subrange(0, i as int)),
            out@.len() == i,
            forall|k: int| 0 <= k < i ==> departure_read(#[trigger] out@[k], items@[k]->Object_0@),
        decreases items@.len() - i,
    {
        match &items[i] {
            JsonValue::Object(m) => out.push(DepartureInfo::from_members(m)),
            _ => {
                assert(!all_objects(items@));
                return Err(DecodeError::UnexpectedItem);
            },
        }
        assert(all_objects(items@.subrange(0, i + 1))) by {
            assert forall|k: int|
                0 <= k < i + 1 implies (#[trigger] items@.subrange(0, i + 1)[k]) is Object by {
                if k < i {
                    assert(items@.subrange(0, i as int)[k] == items@[k]);
                }
            }
        }
        i += 1;
    }
    assert(items@.subrange(0, i as int) =~= items@);
    Ok(out)
}

/// A location found by a search.
#[derive(Debug, Clone, PartialEq)]
pub struct Location {
    /// Search synonyms.
    pub aliases: Option<String>,
    /// Set by the nearby search only.
    pub distance_in_meters: Option<i32>,
    pub diva_id: Option<u32>,
    pub global_id: Option<String>,
    pub has_zoom_data: Option<bool>,
    /// Latitude, as the literal text of the JSON number.
    pub latitude: Option<String>,
    /// Longitude, as the literal text of the JSON number.
    pub longitude: Option<String>,
    pub name: Option<String>,
    pub place: Option<String>,
    pub surrounding_plan_link: Option<String>,
    pub tariff_zones: Option<String>,
    /// Transport modes served.
    pub transport_types: Option<Vec<String>>,
    /// Kind of location, e.g. `STATION`.
    pub location_type: Option<String>,
}

/// `s` holds what `fields` gives for each of its members.
pub open spec fn location_read(s: Location, fields: Seq<(String, JsonValue)>) -> bool {
    &&& text_view(s.aliases) == text_value(member(fields, "aliases"@))
    &&& i32_view(s.distance_in_meters) == within(
        integer_member(member(fields, "distanceInMeters"@)),
        i32::MIN as int,
        i32::MAX as int,
    )
    &&& u32_view(s.diva_id) == within(
        integer_member(member(fields, "divaId"@)),
        0,
        u32::MAX as int,
    )
    &&& text_view(s.global_id) == text_value(member(fields, "globalId"@))
    &&& s.has_zoom_data == bool_value(member(fields, "hasZoomData"@))
    &&& text_view(s.latitude) == number_value(member(fields, "latitude"@))
    &&& text_view(s.longitude) == number_value(member(fields, "longitude"@))
    &&& text_view(s.name) == text_value(member(fields, "name"@))
    &&& text_view(s.place) == text_value(member(fields, "place"@))
    &&& text_view(s.surrounding_plan_link) == text_value(member(fields, "surroundingPlanLink"@))
    &&& text_view(s.tariff_zones) == text_value(member(fields, "tariffZones"@))
    &&& texts_view(s.transport_types) == texts_value(member(fields, "transportTypes"@))
    &&& text_view(s.location_type) == text_value(member(fields, "type"@))
}

/// `fields` lists the members of `s`, one per field in declaration order,
/// an absent field as null.
pub open spec fn location_written(s: Location, fields: Seq<(String, JsonValue)>) -> bool {
    &&& fields.len() == 13
    &&& fields[0].0@ == "aliases"@
    &&& encodes_text(fields[0].1, s.aliases)
    &&& fields[1].0@ == "distanceInMeters"@
    &&& encodes_integer(fields[1].1, i32_view(s.distance_in_meters))
    &&& fields[2].0@ == "divaId"@
    &&& encodes_integer(fields[2].1, u32_view(s.diva_id))
    &&& fields[3].0@ == "globalId"@
    &&& encodes_text(fields[3].1, s.global_id)
    &&& fields[4].0@ == "hasZoomData"@
    &&& encodes_bool(fields[4].1, s.has_zoom_data)
    &&& fields[5].0@ == "latitude"@
    &&& encodes_number(fields[5].1, s.latitude)
    &&& fields[6].0@ == "longitude"@
    &&& encodes_number(fields[6].1, s.longitude)
    &&& fields[7].0@ == "name"@
    &&& encodes_text(fields[7].1, s.name)
    &&& fields[8].0@ == "place"@
    &&& encodes_text(fields[8].1, s.place)
    &&& fields[9].0@ == "surroundingPlanLink"@
    &&& encodes_text(fields[9].1, s.surrounding_plan_link)
    &&& fields[10].0@ == "tariffZones"@
    &&& encodes_text(fields[10].1, s.tariff_zones)
    &&& fields[11].0@ == "transportTypes"@
    &&& encodes_texts(fields[11].1, s.transport_types)
    &&& fields[12].0@ == "type"@
    &&& encodes_text(fields[12].1, s.location_type)
}

/// The two records hold the same values.
pub open spec fn same_location(a: Location, b: Location) -> bool {
    &&& text_view(a.aliases) == text_view(b.aliases)
    &&& a.distance_in_meters == b.distance_in_meters
    &&& a.diva_id == b.diva_id
    &&& text_view(a.global_id) == text_view(b.global_id)
    &&& a.has_zoom_data == b.has_zoom_data
    &&& text_view(a.latitude) == text_view(b.latitude)
    &&& text_view(a.longitude) == text_view(b.longitude)
    &&& text_view(a.name) == text_view(b.name)
    &&& text_view(a.place) == text_view(b.place)
    &&& text_view(a.surrounding_plan_link) == text_view(b.surrounding_plan_link)
    &&& text_view(a.tariff_zones) == text_view(b.tariff_zones)
    &&& texts_view(a.transport_types) == texts_view(b.transport_types)
    &&& text_view(a.location_type) == text_view(b.location_type)
}

impl Location {
    /// Reads a record from the members of an object.
    pub fn from_members(fields: &Members) -> (r: Location)
        ensures
            location_read(r, fields@),
    {
        Location {
            aliases: read_text(fields, "aliases"),
            distance_in_meters: read_i32(fields, "distanceInMeters"),
            diva_id: read_u32(fields, "divaId"),
            global_id: read_text(fields, "globalId"),
            has_zoom_data: read_bool(fields, "hasZoomData"),
            latitude: read_number(fields, "latitude"),
            longitude: read_number(fields, "longitude"),
            name: read_text(fields, "name"),
            place: read_text(fields, "place"),
            surrounding_plan_link: read_text(fields, "surroundingPlanLink"),
            tariff_zones: read_text(fields, "tariffZones"),
            transport_types: read_texts(fields, "transportTypes"),
            location_type: read_text(fields, "type"),
        }
    }

    /// The members of an object that holds this record.
    pub fn to_members(&self) -> (r: Members)
        ensures
            location_written(*self, r@),
    {
        let s = self;
        let mut fields: Members = Vec::new();
        fields.push((String::from_str("aliases"), text_json(&s.aliases)));
        fields.push((String::from_str("distanceInMeters"), i32_json(s.distance_in_meters)));
        fields.push((String::from_str("divaId"), u32_json(s.diva_id)));
        fields.push((String::from_str("globalId"), text_json(&s.global_id)));
        fields.push((String::from_str("hasZoomData"), bool_json(s.has_zoom_data)));
        fields.push((String::from_str("latitude"), number_json(&s.latitude)));
        fields.push((String::from_str("longitude"), number_json(&s.longitude)));
        fields.push((String::from_str("name"), text_json(&s.name)));
        fields.push((String::from_str("place"), text_json(&s.place)));
        fields.push((String::from_str("surroundingPlanLink"), text_json(&s.surrounding_plan_link)));
        fields.push((String::from_str("tariffZones"), text_json(&s.tariff_zones)));
        fields.push((String::from_str("transportTypes"), texts_json(&s.transport_types)));
        fields.push((String::from_str("type"), text_json(&s.location_type)));
        fields
    }

    /// The record as a JSON object.
    pub fn to_json(&self) -> (r: JsonValue)
        ensures
            r is Object && location_written(*self, r->Object_0@),
    {
        JsonValue::Object(self.to_members())
    }
}

/// Writing a record out and reading it back gives the same record.
pub proof fn lemma_location_round_trip(
    s: Location,
    fields: Seq<(String, JsonValue)>,
    back: Location,
)
    requires
        location_written(s, fields),
        location_read(back, fields),
    ensures
        same_location(back, s),
{
    reveal_strlit("aliases");
    reveal_strlit("distanceInMeters");
    reveal_strlit("divaId");
    reveal_strlit("globalId");
    reveal_strlit("hasZoomData");
    reveal_strlit("latitude");
    reveal_strlit("longitude");
    reveal_strlit("name");
    reveal_strlit("place");
    reveal_strlit("surroundingPlanLink");
    reveal_strlit("tariffZones");
    reveal_strlit("transportTypes");
    reveal_strlit("type");
    assert("aliases"@.len() == 7);
    assert("distanceInMeters"@.len() == 16);
    assert("divaId"@.len() == 6);
    assert("globalId"@.len() == 8);
    assert("hasZoomData"@.len() == 11);
    assert("latitude"@.len() == 8);
    assert("longitude"@.len() == 9);
    assert("name"@.len() == 4);
    assert("place"@.len() == 5);
    assert("surroundingPlanLink"@.len() == 19);
    assert("tariffZones"@.len() == 11);
    assert("transportTypes"@.len() == 14);
    assert("type"@.len() == 4);
    assert("globalId"@[0] == 'g' && "latitude"@[0] == 'l');
    assert("hasZoomData"@[0] == 'h' && "tariffZones"@[0] == 't');
    assert("name"@[0] == 'n' && "type"@[0] == 't');
    reveal_with_fuel(member, 14);
    assert(member(fields, "aliases"@) == Some(fields[0].1));
    assert(member(fields, "distanceInMeters"@) == Some(fields[1].1));
    lemma_integer_back(
        fields[1].1,
        i32_view(s.distance_in_meters),
        i32::MIN as int,
        i32::MAX as int,
    );
    assert(member(fields, "divaId"@) == Some(fields[2].1));
    lemma_integer_back(
        fields[2].1,
        u32_view(s.diva_id),
        0,
        u32::MAX as int,
    );
    assert(member(fields, "globalId"@) == Some(fields[3].1));
    assert(member(fields, "hasZoomData"@) == Some(fields[4].1));
    assert(member(fields, "latitude"@) == Some(fields[5].1));
    assert(member(fields, "longitude"@) == Some(fields[6].1));
    assert(member(fields, "name"@) == Some(fields[7].1));
    assert(member(fields, "place"@) == Some(fields[8].1));
    assert(member(fields, "surroundingPlanLink"@) == Some(fields[9].1));
    assert(member(fields, "tariffZones"@) == Some(fields[10].1));
    assert(member(fields, "transportTypes"@) == Some(fields[11].1));
    assert(member(fields, "type"@) == Some(fields[12].1));
}

/// A member that the object lacks leaves its field absent.
pub proof fn lemma_location_missing_members(s: Location, fields: Seq<(String, JsonValue)>)
    requires
        location_read(s, fields),
    ensures
        !has_member(fields, "aliases"@) ==> s.aliases is None,
        !has_member(fields, "distanceInMeters"@) ==> s.distance_in_meters is None,
        !has_member(fields, "divaId"@) ==> s.diva_id is None,
        !has_member(fields, "globalId"@) ==> s.global_id is None,
        !has_member(fields, "hasZoomData"@) ==> s.has_zoom_data is None,
        !has_member(fields, "latitude"@) ==> s.latitude is None,
        !has_member(fields, "longitude"@) ==> s.longitude is None,
        !has_member(fields, "name"@) ==> s.name is None,
        !has_member(fields, "place"@) ==> s.place is None,
        !has_member(fields, "surroundingPlanLink"@) ==> s.surrounding_plan_link is None,
        !has_member(fields, "tariffZones"@) ==> s.tariff_zones is None,
        !has_member(fields, "transportTypes"@) ==> s.transport_types is None,
        !has_member(fields, "type"@) ==> s.location_type is None,
{
    if !has_member(fields, "aliases"@) {
        lemma_missing_member(fields, "aliases"@);
    }
    if !has_member(fields, "distanceInMeters"@) {
        lemma_missing_member(fields, "distanceInMeters"@);
    }
    if !has_member(fields, "divaId"@) {
        lemma_missing_member(fields, "divaId"@);
    }
    if !has_member(fields, "globalId"@) {
        lemma_missing_member(fields, "globalId"@);
    }
    if !has_member(fields, "hasZoomData"@) {
        lemma_missing_member(fields, "hasZoomData"@);
    }
    if !has_member(fields, "latitude"@) {
        lemma_missing_member(fields, "latitude"@);
    }
    if !has_member(fields, "longitude"@) {
        lemma_missing_member(fields, "longitude"@);
    }
    if !has_member(fields, "name"@) {
        lemma_missing_member(fields, "name"@);
    }
    if !has_member(fields, "place"@) {
        lemma_missing_member(fields, "place"@);
    }
    if !has_member(fields, "surroundingPlanLink"@) {
        lemma_missing_member(fields, "surroundingPlanLink"@);
    }
    if !has_member(fields, "tariffZones"@) {
        lemma_missing_member(fields, "tariffZones"@);
    }
    if !has_member(fields, "transportTypes"@) {
        lemma_missing_member(fields, "transportTypes"@);
    }
    if !has_member(fields, "type"@) {
        lemma_missing_member(fields, "type"@);
    }
}

/// Each item of `items` is an object, read into the record at its position.
pub open spec fn location_list(items: Seq<JsonValue>, out: Seq<Location>) -> bool {
    &&& out.len() == items.len()
    &&& forall|i: int| 0 <= i < items.len() ==> location_read(#[trigger] out[i], items[i]->Object_0@)
}

/// Decodes a response document that should be an array of objects. A body
/// that was not JSON, a document that is not an array, and an array with an
/// item that is not an object are errors; an empty array is an empty list.
pub fn decode_locations(doc: &Option<JsonValue>) -> (r: Result<Vec<Location>, DecodeError>)
    ensures
        shape_error(*doc, false) is Some ==> r == Err::<Vec<Location>, DecodeError>(
            shape_error(*doc, false)->0,
        ),
        shape_error(*doc, false) is None ==> r is Ok && location_list(doc->0->Array_0@, r->Ok_0@),
{
    let items = match array_items(doc) {
        Ok(items) => items,
        Err(e) => return Err(e),
    };
    let mut out: Vec<Location> = Vec::new();
    let mut i: usize = 0;
    while i < items.len()
        invariant
            i <= items@.len(),
            *doc == Some(JsonValue::Array(*items)),
            all_objects(items@.subrange(0, i as int)),
            out@.len() == i,
            forall|k: int| 0 <= k < i ==> location_read(#[trigger] out@[k], items@[k]->Object_0@),
        decreases items@.len() - i,
    {
        match &items[i] {
            JsonValue::Object(m) => out.push(Location::from_members(m)),
            _ => {
                assert(!all_objects(items@));
                return Err(DecodeError::UnexpectedItem);
            },
        }
        assert(all_objects(items@.subrange(0, i + 1))) by {
            assert forall|k: int|
                0 <= k < i + 1 implies (#[trigger] items@.subrange(0, i + 1)[k]) is Object by {
                if k < i {
                    assert(items@.subrange(0, i as int)[k] == items@[k]);
                }
            }
        }
        i += 1;
    }
    assert(items@.subrange(0, i as int) =~= items@);
    Ok(out)
}

} // verus!
