//! A typed client layer for the MVG transit web API: record types for
//! stations, lines, departures and locations, a tolerant decoder from a
//! parsed JSON document into those records, the matching encoder, and the
//! endpoint URLs with percent-encoded query values.
pub mod document;
pub mod endpoints;
pub mod json;
pub mod number;
pub mod query;
pub mod records;

pub use document::{decode_global_ids, DecodeError};
pub use json::JsonValue;
pub use records::{
    decode_departures, decode_lines, decode_locations, decode_stations, DepartureInfo, Line,
    Location, Station,
};
