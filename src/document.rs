//! The top-level shape of a response document: an array of records.
use crate::json::{all_texts, JsonValue};
use vstd::prelude::*;

verus! {

/// Why a response document could not be decoded.
#[derive(Debug, Clone, Copy, PartialEq, Eq, Structural)]
pub enum DecodeError {
    /// The body is not valid JSON.
    InvalidJson,
    /// The document is valid JSON but not an array.
    NotAnArray,
    /// An item of the array does not have the shape of a record.
    UnexpectedItem,
}

pub open spec fn all_objects(items: Seq<JsonValue>) -> bool {
    forall|i: int| 0 <= i < items.len() ==> (#[trigger] items[i]) is Object
}

/// The error that decoding `doc` gives, if any: `doc` is `None` when the body
/// did not parse as JSON. The items must be objects, or strings where
/// `texts` holds.
pub open spec fn shape_error(doc: Option<JsonValue>, texts: bool) -> Option<DecodeError> {
    match doc {
        None => Some(DecodeError::InvalidJson),
        Some(JsonValue::Array(items)) => if (if texts {
            all_texts(items@)
        } else {
            all_objects(items@)
        }) {
            None
        } else {
            Some(DecodeError::UnexpectedItem)
        },
        Some(_) => Some(DecodeError::NotAnArray),
    }
}

/// The items of a document that is an array.
pub fn array_items(doc: &Option<JsonValue>) -> (r: Result<&Vec<JsonValue>, DecodeError>)
    ensures
        doc is None ==> r == Err::<&Vec<JsonValue>, DecodeError>(DecodeError::InvalidJson),
        doc is Some && !(doc->0 is Array) ==> r == Err::<&Vec<JsonValue>, DecodeError>(
            DecodeError::NotAnArray,
        ),
        doc is Some && doc->0 is Array ==> r is Ok && *doc == Some(JsonValue::Array(*r->Ok_0)),
{
    match doc {
        None => Err(DecodeError::InvalidJson),
        Some(JsonValue::Array(items)) => Ok(items),
        Some(_) => Err(DecodeError::NotAnArray),
    }
}

/// Decodes a response document that should be an array of global station
/// ids (strings of the form `<country>:<region>:<id>`).
pub fn decode_global_ids(doc: &Option<JsonValue>) -> (r: Result<Vec<String>, DecodeError>)
    ensures
        shape_error(*doc, true) is Some ==> r == Err::<Vec<String>, DecodeError>(
            shape_error(*doc, true)->0,
        ),
        shape_error(*doc, true) is None ==> r is Ok && r->Ok_0@.map_values(|s: String| s@)
            == doc->0->Array_0@.map_values(|j: JsonValue| j->Str_0@),
{
    let items = match array_items(doc) {
        Ok(items) => items,
        Err(e) => return Err(e),
    };
    let mut out: Vec<String> = Vec::new();
    let mut i: usize = 0;
    while i < items.len()
        invariant
            i <= items@.len(),
            *doc == Some(JsonValue::Array(*items)),
            all_texts(items@.subrange(0, i as int)),
            out@.len() == i,
            forall|k: int| 0 <= k < i ==> (#[trigger] out@[k])@ == items@[k]->Str_0@,
        decreases items@.len() - i,
    {
        match &items[i] {
            JsonValue::Str(s) => out.push(s.clone()),
            _ => {
                assert(!(items@[i as int] is Str));
                return Err(DecodeError::UnexpectedItem);
            },
        }
        assert(all_texts(items@.subrange(0, i + 1))) by {
            assert forall|k: int| 0 <= k < i + 1 implies (#[trigger] items@.subrange(0, i + 1)[k]) is Str by {
                if k < i {
                    assert(items@.subrange(0, i as int)[k] == items@[k]);
                }
            }
        }
        i += 1;
    }
    assert(items@.subrange(0, i as int) =~= items@);
    assert(out@.map_values(|s: String| s@) =~= items@.map_values(|j: JsonValue| j->Str_0@));
    Ok(out)
}

} // verus!
