//! A parsed JSON document, and the per-field reading and writing of object
//! members. A member that is missing, null or of another type reads as
//! absent; reading a member never fails.
use crate::number::{integer_text, integer_to_text, integer_value, parse_integer};
use vstd::prelude::*;

verus! {

/// A JSON value. A number keeps its literal text, so that nothing is lost
/// between the document and the records.
#[derive(Debug, PartialEq)]
pub enum JsonValue {
    Null,
    Bool(bool),
    Number(String),
    Str(String),
    Array(Vec<JsonValue>),
    Object(Vec<(String, JsonValue)>),
}

/// The members of an object, in document order.
pub type Members = Vec<(String, JsonValue)>;

/// The value of the first member named `key`.
pub open spec fn member(fields: Seq<(String, JsonValue)>, key: Seq<char>) -> Option<JsonValue>
    decreases fields.len(),
{
    if fields.len() == 0 {
        None
    } else if fields[0].0@ == key {
        Some(fields[0].1)
    } else {
        member(fields.drop_first(), key)
    }
}

pub open spec fn has_member(fields: Seq<(String, JsonValue)>, key: Seq<char>) -> bool {
    exists|i: int| 0 <= i < fields.len() && (#[trigger] fields[i]).0@ == key
}

pub open spec fn text_value(v: Option<JsonValue>) -> Option<Seq<char>> {
    match v {
        Some(JsonValue::Str(s)) => Some(s@),
        _ => None,
    }
}

pub open spec fn bool_value(v: Option<JsonValue>) -> Option<bool> {
    match v {
        Some(JsonValue::Bool(b)) => Some(b),
        _ => None,
    }
}

/// The literal text of a number.
pub open spec fn number_value(v: Option<JsonValue>) -> Option<Seq<char>> {
    match v {
        Some(JsonValue::Number(t)) => Some(t@),
        _ => None,
    }
}

/// An integer number; a fraction or an exponent is not one.
pub open spec fn integer_member(v: Option<JsonValue>) -> Option<int> {
    match v {
        Some(JsonValue::Number(t)) => integer_value(t@),
        _ => None,
    }
}

/// `v` when it lies in `lo..=hi`.
pub open spec fn within(v: Option<int>, lo: int, hi: int) -> Option<int> {
    match v {
        Some(x) => if lo <= x <= hi {
            Some(x)
        } else {
            None
        },
        None => None,
    }
}

pub open spec fn all_texts(items: Seq<JsonValue>) -> bool {
    forall|i: int| 0 <= i < items.len() ==> (#[trigger] items[i]) is Str
}

/// An array whose items are all strings.
pub open spec fn texts_value(v: Option<JsonValue>) -> Option<Seq<Seq<char>>> {
    match v {
        Some(JsonValue::Array(items)) => if all_texts(items@) {
            Some(items@.map_values(|j: JsonValue| j->Str_0@))
        } else {
            None
        },
        _ => None,
    }
}

pub open spec fn text_view(o: Option<String>) -> Option<Seq<char>> {
    match o {
        Some(s) => Some(s@),
        None => None,
    }
}

pub open spec fn texts_view(o: Option<Vec<String>>) -> Option<Seq<Seq<char>>> {
    match o {
        Some(v) => Some(v@.map_values(|s: String| s@)),
        None => None,
    }
}

pub open spec fn u32_view(o: Option<u32>) -> Option<int> {
    match o {
        Some(x) => Some(x as int),
        None => None,
    }
}

pub open spec fn i32_view(o: Option<i32>) -> Option<int> {
    match o {
        Some(x) => Some(x as int),
        None => None,
    }
}

pub open spec fn i64_view(o: Option<i64>) -> Option<int> {
    match o {
        Some(x) => Some(x as int),
        None => None,
    }
}

/// Where a missing member is read, every reading of it is absent.
pub proof fn lemma_missing_member(fields: Seq<(String, JsonValue)>, key: Seq<char>)
    requires
        !has_member(fields, key),
    ensures
        member(fields, key) is None,
    decreases fields.len(),
{
    if fields.len() > 0 {
        assert(fields[0].0@ != key);
        assert forall|i: int| 0 <= i < fields.len() - 1 implies (#[trigger] fields.drop_first()[
            i
        ]).0@ != key by {
            assert(fields.drop_first()[i] == fields[i + 1]);
        }
        lemma_missing_member(fields.drop_first(), key);
    }
}

/// The position of the first member named `key`.
pub fn find_member(fields: &Members, key: &str) -> (r: Option<usize>)
    ensures
        r is None ==> member(fields@, key@) is None,
        r is Some ==> r->0 < fields@.len() && member(fields@, key@) == Some(fields@[r->0 as int].1),
{
    let k = String::from_str(key);
    let mut i: usize = 0;
    assert(fields@.subrange(0, fields@.len() as int) =~= fields@);
    while i < fields.len()
        invariant
            i <= fields@.len(),
            k@ == key@,
            member(fields@, key@) == member(fields@.subrange(i as int, fields@.len() as int), key@),
        decreases fields@.len() - i,
    {
        let ghost rest = fields@.subrange(i as int, fields@.len() as int);
        assert(rest[0] == fields@[i as int]);
        if fields[i].0 == k {
            return Some(i);
        }
        assert(rest.drop_first() =~= fields@.subrange(i + 1, fields@.len() as int));
        i += 1;
    }
    None
}

/// Reads a string member.
pub fn read_text(fields: &Members, key: &str) -> (r: Option<String>)
    ensures
        text_view(r) == text_value(member(fields@, key@)),
{
    match find_member(fields, key) {
        Some(i) => match &fields[i].1 {
            JsonValue::Str(s) => Some(s.clone()),
            _ => None,
        },
        None => None,
    }
}

/// Reads a boolean member.
pub fn read_bool(fields: &Members, key: &str) -> (r: Option<bool>)
    ensures
        r == bool_value(member(fields@, key@)),
{
    match find_member(fields, key) {
        Some(i) => match &fields[i].1 {
            JsonValue::Bool(b) => Some(*b),
            _ => None,
        },
        None => None,
    }
}

/// Reads a number member as its literal text.
pub fn read_number(fields: &Members, key: &str) -> (r: Option<String>)
    ensures
        text_view(r) == number_value(member(fields@, key@)),
{
    match find_member(fields, key) {
        Some(i) => match &fields[i].1 {
            JsonValue::Number(t) => Some(t.clone()),
            _ => None,
        },
        None => None,
    }
}

fn read_integer(fields: &Members, key: &str, lo: i64, hi: i64) -> (r: Option<i64>)
    ensures
        i64_view(r) == within(integer_member(member(fields@, key@)), lo as int, hi as int),
{
    match find_member(fields, key) {
        Some(i) => match &fields[i].1 {
            JsonValue::Number(t) => match parse_integer(t.as_str()) {
                Some(v) => if lo <= v && v <= hi {
                    Some(v)
                } else {
                    None
                },
                None => None,
            },
            _ => None,
        },
        None => None,
    }
}

/// Reads an integer member that fits in a `u32`.
pub fn read_u32(fields: &Members, key: &str) -> (r: Option<u32>)
    ensures
        u32_view(r) == within(integer_member(member(fields@, key@)), 0, u32::MAX as int),
{
    match read_integer(fields, key, 0, u32::MAX as i64) {
        Some(v) => Some(v as u32),
        None => None,
    }
}

/// Reads an integer member that fits in an `i32`.
pub fn read_i32(fields: &Members, key: &str) -> (r: Option<i32>)
    ensures
        i32_view(r) == within(
            integer_member(member(fields@, key@)),
            i32::MIN as int,
            i32::MAX as int,
        ),
{
    match read_integer(fields, key, i32::MIN as i64, i32::MAX as i64) {
        Some(v) => Some(v as i32),
        None => None,
    }
}

/// Reads an integer member that fits in an `i64`.
pub fn read_i64(fields: &Members, key: &str) -> (r: Option<i64>)
    ensures
        i64_view(r) == within(
            integer_member(member(fields@, key@)),
            i64::MIN as int,
            i64::MAX as int,
        ),
{
    read_integer(fields, key, i64::MIN, i64::MAX)
}

/// Reads an array member whose items are all strings.
pub fn read_texts(fields: &Members, key: &str) -> (r: Option<Vec<String>>)
    ensures
        texts_view(r) == texts_value(member(fields@, key@)),
{
    match find_member(fields, key) {
        Some(i) => match &fields[i].1 {
            JsonValue::Array(items) => texts_of(items),
            _ => None,
        },
        None => None,
    }
}

fn texts_of(items: &Vec<JsonValue>) -> (r: Option<Vec<String>>)
    ensures
        r is Some <==> all_texts(items@),
        r is Some ==> texts_view(r) == Some(items@.map_values(|j: JsonValue| j->Str_0@)),
{
    let mut out: Vec<String> = Vec::new();
    let mut j: usize = 0;
    while j < items.len()
        invariant
            j <= items@.len(),
            out@.len() == j,
            all_texts(items@.subrange(0, j as int)),
            forall|k: int| 0 <= k < j ==> (#[trigger] out@[k])@ == items@[k]->Str_0@,
        decreases items@.len() - j,
    {
        match &items[j] {
            JsonValue::Str(s) => {
                out.push(s.clone());
            },
            _ => {
                assert(!(items@[j as int] is Str));
                return None;
            },
        }
        assert(all_texts(items@.subrange(0, j + 1))) by {
            assert forall|k: int| 0 <= k < j + 1 implies (#[trigger] items@.subrange(
                0,
                j + 1,
            )[k]) is Str by {
                if k < j {
                    assert(items@.subrange(0, j as int)[k] == items@[k]);
                }
            }
        }
        j += 1;
    }
    assert(items@.subrange(0, j as int) =~= items@);
    assert(out@.map_values(|s: String| s@) =~= items@.map_values(|x: JsonValue| x->Str_0@));
    Some(out)
}

pub open spec fn encodes_text(j: JsonValue, o: Option<String>) -> bool {
    match o {
        Some(s) => j is Str && j->Str_0@ == s@,
        None => j is Null,
    }
}

pub open spec fn encodes_number(j: JsonValue, o: Option<String>) -> bool {
    match o {
        Some(s) => j is Number && j->Number_0@ == s@,
        None => j is Null,
    }
}

pub open spec fn encodes_bool(j: JsonValue, o: Option<bool>) -> bool {
    match o {
        Some(b) => j == JsonValue::Bool(b),
        None => j is Null,
    }
}

pub open spec fn encodes_integer(j: JsonValue, v: Option<int>) -> bool {
    match v {
        Some(x) => j is Number && j->Number_0@ == integer_text(x),
        None => j is Null,
    }
}

pub open spec fn encodes_texts(j: JsonValue, o: Option<Vec<String>>) -> bool {
    match o {
        Some(v) => j is Array && all_texts(j->Array_0@) && j->Array_0@.map_values(
            |x: JsonValue| x->Str_0@,
        ) == v@.map_values(|s: String| s@),
        None => j is Null,
    }
}

/// A written integer reads back as itself.
pub proof fn lemma_integer_back(j: JsonValue, v: Option<int>, lo: int, hi: int)
    requires
        encodes_integer(j, v),
        v is Some ==> lo <= v->0 <= hi,
    ensures
        within(integer_member(Some(j)), lo, hi) == v,
{
    if v is Some {
        crate::number::lemma_integer_text_round_trip(v->0);
    }
}

pub fn text_json(o: &Option<String>) -> (r: JsonValue)
    ensures
        encodes_text(r, *o),
{
    match o {
        Some(s) => JsonValue::Str(s.clone()),
        None => JsonValue::Null,
    }
}

pub fn number_json(o: &Option<String>) -> (r: JsonValue)
    ensures
        encodes_number(r, *o),
{
    match o {
        Some(s) => JsonValue::Number(s.clone()),
        None => JsonValue::Null,
    }
}

pub fn bool_json(o: Option<bool>) -> (r: JsonValue)
    ensures
        encodes_bool(r, o),
{
    match o {
        Some(b) => JsonValue::Bool(b),
        None => JsonValue::Null,
    }
}

pub fn i64_json(o: Option<i64>) -> (r: JsonValue)
    ensures
        encodes_integer(r, i64_view(o)),
{
    match o {
        Some(x) => JsonValue::Number(integer_to_text(x)),
        None => JsonValue::Null,
    }
}

pub fn i32_json(o: Option<i32>) -> (r: JsonValue)
    ensures
        encodes_integer(r, i32_view(o)),
{
    match o {
        Some(x) => JsonValue::Number(integer_to_text(x as i64)),
        None => JsonValue::Null,
    }
}

pub fn u32_json(o: Option<u32>) -> (r: JsonValue)
    ensures
        encodes_integer(r, u32_view(o)),
{
    match o {
        Some(x) => JsonValue::Number(integer_to_text(x as i64)),
        None => JsonValue::Null,
    }
}

pub fn texts_json(o: &Option<Vec<String>>) -> (r: JsonValue)
    ensures
        encodes_texts(r, *o),
{
    match o {
        Some(v) => {
            let mut items: Vec<JsonValue> = Vec::new();
            let mut i: usize = 0;
            while i < v.len()
                invariant
                    i <= v@.len(),
                    items@.len() == i,
                    forall|k: int|
                        0 <= k < i ==> (#[trigger] items@[k]) is Str && items@[k]->Str_0@
                            == v@[k]@,
                decreases v@.len() - i,
            {
                items.push(JsonValue::Str(v[i].clone()));
                i += 1;
            }
            assert(items@.map_values(|x: JsonValue| x->Str_0@) =~= v@.map_values(
                |s: String| s@,
            ));
            JsonValue::Array(items)
        },
        None => JsonValue::Null,
    }
}

} // verus!
