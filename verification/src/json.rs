//! The JSON shapes the view-model code reads: a parsed JSON value with its
//! object fields in order, and first-match field lookup.
use vstd::prelude::*;

use crate::text::{decimal, decimal_string, same_text};

verus! {

/// A parsed JSON value. A number carries its value when it is a
/// non-negative integer that fits in 64 bits (what `Value::as_u64` reads),
/// and nothing otherwise.
#[derive(Debug)]
pub enum Json {
    Null,
    Bool(bool),
    Number(Option<u64>),
    Text(String),
    Array(Vec<Json>),
    Object(Vec<(String, Json)>),
}

/// The first field of `fields` named `key`, as `Map::get` finds it in an
/// object (whose keys are distinct).
pub open spec fn field_get(fields: Seq<(String, Json)>, key: Seq<char>) -> Option<Json>
    decreases fields.len(),
{
    if fields.len() == 0 {
        None
    } else if fields[0].0@ == key {
        Some(fields[0].1)
    } else {
        field_get(fields.drop_first(), key)
    }
}

/// `Value::get(key)`: a field of an object, `None` for anything else.
pub open spec fn json_get(v: Json, key: Seq<char>) -> Option<Json> {
    match v {
        Json::Object(fields) => field_get(fields@, key),
        _ => None,
    }
}

/// `Value::as_str`.
pub open spec fn json_text(v: Json) -> Option<Seq<char>> {
    match v {
        Json::Text(s) => Some(s@),
        _ => None,
    }
}

/// `Option<&Value>::and_then(Value::as_str)`.
pub open spec fn opt_text(v: Option<Json>) -> Option<Seq<char>> {
    match v {
        Some(j) => json_text(j),
        None => None,
    }
}

/// Index of the first field named `key`.
pub fn find_field(fields: &Vec<(String, Json)>, key: &str) -> (r: Option<usize>)
    ensures
        match r {
            Some(i) => i < fields@.len() && field_get(fields@, key@) == Some(fields@[i as int].1),
            None => field_get(fields@, key@) is None,
        },
{
    let mut i: usize = 0;
    assert(fields@.subrange(0, fields@.len() as int) =~= fields@);
    while i < fields.len()
        invariant
            i <= fields@.len(),
            field_get(fields@, key@) == field_get(fields@.subrange(i as int, fields@.len() as int), key@),
        decreases fields.len() - i,
    {
        let ghost rest = fields@.subrange(i as int, fields@.len() as int);
        assert(rest[0] == fields@[i as int]);
        assert(rest.drop_first() =~= fields@.subrange(i + 1, fields@.len() as int));
        if same_text(fields[i].0.as_str(), key) {
            return Some(i);
        }
        i = i + 1;
    }
    None
}

/// `fields.get(key).and_then(Value::as_str)`, owned.
pub fn field_text(fields: &Vec<(String, Json)>, key: &str) -> (r: Option<String>)
    ensures
        match r {
            Some(s) => opt_text(field_get(fields@, key@)) == Some(s@),
            None => opt_text(field_get(fields@, key@)) is None,
        },
{
    match find_field(fields, key) {
        Some(i) => match &fields[i].1 {
            Json::Text(s) => Some(s.clone()),
            _ => None,
        },
        None => None,
    }
}

/// A JSON id as a number: `as_u64`, or a string that parses as `u64`.
pub open spec fn id_number(v: Json) -> Option<u64> {
    match v {
        Json::Number(n) => n,
        Json::Text(s) => crate::text::parse_unsigned_spec(s@, u64::MAX as nat),
        _ => None,
    }
}

/// A JSON id as text: `as_str`, or a number written in decimal.
pub open spec fn id_text(v: Json) -> Option<Seq<char>> {
    match v {
        Json::Text(s) => Some(s@),
        Json::Number(Some(n)) => Some(decimal(n as nat)),
        _ => None,
    }
}

pub fn json_id_number(v: &Json) -> (r: Option<u64>)
    ensures
        r == id_number(*v),
{
    match v {
        Json::Number(n) => *n,
        Json::Text(s) => crate::text::parse_u64(s.as_str()),
        _ => None,
    }
}

pub fn json_id_text(v: &Json) -> (r: Option<String>)
    ensures
        match r {
            Some(s) => id_text(*v) == Some(s@),
            None => id_text(*v) is None,
        },
{
    match v {
        Json::Text(s) => Some(s.clone()),
        Json::Number(Some(n)) => Some(decimal_string(*n)),
        _ => None,
    }
}

} // verus!
