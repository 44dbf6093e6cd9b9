//! JSON documents: the library's own value type, parsed by `serde_json`, and
//! the verified lookups the library makes in them.

use vstd::prelude::*;

verus! {

/// `serde_json::Value`, carried only from the parser to its conversion.
#[verifier::external_type_specification]
#[verifier::external_body]
pub struct ExJsonValue(serde_json::Value);

/// A JSON value. Numbers are held as their text; an object holds its
/// entries in the parser's order, each key once.
#[derive(Debug)]
pub enum JsonValue {
    Null,
    Bool(bool),
    Number(String),
    Str(String),
    Array(Vec<JsonValue>),
    Object(Vec<(String, JsonValue)>),
}

/// The document `serde_json` reads from the bytes (`serde_json::from_slice`
/// into a `serde_json::Value`), in the library's type; `None` when the bytes
/// are not one JSON value.
pub uninterp spec fn json_document_of(bytes: Seq<u8>) -> Option<JsonValue>;

/// Converts serde_json's value into the library's own, variant for variant:
/// numbers by their text, arrays and objects element by element in
/// serde_json's order. Only `json_parse` calls it.
#[verifier::external_body]
fn json_value_from(v: serde_json::Value) -> JsonValue {
    match v {
        serde_json::Value::Null => JsonValue::Null,
        serde_json::Value::Bool(b) => JsonValue::Bool(b),
        serde_json::Value::Number(n) => JsonValue::Number(n.to_string()),
        serde_json::Value::String(s) => JsonValue::Str(s),
        serde_json::Value::Array(a) => JsonValue::Array(a.into_iter().map(json_value_from).collect()),
        serde_json::Value::Object(o) => JsonValue::Object(
            o.into_iter().map(|(k, x)| (k, json_value_from(x))).collect(),
        ),
    }
}

/// `serde_json::from_slice::<serde_json::Value>`, converted to the
/// library's type. The contract claims only that the result is
/// serde_json's, as named by `json_document_of`.
#[verifier::external_body]
pub(crate) fn json_parse(bytes: &[u8]) -> (r: Option<JsonValue>)
    ensures
        r == json_document_of(bytes@),
{
    serde_json::from_slice::<serde_json::Value>(bytes).ok().map(json_value_from)
}

/// The value under `key` among an object's entries: that of the first
/// entry with the key.
pub open spec fn entry_value(entries: Seq<(String, JsonValue)>, key: Seq<char>) -> Option<
    JsonValue,
>
    decreases entries.len(),
{
    if entries.len() == 0 {
        None
    } else if entries[0].0@ == key {
        Some(entries[0].1)
    } else {
        entry_value(entries.drop_first(), key)
    }
}

/// The value under `key` of an object; `None` for anything else.
pub open spec fn value_at_key(v: Option<JsonValue>, key: Seq<char>) -> Option<JsonValue> {
    match v {
        Some(JsonValue::Object(entries)) => entry_value(entries@, key),
        _ => None,
    }
}

/// The element at `i` of an array; `None` for anything else.
pub open spec fn value_at_index(v: Option<JsonValue>, i: int) -> Option<JsonValue> {
    match v {
        Some(JsonValue::Array(items)) => if 0 <= i < items@.len() {
            Some(items@[i])
        } else {
            None
        },
        _ => None,
    }
}

/// The text of a string value; `None` for anything else.
pub open spec fn text_of(v: Option<JsonValue>) -> Option<Seq<char>> {
    match v {
        Some(JsonValue::Str(s)) => Some(s@),
        _ => None,
    }
}

/// An optional reference taken as an optional value.
pub open spec fn deref_opt(r: Option<&JsonValue>) -> Option<JsonValue> {
    match r {
        Some(x) => Some(*x),
        None => None,
    }
}

/// An optional string, taken by its text.
pub open spec fn opt_text(r: Option<String>) -> Option<Seq<char>> {
    match r {
        Some(s) => Some(s@),
        None => None,
    }
}

/// Whether the bytes are one JSON value.
pub open spec fn json_parses(bytes: Seq<u8>) -> bool {
    json_document_of(bytes) is Some
}

/// The string under `key` in the top-level object of the bytes; `None` when
/// they are not JSON, not an object, lack the key, or hold something other
/// than a string there.
pub open spec fn json_str_field_of(bytes: Seq<u8>, key: Seq<char>) -> Option<Seq<char>> {
    text_of(value_at_key(json_document_of(bytes), key))
}

/// The value under `key`, when `v` is an object that has the key.
pub fn get<'a>(v: Option<&'a JsonValue>, key: &str) -> (r: Option<&'a JsonValue>)
    ensures
        deref_opt(r) == value_at_key(deref_opt(v), key@),
{
    match v {
        Some(JsonValue::Object(entries)) => {
            let mut i: usize = 0;
            assert(entries@.skip(0) =~= entries@);
            while i < entries.len()
                invariant
                    i <= entries@.len(),
                    value_at_key(deref_opt(v), key@) == entry_value(entries@, key@),
                    entry_value(entries@, key@) == entry_value(entries@.skip(i as int), key@),
                decreases entries@.len() - i,
            {
                assert(entries@.skip(i as int).drop_first() =~= entries@.skip(i + 1));
                assert(entries@.skip(i as int)[0] == entries@[i as int]);
                if crate::text::str_eq(entries[i].0.as_str(), key) {
                    return Some(&entries[i].1);
                }
                i = i + 1;
            }
            None
        },
        _ => None,
    }
}

/// The element at `i`, when `v` is an array that long.
pub fn at<'a>(v: Option<&'a JsonValue>, i: usize) -> (r: Option<&'a JsonValue>)
    ensures
        deref_opt(r) == value_at_index(deref_opt(v), i as int),
{
    match v {
        Some(JsonValue::Array(items)) => if i < items.len() {
            Some(&items[i])
        } else {
            None
        },
        _ => None,
    }
}

/// The text, when `v` is a string.
pub fn text<'a>(v: Option<&'a JsonValue>) -> (r: Option<&'a str>)
    ensures
        match r {
            Some(s) => text_of(deref_opt(v)) == Some(s@),
            None => text_of(deref_opt(v)) is None,
        },
{
    match v {
        Some(JsonValue::Str(s)) => Some(s.as_str()),
        _ => None,
    }
}

/// Whether the bytes are one JSON value.
pub fn json_valid(bytes: &[u8]) -> (r: bool)
    ensures
        r == json_parses(bytes@),
{
    json_parse(bytes).is_some()
}

/// The string under `key` in the top-level object of the bytes.
pub fn json_str_field(bytes: &[u8], key: &str) -> (r: Option<String>)
    ensures
        opt_text(r) == json_str_field_of(bytes@, key@),
{
    let doc = json_parse(bytes);
    match text(get(doc.as_ref(), key)) {
        Some(s) => Some(crate::text::to_owned(s)),
        None => None,
    }
}

} // verus!
