//! A plain model of a JSON document, with verified field lookup, and the
//! trusted bridge that parses raw bytes into it.
//!
//! The interpreter only ever reads objects and strings; numbers therefore
//! carry no payload in this model (a JSON number may be fractional, which the
//! verified library cannot hold).

use vstd::prelude::*;

verus! {

/// A JSON value as the event interpreter sees it.
#[derive(Debug, PartialEq, Eq)]
pub enum JsonValue {
    Null,
    Bool(bool),
    /// A JSON number; its value is never read by this library.
    Number,
    Str(String),
    Array(Vec<JsonValue>),
    /// An object as a field list; a parsed document has unique keys.
    Obj(Vec<(String, JsonValue)>),
}

/// The value of the first field named `key`, if any.
pub open spec fn spec_lookup(fields: Seq<(String, JsonValue)>, key: Seq<char>) -> Option<JsonValue>
    decreases fields.len(),
{
    if fields.len() == 0 {
        Option::None
    } else if fields[0].0@ == key {
        Option::Some(fields[0].1)
    } else {
        spec_lookup(fields.drop_first(), key)
    }
}

/// The value of field `key` of `v`, when `v` is an object that has it.
pub open spec fn spec_get(v: JsonValue, key: Seq<char>) -> Option<JsonValue> {
    match v {
        JsonValue::Obj(fields) => spec_lookup(fields@, key),
        _ => Option::None,
    }
}

/// The value of field `key` of `v`, when it is present and a string.
pub open spec fn spec_str_field(v: JsonValue, key: Seq<char>) -> Option<String> {
    match spec_get(v, key) {
        Option::Some(JsonValue::Str(s)) => Option::Some(s),
        _ => Option::None,
    }
}

/// Look a field up by name; `None` when `v` is not an object or lacks it.
pub fn get_field<'a>(v: &'a JsonValue, key: &String) -> (r: Option<&'a JsonValue>)
    ensures
        match r {
            Option::Some(f) => spec_get(*v, key@) == Option::Some(*f),
            Option::None => spec_get(*v, key@) is None,
        },
{
    match v {
        JsonValue::Obj(fields) => {
            let n = fields.len();
            let mut i: usize = 0;
            proof {
                assert(fields@.skip(0) =~= fields@);
            }
            while i < n
                invariant
                    n == fields.len(),
                    i <= n,
                    *v == JsonValue::Obj(*fields),
                    spec_lookup(fields@, key@) == spec_lookup(fields@.skip(i as int), key@),
                decreases n - i,
            {
                proof {
                    assert(fields@.skip(i as int)[0] == fields@[i as int]);
                }
                let f = &fields[i];
                if f.0 == *key {
                    return Option::Some(&f.1);
                }
                proof {
                    assert(fields@.skip(i as int).drop_first() =~= fields@.skip(i as int + 1));
                }
                i = i + 1;
            }
            proof {
                assert(fields@.skip(n as int) =~= Seq::<(String, JsonValue)>::empty());
            }
            Option::None
        },
        _ => Option::None,
    }
}

/// Look a string field up by name; `None` when absent or not a string.
pub fn get_string_field<'a>(v: &'a JsonValue, key: &String) -> (r: Option<&'a String>)
    ensures
        match r {
            Option::Some(s) => spec_str_field(*v, key@) == Option::Some(*s),
            Option::None => spec_str_field(*v, key@) is None,
        },
{
    match get_field(v, key) {
        Option::Some(JsonValue::Str(s)) => Option::Some(s),
        _ => Option::None,
    }
}

#[verifier::external_type_specification]
#[verifier::external_body]
pub struct ExValue(serde_json::Value);

/// The JSON document a byte sequence encodes, `None` when it encodes none.
/// Parsing is deterministic in the bytes alone, so the result has a name.
pub uninterp spec fn parsed_json(bytes: Seq<u8>) -> Option<JsonValue>;

/// Relies on serde_json::from_slice: deterministically parses a byte slice
/// as one JSON document, returning an error exactly when the bytes are not
/// valid JSON.
#[verifier::external_body]
pub fn parse_json(bytes: &[u8]) -> (r: Option<JsonValue>)
    ensures
        r == parsed_json(bytes@),
{
    match serde_json::from_slice::<serde_json::Value>(bytes) {
        Ok(v) => Some(json_model(v)),
        Err(_) => None,
    }
}

/// Relies on serde_json::Value being the parsed document: maps each of its
/// variants to the library's model, arm by arm, recursively; only the value
/// of a number is dropped. Called from the body of `parse_json`.
#[verifier::external_body]
fn json_model(v: serde_json::Value) -> JsonValue {
    match v {
        serde_json::Value::Null => JsonValue::Null,
        serde_json::Value::Bool(b) => JsonValue::Bool(b),
        serde_json::Value::Number(_) => JsonValue::Number,
        serde_json::Value::String(s) => JsonValue::Str(s),
        serde_json::Value::Array(a) => JsonValue::Array(a.into_iter().map(json_model).collect()),
        serde_json::Value::Object(m) => JsonValue::Obj(
            m.into_iter().map(|(k, f)| (k, json_model(f))).collect(),
        ),
    }
}

} // verus!
