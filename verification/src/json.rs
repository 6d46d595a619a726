//! A JSON document held as plain data, safe field access over it, and the
//! trusted bridge to the JSON parser.

use vstd::prelude::*;

use crate::strutil::str_eq;

verus! {

/// A JSON document as plain data.  Numbers are carried as their decimal
/// text, so the tree holds nothing but booleans, strings and nesting.
pub enum JsonValue {
    Null,
    Bool(bool),
    Number(String),
    Str(String),
    Array(Vec<JsonValue>),
    Object(Vec<(String, JsonValue)>),
}

/// The first value bound to `key` in an object's field list.
pub open spec fn spec_lookup(fields: Seq<(String, JsonValue)>, key: Seq<char>) -> Option<
    JsonValue,
>
    decreases fields.len(),
{
    if fields.len() == 0 {
        None
    } else if fields[0].0@ == key {
        Some(fields[0].1)
    } else {
        spec_lookup(fields.drop_first(), key)
    }
}

/// The value of field `key`, when `j` is an object that binds it.
pub open spec fn spec_member(j: JsonValue, key: Seq<char>) -> Option<JsonValue> {
    match j {
        JsonValue::Object(fields) => spec_lookup(fields@, key),
        _ => None,
    }
}

/// The element at index `i`, when `j` is an array that long.
pub open spec fn spec_element(j: JsonValue, i: int) -> Option<JsonValue> {
    match j {
        JsonValue::Array(items) => if 0 <= i < items@.len() {
            Some(items@[i])
        } else {
            None
        },
        _ => None,
    }
}

/// The character sequence of `j`, when `j` is a string.
pub open spec fn spec_as_str(j: JsonValue) -> Option<Seq<char>> {
    match j {
        JsonValue::Str(s) => Some(s@),
        _ => None,
    }
}

/// The string value of field `key`, when present and a string.
pub open spec fn spec_str_field(j: JsonValue, key: Seq<char>) -> Option<Seq<char>> {
    match spec_member(j, key) {
        Some(v) => spec_as_str(v),
        None => None,
    }
}

/// The keys of an object, in order.
pub open spec fn spec_obj_keys(j: JsonValue) -> Option<Seq<Seq<char>>> {
    match j {
        JsonValue::Object(fields) => Some(
            fields@.map_values(|f: (String, JsonValue)| f.0@),
        ),
        _ => None,
    }
}

proof fn lemma_lookup_skip(fields: Seq<(String, JsonValue)>, key: Seq<char>, i: int)
    requires
        0 <= i <= fields.len(),
        forall|j: int| 0 <= j < i ==> fields[j].0@ != key,
    ensures
        spec_lookup(fields, key) == spec_lookup(fields.skip(i), key),
    decreases i,
{
    if i > 0 {
        assert(forall|j: int|
            0 <= j < i - 1 ==> fields.drop_first()[j].0@ == fields[j + 1].0@);
        lemma_lookup_skip(fields.drop_first(), key, i - 1);
        assert(fields.drop_first().skip(i - 1) =~= fields.skip(i));
    } else {
        assert(fields.skip(0) =~= fields);
    }
}

/// Finds the first value bound to `key` in an object's field list.
pub fn lookup<'a>(fields: &'a Vec<(String, JsonValue)>, key: &str) -> (r: Option<&'a JsonValue>)
    ensures
        match spec_lookup(fields@, key@) {
            Some(v) => r matches Some(p) && *p == v,
            None => r is None,
        },
{
    let mut i: usize = 0;
    while i < fields.len()
        invariant
            i <= fields@.len(),
            forall|j: int| 0 <= j < i ==> fields@[j].0@ != key@,
        decreases fields@.len() - i,
    {
        if str_eq(fields[i].0.as_str(), key) {
            proof {
                lemma_lookup_skip(fields@, key@, i as int);
                assert(fields@.skip(i as int)[0] == fields@[i as int]);
            }
            return Some(&fields[i].1);
        }
        i = i + 1;
    }
    proof {
        lemma_lookup_skip(fields@, key@, fields@.len() as int);
    }
    None
}

#[verifier::external_type_specification]
#[verifier::external_body]
pub struct ExValue(serde_json::Value);

/// What the JSON parser returns for a given text: the document as a
/// `JsonValue` tree, or the parser's diagnostic message.  The outcome is a
/// function of the text alone.
pub uninterp spec fn json_doc(s: Seq<char>) -> Result<JsonValue, Seq<char>>;

/// Relies on serde_json::Value's public variants: mirrors the parsed tree
/// node for node, numbers rendered as their decimal text.
#[verifier::external_body]
fn from_value(v: &serde_json::Value) -> JsonValue {
    match v {
        serde_json::Value::Null => JsonValue::Null,
        serde_json::Value::Bool(b) => JsonValue::Bool(*b),
        serde_json::Value::Number(n) => JsonValue::Number(n.to_string()),
        serde_json::Value::String(s) => JsonValue::Str(s.clone()),
        serde_json::Value::Array(a) => JsonValue::Array(a.iter().map(from_value).collect()),
        serde_json::Value::Object(m) => JsonValue::Object(
            m.iter().map(|(k, x)| (k.clone(), from_value(x))).collect(),
        ),
    }
}

/// Relies on serde_json::from_str: parses the text as one JSON document;
/// the outcome, named `json_doc`, depends on the text alone.
#[verifier::external_body]
pub(crate) fn parse_json(s: &str) -> (r: Result<JsonValue, String>)
    ensures
        match r {
            Ok(j) => json_doc(s@) == Ok::<JsonValue, Seq<char>>(j),
            Err(e) => json_doc(s@) == Err::<JsonValue, Seq<char>>(e@),
        },
{
    match serde_json::from_str::<serde_json::Value>(s) {
        Ok(v) => Ok(from_value(&v)),
        Err(e) => Err(e.to_string()),
    }
}

} // verus!
