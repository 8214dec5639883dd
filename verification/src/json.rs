//! JSON documents as plain values, as the system tools print them
//! (`system_profiler -json`, `sketchybar --query`), and reading the parts
//! the items use.

use vstd::prelude::*;
use crate::text::str_eq;

verus! {

/// A JSON value. An integer number in the range of `i64` is held as
/// `Some`; any other number (a fraction, or a larger integer) as `None`.
/// The entries of an object keep the document's order, one per key.
#[derive(Debug)]
pub enum JsonValue {
    Null,
    Bool(bool),
    Number(Option<i64>),
    Str(String),
    Array(Vec<JsonValue>),
    Object(Vec<(String, JsonValue)>),
}

/// `serde_json::Value`, declared so that `json_of` can take it.
#[verifier::external_type_specification]
#[verifier::external_body]
pub struct ExJsonDocument(serde_json::Value);

/// The value `serde_json` parses from `bytes`; none where they are not JSON.
pub uninterp spec fn spec_json_parse(bytes: Seq<u8>) -> Option<JsonValue>;

/// Parses JSON with `serde_json::from_slice` into a `serde_json::Value`
/// (with `preserve_order`, objects keep the document's order of keys) and
/// converts it value for value. The claim is that the result is a function
/// of the bytes, named `spec_json_parse`; `None` where serde_json refuses
/// them.
#[verifier::external_body]
pub fn parse_json(bytes: &[u8]) -> (r: Option<JsonValue>)
    ensures
        r == spec_json_parse(bytes@),
{
    serde_json::from_slice::<serde_json::Value>(bytes).ok().map(|v| json_of(&v))
}

/// Converts a `serde_json::Value` to a `JsonValue`, variant for variant; only
/// `parse_json` uses it.
#[verifier::external_body]
fn json_of(v: &serde_json::Value) -> JsonValue {
    match v {
        serde_json::Value::Null => JsonValue::Null,
        serde_json::Value::Bool(b) => JsonValue::Bool(*b),
        serde_json::Value::Number(n) => JsonValue::Number(n.as_i64()),
        serde_json::Value::String(s) => JsonValue::Str(s.clone()),
        serde_json::Value::Array(a) => JsonValue::Array(a.iter().map(json_of).collect()),
        serde_json::Value::Object(m) => JsonValue::Object(
            m.iter().map(|(k, x)| (k.clone(), json_of(x))).collect(),
        ),
    }
}

// ----- looking things up ---------------------------------------------------------

/// The value of the first entry named `key` among `es`.
pub open spec fn spec_entry(es: Seq<(String, JsonValue)>, key: Seq<char>) -> Option<JsonValue>
    decreases es.len(),
{
    if es.len() == 0 {
        None
    } else if es[0].0@ == key {
        Some(es[0].1)
    } else {
        spec_entry(es.subrange(1, es.len() as int), key)
    }
}

/// The value of `key` in an object; none for other values.
pub open spec fn spec_get(v: JsonValue, key: Seq<char>) -> Option<JsonValue> {
    match v {
        JsonValue::Object(es) => spec_entry(es@, key),
        _ => None,
    }
}

/// `spec_get` on an optional value.
pub open spec fn spec_get_opt(v: Option<JsonValue>, key: Seq<char>) -> Option<JsonValue> {
    match v {
        Some(x) => spec_get(x, key),
        None => None,
    }
}

/// The elements of an array; none for other values.
pub open spec fn spec_elems(v: Option<JsonValue>) -> Seq<JsonValue> {
    match v {
        Some(JsonValue::Array(xs)) => xs@,
        _ => seq![],
    }
}

/// The text of a string.
pub open spec fn spec_str(v: Option<JsonValue>) -> Option<String> {
    match v {
        Some(JsonValue::Str(s)) => Some(s),
        _ => None,
    }
}

proof fn lemma_entry_skip(es: Seq<(String, JsonValue)>, i: int, key: Seq<char>)
    requires
        0 <= i < es.len(),
        forall|k: int| 0 <= k < i ==> (#[trigger] es[k]).0@ != key,
    ensures
        spec_entry(es, key) == spec_entry(es.subrange(i, es.len() as int), key),
    decreases i,
{
    if i == 0 {
        assert(es.subrange(0, es.len() as int) =~= es);
    } else {
        assert(es[0].0@ != key);
        let t = es.subrange(1, es.len() as int);
        assert forall|k: int| 0 <= k < i - 1 implies (#[trigger] t[k]).0@ != key by {
            assert(t[k] == es[k + 1]);
        }
        lemma_entry_skip(t, i - 1, key);
        assert(t.subrange(i - 1, t.len() as int) =~= es.subrange(i, es.len() as int));
    }
}

proof fn lemma_entry_none(es: Seq<(String, JsonValue)>, key: Seq<char>)
    requires
        forall|k: int| 0 <= k < es.len() ==> (#[trigger] es[k]).0@ != key,
    ensures
        spec_entry(es, key) is None,
    decreases es.len(),
{
    if es.len() > 0 {
        let t = es.subrange(1, es.len() as int);
        assert forall|k: int| 0 <= k < t.len() implies (#[trigger] t[k]).0@ != key by {
            assert(t[k] == es[k + 1]);
        }
        lemma_entry_none(t, key);
    }
}

/// The value of `key` in `v`, if `v` is an object that has it.
pub fn get<'a>(v: &'a JsonValue, key: &str) -> (r: Option<&'a JsonValue>)
    ensures
        match r {
            Some(x) => spec_get(*v, key@) == Some(*x),
            None => spec_get(*v, key@) is None,
        },
{
    match v {
        JsonValue::Object(es) => {
            let mut i: usize = 0;
            while i < es.len()
                invariant
                    i <= es@.len(),
                    *v == JsonValue::Object(*es),
                    forall|k: int| 0 <= k < i ==> (#[trigger] es@[k]).0@ != key@,
                decreases es@.len() - i,
            {
                if str_eq(es[i].0.as_str(), key) {
                    proof {
                        lemma_entry_skip(es@, i as int, key@);
                        let t = es@.subrange(i as int, es@.len() as int);
                        assert(t[0] == es@[i as int]);
                        assert(es@[i as int].0@ == key@);
                        assert(spec_entry(t, key@) == Some(t[0].1));
                    }
                    return Some(&es[i].1);
                }
                i = i + 1;
            }
            proof {
                lemma_entry_none(es@, key@);
            }
            None
        },
        _ => None,
    }
}

/// The value of `key` in `v`, if there is a `v` and it has the key.
pub fn get_opt<'a>(v: Option<&'a JsonValue>, key: &str) -> (r: Option<&'a JsonValue>)
    ensures
        match r {
            Some(x) => spec_get_opt(
                match v {
                    Some(y) => Some(*y),
                    None => None,
                },
                key@,
            ) == Some(*x),
            None => spec_get_opt(
                match v {
                    Some(y) => Some(*y),
                    None => None,
                },
                key@,
            ) is None,
        },
{
    match v {
        Some(x) => get(x, key),
        None => None,
    }
}

/// The popup's drawing state in the output of `sketchybar --query <item>`.
pub fn popup_drawing(json: &JsonValue) -> (r: Option<String>)
    ensures
        r == spec_str(spec_get_opt(spec_get(*json, "popup"@), "drawing"@)),
{
    match get_opt(get(json, "popup"), "drawing") {
        Some(JsonValue::Str(s)) => Some(s.clone()),
        _ => None,
    }
}

} // verus!
