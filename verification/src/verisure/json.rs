//! A plain model of the JSON documents that the Verisure API answers with.
use vstd::prelude::*;

use serde_json::Value;

use crate::text::str_equal;

verus! {

/// A JSON value. Numbers keep the text in which they were written.
#[derive(Debug)]
pub enum JsonValue {
    Null,
    Bool(bool),
    Number(String),
    Str(String),
    Array(Vec<JsonValue>),
    Object(Vec<(String, JsonValue)>),
}

/// Index of the first entry whose key is `key`, searching from `from`.
pub open spec fn first_key_from(entries: Seq<(String, JsonValue)>, key: Seq<char>, from: int) -> Option<int>
    decreases entries.len() - from,
{
    if from < 0 || from >= entries.len() {
        None
    } else if entries[from].0@ == key {
        Some(from)
    } else {
        first_key_from(entries, key, from + 1)
    }
}

/// Member `key` of an object: the value of the first entry with that key.
/// Any other kind of value has no members.
pub open spec fn json_get(v: JsonValue, key: Seq<char>) -> Option<JsonValue> {
    match v {
        JsonValue::Object(entries) => match first_key_from(entries@, key, 0) {
            Some(i) => Some(entries@[i].1),
            None => None,
        },
        _ => None,
    }
}

/// `json_get` lifted to an optional value.
pub open spec fn json_get_opt(v: Option<JsonValue>, key: Seq<char>) -> Option<JsonValue> {
    match v {
        Some(x) => json_get(x, key),
        None => None,
    }
}

/// The text of a string value.
pub open spec fn json_str(v: Option<JsonValue>) -> Option<Seq<char>> {
    match v {
        Some(JsonValue::Str(s)) => Some(s@),
        _ => None,
    }
}

proof fn lemma_first_key_from_bounds(entries: Seq<(String, JsonValue)>, key: Seq<char>, from: int)
    requires
        0 <= from,
    ensures
        first_key_from(entries, key, from) matches Some(i) ==> from <= i < entries.len() && entries[i].0@ == key,
        first_key_from(entries, key, from) is None ==> forall|j: int| from <= j < entries.len() ==> entries[j].0@ != key,
    decreases entries.len() - from,
{
    if from < entries.len() && entries[from].0@ != key {
        lemma_first_key_from_bounds(entries, key, from + 1);
    }
}

impl JsonValue {
    /// Member `key` of an object value, as `serde_json::Value::get` with a
    /// string index: `None` for a missing key and for every non-object value.
    pub fn get(&self, key: &str) -> (r: Option<&JsonValue>)
        ensures
            r matches Some(v) ==> json_get(*self, key@) == Some(*v),
            r is None ==> json_get(*self, key@) is None,
    {
        match self {
            JsonValue::Object(entries) => {
                let n = entries.len();
                let mut i: usize = 0;
                while i < n
                    invariant
                        n == entries@.len(),
                        *self == JsonValue::Object(*entries),
                        i <= n,
                        first_key_from(entries@, key@, 0) == first_key_from(entries@, key@, i as int),
                    decreases n - i,
                {
                    if str_equal(entries[i].0.as_str(), key) {
                        assert(first_key_from(entries@, key@, i as int) == Some(i as int));
                        return Some(&entries[i].1);
                    }
                    i = i + 1;
                }
                None
            },
            _ => None,
        }
    }

    /// The text of a string value, as `serde_json::Value::as_str`.
    pub fn as_str(&self) -> (r: Option<&str>)
        ensures
            r matches Some(s) ==> json_str(Some(*self)) == Some(s@),
            r is None ==> json_str(Some(*self)) is None,
    {
        match self {
            JsonValue::Str(s) => Some(s.as_str()),
            _ => None,
        }
    }

    /// Whether the value is `null`.
    pub fn is_null(&self) -> (r: bool)
        ensures
            r == (*self is Null),
    {
        match self {
            JsonValue::Null => true,
            _ => false,
        }
    }
}

#[verifier::external_type_specification]
#[verifier::external_body]
pub struct ExValue(Value);

/// The `serde_json` form of a JSON value, built item by item: numbers are
/// read back from their text (`serde_json::Number`'s `FromStr`), objects
/// become `serde_json::Map`s, in which a later entry with the same key
/// replaces an earlier one. Only `json_pretty` uses it.
#[verifier::external_body]
fn json_value(v: &JsonValue) -> Value {
    match v {
        JsonValue::Null => Value::Null,
        JsonValue::Bool(b) => Value::Bool(*b),
        JsonValue::Number(text) => text.parse::<serde_json::Number>().map(Value::Number).unwrap_or(Value::Null),
        JsonValue::Str(s) => Value::String(s.clone()),
        JsonValue::Array(items) => Value::Array(items.iter().map(json_value).collect()),
        JsonValue::Object(entries) => Value::Object(entries.iter().map(|(k, x)| (k.clone(), json_value(x))).collect()),
    }
}

/// The text that `serde_json::to_string_pretty` writes for a value: two
/// spaces of indentation per level, one member or element per line.
pub uninterp spec fn pretty_json(v: JsonValue) -> Seq<char>;

/// `serde_json::to_string_pretty` of the value's `serde_json` form. Writing
/// a `serde_json::Value` into a `String` does not fail; were it to, the
/// text would be empty. The contract names the result as a function of the
/// value alone.
#[verifier::external_body]
fn json_pretty(v: &JsonValue) -> (r: String)
    ensures
        r@ == pretty_json(*v),
{
    serde_json::to_string_pretty(&json_value(v)).unwrap_or_default()
}

/// The answer to an introspection query, as it is printed: the whole JSON
/// answer, pretty-printed.
pub fn introspection_answer(answer: &JsonValue) -> (r: String)
    ensures
        r@ == pretty_json(*answer),
{
    json_pretty(answer)
}

} // verus!
