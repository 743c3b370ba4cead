//! Access to `serde_json::Value` payloads (tool inputs, API bodies).
//!
//! A JSON value is opaque to the proofs. Each `serde_json` operation the
//! library uses is a wrapper whose result is given a name below: the same
//! arguments always give the same result. The library's own parsing and
//! building code is then specified exactly in terms of those names.
use vstd::prelude::*;

verus! {

/// `serde_json::Value`, declared for signatures and fields; opaque.
#[verifier::external_type_specification]
#[verifier::external_body]
pub struct ExJsonValue(serde_json::Value);

/// The member `key` of a JSON object (`None` for a missing member or a
/// value that is not an object).
pub uninterp spec fn member(value: serde_json::Value, key: Seq<char>) -> Option<serde_json::Value>;

/// The text of a JSON string (`None` for any other kind of value).
pub uninterp spec fn string_content(value: serde_json::Value) -> Option<Seq<char>>;

/// The bits of the float value of a JSON number (`None` for any other kind
/// of value).
pub uninterp spec fn number_bits(value: serde_json::Value) -> Option<u64>;

/// A JSON number that is a non-negative integer fitting in `u64`.
pub uninterp spec fn unsigned_value(value: serde_json::Value) -> Option<u64>;

/// The elements of a JSON array (`None` for any other kind of value).
pub uninterp spec fn array_items(value: serde_json::Value) -> Option<Seq<serde_json::Value>>;

/// Compact JSON text of a value.
pub uninterp spec fn compact_text(value: serde_json::Value) -> Seq<char>;

/// A JSON string holding `s`.
pub uninterp spec fn string_value(s: Seq<char>) -> serde_json::Value;

/// A JSON boolean.
pub uninterp spec fn bool_value(b: bool) -> serde_json::Value;

/// A JSON number holding an unsigned integer.
pub uninterp spec fn u64_value(n: u64) -> serde_json::Value;

/// A JSON array of these elements, in order.
pub uninterp spec fn array_of(items: Seq<serde_json::Value>) -> serde_json::Value;

/// A JSON object built from these members, in order.
pub uninterp spec fn object_of(members: Seq<(Seq<char>, serde_json::Value)>) -> serde_json::Value;

/// The document a text parses to (`None` when the text is not JSON).
pub uninterp spec fn parsed_document(text: Seq<char>) -> Option<serde_json::Value>;

/// `serde_json::Value::get` with a string key. Claimed: the result is the
/// member `member` names, `None` exactly when there is none.
#[verifier::external_body]
pub(crate) fn json_get<'a>(value: &'a serde_json::Value, key: &str) -> (r: Option<&'a serde_json::Value>)
    ensures
        match r {
            Some(m) => member(*value, key@) == Some(*m),
            None => member(*value, key@) is None,
        },
{
    value.get(key)
}

/// `serde_json::Value::as_str`, the text copied into a `String`. Claimed:
/// the text is `string_content` of the value, `None` exactly when it has none.
#[verifier::external_body]
pub(crate) fn json_as_str(value: &serde_json::Value) -> (r: Option<String>)
    ensures
        match r {
            Some(s) => string_content(*value) == Some(s@),
            None => string_content(*value) is None,
        },
{
    value.as_str().map(|s| s.to_string())
}

/// `serde_json::Value::as_f64` followed by `to_bits`. Claimed: the result
/// is `number_bits` of the value.
#[verifier::external_body]
pub(crate) fn json_number_bits(value: &serde_json::Value) -> (r: Option<u64>)
    ensures
        r == number_bits(*value),
{
    value.as_f64().map(|v| v.to_bits())
}

/// `serde_json::Value::as_u64`. Claimed: the result is `unsigned_value` of
/// the value.
#[verifier::external_body]
pub(crate) fn json_as_u64(value: &serde_json::Value) -> (r: Option<u64>)
    ensures
        r == unsigned_value(*value),
{
    value.as_u64()
}

/// `serde_json::Value::as_array` followed by `Clone` of the elements.
/// Claimed: the elements are `array_items` of the value, in order.
#[verifier::external_body]
pub(crate) fn json_array_items(value: &serde_json::Value) -> (r: Option<Vec<serde_json::Value>>)
    ensures
        match r {
            Some(items) => array_items(*value) == Some(items@),
            None => array_items(*value) is None,
        },
{
    value.as_array().cloned()
}

/// `serde_json::Value`'s `Display`: compact JSON text. Claimed: the text is
/// `compact_text` of the value.
#[verifier::external_body]
pub(crate) fn json_to_string(value: &serde_json::Value) -> (r: String)
    ensures
        r@ == compact_text(*value),
{
    value.to_string()
}

/// `serde_json::Value::String`. Claimed: the value is `string_value` of the
/// text.
#[verifier::external_body]
pub(crate) fn json_string(s: String) -> (r: serde_json::Value)
    ensures
        r == string_value(s@),
{
    serde_json::Value::String(s)
}

/// `serde_json::Value::Bool`. Claimed: the value is `bool_value` of `b`.
#[verifier::external_body]
pub(crate) fn json_bool(b: bool) -> (r: serde_json::Value)
    ensures
        r == bool_value(b),
{
    serde_json::Value::Bool(b)
}

/// `serde_json::Value::from(u64)`. Claimed: the value is `u64_value` of `n`.
#[verifier::external_body]
pub(crate) fn json_u64(n: u64) -> (r: serde_json::Value)
    ensures
        r == u64_value(n),
{
    serde_json::Value::from(n)
}

/// `serde_json::Value::Array`. Claimed: the value is `array_of` the items.
#[verifier::external_body]
pub(crate) fn json_array(items: Vec<serde_json::Value>) -> (r: serde_json::Value)
    ensures
        r == array_of(items@),
{
    serde_json::Value::Array(items)
}

/// `serde_json::Map`'s `FromIterator`, wrapped as an object value. Claimed:
/// the value is `object_of` the members, in the given order.
#[verifier::external_body]
pub(crate) fn json_object(members: Vec<(String, serde_json::Value)>) -> (r: serde_json::Value)
    ensures
        r == object_of(members@.map_values(|m: (String, serde_json::Value)| (m.0@, m.1))),
{
    serde_json::Value::Object(members.into_iter().collect())
}

/// `serde_json::from_str::<Value>`. Claimed: the result is
/// `parsed_document` of the text (the same text always parses the same).
#[verifier::external_body]
pub(crate) fn json_parse(text: &str) -> (r: Option<serde_json::Value>)
    ensures
        r == parsed_document(text@),
{
    serde_json::from_str::<serde_json::Value>(text).ok()
}

/// `Clone` of a JSON value. Claimed: the copy equals the value.
#[verifier::external_body]
pub(crate) fn json_clone(value: &serde_json::Value) -> (r: serde_json::Value)
    ensures
        r == *value,
{
    value.clone()
}

/// The string member `key` of an object, if present and a string.
pub open spec fn member_str(value: serde_json::Value, key: Seq<char>) -> Option<Seq<char>> {
    match member(value, key) {
        Some(m) => string_content(m),
        None => None,
    }
}

/// A string member or the empty text.
pub open spec fn str_or_empty(value: serde_json::Value, key: Seq<char>) -> Seq<char> {
    match member_str(value, key) {
        Some(s) => s,
        None => seq![],
    }
}

/// The string member `key` of a JSON object, if it is present and a string.
pub fn json_str_field(value: &serde_json::Value, key: &str) -> (r: Option<String>)
    ensures
        match r {
            Some(s) => member_str(*value, key@) == Some(s@),
            None => member_str(*value, key@) is None,
        },
{
    match json_get(value, key) {
        Some(m) => json_as_str(m),
        None => None,
    }
}

/// The object `{"error": message}`.
pub open spec fn error_object(message: Seq<char>) -> serde_json::Value {
    object_of(seq![("error"@, string_value(message))])
}

/// Builds the object `{"error": message}`.
pub fn json_error_object(message: String) -> (r: serde_json::Value)
    ensures
        r == error_object(message@),
{
    let ghost m = message@;
    let mut members: Vec<(String, serde_json::Value)> = Vec::new();
    members.push(("error".to_string(), json_string(message)));
    let r = json_object(members);
    proof {
        reveal_strlit("error");
        assert(members@.map_values(|p: (String, serde_json::Value)| (p.0@, p.1)) =~= seq![
            ("error"@, string_value(m)),
        ]);
    }
    r
}

/// An empty JSON object.
pub fn json_empty_object() -> (r: serde_json::Value)
    ensures
        r == object_of(seq![]),
{
    let members: Vec<(String, serde_json::Value)> = Vec::new();
    let r = json_object(members);
    assert(members@.map_values(|p: (String, serde_json::Value)| (p.0@, p.1)) =~= seq![]);
    r
}

} // verus!
