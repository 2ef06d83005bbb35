use vstd::prelude::*;

verus! {

/// A JSON document handed through the library without being inspected.
#[verifier::external_type_specification]
#[verifier::external_body]
pub struct ExJsonValue(serde_json::Value);

/// Relies on the derived `Clone` of `serde_json::Value`: a deep copy, equal to the value copied.
pub assume_specification[ <serde_json::Value as Clone>::clone ](v: &serde_json::Value) -> (r:
    serde_json::Value)
    ensures
        r == *v,
;

/// The member `key` of the JSON object `v`, when there is one and it is a string.
pub uninterp spec fn json_str_member(v: serde_json::Value, key: Seq<char>) -> Option<Seq<char>>;

/// The member `key` of the JSON object `v`, when there is one and it is an array.
pub uninterp spec fn json_array_member(v: serde_json::Value, key: Seq<char>) -> Option<
    Seq<serde_json::Value>,
>;

/// `t` is the text `n` names, present exactly when `n` is.
pub open spec fn text_matches(t: Option<String>, n: Option<Seq<char>>) -> bool {
    match t {
        Some(s) => n == Some(s@),
        None => n is None,
    }
}

/// `a` is the array `n` names, present exactly when `n` is.
pub open spec fn values_match(a: Option<Vec<serde_json::Value>>, n: Option<Seq<serde_json::Value>>) -> bool {
    match a {
        Some(list) => n == Some(list@),
        None => n is None,
    }
}

/// Relies on `serde_json::Value::get` and `Value::as_str`: the member `key` of an object,
/// when it is a string; the lookup depends on `v` and `key` alone.
#[verifier::external_body]
pub(crate) fn member_str(v: &serde_json::Value, key: &str) -> (r: Option<String>)
    ensures
        text_matches(r, json_str_member(*v, key@)),
{
    v.get(key).and_then(|m| m.as_str()).map(|s| s.to_string())
}

/// Relies on `serde_json::Value::get` and `Value::as_array`: the member `key` of an object,
/// when it is an array; the lookup depends on `v` and `key` alone.
#[verifier::external_body]
pub(crate) fn member_array(v: &serde_json::Value, key: &str) -> (r: Option<Vec<serde_json::Value>>)
    ensures
        values_match(r, json_array_member(*v, key@)),
{
    v.get(key).and_then(|m| m.as_array()).cloned()
}

} // verus!
