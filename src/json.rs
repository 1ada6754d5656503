use serde_json::Value;
use vstd::prelude::*;

verus! {

/// A JSON value, carried through as the host hands it over.
#[verifier::external_type_specification]
#[verifier::external_body]
pub struct ExValue(serde_json::Value);

/// What `Value::get` gives for a string key: the member of an object under
/// that key, absent when `v` is not an object or has no such member.
pub uninterp spec fn json_member(v: Value, key: Seq<char>) -> Option<Value>;

/// What `Value::as_str` gives: the text of a JSON string, absent for any
/// other kind of value.
pub uninterp spec fn json_text(v: Value) -> Option<Seq<char>>;

/// Relies on serde_json::Value::get with a string key, to look up an object
/// member.
#[verifier::external_body]
pub(crate) fn member<'a>(v: &'a Value, key: &str) -> (r: Option<&'a Value>)
    ensures
        match r {
            Some(m) => json_member(*v, key@) == Some(*m),
            None => json_member(*v, key@) is None,
        },
{
    v.get(key)
}

/// Relies on serde_json::Value::as_str, to read the text of a JSON string.
#[verifier::external_body]
pub(crate) fn text(v: &Value) -> (r: Option<String>)
    ensures
        match r {
            Some(s) => json_text(*v) == Some(s@),
            None => json_text(*v) is None,
        },
{
    v.as_str().map(String::from)
}

} // verus!
