use vstd::prelude::*;

verus! {

#[verifier::external_type_specification]
#[verifier::external_body]
pub struct ExValue(serde_json::Value);

/// The result of `serde_json::from_str` on a text: a function of the text
/// alone; `Some` exactly for a valid JSON document.
pub uninterp spec fn json_parsed(s: Seq<char>) -> Option<serde_json::Value>;

/// The result of `serde_json::Value::get` with a string key: the member of an
/// object under that key, `None` for a missing member or for a value that is
/// no object; a function of value and key alone.
pub uninterp spec fn json_member_of(v: serde_json::Value, key: Seq<char>) -> Option<
    serde_json::Value,
>;

/// The result of `serde_json::Value::as_u64`: the value of an integer number
/// that fits in a `u64`, `None` for anything else; a function of the value
/// alone.
pub uninterp spec fn json_u64_of(v: serde_json::Value) -> Option<u64>;

/// The result of `serde_json::Value::as_array`: the elements of an array
/// value in order, `None` for a value that is no array; a function of the
/// value alone.
pub uninterp spec fn json_array_of(v: serde_json::Value) -> Option<Seq<serde_json::Value>>;

/// Relies on `serde_json::from_str`: `Some` exactly when the text is a valid
/// JSON document, and then the parsed value.
#[verifier::external_body]
pub(crate) fn parse_json(s: &str) -> (r: Option<serde_json::Value>)
    ensures
        r == json_parsed(s@),
{
    serde_json::from_str::<serde_json::Value>(s).ok()
}

/// Relies on `serde_json::Value::get`: the member of an object under `key`,
/// `None` for a missing member or for a value that is no object.
#[verifier::external_body]
pub(crate) fn json_get<'a>(v: &'a serde_json::Value, key: &str) -> (r: Option<
    &'a serde_json::Value,
>)
    ensures
        r is Some == json_member_of(*v, key@) is Some,
        r matches Some(m) ==> json_member_of(*v, key@) == Some(*m),
{
    v.get(key)
}

/// Relies on `serde_json::Value::as_u64`: the value of an integer number that
/// fits in a `u64`, `None` for anything else.
#[verifier::external_body]
pub(crate) fn json_as_u64(v: &serde_json::Value) -> (r: Option<u64>)
    ensures
        r == json_u64_of(*v),
{
    v.as_u64()
}

/// Relies on `serde_json::Value::as_array`: the elements of an array value in
/// order, `None` for a value that is no array.
#[verifier::external_body]
pub(crate) fn json_as_array(v: &serde_json::Value) -> (r: Option<&Vec<serde_json::Value>>)
    ensures
        r is Some == json_array_of(*v) is Some,
        r matches Some(a) ==> json_array_of(*v) == Some(a@),
{
    v.as_array()
}

/// Relies on `serde_json::Value`'s derived `Clone`, which copies the value
/// structurally: the clone is the same value.
#[verifier::external_body]
pub(crate) fn clone_value(v: &serde_json::Value) -> (r: serde_json::Value)
    ensures
        r == *v,
{
    v.clone()
}

} // verus!
