//! JSON values as serde_json holds them, and what the library reads of them.
use vstd::prelude::*;

verus! {

#[verifier::external_type_specification]
#[verifier::external_body]
pub struct ExValue(serde_json::Value);

/// What `serde_json::from_str::<Value>` yields for a text: `None` when the
/// text is not one JSON document.
pub uninterp spec fn parsed_json(text: Seq<char>) -> Option<serde_json::Value>;

/// What `Value::get` with a string key yields: the member under that key
/// when the value is an object holding it.
pub uninterp spec fn json_member(v: serde_json::Value, key: Seq<char>) -> Option<serde_json::Value>;

/// What `Value::as_u64` yields: the number when the value is an integer that
/// fits in `u64`.
pub uninterp spec fn json_as_u64(v: serde_json::Value) -> Option<u64>;

/// Relies on `serde_json::Value::as_u64`, which depends on the value alone.
pub assume_specification[ serde_json::Value::as_u64 ](v: &serde_json::Value) -> (r: Option<u64>)
    ensures
        r == json_as_u64(*v),
;

/// Relies on `serde_json::from_str` into a `Value`: the outcome depends on
/// the text alone.
#[verifier::external_body]
pub(crate) fn parse_json(text: &str) -> (r: Option<serde_json::Value>)
    ensures
        r == parsed_json(text@),
{
    serde_json::from_str(text).ok()
}

/// Relies on `serde_json::Value::get` with a `&str` index: the member under
/// `key`, depending on the value and the key alone.
#[verifier::external_body]
pub(crate) fn member<'a>(v: &'a serde_json::Value, key: &str) -> (r: Option<&'a serde_json::Value>)
    ensures
        match r {
            Some(m) => json_member(*v, key@) == Some(*m),
            None => json_member(*v, key@) is None,
        },
{
    v.get(key)
}

} // verus!
