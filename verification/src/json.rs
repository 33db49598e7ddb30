//! JSON documents as `serde_json` holds them, and the reads the client
//! makes of their members.

use vstd::prelude::*;

verus! {

/// A JSON document, as `serde_json` holds it.
#[verifier::external_type_specification]
#[verifier::external_body]
pub struct ExJsonValue(serde_json::Value);

/// The member `k` of a document (`Value::get`): `None` when the key is
/// missing or the document is not an object.
pub uninterp spec fn json_member(v: serde_json::Value, k: Seq<char>) -> Option<serde_json::Value>;

/// The string that a document is (`Value::as_str`), if it is one.
pub uninterp spec fn json_str(v: serde_json::Value) -> Option<Seq<char>>;

/// A copy of member `k` of `v`, with `Value::get`.  Trusted: the result is
/// the named member.
#[verifier::external_body]
pub fn member(v: &serde_json::Value, k: &str) -> (r: Option<serde_json::Value>)
    ensures
        r == json_member(*v, k@),
{
    v.get(k).cloned()
}

/// The string that `v` is, with `Value::as_str`.  Trusted: the result is
/// the named string.
#[verifier::external_body]
pub fn str_of(v: &serde_json::Value) -> (r: Option<String>)
    ensures
        match r {
            Some(s) => json_str(*v) == Some(s@),
            None => json_str(*v) is None,
        },
{
    v.as_str().map(|s| s.to_string())
}

/// `v` has a member `k`.
pub open spec fn has_member(v: Option<serde_json::Value>, k: Seq<char>) -> bool {
    match v {
        Some(d) => json_member(d, k) is Some,
        None => false,
    }
}

} // verus!
