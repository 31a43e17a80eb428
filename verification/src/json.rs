//! The one JSON question the listener asks of a request body: which string,
//! if any, a document holds under a given top-level key. The answer is
//! computed by serde_json and taken on trust under a name.

use vstd::prelude::*;

verus! {

/// The string held under `key` at the top level of the JSON document `doc`,
/// when `doc` parses as JSON and holds a string there; absence otherwise.
pub uninterp spec fn json_str_field(doc: Seq<char>, key: Seq<char>) -> Option<Seq<char>>;

/// Relies on serde_json::from_str, serde_json::Value::get and
/// serde_json::Value::as_str: which string a JSON document holds under a
/// top-level key is a function of the document and the key alone.
#[verifier::external_body]
pub(crate) fn json_string_field(doc: &str, key: &str) -> (r: Option<String>)
    ensures
        match r {
            Some(s) => json_str_field(doc@, key@) == Some(s@),
            None => json_str_field(doc@, key@) is None,
        },
{
    match serde_json::from_str::<serde_json::Value>(doc) {
        Ok(value) => match value.get(key) {
            Some(field) => field.as_str().map(|s| s.to_string()),
            None => None,
        },
        Err(_) => None,
    }
}

} // verus!
