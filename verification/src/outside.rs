//! The trusted boundary to the outside crates: regular-expression matching
//! and structured-document parsing. Each wrapper's contract names the result
//! of the outside call through an uninterpreted function of the call's
//! arguments, since both calls are deterministic in their inputs.

use vstd::prelude::*;

verus! {

/// One field value of a structured preference or status document, reduced
/// to what the parsers read: null, a boolean, a string, or anything else.
#[derive(Debug, Clone)]
pub enum JsonVal {
    Null,
    Bool(bool),
    Str(String),
    Other,
}

/// Whether the regular expression `pattern` matches somewhere in `text`.
/// The result of `regex::Regex::is_match` is a function of the pattern and
/// the haystack alone; an invalid pattern counts as matching nothing.
pub uninterp spec fn regex_is_match(pattern: Seq<char>, text: Seq<char>) -> bool;

/// Relies on `regex::Regex::new` and `regex::Regex::is_match`: whether
/// `pattern` matches somewhere in `text`, false when `pattern` is not a
/// valid regular expression.
#[verifier::external_body]
pub fn regex_match(pattern: &str, text: &str) -> (r: bool)
    ensures
        r == regex_is_match(pattern@, text@),
{
    match regex::Regex::new(pattern) {
        Ok(re) => re.is_match(text),
        Err(_) => false,
    }
}

/// The top-level fields of `text` read as a structured document: the keys
/// in the order the parser hands them out, each with its reduced value, or
/// nothing when `text` is not such a document. A function of `text` alone.
pub uninterp spec fn prefs_doc_of(text: Seq<char>) -> Option<Vec<(String, JsonVal)>>;

/// Relies on `serde_json::from_str::<serde_json::Map<String, serde_json::Value>>`:
/// parse `text` as a structured document whose top level is an object, and
/// reduce each field to a `JsonVal`, variant for variant.
#[verifier::external_body]
pub fn parse_prefs_doc(text: &str) -> (r: Option<Vec<(String, JsonVal)>>)
    ensures
        r == prefs_doc_of(text@),
{
    match serde_json::from_str::<serde_json::Map<String, serde_json::Value>>(text) {
        Ok(m) => Some(
            m.into_iter().map(|(k, v)| (k, match v {
                serde_json::Value::Null => JsonVal::Null,
                serde_json::Value::Bool(b) => JsonVal::Bool(b),
                serde_json::Value::String(s) => JsonVal::Str(s),
                _ => JsonVal::Other,
            })).collect(),
        ),
        Err(_) => None,
    }
}

/// The DNS name recorded in the nested self record of a structured status
/// document, or nothing when `text` is no such document or lacks the field.
/// A function of `text` alone.
pub uninterp spec fn self_dns_of(text: Seq<char>) -> Option<String>;

/// Relies on `serde_json::from_str::<serde_json::Value>`, `Value::get` and
/// `Value::as_str`: read the "DNSName" string under the top-level "Self"
/// record of the structured status document `text`.
#[verifier::external_body]
pub fn parse_self_dns(text: &str) -> (r: Option<String>)
    ensures
        r == self_dns_of(text@),
{
    match serde_json::from_str::<serde_json::Value>(text) {
        Ok(v) => match v.get("Self").and_then(|s| s.get("DNSName")).and_then(|d| d.as_str()) {
            Some(name) => Some(name.to_string()),
            None => None,
        },
        Err(_) => None,
    }
}

} // verus!
