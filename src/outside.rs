//! Calls into outside crates: identifiers, the clock, JSON and URL encoding.
use vstd::prelude::*;

verus! {

/// Relies on `uuid::Uuid::new_v4` and its `Display`: a random identifier,
/// written in the 36-character hyphenated form.
#[verifier::external_body]
pub(crate) fn fresh_id() -> (r: String)
    ensures
        r@.len() == 36,
{
    uuid::Uuid::new_v4().to_string()
}

/// Relies on `chrono::Utc::now` and `DateTime::to_rfc3339`: the current time
/// as an RFC 3339 string.
#[verifier::external_body]
pub(crate) fn now_rfc3339() -> (r: String) {
    chrono::Utc::now().to_rfc3339()
}

/// Relies on `serde_json::Value::Object` and `Value::String`: a JSON object
/// whose members are the given strings.
#[verifier::external_body]
pub(crate) fn json_string_object(members: Vec<(String, String)>) -> (r: serde_json::Value) {
    serde_json::Value::Object(members.into_iter().map(|(k, v)| (k, serde_json::Value::String(v))).collect())
}

/// What `urlencoding::encode` makes of a string.
pub uninterp spec fn url_encoded(s: Seq<char>) -> Seq<char>;

/// What `str::trim` makes of a string.
pub uninterp spec fn trimmed(s: Seq<char>) -> Seq<char>;

/// Relies on `urlencoding::encode`: the string percent-encoded, a function of the string alone.
#[verifier::external_body]
pub(crate) fn url_encode(s: &str) -> (r: String)
    ensures
        r@ == url_encoded(s@),
{
    urlencoding::encode(s).into_owned()
}

/// Relies on `str::trim`: the string without leading and trailing white space.
#[verifier::external_body]
pub(crate) fn trim_text(s: &str) -> (r: String)
    ensures
        r@ == trimmed(s@),
{
    s.trim().to_string()
}

/// Relies on `str::chars`: the characters of the string, in order.
#[verifier::external_body]
pub(crate) fn chars_of(s: &str) -> (r: Vec<char>)
    ensures
        r@ == s@,
{
    s.chars().collect()
}

/// Relies on `serde_json::from_str`: the JSON object that the text holds, if it holds one.
#[verifier::external_body]
pub(crate) fn parse_json_object(s: &str) -> (r: Option<serde_json::Map<String, serde_json::Value>>) {
    serde_json::from_str(s).ok()
}

/// Relies on `serde_json::to_string_pretty`: the object as indented JSON text.
#[verifier::external_body]
pub(crate) fn to_pretty_json(m: &serde_json::Map<String, serde_json::Value>) -> (r: Option<String>) {
    serde_json::to_string_pretty(m).ok()
}

} // verus!
