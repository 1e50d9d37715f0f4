//! The outside encodings: JSON text, digests, identifiers and dates.

use vstd::prelude::*;
use crate::json::Json;
use crate::json::JsonView;

verus! {

/// `serde_json::Value`, a parsed JSON document.
#[verifier::external_type_specification]
#[verifier::external_body]
pub struct ExValue(serde_json::Value);

/// The tree that `serde_json::from_slice` reads from bytes, or the message of its error where
/// they are not a JSON document.
pub uninterp spec fn json_document(bytes: Seq<u8>) -> Result<JsonView, Seq<char>>;

/// The text without white space that `serde_json::to_string` writes for a tree.
pub uninterp spec fn compact_text(value: JsonView) -> Seq<char>;

/// The lower-case hexadecimal form of the digest that `md5::compute` gives of bytes.
pub uninterp spec fn md5_hex(bytes: Seq<u8>) -> Seq<char>;

/// Moves a `serde_json::Value` into the library's own tree, variant by variant; a number
/// becomes the text that `serde_json` writes for it.
#[verifier::external_body]
fn from_value(value: serde_json::Value) -> Json {
    match value {
        serde_json::Value::Null => Json::Null,
        serde_json::Value::Bool(b) => Json::Bool(b),
        serde_json::Value::Number(n) => Json::Number(n.to_string()),
        serde_json::Value::String(t) => Json::Text(t),
        serde_json::Value::Array(a) => Json::Array(a.into_iter().map(from_value).collect()),
        serde_json::Value::Object(o) => {
            Json::Object(o.into_iter().map(|(k, v)| (k, from_value(v))).collect())
        },
    }
}

/// Copies the library's tree into a `serde_json::Value`, variant by variant. A number whose
/// text is no JSON number becomes `null`; of fields with one name the last one stays.
#[verifier::external_body]
fn to_value(json: &Json) -> serde_json::Value {
    match json {
        Json::Null => serde_json::Value::Null,
        Json::Bool(b) => serde_json::Value::Bool(*b),
        Json::Number(n) => {
            serde_json::from_str::<serde_json::Number>(n).map_or(serde_json::Value::Null, serde_json::Value::Number)
        },
        Json::Text(t) => serde_json::Value::String(t.clone()),
        Json::Array(a) => serde_json::Value::Array(a.iter().map(to_value).collect()),
        Json::Object(o) => {
            serde_json::Value::Object(o.iter().map(|(k, v)| (k.clone(), to_value(v))).collect())
        },
    }
}

/// `serde_json::from_slice`: the document that `bytes` hold, or the message of the error where
/// they are not one JSON document. Both depend on the bytes alone and are named, not restated.
#[verifier::external_body]
pub(crate) fn parse_json(bytes: &[u8]) -> (result: Result<Json, String>)
    ensures
        match result {
            Ok(json) => json_document(bytes@) == Ok::<JsonView, Seq<char>>(json@),
            Err(message) => json_document(bytes@) == Err::<JsonView, Seq<char>>(message@),
        },
{
    serde_json::from_slice::<serde_json::Value>(bytes).map(from_value).map_err(|e| e.to_string())
}

/// `serde_json::to_string`: the text of a tree without white space between its parts. It
/// depends on the tree alone and is named, not restated. Writing a `Value` does not fail.
#[verifier::external_body]
pub(crate) fn write_compact(json: &Json) -> (result: String)
    ensures
        result@ == compact_text(json@),
{
    serde_json::to_string(&to_value(json)).unwrap_or_default()
}

/// `md5::compute`: the digest of `bytes`, written as 32 lower-case hexadecimal digits. It
/// depends on the bytes alone and is named; its length is what `LowerHex` on it writes.
#[verifier::external_body]
pub(crate) fn digest_hex(bytes: &[u8]) -> (result: String)
    ensures
        result@ == md5_hex(bytes@),
        result@.len() == 32,
{
    format!("{:x}", md5::compute(bytes))
}

/// The hyphenated lower-case form of the identifier that `uuid::Uuid::parse_str` reads from a
/// text, where the text is one.
pub uninterp spec fn uuid_text(text: Seq<char>) -> Option<Seq<char>>;

/// `uuid::Uuid::parse_str`: the identifier that a text writes, in its hyphenated form, or
/// nothing where the text writes none. It depends on the text alone and is named.
#[verifier::external_body]
pub(crate) fn parse_uuid(text: &str) -> (result: Option<String>)
    ensures
        match result {
            Some(id) => uuid_text(text@) == Some(id@) && id@.len() == 36,
            None => uuid_text(text@) is None,
        },
{
    uuid::Uuid::parse_str(text).ok().map(|id| id.to_string())
}

/// The text that `chrono::DateTime::format` writes by a pattern for the point of coordinated
/// universal time so many seconds after the start of 1970, where the calendar of `chrono` has
/// that point.
pub uninterp spec fn date_text(seconds: i64, pattern: Seq<char>) -> Option<Seq<char>>;

/// `chrono::DateTime::format` on the point of time that `chrono::DateTime::from_timestamp`
/// gives: the date and the time of day in coordinated universal time, or nothing where the
/// calendar of `chrono` has no such point. It depends on the seconds and the pattern alone and
/// is named. Writing panics on a text that is no pattern; one pattern is enough here.
#[verifier::external_body]
pub(crate) fn write_date(seconds: i64, pattern: &str) -> (result: Option<String>)
    requires
        pattern@ == "%Y-%m-%d %H:%M"@,
    ensures
        match result {
            Some(text) => date_text(seconds, pattern@) == Some(text@),
            None => date_text(seconds, pattern@) is None,
        },
{
    chrono::DateTime::from_timestamp(seconds, 0).map(|time| time.format(pattern).to_string())
}

/// `uuid::Uuid::new_v4`: a random identifier in its hyphenated form, which has 36 characters.
/// Which one it is depends on chance; that it differs from earlier ones is not stated.
#[verifier::external_body]
pub(crate) fn fresh_uuid() -> (result: String)
    ensures
        result@.len() == 36,
{
    uuid::Uuid::new_v4().to_string()
}

} // verus!
