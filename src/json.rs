use vstd::prelude::*;
use crate::error::{FileError, IoFailure};

verus! {

#[verifier::external_type_specification]
#[verifier::external_body]
pub struct ExJsonValue(serde_json::Value);

#[verifier::external_type_specification]
#[verifier::external_body]
pub struct ExJsonError(serde_json::Error);

/// Whether a text is a JSON document that `serde_json` accepts as a value.
pub uninterp spec fn json_text_is_valid(text: Seq<char>) -> bool;

/// Relies on `serde_json::from_str::<Value>`: it succeeds exactly on the
/// texts it accepts as JSON, which depends on the text alone.
#[verifier::external_body]
pub(crate) fn parse_json_text(text: &str) -> (r: Result<serde_json::Value, serde_json::Error>)
    ensures
        r.is_ok() == json_text_is_valid(text@),
{
    serde_json::from_str(text)
}

/// Relies on `serde_json::to_string_pretty`: the value as indented JSON text.
/// It fails only for a `Serialize` impl that fails or for a map with keys
/// that are not strings, and a `Value` has neither.
#[verifier::external_body]
fn pretty_json_text(value: &serde_json::Value) -> (r: Result<String, serde_json::Error>)
    ensures
        r is Ok,
{
    serde_json::to_string_pretty(value)
}

/// Relies on the `Display` impl of `serde_json::Error`: its message.
#[verifier::external_body]
pub(crate) fn json_error_text(e: &serde_json::Error) -> (r: String) {
    e.to_string()
}

/// Parses a JSON text that has no file behind it.
pub fn parse_json(text: &str) -> (r: Result<serde_json::Value, String>)
    ensures
        r.is_ok() == json_text_is_valid(text@),
{
    match parse_json_text(text) {
        Ok(v) => Ok(v),
        Err(e) => Err(json_error_text(&e)),
    }
}

/// Decodes the JSON file at `path`, given what reading it gave.
///
/// A read failure is reported as such, whatever its kind; a file that was
/// read but does not hold valid JSON is reported as malformed, never as
/// missing or unreadable.
pub fn read_json_file(path: &str, contents: Result<String, IoFailure>) -> (r: Result<
    serde_json::Value,
    FileError,
>)
    ensures
        match contents {
            Err(cause) => r is Err && r->Err_0 is Read && r->Err_0->Read_path@ == path@
                && r->Err_0->Read_cause == cause,
            Ok(text) => (r is Ok <==> json_text_is_valid(text@)) && (r is Err ==> r->Err_0 is MalformedJson
                && r->Err_0->MalformedJson_path@ == path@),
        },
{
    match contents {
        Err(cause) => Err(FileError::Read { path: String::from_str(path), cause }),
        Ok(text) => match parse_json_text(text.as_str()) {
            Ok(v) => Ok(v),
            Err(e) => Err(
                FileError::MalformedJson { path: String::from_str(path), detail: json_error_text(&e) },
            ),
        },
    }
}

/// Turns a menu document into the indented JSON text that is written to
/// disk. Every document can be written.
pub fn json_file_text(value: &serde_json::Value) -> (r: Result<String, FileError>)
    ensures
        r is Ok,
{
    match pretty_json_text(value) {
        Ok(text) => Ok(text),
        Err(e) => Err(FileError::Serialization { detail: json_error_text(&e) }),
    }
}

} // verus!
