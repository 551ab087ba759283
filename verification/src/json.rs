//! JSON documents as the web API servers send them, read through `serde_json`.
use vstd::prelude::*;

verus! {

/// A parsed JSON document; opaque here, read only through the items below.
#[verifier::external_type_specification]
#[verifier::external_body]
pub struct ExJsonValue(serde_json::Value);

/// Why a text is not a JSON document.
#[verifier::external_type_specification]
#[verifier::external_body]
pub struct ExJsonError(serde_json::Error);

/// The member of a document's top-level object under a key; `None` when the document is not
/// an object or has no member under that key.
pub uninterp spec fn json_member(v: serde_json::Value, key: Seq<char>) -> Option<serde_json::Value>;

/// What `serde_json::from_str::<serde_json::Value>` makes of a text: the parsed document, or the
/// error that says where and why the text is not a JSON document.
pub uninterp spec fn json_parse(text: Seq<char>) -> Result<serde_json::Value, serde_json::Error>;

/// Whether `serde_json::Error::is_io` holds of an error: it carries an I/O error of a reader.
pub uninterp spec fn json_error_is_io(e: serde_json::Error) -> bool;

/// The text that the `Debug` implementation of `serde_json::Value` writes for a document.
pub uninterp spec fn json_debug(v: serde_json::Value) -> Seq<char>;

/// The text that the `Debug` implementation of `serde_json::Error` writes for an error.
pub uninterp spec fn json_error_debug(e: serde_json::Error) -> Seq<char>;

/// The text that std's `Debug` implementation of `str` writes for a string: the string in
/// double quotes, with quotes, backslashes and unprintable characters escaped.
pub uninterp spec fn str_debug(s: Seq<char>) -> Seq<char>;

/// Calls `serde_json::from_str` for a `serde_json::Value`. Claimed: the result is what
/// `json_parse` names for the text. Also claimed, from the source (a text is read through
/// `StrRead`, which raises syntax, end-of-input and data errors only): an error is never an I/O
/// error.
#[verifier::external_body]
pub(crate) fn parse_json(text: &str) -> (r: Result<serde_json::Value, serde_json::Error>)
    ensures
        r == json_parse(text@),
        r matches Err(e) ==> !json_error_is_io(e),
{
    serde_json::from_str::<serde_json::Value>(text)
}

/// Calls `serde_json::Value::get` with a string key. Claimed, as its documentation gives it: the
/// result is the member of the document's top-level object under the key, as `json_member`
/// names it, and `None` when the document is not an object or lacks the key.
#[verifier::external_body]
pub(crate) fn json_get<'a>(v: &'a serde_json::Value, key: &str) -> (r: Option<&'a serde_json::Value>)
    ensures
        match r {
            Some(m) => json_member(*v, key@) == Some(*m),
            None => json_member(*v, key@) is None,
        },
{
    v.get(key)
}

/// Renders a `serde_json::Error` with its `Debug` implementation. Claimed: for an error that is
/// not an I/O error, the text is `json_error_debug` of it. The text of an I/O error holds the
/// operating system's message for it, which differs between machines, so nothing is claimed of
/// that text.
#[verifier::external_body]
pub(crate) fn debug_json_error(e: &serde_json::Error) -> (r: String)
    ensures
        !json_error_is_io(*e) ==> r@ == json_error_debug(*e),
{
    format!("{:?}", e)
}

/// Renders a `serde_json::Value` with its `Debug` implementation. Claimed: the text is
/// `json_debug` of the document.
#[verifier::external_body]
pub(crate) fn debug_json_value(v: &serde_json::Value) -> (r: String)
    ensures
        r@ == json_debug(*v),
{
    format!("{:?}", v)
}

/// Renders a string with std's `Debug` implementation of `str`. Claimed: the text is
/// `str_debug` of the string.
#[verifier::external_body]
pub(crate) fn debug_str(s: &str) -> (r: String)
    ensures
        r@ == str_debug(s@),
{
    format!("{:?}", s)
}

} // verus!
