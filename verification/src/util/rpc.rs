//! The plain web API endpoint: where a request goes and what its reply means.
use vstd::prelude::*;
use crate::json::{
    json_member, json_parse, json_debug, json_error_debug, parse_json, json_get, debug_json_error,
    debug_json_value,
};

verus! {

/// The host (and port) of the plain web API endpoint.
pub open spec fn rpc_host() -> Seq<char> {
    "127.0.0.1:8888"@
}

/// A reply is accepted when it is a JSON document whose top level has no `Err` member.
pub open spec fn reply_accepted(text: Seq<char>) -> bool {
    json_parse(text) matches Ok(v) && json_member(v, "Err"@) is None
}

/// The error text for a refused reply: the `Debug` text of the parse error, or of the whole
/// document when it carries an `Err` member.
pub open spec fn reply_error_text(text: Seq<char>) -> Seq<char> {
    match json_parse(text) {
        Ok(v) => json_debug(v),
        Err(e) => json_error_debug(e),
    }
}

/// The URL that a request for `path` is posted to.
pub fn rpc_url(path: &str) -> (u: String)
    ensures
        u@ == "http://"@ + rpc_host() + "/"@ + path@,
{
    let u = String::from_str("http://");
    let u = u.concat("127.0.0.1:8888");
    let u = u.concat("/");
    u.concat(path)
}

/// What a reply text amounts to: the parsed document when it is accepted, else an error text
/// (the parse error, or the whole document when it carries an `Err` member).
pub fn reply_value(text: &str) -> (r: Result<serde_json::Value, String>)
    ensures
        (r is Ok) == reply_accepted(text@),
        r matches Ok(v) ==> json_parse(text@) == Ok::<serde_json::Value, serde_json::Error>(v),
        r matches Err(m) ==> m@ == reply_error_text(text@),
        match json_parse(text@) {
            Ok(v) => if json_member(v, "Err"@) is None {
                r == Ok::<serde_json::Value, String>(v)
            } else {
                r matches Err(m) && m@ == json_debug(v)
            },
            Err(e) => r matches Err(m) && m@ == json_error_debug(e),
        },
{
    match parse_json(text) {
        Err(e) => Err(debug_json_error(&e)),
        Ok(value) => {
            let err_key = "Err";
            proof {
                reveal_strlit("Err");
            }
            if json_get(&value, err_key).is_some() {
                Err(debug_json_value(&value))
            } else {
                Ok(value)
            }
        },
    }
}

/// A reply is accepted exactly when its text parses as a JSON document and that document's
/// top-level object has no `Err` member; a text that does not parse is never accepted, and any
/// document without an `Err` member is accepted, whatever other members it has.
pub proof fn lemma_reply_accepted_iff_no_err_member(text: Seq<char>)
    ensures
        reply_accepted(text) <==> (json_parse(text) is Ok && json_member(
            json_parse(text)->Ok_0,
            "Err"@,
        ) is None),
        json_parse(text) is Err ==> !reply_accepted(text),
        forall|v: serde_json::Value|
            json_parse(text) == Ok::<serde_json::Value, serde_json::Error>(v) && json_member(
                v,
                "Err"@,
            ) is None ==> #[trigger] reply_accepted(text),
{
}

/// The error text of a refused reply is the `Debug` text of what refused it: the parse error
/// when the text is no JSON document, the whole document when it carries an `Err` member.
pub proof fn lemma_reply_error_text_names_its_cause(text: Seq<char>)
    ensures
        json_parse(text) matches Err(e) ==> reply_error_text(text) == json_error_debug(e),
        json_parse(text) matches Ok(v) ==> reply_error_text(text) == json_debug(v),
{
}

} // verus!
