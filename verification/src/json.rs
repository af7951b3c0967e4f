//! The one place where the bridge leans on a JSON parser.
//!
//! A conversion response is a JSON document whose `rates` member maps
//! currency codes to numbers. Parsing is serde_json's work; what it yields on
//! a given body is named by two uninterpreted spec functions, and the single
//! trusted wrapper below ties the call to those names. Everything downstream
//! is verified against them.

use vstd::prelude::*;

verus! {

/// The parser's verdict on `body`: `None` when `body` is a valid JSON
/// document, otherwise `Some` of the parse error's description. It is a
/// function of the body text alone.
pub uninterp spec fn json_parse_error(body: Seq<char>) -> Option<Seq<char>>;

/// The rate that a valid JSON document `body` carries for `code`: `Some` of
/// the decimal text of the number at the path `rates` -> `code` when the
/// document's `rates` member holds a number under that key, and `None` when
/// `rates` is absent, the key is absent, or the value there is not a number.
/// It is a function of the body text and the code alone.
pub uninterp spec fn json_rate_text(body: Seq<char>, code: Seq<char>) -> Option<Seq<char>>;

/// Relies on serde_json::from_str, serde_json::Value::get and the Display of
/// serde_json::Number and serde_json::Error: parses `body` and reads the
/// number stored under `code` in the document's `rates` member, as its
/// decimal text.
#[verifier::external_body]
pub(crate) fn lookup_rate(body: &str, code: &str) -> (r: Result<Option<String>, String>)
    ensures
        match r {
            Ok(found) => json_parse_error(body@) is None && (match found {
                Some(text) => json_rate_text(body@, code@) == Some(text@),
                None => json_rate_text(body@, code@) is None,
            }),
            Err(description) => json_parse_error(body@) == Some(description@),
        },
{
    match serde_json::from_str::<serde_json::Value>(body) {
        Err(e) => Err(e.to_string()),
        Ok(document) => {
            let rate = match document.get("rates") {
                Some(rates) => rates.get(code),
                None => None,
            };
            Ok(match rate {
                Some(serde_json::Value::Number(n)) => Some(n.to_string()),
                _ => None,
            })
        },
    }
}

} // verus!
