//! Structural parsing of a `{name, arguments}` function-call intent out of
//! normalized dialect text, through the JSON parser of an outside crate.

use vstd::prelude::*;

verus! {

#[verifier::external_type_specification]
#[verifier::external_body]
pub struct ExValue(serde_json::Value);

/// The tool name of the `{name, arguments}` intent that structural parsing
/// extracts from `s`, when `s` parses as such an intent; `None` otherwise.
pub uninterp spec fn intent_of(s: Seq<char>) -> Option<Seq<char>>;

/// Whether structural parsing rejects `s` as malformed JSON (as opposed to
/// accepting it as JSON of the wrong shape).
pub uninterp spec fn intent_syntax_error(s: Seq<char>) -> bool;

/// The diagnostic the JSON parser reports when it rejects `s` as malformed.
pub uninterp spec fn intent_diag_of(s: Seq<char>) -> Seq<char>;

/// Why a text failed to yield a function-call intent.
pub enum IntentFault {
    /// The text is not well-formed JSON; carries the parser's diagnostic.
    Syntax(String),
    /// The text is well-formed JSON but not an object with a string `name`
    /// and an `arguments` member.
    Shape,
}

/// Relies on `serde_json::from_str::<serde_json::Value>`: it accepts exactly
/// the well-formed JSON texts, its rejection diagnostic is a function of the
/// text, and `serde_json::Map::remove` hands back the `name` and `arguments`
/// members of the parsed object when they are present.
#[verifier::external_body]
pub fn parse_intent(s: &str) -> (r: Result<(String, serde_json::Value), IntentFault>)
    ensures
        (match r {
            Ok(p) => intent_of(s@) == Some(p.0@) && !intent_syntax_error(s@),
            Err(IntentFault::Syntax(diag)) => intent_of(s@) is None && intent_syntax_error(s@)
                && diag@ == intent_diag_of(s@),
            Err(IntentFault::Shape) => intent_of(s@) is None && !intent_syntax_error(s@),
        }),
{
    match serde_json::from_str::<serde_json::Value>(s) {
        Err(e) => Err(IntentFault::Syntax(e.to_string())),
        Ok(serde_json::Value::Object(mut m)) => match (m.remove("name"), m.remove("arguments")) {
            (Some(serde_json::Value::String(n)), Some(a)) => Ok((n, a)),
            _ => Err(IntentFault::Shape),
        },
        Ok(_) => Err(IntentFault::Shape),
    }
}

} // verus!
