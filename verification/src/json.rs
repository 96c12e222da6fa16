use vstd::prelude::*;
use vstd::string::StringExecFns;

use crate::failure::{CommandFailure, FailureKind};

verus! {

#[verifier::external_type_specification]
#[verifier::external_body]
pub struct ExJsonValue(serde_json::Value);

/// Whether `s` is well-formed JSON text, exactly as the parser accepts it.
pub uninterp spec fn json_well_formed(s: Seq<char>) -> bool;

/// The parser's diagnostic for rejected text `s`, a function of the text
/// alone.
pub uninterp spec fn json_error_of(s: Seq<char>) -> Seq<char>;

/// Relies on serde_json::from_str::<Value>: it succeeds exactly on
/// well-formed JSON text, and both the outcome and the diagnostic for
/// rejected text depend on the text alone. On failure the parser's
/// diagnostic is handed back as a string.
#[verifier::external_body]
fn parse_json(s: &str) -> (r: Result<serde_json::Value, String>)
    ensures
        r is Ok <==> json_well_formed(s@),
        r is Err ==> r->Err_0@ == json_error_of(s@),
{
    match serde_json::from_str(s) {
        Ok(v) => Ok(v),
        Err(e) => Err(e.to_string()),
    }
}

/// The failure message when parsing fails with diagnostic `err`.
pub open spec fn json_failure_spec(err: Seq<char>) -> Seq<char> {
    "Erreur JSON: "@ + err
}

/// Parses `json_str` into a structured value. Succeeds exactly on
/// well-formed JSON text; on anything else it fails with a parse failure
/// whose message embeds the parser's diagnostic.
pub fn test_json_parsing(json_str: String) -> (r: Result<serde_json::Value, CommandFailure>)
    ensures
        r is Ok <==> json_well_formed(json_str@),
        r is Err ==> r->Err_0.kind == FailureKind::ParseFailure,
        r is Err ==> r->Err_0.message@ == json_failure_spec(json_error_of(json_str@)),
{
    match parse_json(json_str.as_str()) {
        Ok(v) => Ok(v),
        Err(e) => {
            let mut m = "Erreur JSON: ".to_owned();
            m.append(e.as_str());
            Err(CommandFailure::new(FailureKind::ParseFailure, m))
        },
    }
}

} // verus!
