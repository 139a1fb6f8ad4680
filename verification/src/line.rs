//! From a line token to the feed that reports on the line.

use vstd::prelude::*;
use vstd::string::*;

use crate::text::{same_text, uppercase, uppercased};

verus! {

/// A token that names no line.
#[derive(Clone, Copy, Debug, PartialEq, Eq, Structural)]
pub struct InvalidLineError;

/// `code` is one of the line codes A, B, C, D and E.
pub open spec fn is_line_code(code: Seq<char>) -> bool {
    ||| code == "A"@
    ||| code == "B"@
    ||| code == "C"@
    ||| code == "D"@
    ||| code == "E"@
}

/// The feed that reports on the line `code`. A code without a feed of its own
/// shares that of line A.
pub open spec fn feed_source(code: Seq<char>) -> Seq<char> {
    if code == "A"@ {
        "RER_A"@
    } else if code == "B"@ {
        "RERB"@
    } else if code == "C"@ {
        "RERC_SNCF"@
    } else if code == "D"@ {
        "RERD_SNCF"@
    } else if code == "E"@ {
        "RERE_T4_SNCF"@
    } else {
        "RER_A"@
    }
}

/// The feed that reports on `line`; the feed of line A for a code that has
/// none of its own.
pub fn get_line(line: &str) -> (source: String)
    ensures
        source@ == feed_source(line@),
{
    if same_text(line, "A") {
        String::from_str("RER_A")
    } else if same_text(line, "B") {
        String::from_str("RERB")
    } else if same_text(line, "C") {
        String::from_str("RERC_SNCF")
    } else if same_text(line, "D") {
        String::from_str("RERD_SNCF")
    } else if same_text(line, "E") {
        String::from_str("RERE_T4_SNCF")
    } else {
        String::from_str("RER_A")
    }
}

/// Whether `code` is one of the line codes.
pub fn is_known_line(code: &str) -> (known: bool)
    ensures
        known == is_line_code(code@),
{
    same_text(code, "A") || same_text(code, "B") || same_text(code, "C") || same_text(code, "D")
        || same_text(code, "E")
}

/// Resolves a code that is already in upper case: the code itself as the
/// line's label, with the line's feed. Any text but the five codes is refused.
pub fn resolve_code(code: &str) -> (resolved: Result<(String, String), InvalidLineError>)
    ensures
        match resolved {
            Ok((label, source)) => is_line_code(code@) && label@ == code@ && source@
                == feed_source(code@),
            Err(_) => !is_line_code(code@),
        },
{
    if is_known_line(code) {
        Ok((String::from_str(code), get_line(code)))
    } else {
        Err(InvalidLineError)
    }
}

/// Resolves a line token as given: it is put in upper case, and what comes out
/// is resolved as a code. The error comes for exactly the tokens whose
/// upper-case form is none of the five codes.
pub fn resolve(token: &str) -> (resolved: Result<(String, String), InvalidLineError>)
    ensures
        match resolved {
            Ok((label, source)) => is_line_code(uppercased(token@)) && label@ == uppercased(token@)
                && source@ == feed_source(uppercased(token@)),
            Err(_) => !is_line_code(uppercased(token@)),
        },
{
    let code = uppercase(token);
    resolve_code(code.as_str())
}

} // verus!
