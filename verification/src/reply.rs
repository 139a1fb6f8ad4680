//! The reply that a rider reads.

use vstd::prelude::*;
use vstd::string::*;

use crate::aggregate::{AggregationResult, AggregationView};
use crate::status::Status;
use crate::timestamp::display_text;

verus! {

/// How an inquiry ended.
#[derive(Clone, Copy, Debug, PartialEq, Eq, Structural)]
pub enum Outcome {
    /// The feed was read and aggregated.
    Success,
    /// The token names no line.
    InvalidLine,
    /// The feed answered, but not with success.
    FetchFailed,
    /// The feed's answer could not be read as a batch of messages.
    ParseFailed,
    /// The feed could not be reached at all.
    Unreachable,
}

/// The reply to a token that names no line.
pub open spec fn unrecognized_line_text() -> Seq<char> {
    "Ligne non reconnue"@
}

/// The reply when the feed's answer is of no use.
pub open spec fn unavailable_text() -> Seq<char> {
    "Impossible de récuperer les informations requises"@
}

/// The reply of last resort.
pub open spec fn undetermined_text() -> Seq<char> {
    "Impossible de determiner l'etat de la ligne"@
}

/// The phrase for a status.
pub open spec fn status_phrase(status: Status) -> Seq<char> {
    match status {
        Status::Resolved => "Tout va bien"@,
        Status::Disrupted => "Il y'a un problème"@,
        Status::Unknown => "Je ne suis pas sûr mais le trafic à l'air normal"@,
    }
}

/// The line and its status in one sentence.
pub open spec fn headline(label: Seq<char>, status: Status) -> Seq<char> {
    "Ligne "@ + label + ": "@ + status_phrase(status)
}

/// The report of a result: the headline, then the deciding message and the
/// time of its posting where there is one.
pub open spec fn report(label: Seq<char>, result: AggregationView) -> Seq<char> {
    match result.evidence {
        Some(evidence) => headline(label, result.final_status) + "\n\nTweet:\n"@ + evidence.text
            + "\n\n"@ + display_text(evidence.timestamp),
        None => headline(label, result.final_status),
    }
}

/// The reply for each way an inquiry can end. A success that brings no result
/// gets the reply of last resort.
pub open spec fn rendering(
    label: Seq<char>,
    result: Option<AggregationView>,
    outcome: Outcome,
) -> Seq<char> {
    match outcome {
        Outcome::InvalidLine => unrecognized_line_text(),
        Outcome::FetchFailed => unavailable_text(),
        Outcome::ParseFailed => unavailable_text(),
        Outcome::Unreachable => undetermined_text(),
        Outcome::Success => match result {
            Some(result) => report(label, result),
            None => undetermined_text(),
        },
    }
}

/// The phrase for `status`.
pub fn phrase(status: Status) -> (text: String)
    ensures
        text@ == status_phrase(status),
{
    match status {
        Status::Resolved => String::from_str("Tout va bien"),
        Status::Disrupted => String::from_str("Il y'a un problème"),
        Status::Unknown => String::from_str("Je ne suis pas sûr mais le trafic à l'air normal"),
    }
}

/// Writes the report of `result` for the line called `label`.
pub fn render_report(label: &str, result: &AggregationResult) -> (reply: String)
    requires
        result.wf(),
    ensures
        reply@ == report(label@, result@),
{
    let mut reply = String::from_str("Ligne ");
    reply.append(label);
    reply.append(": ");
    reply.append(phrase(result.final_status).as_str());
    match &result.evidence {
        Some(evidence) => {
            reply.append("\n\nTweet:\n");
            reply.append(evidence.text.as_str());
            reply.append("\n\n");
            reply.append(evidence.timestamp.display().as_str());
        },
        None => {},
    }
    reply
}

/// Writes the reply to an inquiry about the line called `label`. Only a
/// success looks at `label` and `result`; every other outcome has its fixed
/// reply.
pub fn render(label: &str, result: Option<&AggregationResult>, outcome: Outcome) -> (reply: String)
    requires
        outcome == Outcome::Success ==> (result matches Some(r) ==> r.wf()),
    ensures
        reply@ == rendering(
            label@,
            match result {
                Some(r) => Some(r@),
                None => None,
            },
            outcome,
        ),
{
    match outcome {
        Outcome::InvalidLine => String::from_str("Ligne non reconnue"),
        Outcome::FetchFailed => String::from_str(
            "Impossible de récuperer les informations requises",
        ),
        Outcome::ParseFailed => String::from_str(
            "Impossible de récuperer les informations requises",
        ),
        Outcome::Unreachable => String::from_str("Impossible de determiner l'etat de la ligne"),
        Outcome::Success => match result {
            Some(result) => render_report(label, result),
            None => String::from_str("Impossible de determiner l'etat de la ligne"),
        },
    }
}

} // verus!
