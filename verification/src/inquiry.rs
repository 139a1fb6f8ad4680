//! One inquiry from token to reply.
//!
//! The library decides and the host acts: `plan` says whether a feed is to be
//! fetched at all, and `run` turns what the fetch brought into the reply.

use vstd::prelude::*;
use vstd::string::*;

use crate::aggregate::{aggregate, aggregation};
use crate::line::{feed_source, is_line_code, resolve_code};
use crate::message::{date_messages, dated, validly_dated, Message, MessageView, RawMessage};
use crate::reply::{
    render, report, unavailable_text, undetermined_text, unrecognized_line_text, Outcome,
};
use crate::request::{search_params, search_query, SearchParams, MAX_RESULTS};
use crate::status::{standard_disrupted_words, standard_resolved_words};
use crate::text::{uppercase, uppercased};
use crate::timestamp::Timestamp;

verus! {

/// What a fetch brought back.
#[derive(Clone, Debug, PartialEq, Eq)]
pub enum FetchOutcome {
    /// The feed could not be reached.
    Unreachable,
    /// The feed answered, but not with success.
    FetchFailed,
    /// The answer could not be read as a batch of messages.
    ParseFailed,
    /// The messages of the feed, newest first.
    Fetched(Vec<RawMessage>),
}

/// What the host does next.
#[derive(Clone, Debug, PartialEq, Eq)]
pub enum Step {
    /// Answer at once; nothing is fetched.
    Reply(String),
    /// Fetch with these parameters, then call `run` with the outcome.
    Fetch(SearchParams),
}

/// The report on the line called `label` from the dated messages of its feed,
/// newest first, on day `day` of a month.
pub open spec fn report_on(label: Seq<char>, batch: Seq<MessageView>, day: u32) -> Seq<char> {
    report(label, aggregation(batch, day, standard_resolved_words(), standard_disrupted_words()))
}

/// The reply to an inquiry about the line `code`, already in upper case, for
/// each outcome of the fetch, on day `day` of a month. The report calls the
/// line by the name of its feed.
pub open spec fn reply_to(code: Seq<char>, outcome: FetchOutcome, day: u32) -> Seq<char> {
    if !is_line_code(code) {
        unrecognized_line_text()
    } else {
        match outcome {
            FetchOutcome::Unreachable => undetermined_text(),
            FetchOutcome::FetchFailed => unavailable_text(),
            FetchOutcome::ParseFailed => unavailable_text(),
            FetchOutcome::Fetched(raw) => report_on(
                feed_source(code),
                dated(raw.deep_view()),
                day,
            ),
        }
    }
}

/// Decides whether an inquiry about `code`, already in upper case, needs a
/// fetch. A text that is no line code is answered at once, and no fetch is
/// asked for; a line code asks for the search of its feed.
pub fn plan_for_code(code: &str) -> (step: Step)
    ensures
        match step {
            Step::Reply(text) => !is_line_code(code@) && text@ == unrecognized_line_text(),
            Step::Fetch(params) => is_line_code(code@) && params.query@ == search_query(
                feed_source(code@),
            ) && params.max_results == MAX_RESULTS && params.sort_order@ == "recency"@
                && params.tweet_fields@ == "created_at"@,
        },
{
    match resolve_code(code) {
        Ok((_, source)) => Step::Fetch(search_params(source.as_str())),
        Err(_) => Step::Reply(render("", None, Outcome::InvalidLine)),
    }
}

/// Decides whether the inquiry needs a fetch: the token is put in upper case
/// and planned for as a code. A token that names no line is answered at once,
/// and no fetch is asked for.
pub fn plan(token: &str) -> (step: Step)
    ensures
        match step {
            Step::Reply(text) => !is_line_code(uppercased(token@)) && text@
                == unrecognized_line_text(),
            Step::Fetch(params) => is_line_code(uppercased(token@)) && params.query@
                == search_query(feed_source(uppercased(token@))) && params.max_results
                == MAX_RESULTS && params.sort_order@ == "recency"@ && params.tweet_fields@
                == "created_at"@,
        },
{
    let code = uppercase(token);
    plan_for_code(code.as_str())
}

/// Reports on the line called `label` from the messages of its feed, newest
/// first, as of `reference`.
pub fn conclude(label: &str, batch: &Vec<Message>, reference: &Timestamp) -> (reply: String)
    requires
        validly_dated(batch.deep_view()),
    ensures
        reply@ == report_on(label@, batch.deep_view(), reference.day),
{
    let result = aggregate(batch, reference);
    render(label, Some(&result), Outcome::Success)
}

/// The reply to an inquiry about `code`, already in upper case, as of `now`,
/// given what the fetch brought. A text that is no line code gets the fixed
/// reply whatever `outcome` holds; a report calls the line by the name of its
/// feed.
pub fn reply_for_code(code: &str, outcome: &FetchOutcome, now: &Timestamp) -> (reply: String)
    ensures
        reply@ == reply_to(code@, *outcome, now.day),
{
    match resolve_code(code) {
        Err(_) => render("", None, Outcome::InvalidLine),
        Ok((_, source)) => match outcome {
            FetchOutcome::Unreachable => render(source.as_str(), None, Outcome::Unreachable),
            FetchOutcome::FetchFailed => render(source.as_str(), None, Outcome::FetchFailed),
            FetchOutcome::ParseFailed => render(source.as_str(), None, Outcome::ParseFailed),
            FetchOutcome::Fetched(raw) => {
                let batch = date_messages(raw);
                conclude(source.as_str(), &batch, now)
            },
        },
    }
}

/// The reply to `token` as of `now`, given what the fetch brought: the token
/// is put in upper case and answered as a code.
pub fn run_at(token: &str, outcome: &FetchOutcome, now: &Timestamp) -> (reply: String)
    ensures
        reply@ == reply_to(uppercased(token@), *outcome, now.day),
{
    let code = uppercase(token);
    reply_for_code(code.as_str(), outcome, now)
}

/// The reply to `token` as of the present instant, given what the fetch
/// brought. Whatever the clock says, the reply is that of some day of a
/// month.
pub fn run(token: &str, outcome: &FetchOutcome) -> (reply: String)
    ensures
        exists|day: u32|
            1 <= day <= 31 && reply@ == #[trigger] reply_to(uppercased(token@), *outcome, day),
{
    let now = Timestamp::now();
    run_at(token, outcome, &now)
}

} // verus!
