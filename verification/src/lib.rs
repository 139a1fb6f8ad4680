//! Status of a transit line, read from its feed of short service messages.
//!
//! A line token is resolved to the feed that reports on the line, the day's
//! messages of that feed are classified by keyword, and the newest message that
//! says anything decides the status that the reply reports.

pub mod aggregate;
pub mod command;
pub mod inquiry;
pub mod line;
pub mod message;
pub mod reply;
pub mod request;
pub mod status;
pub mod text;
pub mod timestamp;

pub use aggregate::{aggregate, aggregate_with, AggregationResult, Evidence};
pub use command::{register, Command, CommandOption, OptionKind};
pub use inquiry::{
    conclude, plan, plan_for_code, reply_for_code, run, run_at, FetchOutcome, Step,
};
pub use line::{get_line, resolve, resolve_code, InvalidLineError};
pub use message::{all_validly_dated, date_messages, is_relevant, Message, RawMessage};
pub use reply::{render, Outcome};
pub use request::{query_string, request_uri, search_params, SearchParams};
pub use status::{search_indicator, Status, Vocabulary};
pub use timestamp::Timestamp;
