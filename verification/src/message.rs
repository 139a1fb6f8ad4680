//! Feed messages, as fetched and as dated.

use vstd::prelude::*;

use crate::timestamp::{rfc3339_utc, Timestamp};

verus! {

/// One post of a feed as the feed hands it out: the creation time is still
/// the text that the feed wrote.
#[derive(Clone, Debug, PartialEq, Eq)]
pub struct RawMessage {
    pub id: String,
    pub text: String,
    pub created_at: String,
    pub edit_history_ids: Vec<String>,
}

/// A raw message as plain values.
pub struct RawMessageView {
    pub id: Seq<char>,
    pub text: Seq<char>,
    pub created_at: Seq<char>,
    pub edit_history_ids: Seq<Seq<char>>,
}

impl DeepView for RawMessage {
    type V = RawMessageView;

    open spec fn deep_view(&self) -> RawMessageView {
        RawMessageView {
            id: self.id@,
            text: self.text@,
            created_at: self.created_at@,
            edit_history_ids: self.edit_history_ids.deep_view(),
        }
    }
}

impl View for RawMessage {
    type V = RawMessageView;

    open spec fn view(&self) -> RawMessageView {
        self.deep_view()
    }
}

/// One post of a feed with its creation time as an instant.
#[derive(Clone, Debug, PartialEq, Eq)]
pub struct Message {
    pub id: String,
    pub text: String,
    pub created_at: Timestamp,
}

/// A message as plain values.
pub struct MessageView {
    pub id: Seq<char>,
    pub text: Seq<char>,
    pub created_at: Timestamp,
}

impl DeepView for Message {
    type V = MessageView;

    open spec fn deep_view(&self) -> MessageView {
        MessageView { id: self.id@, text: self.text@, created_at: self.created_at }
    }
}

impl View for Message {
    type V = MessageView;

    open spec fn view(&self) -> MessageView {
        self.deep_view()
    }
}

/// Two instants fall on the same day of the month. Month and year are not
/// compared: the 5th of one month is the same day of the month as the 5th of
/// any other.
pub open spec fn same_day_of_month(a: Timestamp, b: Timestamp) -> bool {
    a.day == b.day
}

/// The dated form of a raw message, if its creation time reads as an RFC 3339
/// date-time.
pub open spec fn dated_message(raw: RawMessageView) -> Option<MessageView> {
    match rfc3339_utc(raw.created_at) {
        Some(created_at) => Some(MessageView { id: raw.id, text: raw.text, created_at }),
        None => None,
    }
}

/// The dated forms of the raw messages that have one, in the order given.
pub open spec fn dated(raw: Seq<RawMessageView>) -> Seq<MessageView>
    decreases raw.len(),
{
    if raw.len() == 0 {
        Seq::empty()
    } else {
        match dated_message(raw.last()) {
            Some(message) => dated(raw.drop_last()).push(message),
            None => dated(raw.drop_last()),
        }
    }
}

/// Every message of the batch holds a valid timestamp.
pub open spec fn validly_dated(batch: Seq<MessageView>) -> bool {
    forall|i: int| 0 <= i < batch.len() ==> (#[trigger] batch[i]).created_at.wf()
}

impl Message {
    /// The dated form of `raw`. `None` where its creation time does not read
    /// as an RFC 3339 date-time.
    pub fn from_raw(raw: &RawMessage) -> (message: Option<Message>)
        ensures
            match message {
                Some(m) => dated_message(raw@) == Some(m@) && m.created_at.wf(),
                None => dated_message(raw@) is None,
            },
    {
        match Timestamp::parse(raw.created_at.as_str()) {
            Some(created_at) => Some(
                Message { id: raw.id.clone(), text: raw.text.clone(), created_at },
            ),
            None => None,
        }
    }
}

/// Whether `message` was posted on the day of the month of `reference`, both
/// taken in UTC.
pub fn is_relevant(message: &Message, reference: &Timestamp) -> (relevant: bool)
    ensures
        relevant == same_day_of_month(message.created_at, *reference),
{
    message.created_at.day == reference.day
}

/// Whether every message of `batch` holds a valid timestamp.
pub fn all_validly_dated(batch: &Vec<Message>) -> (valid: bool)
    ensures
        valid == validly_dated(batch.deep_view()),
{
    let mut i: usize = 0;
    while i < batch.len()
        invariant
            i <= batch.len(),
            forall|j: int| 0 <= j < i ==> (#[trigger] batch.deep_view()[j]).created_at.wf(),
        decreases batch.len() - i,
    {
        if !batch[i].created_at.is_valid() {
            assert(!batch.deep_view()[i as int].created_at.wf());
            return false;
        }
        i += 1;
    }
    true
}

/// Dates a batch of raw messages. A message whose creation time does not read
/// as an RFC 3339 date-time is left out; the others keep their order.
pub fn date_messages(raw: &Vec<RawMessage>) -> (batch: Vec<Message>)
    ensures
        batch.deep_view() == dated(raw.deep_view()),
        validly_dated(batch.deep_view()),
{
    let mut batch: Vec<Message> = Vec::new();
    let mut i: usize = 0;
    while i < raw.len()
        invariant
            i <= raw.len(),
            batch.deep_view() == dated(raw.deep_view().take(i as int)),
            validly_dated(batch.deep_view()),
        decreases raw.len() - i,
    {
        let ghost before = batch.deep_view();
        assert(raw.deep_view().take(i as int + 1).drop_last() =~= raw.deep_view().take(i as int));
        match Message::from_raw(&raw[i]) {
            Some(message) => {
                batch.push(message);
                assert(batch.deep_view() =~= before.push(message@));
            },
            None => {},
        }
        i += 1;
    }
    assert(raw.deep_view().take(raw.len() as int) =~= raw.deep_view());
    batch
}

} // verus!
