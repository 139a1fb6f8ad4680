//! From the day's messages to one status and the message that decided it.

use vstd::prelude::*;

use crate::message::{is_relevant, validly_dated, Message, MessageView};
use crate::status::{
    classification, standard_disrupted_words, standard_resolved_words, Status, Vocabulary,
};
use crate::timestamp::Timestamp;

verus! {

/// The message behind a status: its text and when it was posted.
#[derive(Clone, Debug, PartialEq, Eq)]
pub struct Evidence {
    pub text: String,
    pub timestamp: Timestamp,
}

/// Evidence as plain values.
pub struct EvidenceView {
    pub text: Seq<char>,
    pub timestamp: Timestamp,
}

impl View for Evidence {
    type V = EvidenceView;

    open spec fn view(&self) -> EvidenceView {
        EvidenceView { text: self.text@, timestamp: self.timestamp }
    }
}

/// The outcome of an aggregation: the status of the line, and the message
/// that decided it where one did.
#[derive(Clone, Debug, PartialEq, Eq)]
pub struct AggregationResult {
    pub final_status: Status,
    pub evidence: Option<Evidence>,
}

/// An aggregation result as plain values.
pub struct AggregationView {
    pub final_status: Status,
    pub evidence: Option<EvidenceView>,
}

impl View for AggregationResult {
    type V = AggregationView;

    open spec fn view(&self) -> AggregationView {
        AggregationView {
            final_status: self.final_status,
            evidence: match self.evidence {
                Some(evidence) => Some(evidence@),
                None => None,
            },
        }
    }
}

impl AggregationResult {
    /// The evidence, where there is any, holds a valid timestamp.
    pub open spec fn wf(&self) -> bool {
        self.evidence matches Some(evidence) ==> evidence.timestamp.wf()
    }

    /// Whether the evidence, where there is any, holds a valid timestamp.
    pub fn is_valid(&self) -> (valid: bool)
        ensures
            valid == self.wf(),
    {
        match &self.evidence {
            Some(evidence) => evidence.timestamp.is_valid(),
            None => true,
        }
    }
}

/// The result when no message decides: `Unknown`, without evidence.
pub open spec fn undecided() -> AggregationView {
    AggregationView { final_status: Status::Unknown, evidence: None }
}

/// `message` was posted on day `day` of a month and signals a status.
pub open spec fn decides(
    message: MessageView,
    day: u32,
    resolved: Seq<Seq<char>>,
    disrupted: Seq<Seq<char>>,
) -> bool {
    message.created_at.day == day && classification(message.text, resolved, disrupted)
        != Status::Unknown
}

/// The result that `message` gives when it decides.
pub open spec fn verdict(
    message: MessageView,
    resolved: Seq<Seq<char>>,
    disrupted: Seq<Seq<char>>,
) -> AggregationView {
    AggregationView {
        final_status: classification(message.text, resolved, disrupted),
        evidence: Some(EvidenceView { text: message.text, timestamp: message.created_at }),
    }
}

/// The result of a batch that lists its messages newest first: the verdict of
/// the first message that decides, and `undecided()` where none does.
pub open spec fn aggregation(
    batch: Seq<MessageView>,
    day: u32,
    resolved: Seq<Seq<char>>,
    disrupted: Seq<Seq<char>>,
) -> AggregationView
    decreases batch.len(),
{
    if batch.len() == 0 {
        undecided()
    } else if decides(batch[0], day, resolved, disrupted) {
        verdict(batch[0], resolved, disrupted)
    } else {
        aggregation(batch.drop_first(), day, resolved, disrupted)
    }
}

/// One step of the fold: a message that decides replaces the result so far,
/// and any other message leaves it as it is.
pub open spec fn absorb(
    so_far: AggregationView,
    message: MessageView,
    day: u32,
    resolved: Seq<Seq<char>>,
    disrupted: Seq<Seq<char>>,
) -> AggregationView {
    if decides(message, day, resolved, disrupted) {
        verdict(message, resolved, disrupted)
    } else {
        so_far
    }
}

/// The fold over messages listed oldest first, begun at `undecided()`.
pub open spec fn folded(
    oldest_first: Seq<MessageView>,
    day: u32,
    resolved: Seq<Seq<char>>,
    disrupted: Seq<Seq<char>>,
) -> AggregationView
    decreases oldest_first.len(),
{
    if oldest_first.len() == 0 {
        undecided()
    } else {
        absorb(
            folded(oldest_first.drop_last(), day, resolved, disrupted),
            oldest_first.last(),
            day,
            resolved,
            disrupted,
        )
    }
}

/// Aggregation from message `from` on unfolds at that message.
proof fn lemma_aggregation_unfolds(
    batch: Seq<MessageView>,
    from: int,
    day: u32,
    resolved: Seq<Seq<char>>,
    disrupted: Seq<Seq<char>>,
)
    requires
        0 <= from < batch.len(),
    ensures
        aggregation(batch.skip(from), day, resolved, disrupted) == (if decides(
            batch[from],
            day,
            resolved,
            disrupted,
        ) {
            verdict(batch[from], resolved, disrupted)
        } else {
            aggregation(batch.skip(from + 1), day, resolved, disrupted)
        }),
{
    assert(batch.skip(from).drop_first() =~= batch.skip(from + 1));
}

/// Aggregates under word lists of the caller's choosing. `batch` lists the
/// messages newest first. They are taken oldest first; one posted on another
/// day of the month than `reference` is passed over, and so is one that
/// signals nothing; each of the others replaces what was found before it.
pub fn aggregate_with(
    vocabulary: &Vocabulary,
    batch: &Vec<Message>,
    reference: &Timestamp,
) -> (result: AggregationResult)
    ensures
        result@ == aggregation(
            batch.deep_view(),
            reference.day,
            vocabulary.resolved_words(),
            vocabulary.disrupted_words(),
        ),
        validly_dated(batch.deep_view()) ==> result.wf(),
{
    let ghost messages = batch.deep_view();
    let ghost resolved = vocabulary.resolved_words();
    let ghost disrupted = vocabulary.disrupted_words();
    let mut result = AggregationResult { final_status: Status::Unknown, evidence: None };
    let mut i: usize = batch.len();
    while i > 0
        invariant
            i <= batch.len(),
            messages == batch.deep_view(),
            resolved == vocabulary.resolved_words(),
            disrupted == vocabulary.disrupted_words(),
            result@ == aggregation(messages.skip(i as int), reference.day, resolved, disrupted),
            validly_dated(messages) ==> result.wf(),
        decreases i,
    {
        i -= 1;
        proof {
            lemma_aggregation_unfolds(messages, i as int, reference.day, resolved, disrupted);
        }
        let message = &batch[i];
        if is_relevant(message, reference) {
            match vocabulary.classify(message.text.as_str()) {
                Status::Unknown => {},
                status => {
                    result = AggregationResult {
                        final_status: status,
                        evidence: Some(
                            Evidence { text: message.text.clone(), timestamp: message.created_at },
                        ),
                    };
                },
            }
        }
    }
    assert(messages.skip(0) =~= messages);
    result
}

/// Aggregates under the built-in word lists. `batch` lists the messages newest
/// first; the newest message of the reference day of the month that signals a
/// status decides, and without one the result is `Unknown` without evidence.
pub fn aggregate(batch: &Vec<Message>, reference: &Timestamp) -> (result: AggregationResult)
    ensures
        result@ == aggregation(
            batch.deep_view(),
            reference.day,
            standard_resolved_words(),
            standard_disrupted_words(),
        ),
        validly_dated(batch.deep_view()) ==> result.wf(),
{
    let vocabulary = Vocabulary::standard();
    aggregate_with(&vocabulary, batch, reference)
}

/// The result of a batch is the fold over its messages taken oldest first, in
/// which the last message that decides has the last word.
pub proof fn lemma_aggregation_is_the_fold(
    batch: Seq<MessageView>,
    day: u32,
    resolved: Seq<Seq<char>>,
    disrupted: Seq<Seq<char>>,
)
    ensures
        aggregation(batch, day, resolved, disrupted) == folded(
            batch.reverse(),
            day,
            resolved,
            disrupted,
        ),
    decreases batch.len(),
{
    if batch.len() > 0 {
        assert(batch.reverse().drop_last() =~= batch.drop_first().reverse());
        lemma_aggregation_is_the_fold(batch.drop_first(), day, resolved, disrupted);
    }
}

/// A result carries evidence exactly when its status is not `Unknown`, and the
/// evidence is a message of the batch, posted on the reference day, whose own
/// classification is the status reported.
pub proof fn lemma_evidence_is_a_deciding_message(
    batch: Seq<MessageView>,
    day: u32,
    resolved: Seq<Seq<char>>,
    disrupted: Seq<Seq<char>>,
)
    ensures
        aggregation(batch, day, resolved, disrupted).evidence is None <==> aggregation(
            batch,
            day,
            resolved,
            disrupted,
        ).final_status == Status::Unknown,
        aggregation(batch, day, resolved, disrupted).evidence is Some ==> exists|i: int|
            0 <= i < batch.len() && decides(#[trigger] batch[i], day, resolved, disrupted)
                && aggregation(batch, day, resolved, disrupted) == verdict(
                batch[i],
                resolved,
                disrupted,
            ),
    decreases batch.len(),
{
    if batch.len() > 0 && !decides(batch[0], day, resolved, disrupted) {
        let rest = batch.drop_first();
        lemma_evidence_is_a_deciding_message(rest, day, resolved, disrupted);
    }
}

/// Where no message of the batch was posted on the reference day of the
/// month, and so for the empty batch, the result is `Unknown` without
/// evidence.
pub proof fn lemma_nothing_relevant_is_undecided(
    batch: Seq<MessageView>,
    day: u32,
    resolved: Seq<Seq<char>>,
    disrupted: Seq<Seq<char>>,
)
    requires
        forall|i: int| 0 <= i < batch.len() ==> (#[trigger] batch[i]).created_at.day != day,
    ensures
        aggregation(batch, day, resolved, disrupted) == undecided(),
    decreases batch.len(),
{
    if batch.len() > 0 {
        lemma_nothing_relevant_is_undecided(batch.drop_first(), day, resolved, disrupted);
    }
}

/// The last word wins: a message that decides, put in front of any batch as
/// its newest, gives the result, whatever the older messages say.
pub proof fn lemma_newest_deciding_message_wins(
    newest: MessageView,
    older: Seq<MessageView>,
    day: u32,
    resolved: Seq<Seq<char>>,
    disrupted: Seq<Seq<char>>,
)
    requires
        decides(newest, day, resolved, disrupted),
    ensures
        aggregation(seq![newest] + older, day, resolved, disrupted) == verdict(
            newest,
            resolved,
            disrupted,
        ),
{
}

/// A message posted on another day of the month than the reference changes
/// nothing, wherever in the batch it stands and whatever it says.
pub proof fn lemma_other_days_are_ignored(
    batch: Seq<MessageView>,
    at: int,
    stray: MessageView,
    day: u32,
    resolved: Seq<Seq<char>>,
    disrupted: Seq<Seq<char>>,
)
    requires
        0 <= at <= batch.len(),
        stray.created_at.day != day,
    ensures
        aggregation(batch.insert(at, stray), day, resolved, disrupted) == aggregation(
            batch,
            day,
            resolved,
            disrupted,
        ),
    decreases at,
{
    let with_stray = batch.insert(at, stray);
    if at == 0 {
        assert(with_stray.drop_first() =~= batch);
    } else {
        assert(with_stray.drop_first() =~= batch.drop_first().insert(at - 1, stray));
        lemma_other_days_are_ignored(batch.drop_first(), at - 1, stray, day, resolved, disrupted);
    }
}

} // verus!
