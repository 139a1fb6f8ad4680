//! Classification of one message by keyword.

use vstd::prelude::*;
use vstd::string::*;

use crate::text::{contains, is_substring};

verus! {

/// What a message says about the line.
#[derive(Clone, Copy, Debug, PartialEq, Eq, Structural)]
pub enum Status {
    /// Service is back to normal.
    Resolved,
    /// Service is disturbed.
    Disrupted,
    /// The message says nothing either way.
    Unknown,
}

/// Some word of `words` occurs in `text`.
pub open spec fn mentions_any(text: Seq<char>, words: Seq<Seq<char>>) -> bool {
    exists|k: int| 0 <= k < words.len() && is_substring(#[trigger] words[k], text)
}

/// The status that a text signals under two word lists. A word of the
/// `resolved` list decides first, whatever else the text holds.
pub open spec fn classification(
    text: Seq<char>,
    resolved: Seq<Seq<char>>,
    disrupted: Seq<Seq<char>>,
) -> Status {
    if mentions_any(text, resolved) {
        Status::Resolved
    } else if mentions_any(text, disrupted) {
        Status::Disrupted
    } else {
        Status::Unknown
    }
}

/// The words that announce a return to normal service. The return of traffic
/// is listed as it stands within a sentence and as it stands at the head of
/// one.
pub open spec fn standard_resolved_words() -> Seq<Seq<char>> {
    seq![
        "Fin de stationnement"@,
        "Le train repart"@,
        "le trafic est rétabli"@,
        "est terminé"@,
        "✅"@,
        "Le trafic est rétabli"@,
    ]
}

/// The words that announce a disturbance.
pub open spec fn standard_disrupted_words() -> Seq<Seq<char>> {
    seq![
        "est perturbé"@,
        "stationne en raison"@,
        "retard"@,
        "gêne de circulation"@,
        "incident de signalisation"@,
        "fermée"@,
        "sécurité"@,
        "acte de malveillance"@,
        "sans voyageur"@,
        "⚠️"@,
        "⛔️"@,
    ]
}

/// No word stands in both lists.
pub open spec fn disjoint(first: Seq<Seq<char>>, second: Seq<Seq<char>>) -> bool {
    forall|i: int, j: int|
        0 <= i < first.len() && 0 <= j < second.len() ==> #[trigger] first[i]
            != #[trigger] second[j]
}

/// The built-in lists share no word.
pub proof fn lemma_standard_lists_are_disjoint()
    ensures
        disjoint(standard_resolved_words(), standard_disrupted_words()),
{
    reveal_strlit("Fin de stationnement");
    reveal_strlit("Le train repart");
    reveal_strlit("le trafic est rétabli");
    reveal_strlit("est terminé");
    reveal_strlit("✅");
    reveal_strlit("Le trafic est rétabli");
    reveal_strlit("est perturbé");
    reveal_strlit("stationne en raison");
    reveal_strlit("retard");
    reveal_strlit("gêne de circulation");
    reveal_strlit("incident de signalisation");
    reveal_strlit("fermée");
    reveal_strlit("sécurité");
    reveal_strlit("acte de malveillance");
    reveal_strlit("sans voyageur");
    reveal_strlit("⚠️");
    reveal_strlit("⛔️");
    let first = standard_resolved_words();
    let second = standard_disrupted_words();
    assert forall|i: int, j: int|
        0 <= i < first.len() && 0 <= j < second.len() implies #[trigger] first[i]
        != #[trigger] second[j] by {
        if first[i].len() == second[j].len() {
            // Only one pair is of equal length, and it differs in its first letter.
            assert(first[i][0] == 'F' && second[j][0] == 'a');
        }
    }
}

/// The two word lists of a classifier, each in the order in which it is scanned.
#[derive(Clone, Debug, PartialEq, Eq)]
pub struct Vocabulary {
    pub resolved: Vec<String>,
    pub disrupted: Vec<String>,
}

impl Vocabulary {
    /// The `resolved` list as plain texts.
    pub open spec fn resolved_words(&self) -> Seq<Seq<char>> {
        self.resolved.deep_view()
    }

    /// The `disrupted` list as plain texts.
    pub open spec fn disrupted_words(&self) -> Seq<Seq<char>> {
        self.disrupted.deep_view()
    }

    /// A classifier over word lists of the caller's choosing.
    pub fn new(resolved: Vec<String>, disrupted: Vec<String>) -> (vocabulary: Vocabulary)
        ensures
            vocabulary.resolved == resolved,
            vocabulary.disrupted == disrupted,
    {
        Vocabulary { resolved, disrupted }
    }

    /// The classifier over the built-in word lists.
    pub fn standard() -> (vocabulary: Vocabulary)
        ensures
            vocabulary.resolved_words() == standard_resolved_words(),
            vocabulary.disrupted_words() == standard_disrupted_words(),
    {
        let mut resolved: Vec<String> = Vec::new();
        resolved.push(String::from_str("Fin de stationnement"));
        resolved.push(String::from_str("Le train repart"));
        resolved.push(String::from_str("le trafic est rétabli"));
        resolved.push(String::from_str("est terminé"));
        resolved.push(String::from_str("✅"));
        resolved.push(String::from_str("Le trafic est rétabli"));
        let mut disrupted: Vec<String> = Vec::new();
        disrupted.push(String::from_str("est perturbé"));
        disrupted.push(String::from_str("stationne en raison"));
        disrupted.push(String::from_str("retard"));
        disrupted.push(String::from_str("gêne de circulation"));
        disrupted.push(String::from_str("incident de signalisation"));
        disrupted.push(String::from_str("fermée"));
        disrupted.push(String::from_str("sécurité"));
        disrupted.push(String::from_str("acte de malveillance"));
        disrupted.push(String::from_str("sans voyageur"));
        disrupted.push(String::from_str("⚠️"));
        disrupted.push(String::from_str("⛔️"));
        assert(resolved.deep_view() =~= standard_resolved_words());
        assert(disrupted.deep_view() =~= standard_disrupted_words());
        Vocabulary { resolved, disrupted }
    }

    /// Classifies `text`: `Resolved` if a word of the first list occurs in it,
    /// else `Disrupted` if a word of the second list does, else `Unknown`.
    pub fn classify(&self, text: &str) -> (status: Status)
        ensures
            status == classification(text@, self.resolved_words(), self.disrupted_words()),
    {
        if mentions(text, &self.resolved) {
            Status::Resolved
        } else if mentions(text, &self.disrupted) {
            Status::Disrupted
        } else {
            Status::Unknown
        }
    }
}

/// Scans `words` in order and stops at the first one that occurs in `text`.
fn mentions(text: &str, words: &Vec<String>) -> (found: bool)
    ensures
        found == mentions_any(text@, words.deep_view()),
{
    let mut k: usize = 0;
    while k < words.len()
        invariant
            k <= words.len(),
            forall|j: int| 0 <= j < k ==> !is_substring(#[trigger] words.deep_view()[j], text@),
        decreases words.len() - k,
    {
        if contains(text, words[k].as_str()) {
            assert(is_substring(words.deep_view()[k as int], text@));
            return true;
        }
        k += 1;
    }
    false
}

/// Classifies `text` under the built-in word lists.
pub fn search_indicator(text: &str) -> (status: Status)
    ensures
        status == classification(text@, standard_resolved_words(), standard_disrupted_words()),
{
    let vocabulary = Vocabulary::standard();
    vocabulary.classify(text)
}

/// A word of the `resolved` list decides the status, even where a word of the
/// `disrupted` list occurs in the same text.
pub proof fn lemma_resolved_word_wins(
    text: Seq<char>,
    resolved: Seq<Seq<char>>,
    disrupted: Seq<Seq<char>>,
)
    requires
        mentions_any(text, resolved),
    ensures
        classification(text, resolved, disrupted) == Status::Resolved,
{
}

/// A text is `Disrupted` exactly when a word of the `disrupted` list occurs in
/// it and none of the `resolved` list does, and `Unknown` exactly when no word
/// of either list occurs in it.
pub proof fn lemma_classification_cases(
    text: Seq<char>,
    resolved: Seq<Seq<char>>,
    disrupted: Seq<Seq<char>>,
)
    ensures
        classification(text, resolved, disrupted) == Status::Resolved <==> mentions_any(
            text,
            resolved,
        ),
        classification(text, resolved, disrupted) == Status::Disrupted <==> !mentions_any(
            text,
            resolved,
        ) && mentions_any(text, disrupted),
        classification(text, resolved, disrupted) == Status::Unknown <==> !mentions_any(
            text,
            resolved,
        ) && !mentions_any(text, disrupted),
{
}

} // verus!
