//! Text primitives that the classifier and the line resolver share.

use vstd::prelude::*;

verus! {

/// `word` stands in `text` at position `at`, character for character.
pub open spec fn occurs_at(word: Seq<char>, text: Seq<char>, at: int) -> bool {
    &&& 0 <= at
    &&& at + word.len() <= text.len()
    &&& text.subrange(at, at + word.len()) =~= word
}

/// `word` occurs somewhere in `text` as a contiguous run of characters.
/// The comparison is exact: case matters and word boundaries do not.
pub open spec fn is_substring(word: Seq<char>, text: Seq<char>) -> bool {
    exists|at: int| occurs_at(word, text, at)
}

/// The upper-case form that the standard library gives a text.
pub uninterp spec fn uppercased(text: Seq<char>) -> Seq<char>;

/// `str::contains` with a string pattern. The standard library documents it
/// as true exactly when the pattern matches a sub-slice of the text; both
/// being valid UTF-8, that is an occurrence character for character.
#[verifier::external_body]
pub(crate) fn contains(text: &str, word: &str) -> (found: bool)
    ensures
        found == is_substring(word@, text@),
{
    text.contains(word)
}

/// `str::to_uppercase`. The mapping follows the Unicode tables and is not
/// spelled out here: the result is only given its name.
#[verifier::external_body]
pub(crate) fn uppercase(text: &str) -> (upper: String)
    ensures
        upper@ == uppercased(text@),
{
    text.to_uppercase()
}

/// Whether two texts hold the same characters.
pub fn same_text(a: &str, b: &str) -> (same: bool)
    ensures
        same == (a@ == b@),
{
    a.to_owned() == b.to_owned()
}

} // verus!
