//! What is said of texts and lists, in the plainest terms.

use vstd::prelude::*;

verus! {

/// Whether a text starts with `prefix`.
pub open spec fn leads(text: Seq<char>, prefix: Seq<char>) -> bool {
    prefix.len() <= text.len() && text.take(prefix.len() as int) == prefix
}

/// Whether a text ends with `suffix`.
pub open spec fn closes(text: Seq<char>, suffix: Seq<char>) -> bool {
    suffix.len() <= text.len() && text.skip(text.len() - suffix.len()) == suffix
}

/// Whether a text holds `word` somewhere, with anything before and behind it.
pub open spec fn holds(text: Seq<char>, word: Seq<char>) -> bool {
    exists|before: Seq<char>, after: Seq<char>| text == #[trigger] (before + word + after)
}

/// Whether the first entry under a name has the given value.
pub open spec fn named<T>(entries: Seq<(Seq<char>, T)>, name: Seq<char>, value: T) -> bool {
    exists|i: int|
        {
            &&& 0 <= i < entries.len()
            &&& #[trigger] entries[i] == (name, value)
            &&& forall|j: int| 0 <= j < i ==> (#[trigger] entries[j]).0 != name
        }
}

/// Whether no entry has a name.
pub open spec fn unnamed<T>(entries: Seq<(Seq<char>, T)>, name: Seq<char>) -> bool {
    forall|i: int| 0 <= i < entries.len() ==> (#[trigger] entries[i]).0 != name
}

/// The first entry under a name, given its position.
pub proof fn lemma_named_at<T>(
    entries: Seq<(Seq<char>, T)>,
    name: Seq<char>,
    value: T,
    at: int,
)
    requires
        0 <= at < entries.len(),
        entries[at] == (name, value),
        forall|j: int| 0 <= j < at ==> (#[trigger] entries[j]).0 != name,
    ensures
        named(entries, name, value),
{
}

} // verus!
