//! Searching a text for a phrase.

use vstd::prelude::*;
use vstd::string::StrSliceExecFns;

verus! {

/// Whether `phrase` stands in `text` at the position `at`.
pub open spec fn occurs_at(text: Seq<char>, phrase: Seq<char>, at: int) -> bool {
    &&& 0 <= at
    &&& at + phrase.len() <= text.len()
    &&& text.subrange(at, at + phrase.len()) == phrase
}

/// Whether `phrase` stands somewhere in `text`.
pub open spec fn mentions(text: Seq<char>, phrase: Seq<char>) -> bool {
    exists|at: int| occurs_at(text, phrase, at)
}

/// Whether `phrase` stands in `text` at the position `at`, which leaves room
/// for it.
fn matches_at(text: &str, phrase: &str, at: usize, text_len: usize, phrase_len: usize) -> (found:
    bool)
    requires
        text_len == text@.len(),
        phrase_len == phrase@.len(),
        at + phrase_len <= text_len,
    ensures
        found == occurs_at(text@, phrase@, at as int),
{
    let mut offset: usize = 0;
    while offset < phrase_len
        invariant
            text_len == text@.len(),
            phrase_len == phrase@.len(),
            at + phrase_len <= text_len,
            offset <= phrase_len,
            forall|k: int| 0 <= k < offset ==> text@[at + k] == phrase@[k],
        decreases phrase_len - offset,
    {
        if text.get_char(at + offset) != phrase.get_char(offset) {
            proof {
                let window = text@.subrange(at as int, at + phrase_len);
                assert(window[offset as int] == text@[at + offset]);
            }
            return false;
        }
        offset = offset + 1;
    }
    proof {
        assert(text@.subrange(at as int, at + phrase_len) =~= phrase@);
    }
    true
}

/// Searches `text` for `phrase`, character by character.
pub fn contains(text: &str, phrase: &str) -> (found: bool)
    ensures
        found == mentions(text@, phrase@),
{
    let text_len = text.unicode_len();
    let phrase_len = phrase.unicode_len();
    if phrase_len > text_len {
        return false;
    }
    let last = text_len - phrase_len;
    let mut at: usize = 0;
    while at < last
        invariant
            text_len == text@.len(),
            phrase_len == phrase@.len(),
            phrase_len <= text_len,
            last == text_len - phrase_len,
            at <= last,
            forall|k: int| 0 <= k < at ==> !occurs_at(text@, phrase@, k),
        decreases last - at,
    {
        if matches_at(text, phrase, at, text_len, phrase_len) {
            return true;
        }
        at = at + 1;
    }
    let found = matches_at(text, phrase, last, text_len, phrase_len);
    proof {
        assert(forall|k: int| k != last ==> !occurs_at(text@, phrase@, k));
    }
    found
}

} // verus!
