//! Character-level helpers for strings.

use vstd::prelude::*;

verus! {

/// `text` with every leading repetition of `pat` removed. An empty `pat` removes nothing.
pub open spec fn trim_start(text: Seq<char>, pat: Seq<char>) -> Seq<char>
    decreases text.len(),
{
    if pat.len() > 0 && pat.is_prefix_of(text) {
        trim_start(text.skip(pat.len() as int), pat)
    } else {
        text
    }
}

/// What `trim_start` leaves is a tail of the text, and no longer begins with the pattern.
pub proof fn lemma_trim_start(text: Seq<char>, pat: Seq<char>)
    requires
        pat.len() > 0,
    ensures
        trim_start(text, pat).is_suffix_of(text),
        !pat.is_prefix_of(trim_start(text, pat)),
    decreases text.len(),
{
    if pat.is_prefix_of(text) {
        lemma_trim_start(text.skip(pat.len() as int), pat);
    }
}

/// The characters of `text`, in order.
pub fn chars_of(text: &str) -> (chars: Vec<char>)
    ensures
        chars@ == text@,
{
    let mut chars: Vec<char> = Vec::new();
    for c in it: text.chars()
        invariant
            it.seq() == text@,
            chars@ == it.seq().take(it.index()),
    {
        chars.push(c);
    }
    chars
}

/// Whether `pat` occurs in `text` at position `at`.
pub(crate) fn matches_at(text: &Vec<char>, at: usize, pat: &Vec<char>) -> (found: bool)
    requires
        at <= text.len(),
    ensures
        found == pat@.is_prefix_of(text@.skip(at as int)),
{
    let n: usize = pat.len();
    if text.len() - at < n {
        return false;
    }
    let mut i: usize = 0;
    while i < n
        invariant
            i <= n,
            n == pat.len(),
            at + n <= text.len(),
            forall|j: int| 0 <= j < i ==> text@[at + j] == pat@[j],
        decreases n - i,
    {
        if text[at + i] != pat[i] {
            return false;
        }
        i += 1;
    }
    true
}

/// The position in `text` at which `trim_start(text, pat)` begins.
pub(crate) fn trim_start_index(text: &Vec<char>, pat: &Vec<char>) -> (start: usize)
    requires
        pat.len() > 0,
    ensures
        start <= text.len(),
        text@.skip(start as int) == trim_start(text@, pat@),
{
    let mut start: usize = 0;
    assert(text@.skip(0) =~= text@);
    while matches_at(text, start, pat)
        invariant
            pat.len() > 0,
            start <= text.len(),
            trim_start(text@.skip(start as int), pat@) == trim_start(text@, pat@),
        decreases text.len() - start,
    {
        assert(text@.skip(start as int).skip(pat.len() as int) =~= text@.skip(start + pat.len()));
        start += pat.len();
    }
    start
}

/// Whether the character `c` occurs in `text`.
pub fn contains_char(text: &Vec<char>, c: char) -> (found: bool)
    ensures
        found == text@.contains(c),
{
    let mut i: usize = 0;
    while i < text.len()
        invariant
            i <= text.len(),
            forall|j: int| 0 <= j < i ==> text@[j] != c,
        decreases text.len() - i,
    {
        if text[i] == c {
            return true;
        }
        i += 1;
    }
    false
}

/// Whether `c` is an uppercase letter, as `char::is_uppercase` decides it.
pub uninterp spec fn is_uppercase(c: char) -> bool;

/// The characters that `char::to_lowercase` gives for `c`, in order.
pub uninterp spec fn lowercase(c: char) -> Seq<char>;

/// Calls `char::is_uppercase`, which looks `c` up in the Unicode tables of the standard
/// library. The contract only gives the answer its name.
#[verifier::external_body]
pub(crate) fn char_is_uppercase(c: char) -> (upper: bool)
    ensures
        upper == is_uppercase(c),
{
    c.is_uppercase()
}

/// Calls `char::to_lowercase`, which looks `c` up in the Unicode tables of the standard
/// library, and hands out the characters it gives. The contract only gives them their name.
#[verifier::external_body]
pub(crate) fn char_to_lowercase(c: char) -> (lower: Vec<char>)
    ensures
        lower@ == lowercase(c),
{
    c.to_lowercase().collect()
}

/// Calls `String::push`, which appends `c` to the end of `text`.
#[verifier::external_body]
pub(crate) fn push_char(text: &mut String, c: char)
    ensures
        final(text)@ == old(text)@.push(c),
{
    text.push(c)
}

} // verus!
