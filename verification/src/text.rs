//! Currency codes as text: comparison, trimming and upper-casing.

use vstd::prelude::*;

verus! {

/// Whether `c` is white space: the value that `char::is_whitespace` gives
/// for it, which follows the Unicode property `White_Space`.
pub uninterp spec fn white_space(c: char) -> bool;

/// The upper-case form of `text`: the characters of the string that
/// `str::to_uppercase` returns for it.
pub uninterp spec fn uppercase(text: Seq<char>) -> Seq<char>;

/// `text` without its leading white space.
pub open spec fn trim_start(text: Seq<char>) -> Seq<char>
    decreases text.len(),
{
    if text.len() > 0 && white_space(text.first()) {
        trim_start(text.drop_first())
    } else {
        text
    }
}

/// `text` without its trailing white space.
pub open spec fn trim_end(text: Seq<char>) -> Seq<char>
    decreases text.len(),
{
    if text.len() > 0 && white_space(text.last()) {
        trim_end(text.drop_last())
    } else {
        text
    }
}

/// `text` without its leading and trailing white space.
pub open spec fn trimmed(text: Seq<char>) -> Seq<char> {
    trim_end(trim_start(text))
}

/// The form in which a currency code is looked up: trimmed, then upper-cased.
pub open spec fn normalized(text: Seq<char>) -> Seq<char> {
    uppercase(trimmed(text))
}

/// Calls `char::is_whitespace`. Trusted: the result is the value that
/// `white_space` names.
#[verifier::external_body]
fn is_white_space(c: char) -> (b: bool)
    ensures
        b == white_space(c),
{
    c.is_whitespace()
}

/// Calls `str::to_uppercase`. Trusted: the returned string holds the
/// characters that `uppercase` names for the characters of `text`.
#[verifier::external_body]
fn to_uppercase(text: &str) -> (upper: String)
    ensures
        upper@ == uppercase(text@),
{
    text.to_uppercase()
}

/// Compares two string slices with `==`. Trusted: they are equal exactly when
/// they hold the same characters.
#[verifier::external_body]
pub(crate) fn same_text(a: &str, b: &str) -> (same: bool)
    ensures
        same == (a@ == b@),
{
    a == b
}

/// Up to the first character that is no white space, `trim_start` removes
/// everything.
proof fn lemma_trim_start(text: Seq<char>, from: int)
    requires
        0 <= from <= text.len(),
        forall|k: int| 0 <= k < from ==> white_space(#[trigger] text[k]),
        from < text.len() ==> !white_space(text[from]),
    ensures
        trim_start(text) == text.subrange(from, text.len() as int),
    decreases from,
{
    if from == 0 {
        assert(text.subrange(0, text.len() as int) == text);
    } else {
        let rest = text.drop_first();
        assert(white_space(text[0]));
        assert forall|k: int| 0 <= k < from - 1 implies white_space(#[trigger] rest[k]) by {
            assert(rest[k] == text[k + 1]);
        }
        lemma_trim_start(rest, from - 1);
        assert(rest.subrange(from - 1, rest.len() as int) == text.subrange(
            from,
            text.len() as int,
        ));
    }
}

/// From the last character that is no white space on, `trim_end` removes
/// everything.
proof fn lemma_trim_end(text: Seq<char>, to: int)
    requires
        0 <= to <= text.len(),
        forall|k: int| to <= k < text.len() ==> white_space(#[trigger] text[k]),
        0 < to ==> !white_space(text[to - 1]),
    ensures
        trim_end(text) == text.subrange(0, to),
    decreases text.len() - to,
{
    if to == text.len() {
        assert(text.subrange(0, to) == text);
    } else {
        let rest = text.drop_last();
        assert(white_space(text[text.len() - 1]));
        assert forall|k: int| to <= k < rest.len() implies white_space(#[trigger] rest[k]) by {
            assert(rest[k] == text[k]);
        }
        lemma_trim_end(rest, to);
        assert(rest.subrange(0, to) == text.subrange(0, to));
    }
}

/// Removes leading and trailing white space.
pub fn trim(text: &str) -> (inner: &str)
    ensures
        inner@ == trimmed(text@),
{
    let n: usize = text.unicode_len();
    // The part that stays runs from the first character that is no white
    // space to the last one; `at` counts the characters read.
    let mut from: usize = 0;
    let mut to: usize = 0;
    let mut at: usize = 0;
    for c in chars: text.chars()
        invariant
            n == text@.len(),
            chars.seq() == text@,
            at == chars.index(),
            from <= to <= at,
            forall|k: int| 0 <= k < at && !(from <= k < to) ==> white_space(#[trigger] text@[k]),
            from < to ==> !white_space(text@[from as int]) && !white_space(text@[to - 1]),
    {
        if !is_white_space(c) {
            if from == to {
                from = at;
            }
            to = at + 1;
        }
        at += 1;
    }
    proof {
        let kept = text@.subrange(from as int, n as int);
        if from == to {
            lemma_trim_start(text@, n as int);
            assert(text@.subrange(n as int, n as int) == text@.subrange(from as int, to as int));
        } else {
            lemma_trim_start(text@, from as int);
            lemma_trim_end(kept, to - from);
            assert(kept.subrange(0, to - from) == text@.subrange(from as int, to as int));
        }
    }
    text.substring_char(from, to)
}

/// Brings a currency code into the form in which it is looked up.
pub fn normalize(code: &str) -> (normal: String)
    ensures
        normal@ == normalized(code@),
{
    to_uppercase(trim(code))
}

} // verus!
