//! Title normalization: stripping a leading track number from a file stem.

use vstd::prelude::*;
use crate::text::{chars_of, string_of};

verus! {

/// An ASCII decimal digit.
pub open spec fn is_digit(c: char) -> bool {
    '0' <= c && c <= '9'
}

/// A character that may separate a track number from the title.
pub open spec fn is_separator(c: char) -> bool {
    c == '-' || c == '.' || c == '_' || c == ' '
}

/// The end of the longest run of digits of `s` that starts at `from`.
pub open spec fn digits_end(s: Seq<char>, from: int) -> int
    decreases s.len() - from,
{
    if 0 <= from < s.len() && is_digit(s[from]) {
        digits_end(s, from + 1)
    } else {
        from
    }
}

/// The end of the longest run of separators of `s` that starts at `from`.
pub open spec fn separators_end(s: Seq<char>, from: int) -> int
    decreases s.len() - from,
{
    if 0 <= from < s.len() && is_separator(s[from]) {
        separators_end(s, from + 1)
    } else {
        from
    }
}

/// The length of the track-number prefix of `s`: one or more digits followed
/// by one or more separators, both runs taken as long as possible. Zero where
/// `s` does not start with such a prefix.
pub open spec fn numbered_prefix_len(s: Seq<char>) -> int {
    let d = digits_end(s, 0);
    let e = separators_end(s, d);
    if 0 < d && d < e {
        e
    } else {
        0
    }
}

/// Whether `s` starts with `d` digits, which `p - d` spaces follow, zero or
/// one, and then separators up to position `n`.
pub open spec fn prefix_parts(s: Seq<char>, d: int, p: int, n: int) -> bool {
    &&& 0 < d <= p < n <= s.len()
    &&& p == d || (p == d + 1 && s[d] == ' ')
    &&& forall|i: int| 0 <= i < d ==> is_digit(#[trigger] s[i])
    &&& forall|i: int| p <= i < n ==> is_separator(#[trigger] s[i])
}

/// Whether the first `n` characters of `s` read as a track number with its
/// separators: digits, an optional space, then one or more of `-`, `.`, `_`
/// and space.
pub open spec fn is_numbered_prefix(s: Seq<char>, n: int) -> bool {
    exists|d: int, p: int| #[trigger] prefix_parts(s, d, p, n)
}

/// `s` without its track-number prefix.
pub open spec fn without_numbered_prefix(s: Seq<char>) -> Seq<char> {
    s.skip(numbered_prefix_len(s))
}

pub fn is_digit_char(c: char) -> (r: bool)
    ensures
        r == is_digit(c),
{
    '0' <= c && c <= '9'
}

pub fn is_separator_char(c: char) -> (r: bool)
    ensures
        r == is_separator(c),
{
    c == '-' || c == '.' || c == '_' || c == ' '
}

proof fn lemma_digits_end_bounds(s: Seq<char>, from: int)
    requires
        0 <= from <= s.len(),
    ensures
        from <= digits_end(s, from) <= s.len(),
    decreases s.len() - from,
{
    if from < s.len() && is_digit(s[from]) {
        lemma_digits_end_bounds(s, from + 1);
    }
}

proof fn lemma_separators_end_bounds(s: Seq<char>, from: int)
    requires
        0 <= from <= s.len(),
    ensures
        from <= separators_end(s, from) <= s.len(),
    decreases s.len() - from,
{
    if from < s.len() && is_separator(s[from]) {
        lemma_separators_end_bounds(s, from + 1);
    }
}

/// The position in `chars` at which the title starts.
fn numbered_prefix_end(chars: &Vec<char>) -> (end: usize)
    ensures
        end == numbered_prefix_len(chars@),
        end <= chars.len(),
{
    let n = chars.len();
    let mut d: usize = 0;
    while d < n && is_digit_char(chars[d])
        invariant
            d <= n,
            n == chars.len(),
            digits_end(chars@, 0) == digits_end(chars@, d as int),
        decreases n - d,
    {
        d += 1;
    }
    let mut e: usize = d;
    while e < n && is_separator_char(chars[e])
        invariant
            d <= e <= n,
            n == chars.len(),
            separators_end(chars@, d as int) == separators_end(chars@, e as int),
        decreases n - e,
    {
        e += 1;
    }
    if 0 < d && d < e {
        e
    } else {
        0
    }
}

/// Strips a leading track number and its separators from a file stem, so
/// that `"01 - Asja"` becomes `"Asja"`. A stem without such a prefix comes
/// back unchanged.
pub fn remove_numbered_prefix(s: &str) -> (title: String)
    ensures
        title@ == without_numbered_prefix(s@),
{
    let chars = chars_of(s);
    let start = numbered_prefix_end(&chars);
    let mut rest: Vec<char> = Vec::new();
    let mut i: usize = start;
    while i < chars.len()
        invariant
            start <= i <= chars.len(),
            rest@ == chars@.subrange(start as int, i as int),
        decreases chars.len() - i,
    {
        rest.push(chars[i]);
        i += 1;
    }
    assert(rest@ == chars@.skip(start as int));
    string_of(&rest)
}

/// A stem of which no start reads as a track number with its separators
/// is its own title.
pub proof fn lemma_unnumbered_stem_is_unchanged(s: Seq<char>)
    requires
        forall|n: int| !is_numbered_prefix(s, n),
    ensures
        without_numbered_prefix(s) == s,
{
    lemma_prefix_is_the_longest_match(s);
}

/// A stem that does not begin with a digit is its own title.
pub proof fn lemma_stem_without_number_is_unchanged(s: Seq<char>)
    requires
        s.len() == 0 || !is_digit(s[0]),
    ensures
        without_numbered_prefix(s) == s,
{
    assert(s.skip(0) =~= s);
}

/// The shape of a track-number prefix: with `d` the end of the digits and
/// `n` the end of the prefix, the stem starts with `d` digits, at least
/// one, followed by separators up to `n`, at least one, and what is left
/// starts with no separator. The title is what follows position `n`.
pub proof fn lemma_numbered_prefix_shape(s: Seq<char>)
    requires
        numbered_prefix_len(s) > 0,
    ensures
        ({
            let d = digits_end(s, 0);
            let n = numbered_prefix_len(s);
            &&& 0 < d < n <= s.len()
            &&& forall|i: int| 0 <= i < d ==> is_digit(#[trigger] s[i])
            &&& !is_digit(s[d])
            &&& forall|i: int| d <= i < n ==> is_separator(#[trigger] s[i])
            &&& n < s.len() ==> !is_separator(s[n])
            &&& without_numbered_prefix(s) == s.subrange(n, s.len() as int)
        }),
{
    let d = digits_end(s, 0);
    lemma_digits_end_bounds(s, 0);
    lemma_separators_end_bounds(s, d);
    lemma_digits_run(s, 0);
    lemma_separators_run(s, d);
}

/// The prefix that is stripped is the longest start of the stem that
/// reads as a track number with its separators; where no start of the stem
/// reads so, nothing is stripped.
pub proof fn lemma_prefix_is_the_longest_match(s: Seq<char>)
    ensures
        numbered_prefix_len(s) > 0 ==> is_numbered_prefix(s, numbered_prefix_len(s)),
        forall|n: int| is_numbered_prefix(s, n) ==> n <= numbered_prefix_len(s),
        numbered_prefix_len(s) == 0 ==> without_numbered_prefix(s) == s,
        without_numbered_prefix(s) == s.subrange(numbered_prefix_len(s), s.len() as int),
{
    let d0 = digits_end(s, 0);
    let n0 = numbered_prefix_len(s);
    lemma_digits_end_bounds(s, 0);
    lemma_separators_end_bounds(s, d0);
    lemma_digits_run(s, 0);
    lemma_separators_run(s, d0);
    if n0 > 0 {
        assert(prefix_parts(s, d0, d0, n0));
    } else {
        assert(s.skip(0) =~= s);
    }
    assert forall|n: int| is_numbered_prefix(s, n) implies n <= n0 by {
        let (d, p) = choose|d: int, p: int| #[trigger] prefix_parts(s, d, p, n);
        assert(is_separator(s[p]));
        assert(is_separator(s[d]));
        assert(!is_digit(s[d]));
        // The digits end where the match says, and separators follow up to `n`.
        if d0 < d {
            assert(is_digit(s[d0]));
        }
        if d < d0 {
            assert(is_digit(s[d]));
        }
        assert(d0 == d);
        if separators_end(s, d0) < n {
            let e = separators_end(s, d0);
            assert(is_separator(s[e]));
        }
    }
}

proof fn lemma_digits_run(s: Seq<char>, from: int)
    requires
        0 <= from <= s.len(),
    ensures
        forall|i: int| from <= i < digits_end(s, from) ==> is_digit(#[trigger] s[i]),
        digits_end(s, from) < s.len() ==> !is_digit(s[digits_end(s, from)]),
    decreases s.len() - from,
{
    if from < s.len() && is_digit(s[from]) {
        lemma_digits_run(s, from + 1);
    }
}

proof fn lemma_separators_run(s: Seq<char>, from: int)
    requires
        0 <= from <= s.len(),
    ensures
        forall|i: int| from <= i < separators_end(s, from) ==> is_separator(#[trigger] s[i]),
        separators_end(s, from) < s.len() ==> !is_separator(s[separators_end(s, from)]),
    decreases s.len() - from,
{
    if from < s.len() && is_separator(s[from]) {
        lemma_separators_run(s, from + 1);
    }
}

} // verus!
