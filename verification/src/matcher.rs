//! Multi-pattern and regular-expression search, through the `aho-corasick`
//! and `regex` crates.
//!
//! The Aho-Corasick searches used by the guards are ASCII case-insensitive
//! with leftmost-first semantics; their contracts state that semantics over
//! the characters of the haystack. Regular-expression results take pages to
//! state (Unicode classes, repetition), so they are named and not described.
use vstd::prelude::*;
use aho_corasick::{AhoCorasickBuilder, MatchKind};
use regex::{Regex, RegexSet};
use crate::text::{occurs_ci, strs_view};

verus! {

// ---------------------------------------------------------------------------
// Aho-Corasick, ASCII case-insensitive, leftmost-first
// ---------------------------------------------------------------------------

/// Some pattern of `pats` occurs at position `i` of `h`.
pub open spec fn any_occurs_ci(h: Seq<char>, pats: Seq<Seq<char>>, i: int) -> bool {
    exists|j: int| 0 <= j < pats.len() && occurs_ci(h, #[trigger] pats[j], i)
}

/// Some pattern of `pats` occurs somewhere in `h`.
pub open spec fn any_match_ci(h: Seq<char>, pats: Seq<Seq<char>>) -> bool {
    exists|i: int| any_occurs_ci(h, pats, i)
}

/// Pattern `j` at position `i` is the leftmost-first match of `pats` in `h`:
/// no pattern occurs further left, and no earlier pattern occurs at `i`.
pub open spec fn leftmost_first(h: Seq<char>, pats: Seq<Seq<char>>, j: int, i: int) -> bool {
    &&& 0 <= j < pats.len()
    &&& occurs_ci(h, pats[j], i)
    &&& forall|q: int| 0 <= q < i ==> !any_occurs_ci(h, pats, q)
    &&& forall|j2: int| 0 <= j2 < j ==> !occurs_ci(h, #[trigger] pats[j2], i)
}

/// The number of UTF-8 bytes of the first `i` characters of `h`: the byte
/// offset of character position `i`.
pub open spec fn byte_offset(h: Seq<char>, i: int) -> nat {
    vstd::utf8::encode_utf8(h.take(i)).len()
}

/// Pattern sets small enough that building an automaton for them cannot
/// overflow the crate's state and pattern identifiers.
pub open spec fn small_pattern_set(pats: Seq<Seq<char>>) -> bool {
    &&& pats.len() <= 256
    &&& forall|j: int| 0 <= j < pats.len() ==> (#[trigger] pats[j]).len() <= 256
}

/// `AhoCorasick::find` on an automaton built by `AhoCorasickBuilder` with
/// ASCII case insensitivity and `MatchKind::LeftmostFirst` from `patterns`.
/// Returns the index of the matching pattern and the byte offset where the
/// match starts. The contract claims the crate's documented leftmost-first
/// semantics: the match starting furthest left, and among matches starting
/// there the one of the earliest pattern. It also claims that the build does
/// not fail for small pattern sets (the crate fails only when its state or
/// pattern identifiers overflow).
#[verifier::external_body]
pub(crate) fn ac_find(patterns: &[&str], haystack: &str) -> (r: Option<(usize, usize)>)
    requires
        small_pattern_set(strs_view(patterns@)),
    ensures
        r is None <==> !any_match_ci(haystack@, strs_view(patterns@)),
        r matches Some((j, b)) ==> exists|i: int|
            leftmost_first(haystack@, strs_view(patterns@), j as int, i) && b as nat
                == byte_offset(haystack@, i),
{
    let ac = AhoCorasickBuilder::new()
        .ascii_case_insensitive(true)
        .match_kind(MatchKind::LeftmostFirst)
        .build(patterns)
        .expect("pattern set within the automaton's limits");
    ac.find(haystack).map(|m| (m.pattern().as_usize(), m.start()))
}

/// `AhoCorasick::is_match` on an automaton built as for [`ac_find`]: whether
/// any pattern occurs in the haystack, ASCII letters compared without regard
/// to case.
#[verifier::external_body]
pub(crate) fn ac_is_match(patterns: &[&str], haystack: &str) -> (r: bool)
    requires
        small_pattern_set(strs_view(patterns@)),
    ensures
        r == any_match_ci(haystack@, strs_view(patterns@)),
{
    let ac = AhoCorasickBuilder::new()
        .ascii_case_insensitive(true)
        .match_kind(MatchKind::LeftmostFirst)
        .build(patterns)
        .expect("pattern set within the automaton's limits");
    ac.is_match(haystack)
}

// ---------------------------------------------------------------------------
// Regular expressions
// ---------------------------------------------------------------------------

/// The lowest index of a pattern of the set `patterns` that matches
/// `haystack` (what `RegexSet::matches(..).iter().next()` returns), or `None`
/// when none matches or the set does not compile.
pub uninterp spec fn regex_set_first(patterns: Seq<Seq<char>>, haystack: Seq<char>) -> Option<nat>;

/// What `Regex::replace_all(haystack, replacement)` returns for the regex
/// `pattern`, with `$n` in `replacement` standing for capture group `n`; the
/// haystack unchanged when the pattern does not compile.
pub uninterp spec fn regex_replaced(
    pattern: Seq<char>,
    haystack: Seq<char>,
    replacement: Seq<char>,
) -> Seq<char>;

/// Whether the regex `pattern` matches somewhere in `haystack`
/// (`Regex::is_match`); false when the pattern does not compile.
pub uninterp spec fn regex_matches(pattern: Seq<char>, haystack: Seq<char>) -> bool;

/// `RegexSet::new(patterns)` then `matches(haystack).iter().next()`: the
/// lowest index of a matching pattern. A set that does not compile gives
/// `None`. The contract names the result and claims only that an index is
/// one of the set.
#[verifier::external_body]
pub(crate) fn regex_set_first_match(patterns: &[&str], haystack: &str) -> (r: Option<usize>)
    ensures
        r is None <==> regex_set_first(strs_view(patterns@), haystack@) is None,
        r matches Some(i) ==> regex_set_first(strs_view(patterns@), haystack@) == Some(i as nat)
            && i < patterns@.len(),
{
    match RegexSet::new(patterns) {
        Ok(set) => set.matches(haystack).iter().next(),
        Err(_) => None,
    }
}

/// `RegexSet::new(patterns)` then `is_match(haystack)`: true exactly when
/// some pattern of the set matches, that is when `matches` is not empty (the
/// crate's documentation of both methods).
#[verifier::external_body]
pub(crate) fn regex_set_is_match(patterns: &[&str], haystack: &str) -> (r: bool)
    ensures
        r == regex_set_first(strs_view(patterns@), haystack@) is Some,
{
    match RegexSet::new(patterns) {
        Ok(set) => set.is_match(haystack),
        Err(_) => false,
    }
}

/// `Regex::new(pattern)` then `replace_all(haystack, replacement)`. The
/// contract names the result and says nothing more of it.
#[verifier::external_body]
pub(crate) fn regex_replace_all(pattern: &str, haystack: &str, replacement: &str) -> (r: String)
    ensures
        r@ == regex_replaced(pattern@, haystack@, replacement@),
{
    match Regex::new(pattern) {
        Ok(re) => re.replace_all(haystack, replacement).into_owned(),
        Err(_) => haystack.to_string(),
    }
}

/// `Regex::new(pattern)` then `is_match(haystack)`. The contract names the
/// result.
#[verifier::external_body]
pub(crate) fn regex_is_match(pattern: &str, haystack: &str) -> (r: bool)
    ensures
        r == regex_matches(pattern@, haystack@),
{
    match Regex::new(pattern) {
        Ok(re) => re.is_match(haystack),
        Err(_) => false,
    }
}

/// Two leftmost-first matches of the same pattern list in the same haystack
/// are the same match.
pub proof fn lemma_leftmost_first_unique(
    h: Seq<char>,
    pats: Seq<Seq<char>>,
    j1: int,
    i1: int,
    j2: int,
    i2: int,
)
    requires
        leftmost_first(h, pats, j1, i1),
        leftmost_first(h, pats, j2, i2),
    ensures
        j1 == j2,
        i1 == i2,
{
    if i1 < i2 {
        assert(any_occurs_ci(h, pats, i1));
    }
    if i2 < i1 {
        assert(any_occurs_ci(h, pats, i2));
    }
    if j1 < j2 {
        assert(occurs_ci(h, pats[j1], i2));
    }
    if j2 < j1 {
        assert(occurs_ci(h, pats[j2], i1));
    }
}

/// The leftmost-first match of `pats` in `h` as (pattern index, character
/// position); meaningful when some pattern occurs.
pub open spec fn leftmost_match(h: Seq<char>, pats: Seq<Seq<char>>) -> (int, int) {
    choose|j: int, i: int| #[trigger] leftmost_first(h, pats, j, i)
}

/// The index of the pattern of the leftmost-first match of `pats` in `h`,
/// if any pattern occurs.
pub open spec fn leftmost_pattern(h: Seq<char>, pats: Seq<Seq<char>>) -> Option<int> {
    if any_match_ci(h, pats) {
        Some(leftmost_match(h, pats).0)
    } else {
        None
    }
}

/// Some pattern occurs at a position no later than `i`, and at the first
/// such position.
proof fn lemma_first_position(h: Seq<char>, pats: Seq<Seq<char>>, i: int) -> (m: int)
    requires
        any_occurs_ci(h, pats, i),
    ensures
        0 <= m <= i,
        any_occurs_ci(h, pats, m),
        forall|q: int| 0 <= q < m ==> !any_occurs_ci(h, pats, q),
    decreases i,
{
    let j = choose|j: int| 0 <= j < pats.len() && occurs_ci(h, #[trigger] pats[j], i);
    assert(occurs_ci(h, pats[j], i));
    if exists|q: int| 0 <= q < i && any_occurs_ci(h, pats, q) {
        let q = choose|q: int| 0 <= q < i && any_occurs_ci(h, pats, q);
        lemma_first_position(h, pats, q)
    } else {
        i
    }
}

/// Among the patterns occurring at `i`, one no later than `j` comes first.
proof fn lemma_first_pattern(h: Seq<char>, pats: Seq<Seq<char>>, i: int, j: int) -> (m: int)
    requires
        0 <= j < pats.len(),
        occurs_ci(h, pats[j], i),
    ensures
        0 <= m <= j,
        occurs_ci(h, pats[m], i),
        forall|j2: int| 0 <= j2 < m ==> !occurs_ci(h, #[trigger] pats[j2], i),
    decreases j,
{
    if exists|j2: int| 0 <= j2 < j && occurs_ci(h, #[trigger] pats[j2], i) {
        let j2 = choose|j2: int| 0 <= j2 < j && occurs_ci(h, #[trigger] pats[j2], i);
        lemma_first_pattern(h, pats, i, j2)
    } else {
        j
    }
}

/// Whenever some pattern occurs, a leftmost-first match exists, and
/// `leftmost_match` names it.
pub proof fn lemma_leftmost_match_exists(h: Seq<char>, pats: Seq<Seq<char>>)
    requires
        any_match_ci(h, pats),
    ensures
        leftmost_first(h, pats, leftmost_match(h, pats).0, leftmost_match(h, pats).1),
{
    let i0 = choose|i: int| any_occurs_ci(h, pats, i);
    let i = lemma_first_position(h, pats, i0);
    let j0 = choose|j: int| 0 <= j < pats.len() && occurs_ci(h, #[trigger] pats[j], i);
    let j = lemma_first_pattern(h, pats, i, j0);
    assert(leftmost_first(h, pats, j, i));
    lemma_leftmost_is_named(h, pats, j, i);
}

/// A leftmost-first match at `(j, i)` is the one `leftmost_match` names.
pub proof fn lemma_leftmost_is_named(h: Seq<char>, pats: Seq<Seq<char>>, j: int, i: int)
    requires
        leftmost_first(h, pats, j, i),
    ensures
        any_match_ci(h, pats),
        leftmost_pattern(h, pats) == Some(j),
        leftmost_match(h, pats) == (j, i),
{
    assert(any_occurs_ci(h, pats, i));
    let (j2, i2) = leftmost_match(h, pats);
    lemma_leftmost_first_unique(h, pats, j, i, j2, i2);
}

} // verus!
