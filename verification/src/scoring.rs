//! Similarity scoring between a candidate window and the target text.
//!
//! The score of two character sequences is the number of index-aligned
//! positions where the characters are equal; positions past the shorter
//! sequence never contribute.  A second mode counts only the leading run
//! of matches, stopping at the first mismatch.

use vstd::prelude::*;

verus! {

/// Number of positions `i < n` where `w[i] == t[i]`.
pub open spec fn score_upto(w: Seq<char>, t: Seq<char>, n: int) -> nat
    decreases n,
{
    if n <= 0 {
        0
    } else {
        score_upto(w, t, n - 1) + (if w[n - 1] == t[n - 1] { 1nat } else { 0nat })
    }
}

/// Similarity of a window and a target: the count of index-aligned
/// positions, up to the shorter length, holding equal characters.
pub open spec fn score_spec(w: Seq<char>, t: Seq<char>) -> nat {
    score_upto(w, t, if w.len() <= t.len() { w.len() as int } else { t.len() as int })
}

/// Length of the leading run of index-aligned matches: the largest `k`
/// such that every position below `k` matches.
pub open spec fn prefix_score_spec(w: Seq<char>, t: Seq<char>) -> nat
    decreases w.len(),
{
    if w.len() == 0 || t.len() == 0 || w[0] != t[0] {
        0
    } else {
        1 + prefix_score_spec(w.drop_first(), t.drop_first())
    }
}

/// Which similarity the scorer computes: every index-aligned match, or
/// only the leading run of matches.  The search defaults to counting
/// every match.
#[derive(Clone, Copy, Debug, PartialEq, Eq, Structural)]
pub enum ScoreMode {
    Positional,
    Prefix,
}

impl Default for ScoreMode {
    fn default() -> (m: Self)
        ensures
            m == ScoreMode::Positional,
    {
        ScoreMode::Positional
    }
}

/// The similarity a given mode assigns to a window and a target.
pub open spec fn score_mode_spec(mode: ScoreMode, w: Seq<char>, t: Seq<char>) -> nat {
    match mode {
        ScoreMode::Positional => score_spec(w, t),
        ScoreMode::Prefix => prefix_score_spec(w, t),
    }
}

/// Scores two sequences under the chosen mode.
pub fn score_with(mode: ScoreMode, a: &Vec<char>, b: &Vec<char>) -> (r: usize)
    ensures
        r == score_mode_spec(mode, a@, b@),
{
    match mode {
        ScoreMode::Positional => compare(a, b),
        ScoreMode::Prefix => compare_prefix(a, b),
    }
}

/// Counts the positions where the two sequences hold the same character.
pub fn compare(a: &Vec<char>, b: &Vec<char>) -> (r: usize)
    ensures
        r == score_spec(a@, b@),
{
    let n: usize = if a.len() <= b.len() { a.len() } else { b.len() };
    let mut count: usize = 0;
    let mut i: usize = 0;
    while i < n
        invariant
            i <= n,
            n <= a@.len(),
            n <= b@.len(),
            count == score_upto(a@, b@, i as int),
            count <= i,
        decreases n - i,
    {
        if a[i] == b[i] {
            count = count + 1;
        }
        i = i + 1;
    }
    assert(n as int == if a@.len() <= b@.len() { a@.len() as int } else { b@.len() as int });
    count
}

/// Counts the leading positions where the two sequences hold the same
/// character, stopping at the first mismatch.
pub fn compare_prefix(a: &Vec<char>, b: &Vec<char>) -> (r: usize)
    ensures
        r == prefix_score_spec(a@, b@),
{
    let n: usize = if a.len() <= b.len() { a.len() } else { b.len() };
    let mut i: usize = 0;
    while i < n && a[i] == b[i]
        invariant
            i <= n,
            n <= a@.len(),
            n <= b@.len(),
            forall|j: int| 0 <= j < i ==> a@[j] == b@[j],
        decreases n - i,
    {
        i = i + 1;
    }
    proof {
        lemma_prefix_score_characterized(a@, b@, i as int);
    }
    i
}

/// Counting matches over the first `n` positions yields at most `n`,
/// and exactly `n` when a sequence is scored against itself.
proof fn lemma_score_upto_bounds(w: Seq<char>, t: Seq<char>, n: int)
    requires
        0 <= n,
        n <= w.len(),
        n <= t.len(),
    ensures
        score_upto(w, t, n) <= n,
        score_upto(w, w, n) == n,
    decreases n,
{
    if n > 0 {
        lemma_score_upto_bounds(w, t, n - 1);
    }
}

/// A score never exceeds the target's length, and a target scored
/// against itself attains exactly its length.
pub proof fn lemma_score_bounds(w: Seq<char>, t: Seq<char>)
    ensures
        score_spec(w, t) <= t.len(),
        score_spec(t, t) == t.len(),
{
    let n = if w.len() <= t.len() { w.len() as int } else { t.len() as int };
    lemma_score_upto_bounds(w, t, n);
    lemma_score_upto_bounds(t, t, t.len() as int);
}

/// Counting matches position by position does not depend on the order of
/// the two sequences.
proof fn lemma_score_upto_symmetric(a: Seq<char>, b: Seq<char>, n: int)
    ensures
        score_upto(a, b, n) == score_upto(b, a, n),
    decreases n,
{
    if n > 0 {
        lemma_score_upto_symmetric(a, b, n - 1);
    }
}

/// Scoring is symmetric in its two sequences.
pub proof fn lemma_score_symmetric(a: Seq<char>, b: Seq<char>)
    ensures
        score_spec(a, b) == score_spec(b, a),
{
    let n = if a.len() <= b.len() { a.len() as int } else { b.len() as int };
    lemma_score_upto_symmetric(a, b, n);
}

/// Against an empty target every window scores zero, so a worker's
/// record stays at zero and nothing is ever worth publishing.
pub proof fn lemma_score_empty_target(w: Seq<char>)
    ensures
        score_spec(w, Seq::<char>::empty()) == 0,
{
}

/// The leading-run score is exactly `k` when all positions below `k`
/// match and either an end or a mismatch stands at `k`.
proof fn lemma_prefix_score_characterized(w: Seq<char>, t: Seq<char>, k: int)
    requires
        0 <= k <= w.len(),
        k <= t.len(),
        forall|j: int| 0 <= j < k ==> w[j] == t[j],
        k < w.len() && k < t.len() ==> w[k] != t[k],
    ensures
        prefix_score_spec(w, t) == k,
    decreases k,
{
    if k > 0 {
        lemma_prefix_score_characterized(w.drop_first(), t.drop_first(), k - 1);
    }
}

} // verus!
