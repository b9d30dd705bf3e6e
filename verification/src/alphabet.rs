//! The sampling alphabet: the 26 lowercase Latin letters, space and
//! newline, together with a uniform draw from it.

use vstd::prelude::*;
use crate::rng;

verus! {

/// The 28 candidate characters, as a sequence.  Order is irrelevant to
/// correctness; it only fixes which index yields which character.
pub open spec fn alphabet_seq() -> Seq<char> {
    seq![
        'a', 'b', 'c', 'd', 'e', 'f', 'g', 'h', 'i', 'j', 'k', 'l', 'm',
        'n', 'o', 'p', 'q', 'r', 's', 't', 'u', 'v', 'w', 'x', 'y', 'z',
        ' ', '\n',
    ]
}

/// Whether a character can ever be drawn by a worker.
pub open spec fn in_alphabet(c: char) -> bool {
    alphabet_seq().contains(c)
}

/// How many characters the alphabet holds.
pub const ALPHABET_LEN: usize = 28;

/// The alphabet character at a given index.
pub fn alphabet_char(i: usize) -> (c: char)
    requires
        i < ALPHABET_LEN,
    ensures
        c == alphabet_seq()[i as int],
        in_alphabet(c),
{
    let c: char = match i {
        0 => 'a',
        1 => 'b',
        2 => 'c',
        3 => 'd',
        4 => 'e',
        5 => 'f',
        6 => 'g',
        7 => 'h',
        8 => 'i',
        9 => 'j',
        10 => 'k',
        11 => 'l',
        12 => 'm',
        13 => 'n',
        14 => 'o',
        15 => 'p',
        16 => 'q',
        17 => 'r',
        18 => 's',
        19 => 't',
        20 => 'u',
        21 => 'v',
        22 => 'w',
        23 => 'x',
        24 => 'y',
        25 => 'z',
        26 => ' ',
        _ => '\n',
    };
    assert(alphabet_seq().contains(alphabet_seq()[i as int]));
    c
}

/// Number of positions `i < n` of the target whose character lies in the
/// alphabet.
pub open spec fn attainable_upto(t: Seq<char>, n: int) -> nat
    decreases n,
{
    if n <= 0 {
        0
    } else {
        attainable_upto(t, n - 1) + (if in_alphabet(t[n - 1]) { 1nat } else { 0nat })
    }
}

/// The highest score any drawn window can reach against a target: the
/// count of target positions whose character lies in the alphabet.
pub open spec fn attainable_spec(t: Seq<char>) -> nat {
    attainable_upto(t, t.len() as int)
}

proof fn lemma_attainable_upto_bound(w: Seq<char>, t: Seq<char>, n: int)
    requires
        n <= w.len(),
        n <= t.len(),
        forall|i: int| 0 <= i < n ==> in_alphabet(#[trigger] w[i]),
    ensures
        crate::scoring::score_upto(w, t, n) <= attainable_upto(t, n),
    decreases n,
{
    if n > 0 {
        lemma_attainable_upto_bound(w, t, n - 1);
    }
}

/// Target positions holding characters outside the alphabet can never
/// contribute: a window drawn from the alphabet scores at most the count
/// of target positions whose character lies in the alphabet.
pub proof fn lemma_attainable_bound(w: Seq<char>, t: Seq<char>)
    requires
        w.len() == t.len(),
        forall|i: int| 0 <= i < w.len() ==> in_alphabet(#[trigger] w[i]),
    ensures
        crate::scoring::score_spec(w, t) <= attainable_spec(t),
{
    lemma_attainable_upto_bound(w, t, t.len() as int);
}

/// Draws one character uniformly from the alphabet.
pub fn rand_char(rng: &mut fastrand::Rng) -> (c: char)
    ensures
        in_alphabet(c),
{
    let i = rng::rng_usize(rng, ALPHABET_LEN);
    alphabet_char(i)
}

} // verus!
