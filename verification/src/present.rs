//! Pure preparation of a worker's best window for display: which
//! characters match the target, and what to show in their place.

use vstd::prelude::*;

verus! {

/// The character shown for a window character: newlines render as
/// spaces, everything else as itself.
pub open spec fn shown_char(c: char) -> char {
    if c == '\n' {
        ' '
    } else {
        c
    }
}

/// For each position up to the shorter length, the character to show and
/// whether the raw character matches the target there.  Matching is
/// decided on the raw character, before the newline substitution.
pub fn color_marks(text: &Vec<char>, target: &Vec<char>) -> (marks: Vec<(char, bool)>)
    ensures
        marks@.len() == (if text@.len() <= target@.len() {
            text@.len()
        } else {
            target@.len()
        }),
        forall|i: int|
            0 <= i < marks@.len() ==> #[trigger] marks@[i] == (
                shown_char(text@[i]),
                text@[i] == target@[i],
            ),
{
    let n: usize = if text.len() <= target.len() { text.len() } else { target.len() };
    let mut marks: Vec<(char, bool)> = Vec::new();
    let mut i: usize = 0;
    while i < n
        invariant
            i <= n,
            n <= text@.len(),
            n <= target@.len(),
            marks@.len() == i,
            forall|j: int|
                0 <= j < i ==> #[trigger] marks@[j] == (
                    shown_char(text@[j]),
                    text@[j] == target@[j],
                ),
        decreases n - i,
    {
        let c = text[i];
        let shown: char = if c == '\n' { ' ' } else { c };
        marks.push((shown, c == target[i]));
        i = i + 1;
    }
    marks
}

} // verus!
