//! A worker's private state and one iteration of its search loop: slide
//! the window by one drawn character, rescore it, and report what must
//! cross the publication boundary.

use vstd::prelude::*;
use crate::scoring::{compare, score_spec};

verus! {

/// How many draws a worker accumulates locally before adding them to the
/// global try counter in one step.
pub const BATCH_SIZE: u64 = 100000;

/// The window after one character is prepended and the oldest dropped;
/// an empty window stays empty.
pub open spec fn slide_spec(w: Seq<char>, c: char) -> Seq<char> {
    (seq![c] + w).take(w.len() as int)
}

/// A worker's sliding view over its last draws, newest first, of fixed
/// length.
pub struct Window {
    chars: Vec<char>,
}

impl Window {
    pub closed spec fn view(&self) -> Seq<char> {
        self.chars@
    }

    /// A window of `len` spaces.
    pub fn new(len: usize) -> (w: Window)
        ensures
            w@ == Seq::new(len as nat, |i: int| ' '),
    {
        let chars: Vec<char> = vec![' '; len];
        proof {
            assert(chars@ =~= Seq::new(len as nat, |i: int| ' '));
        }
        Window { chars }
    }

    /// Prepends one drawn character and drops the oldest so the length
    /// stays fixed.
    pub fn slide(&mut self, c: char)
        ensures
            final(self)@ == slide_spec(old(self)@, c),
    {
        let len = self.chars.len();
        self.chars.insert(0, c);
        self.chars.truncate(len);
        proof {
            assert(self.chars@ =~= slide_spec(old(self)@, c));
        }
    }

    /// The window's characters, for scoring.
    pub fn as_chars(&self) -> (v: &Vec<char>)
        ensures
            v@ == self@,
    {
        &self.chars
    }

    /// A copy of the window's characters, for publication.
    pub fn snapshot(&self) -> (v: Vec<char>)
        ensures
            v@ == self@,
    {
        let mut v: Vec<char> = Vec::new();
        let mut i: usize = 0;
        while i < self.chars.len()
            invariant
                i <= self.chars@.len(),
                v@ == self.chars@.take(i as int),
            decreases self.chars@.len() - i,
        {
            v.push(self.chars[i]);
            i = i + 1;
        }
        proof {
            assert(v@ =~= self.chars@);
        }
        v
    }
}

/// Everything a worker owns: its slot index, its window, its personal
/// record, and the count of draws not yet added to the global counter.
pub struct WorkerState {
    pub index: usize,
    pub window: Window,
    pub best: usize,
    pub batch: u64,
}

/// What one iteration asks the shared state to do: publish a new
/// personal record, and/or add a full batch to the global try counter.
pub struct StepOutcome {
    pub improved: Option<(usize, Vec<char>)>,
    pub flushed: Option<u64>,
}

impl WorkerState {
    /// A fresh worker: window of `target_len` spaces, no record, an
    /// empty batch.
    pub fn new(index: usize, target_len: usize) -> (s: WorkerState)
        ensures
            s.index == index,
            s.window@ == Seq::new(target_len as nat, |i: int| ' '),
            s.best == 0,
            s.batch == 0,
    {
        WorkerState { index, window: Window::new(target_len), best: 0, batch: 0 }
    }
}

/// Sum of the workers' residual batch counters.
pub open spec fn sum_batches(s: Seq<u64>) -> int
    decreases s.len(),
{
    if s.len() == 0 {
        0
    } else {
        sum_batches(s.drop_last()) + s.last()
    }
}

/// The true number of draws exceeds the flushed try counter only by the
/// workers' residual batches, and each residual stays below the batch
/// size, so the lag is below one batch per worker.
pub proof fn lemma_tries_lag_bound(residuals: Seq<u64>, batch_size: u64)
    requires
        forall|i: int| 0 <= i < residuals.len() ==> #[trigger] residuals[i] < batch_size,
    ensures
        sum_batches(residuals) <= residuals.len() * batch_size,
    decreases residuals.len(),
{
    if residuals.len() > 0 {
        lemma_tries_lag_bound(residuals.drop_last(), batch_size);
        assert((residuals.len() - 1) * batch_size + batch_size == residuals.len() * batch_size)
            by (nonlinear_arith);
    }
}

/// One iteration of a worker's loop, fed the character it drew: slide
/// the window, rescore it against the target, raise the personal record
/// on strict improvement, and flush the batch counter when it fills.
/// The personal record never decreases.
pub fn worker_step(state: &mut WorkerState, c: char, target: &Vec<char>, batch_size: u64) -> (out:
    StepOutcome)
    requires
        old(state).window@.len() == target@.len(),
        old(state).batch < batch_size,
    ensures
        final(state).index == old(state).index,
        final(state).window@ == slide_spec(old(state).window@, c),
        final(state).best >= old(state).best,
        ({
            let sim = score_spec(final(state).window@, target@);
            &&& sim > old(state).best ==> {
                &&& final(state).best == sim
                &&& out.improved matches Some((b, w)) && b == sim && w@ == final(state).window@
            }
            &&& sim <= old(state).best ==> {
                &&& final(state).best == old(state).best
                &&& out.improved is None
            }
        }),
        final(state).batch < batch_size,
        old(state).batch + 1 == batch_size ==> final(state).batch == 0 && out.flushed == Some(
            batch_size,
        ),
        old(state).batch + 1 < batch_size ==> final(state).batch == old(state).batch + 1
            && out.flushed is None,
{
    state.window.slide(c);
    let similarity = compare(state.window.as_chars(), target);
    let improved: Option<(usize, Vec<char>)> = if similarity > state.best {
        state.best = similarity;
        Some((similarity, state.window.snapshot()))
    } else {
        None
    };
    state.batch = state.batch + 1;
    let flushed: Option<u64> = if state.batch == batch_size {
        state.batch = 0;
        Some(batch_size)
    } else {
        None
    };
    StepOutcome { improved, flushed }
}

} // verus!
