//! The read-mostly state bridging workers and a presenter: the global
//! try counter, the global best score, and each worker's personal best
//! with the window text that earned it.

use vstd::prelude::*;
use crate::scoring::{compare, score_spec};

verus! {

/// Progress summary read by a presenter.  Well-formedness ties every
/// published slot to the target: its text rescores to exactly its score,
/// its length is the target's (or it is still the empty placeholder),
/// and no slot exceeds the global best.
pub struct ViewModel {
    target: Vec<char>,
    global_tries: u64,
    global_best: usize,
    per_worker: Vec<(usize, Vec<char>)>,
}

impl ViewModel {
    /// The fixed text the workers approximate.
    pub closed spec fn target_seq(self) -> Seq<char> {
        self.target@
    }

    /// Total characters drawn across all workers, as far as flushed.
    pub closed spec fn tries(self) -> u64 {
        self.global_tries
    }

    /// The maximum similarity ever published by any worker.
    pub closed spec fn best(self) -> usize {
        self.global_best
    }

    /// Each worker's published personal best: a score and the window
    /// text observed at that score.
    pub closed spec fn slots(self) -> Seq<(usize, Seq<char>)> {
        self.per_worker@.map_values(|s: (usize, Vec<char>)| (s.0, s.1@))
    }

    /// Every published text rescores to its published score, has the
    /// target's length or is the empty placeholder, and no published
    /// score exceeds the global best.
    pub open spec fn wf(self) -> bool {
        forall|n: int|
            0 <= n < self.slots().len() ==> {
                let slot = #[trigger] self.slots()[n];
                &&& slot.0 <= self.best()
                &&& score_spec(slot.1, self.target_seq()) == slot.0
                &&& slot.1.len() == self.target_seq().len() || slot.1.len() == 0
            }
    }

    /// A fresh view model: no tries, no record, one empty placeholder
    /// slot per worker.
    pub fn new(target: Vec<char>, workers: usize) -> (vm: ViewModel)
        ensures
            vm.wf(),
            vm.target_seq() == target@,
            vm.tries() == 0,
            vm.best() == 0,
            vm.slots().len() == workers,
            forall|n: int|
                0 <= n < workers ==> #[trigger] vm.slots()[n] == (0usize, Seq::<char>::empty()),
    {
        let mut per_worker: Vec<(usize, Vec<char>)> = Vec::new();
        let mut n: usize = 0;
        while n < workers
            invariant
                n <= workers,
                per_worker@.len() == n,
                forall|i: int|
                    0 <= i < n ==> #[trigger] per_worker@[i].0 == 0usize && per_worker@[i].1@
                        =~= Seq::<char>::empty(),
            decreases workers - n,
        {
            let empty: Vec<char> = Vec::new();
            per_worker.push((0usize, empty));
            n = n + 1;
        }
        let vm = ViewModel { target, global_tries: 0, global_best: 0, per_worker };
        proof {
            assert forall|i: int| 0 <= i < workers implies #[trigger] vm.slots()[i] == (
                0usize,
                Seq::<char>::empty(),
            ) by {
                assert(vm.slots()[i].1 =~= Seq::<char>::empty());
            }
        }
        vm
    }

    /// How many worker slots exist.
    pub fn worker_count(&self) -> (n: usize)
        ensures
            n == self.slots().len(),
    {
        self.per_worker.len()
    }

    /// The published try counter.
    pub fn global_tries(&self) -> (t: u64)
        ensures
            t == self.tries(),
    {
        self.global_tries
    }

    /// The published global record.
    pub fn global_best(&self) -> (b: usize)
        ensures
            b == self.best(),
    {
        self.global_best
    }

    /// One worker's published score.
    pub fn slot_score(&self, n: usize) -> (s: usize)
        requires
            n < self.slots().len(),
        ensures
            s == self.slots()[n as int].0,
    {
        self.per_worker[n].0
    }

    /// One worker's published window text.
    pub fn slot_text(&self, n: usize) -> (t: &Vec<char>)
        requires
            n < self.slots().len(),
        ensures
            t@ == self.slots()[n as int].1,
    {
        &self.per_worker[n].1
    }

    /// Adds a flushed batch to the global try counter, saturating at the
    /// counter's ceiling so the counter never decreases.
    pub fn add_tries(&mut self, n: u64)
        ensures
            final(self).tries() >= old(self).tries(),
            old(self).tries() + n <= u64::MAX ==> final(self).tries() == old(self).tries() + n,
            old(self).tries() + n > u64::MAX ==> final(self).tries() == u64::MAX,
            final(self).target_seq() == old(self).target_seq(),
            final(self).best() == old(self).best(),
            final(self).slots() == old(self).slots(),
            old(self).wf() ==> final(self).wf(),
    {
        if self.global_tries <= u64::MAX - n {
            self.global_tries = self.global_tries + n;
        } else {
            self.global_tries = u64::MAX;
        }
    }

    /// Accepts a worker's improvement: when the slot exists, the text has
    /// the target's length, it rescores to exactly the claimed score, and
    /// the score strictly beats the slot's current one, the slot is
    /// overwritten and the global record raised to at least that score.
    /// Anything else is refused unchanged, so the per-slot score and the
    /// global record never decrease.
    pub fn publish(&mut self, n: usize, score: usize, text: Vec<char>) -> (ok: bool)
        requires
            old(self).wf(),
        ensures
            final(self).wf(),
            final(self).target_seq() == old(self).target_seq(),
            final(self).tries() == old(self).tries(),
            final(self).slots().len() == old(self).slots().len(),
            final(self).best() >= old(self).best(),
            ok <==> {
                &&& n < old(self).slots().len()
                &&& text@.len() == old(self).target_seq().len()
                &&& score_spec(text@, old(self).target_seq()) == score
                &&& score > old(self).slots()[n as int].0
            },
            ok ==> final(self).slots() == old(self).slots().update(
                n as int,
                (score, text@),
            ) && final(self).best() == (if score > old(self).best() {
                score
            } else {
                old(self).best()
            }),
            !ok ==> final(self).slots() == old(self).slots() && final(self).best() == old(
                self,
            ).best(),
    {
        if n >= self.per_worker.len() {
            return false;
        }
        if text.len() != self.target.len() {
            return false;
        }
        let rescored = compare(&text, &self.target);
        if rescored != score {
            return false;
        }
        if score <= self.per_worker[n].0 {
            return false;
        }
        if score > self.global_best {
            self.global_best = score;
        }
        let ghost before = self.slots();
        self.per_worker.set(n, (score, text));
        proof {
            assert(self.slots() =~= before.update(n as int, (score, text@)));
        }
        true
    }

    /// Every published text, rescored against the target, yields exactly
    /// the published score.
    pub proof fn lemma_published_text_rescores(self, n: int)
        requires
            self.wf(),
            0 <= n < self.slots().len(),
        ensures
            score_spec(self.slots()[n].1, self.target_seq()) == self.slots()[n].0,
            self.slots()[n].0 <= self.best(),
    {
    }
}

} // verus!
