use monke::view_model::ViewModel;
use monke::worker::{worker_step, Window, WorkerState};

fn chars(s: &str) -> Vec<char> {
    s.chars().collect()
}

#[test]
fn window_starts_as_spaces() {
    let w = Window::new(4);
    assert_eq!(w.snapshot(), chars("    "));
}

#[test]
fn window_slides_newest_first() {
    let mut w = Window::new(3);
    w.slide('a');
    assert_eq!(w.snapshot(), chars("a  "));
    w.slide('b');
    assert_eq!(w.snapshot(), chars("ba "));
    w.slide('c');
    w.slide('d');
    assert_eq!(w.snapshot(), chars("dcb"));
}

#[test]
fn empty_window_stays_empty() {
    let mut w = Window::new(0);
    w.slide('a');
    assert_eq!(w.snapshot(), chars(""));
}

#[test]
fn local_best_never_decreases() {
    let target = chars("ab");
    let mut st = WorkerState::new(0, target.len());
    let mut prev = st.best;
    for c in ['a', 'x', 'b', 'a', 'x', 'x'] {
        worker_step(&mut st, c, &target, 1000);
        assert!(st.best >= prev);
        prev = st.best;
    }
}

// Two scripted draws 'b' then 'a' fill the window with "ab"; the worker
// publishes (2, "ab") and the global record becomes 2.
#[test]
fn scripted_draws_reach_a_perfect_score() {
    let target = chars("ab");
    let mut vm = ViewModel::new(target.clone(), 1);
    let mut st = WorkerState::new(0, target.len());

    let out = worker_step(&mut st, 'b', &target, 1000);
    if let Some((score, text)) = out.improved {
        assert!(vm.publish(0, score, text));
    }
    let out = worker_step(&mut st, 'a', &target, 1000);
    let (score, text) = out.improved.expect("a perfect window is an improvement");
    assert_eq!(score, 2);
    assert_eq!(text, chars("ab"));
    assert!(vm.publish(0, score, text));
    assert_eq!(vm.global_best(), 2);
    assert_eq!(vm.slot_score(0), 2);
    assert_eq!(vm.slot_text(0), &chars("ab"));
}

// With a single-letter alphabet the Lth draw completes the target.
#[test]
fn uniform_target_is_reached_after_length_draws() {
    let target = chars("aaaa");
    let mut vm = ViewModel::new(target.clone(), 2);
    for n in 0..2usize {
        let mut st = WorkerState::new(n, target.len());
        for draw in 1..=target.len() {
            let out = worker_step(&mut st, 'a', &target, 1000);
            assert_eq!(st.best, draw);
            let (score, text) = out.improved.expect("every draw improves");
            assert_eq!(score, draw);
            assert!(vm.publish(n, score, text));
        }
        assert_eq!(st.best, 4);
        assert_eq!(vm.slot_score(n), 4);
    }
    assert_eq!(vm.global_best(), 4);
}

// An empty target scores zero forever: no update is ever produced and
// the record stays zero while tries advance.
#[test]
fn empty_target_never_improves() {
    let target = chars("");
    let mut vm = ViewModel::new(target.clone(), 1);
    let mut st = WorkerState::new(0, 0);
    for c in ['a', 'b', 'c', ' ', '\n', 'z'] {
        let out = worker_step(&mut st, c, &target, 3);
        assert!(out.improved.is_none());
        if let Some(b) = out.flushed {
            vm.add_tries(b);
        }
    }
    assert_eq!(st.best, 0);
    assert_eq!(vm.global_best(), 0);
    assert_eq!(vm.global_tries(), 6);
    assert_eq!(vm.slot_score(0), 0);
    assert_eq!(vm.slot_text(0), &chars(""));
}

// A target outside the alphabet is never matched: the score stays zero
// and nothing is published, while tries grow.
#[test]
fn unreachable_target_never_publishes() {
    let target = chars("y");
    let mut vm = ViewModel::new(target.clone(), 1);
    let mut st = WorkerState::new(0, target.len());
    let mut published = false;
    for _ in 0..500 {
        let out = worker_step(&mut st, 'x', &target, 100);
        published = published || out.improved.is_some();
        if let Some(b) = out.flushed {
            vm.add_tries(b);
        }
    }
    assert!(!published);
    assert_eq!(st.best, 0);
    assert_eq!(vm.global_best(), 0);
    assert_eq!(vm.global_tries(), 500);
}

// A deterministic seed forces a worker on a one-letter target to publish
// a score of 1 within finitely many draws.
#[test]
fn seeded_worker_reaches_single_letter_target() {
    let target = chars("a");
    let mut rng = fastrand::Rng::with_seed(7);
    let mut st = WorkerState::new(0, target.len());
    let mut reached = None;
    for draw in 1..=10000u32 {
        let c = monke::alphabet::rand_char(&mut rng);
        let out = worker_step(&mut st, c, &target, 100000);
        if let Some((score, text)) = out.improved {
            assert_eq!(score, 1);
            assert_eq!(text, chars("a"));
            reached = Some(draw);
            break;
        }
    }
    assert!(reached.is_some());
    assert_eq!(st.best, 1);
}

#[test]
fn batches_flush_at_the_batch_size() {
    let target = chars("ab");
    let mut st = WorkerState::new(0, target.len());
    for i in 1..=7u64 {
        let out = worker_step(&mut st, 'x', &target, 3);
        if i % 3 == 0 {
            assert_eq!(out.flushed, Some(3));
            assert_eq!(st.batch, 0);
        } else {
            assert_eq!(out.flushed, None);
            assert_eq!(st.batch, i % 3);
        }
    }
}
