use monke::scoring::{compare, compare_prefix, score_with, ScoreMode};

fn chars(s: &str) -> Vec<char> {
    s.chars().collect()
}

#[test]
fn score_counts_aligned_matches() {
    assert_eq!(compare(&chars("ab"), &chars("ab")), 2);
    assert_eq!(compare(&chars("ab"), &chars("ba")), 0);
    assert_eq!(compare(&chars("abcd"), &chars("axcx")), 2);
    assert_eq!(compare(&chars("hello world"), &chars("hello monke")), 7);
}

#[test]
fn score_of_target_against_itself_is_its_length() {
    let t = chars("the quick brown fox");
    assert_eq!(compare(&t, &t), t.len());
}

#[test]
fn score_stays_within_bounds() {
    let w = chars("zzzzz");
    let t = chars("abcde");
    let s = compare(&w, &t);
    assert!(s <= t.len());
}

#[test]
fn score_is_symmetric_on_samples() {
    let pairs = [("abc", "abd"), ("monke", "monks"), ("", "xyz"), ("aa", "aaaa")];
    for (a, b) in pairs {
        assert_eq!(compare(&chars(a), &chars(b)), compare(&chars(b), &chars(a)));
    }
}

#[test]
fn score_ignores_positions_past_the_shorter() {
    assert_eq!(compare(&chars("ab"), &chars("abab")), 2);
    assert_eq!(compare(&chars(""), &chars("abab")), 0);
}

#[test]
fn prefix_score_stops_at_first_mismatch() {
    assert_eq!(compare_prefix(&chars("abcd"), &chars("abxd")), 2);
    assert_eq!(compare_prefix(&chars("abcd"), &chars("abcd")), 4);
    assert_eq!(compare_prefix(&chars("xbcd"), &chars("abcd")), 0);
    assert_eq!(compare_prefix(&chars(""), &chars("abcd")), 0);
}

#[test]
fn positional_mode_counts_every_match_prefix_mode_only_the_run() {
    let w = chars("ab_de");
    let t = chars("abcde");
    assert_eq!(score_with(ScoreMode::Positional, &w, &t), 4);
    assert_eq!(score_with(ScoreMode::Prefix, &w, &t), 2);
}

#[test]
fn default_mode_is_positional() {
    assert_eq!(ScoreMode::default(), ScoreMode::Positional);
}
