use clai::interactive_history::{
    sanitize_history_max_entries, InteractiveHistoryStore, MIN_HISTORY_MAX_ENTRIES,
};

#[test]
fn excludes_consecutive_duplicate() {
    let mut h = InteractiveHistoryStore::new(1000);
    assert!(h.push_qualifying("a"));
    assert!(!h.push_qualifying("a"));
    assert_eq!(h.len_entries(), 1);
}

#[test]
fn drops_oldest_when_over_count_cap() {
    let mut h = InteractiveHistoryStore::new(3);
    assert!(h.push_qualifying("a"));
    assert!(h.push_qualifying("b"));
    assert!(h.push_qualifying("c"));
    assert!(h.push_qualifying("d"));
    let v = h.entries();
    assert_eq!(v, vec!["b", "c", "d"]);
}

#[test]
fn evicts_oldest_when_char_budget_exceeded() {
    let mut h = InteractiveHistoryStore::with_limits(100, 10);
    assert!(h.push_qualifying("0123456789"));
    assert!(h.push_qualifying("ABCDEFGHIJ"));
    let v = h.entries();
    assert_eq!(v, vec!["ABCDEFGHIJ"]);
}

#[test]
fn sanitize_raises_small_values() {
    assert_eq!(sanitize_history_max_entries(10), MIN_HISTORY_MAX_ENTRIES);
    assert_eq!(sanitize_history_max_entries(200), 200);
}

#[test]
fn trims_and_ignores_blank_lines() {
    let mut h = InteractiveHistoryStore::new(10);
    assert!(!h.push_qualifying("   \t"));
    assert!(h.push_qualifying("  ls  "));
    assert!(!h.push_qualifying("ls"));
    assert!(h.push_qualifying("pwd"));
    assert!(h.push_qualifying("ls"));
    assert_eq!(h.entries(), vec!["ls", "pwd", "ls"]);
}

#[test]
fn line_longer_than_budget_is_not_kept() {
    let mut h = InteractiveHistoryStore::with_limits(10, 3);
    assert!(h.push_qualifying("ab"));
    assert!(!h.push_qualifying("abcd"));
    assert_eq!(h.len_entries(), 0);
}

#[test]
fn zero_count_cap_keeps_nothing() {
    let mut h = InteractiveHistoryStore::with_limits(0, 100);
    assert!(!h.push_qualifying("x"));
    assert_eq!(h.len_entries(), 0);
}
