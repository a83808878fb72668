use arxiv_cli::text::{join_lines, split_lines};
use arxiv_cli::SeenSet;

fn s(x: &str) -> String {
    x.to_string()
}

#[test]
fn mark_then_contains() {
    let mut set = SeenSet::new();
    set.mark(s("a"));
    assert!(set.contains(&s("a")));
    assert!(!set.contains(&s("b")));
}

#[test]
fn unmark_then_not_contains() {
    let mut set = SeenSet::new();
    set.mark(s("a"));
    set.unmark(&s("a"));
    assert!(!set.contains(&s("a")));
    assert_eq!(set.len(), 0);
}

#[test]
fn mark_twice_is_idempotent() {
    let mut set = SeenSet::new();
    set.mark(s("a"));
    set.mark(s("a"));
    assert_eq!(set.len(), 1);
    set.unmark(&s("a"));
    assert!(!set.contains(&s("a")));
}

#[test]
fn unmark_absent_changes_nothing() {
    let mut set = SeenSet::new();
    set.mark(s("x"));
    set.unmark(&s("y"));
    assert_eq!(set.len(), 1);
    assert!(set.contains(&s("x")));
}

#[test]
fn round_trip_through_text() {
    let mut set = SeenSet::new();
    set.mark(s("a"));
    set.mark(s("b"));
    set.mark(s("c"));
    let text = set.to_text();
    assert_eq!(text.lines().count(), 3);
    let back = SeenSet::from_text(&text);
    assert!(back.contains(&s("a")));
    assert!(back.contains(&s("b")));
    assert!(back.contains(&s("c")));
    assert!(!back.contains(&s("d")));
    assert_eq!(back.len(), 3);
}

#[test]
fn to_text_writes_one_line_per_id() {
    let mut set = SeenSet::new();
    set.mark(s("2101.00001"));
    assert_eq!(set.to_text(), "2101.00001\n");
    assert_eq!(SeenSet::new().to_text(), "");
}

#[test]
fn from_text_of_empty_is_empty() {
    assert_eq!(SeenSet::from_text("").len(), 0);
}

#[test]
fn from_text_accepts_crlf_and_missing_final_newline() {
    let set = SeenSet::from_text("a\r\nb\nc");
    assert!(set.contains(&s("a")));
    assert!(set.contains(&s("b")));
    assert!(set.contains(&s("c")));
    assert_eq!(set.len(), 3);
}

#[test]
fn from_text_drops_repeated_ids() {
    let set = SeenSet::from_text("a\na\nb\n");
    assert_eq!(set.len(), 2);
}

#[test]
fn split_lines_matches_std_lines() {
    for t in ["", "\n", "a", "a\n", "a\n\nb", "x\r\ny\r\n", "é\nü"] {
        let ours = split_lines(t);
        let std_lines: Vec<String> = t.lines().map(|l| l.to_string()).collect();
        assert_eq!(ours, std_lines, "on {:?}", t);
    }
}

#[test]
fn join_lines_terminates_each_line() {
    let v = vec![s("a"), s(""), s("b")];
    assert_eq!(join_lines(&v), "a\n\nb\n");
}
