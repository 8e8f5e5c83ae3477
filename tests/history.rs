use tui_log::history::LineHistory;
use tui_log::Writable;

fn history_of(lines: &[&str]) -> LineHistory {
    let mut h = LineHistory::new();
    for l in lines {
        h.append(l.to_string());
    }
    h
}

#[test]
fn tail_of_five_lines_by_three() {
    let h = history_of(&["A", "B", "C", "D", "E"]);
    assert_eq!(h.tail(3), vec!["C", "D", "E"]);
}

#[test]
fn tail_with_fewer_lines_returns_all_in_order() {
    let h = history_of(&["A", "B"]);
    assert_eq!(h.tail(5), vec!["A", "B"]);
    assert_eq!(h.tail(2), vec!["A", "B"]);
}

#[test]
fn tail_drops_earliest_lines() {
    let h = history_of(&["1", "2", "3", "4", "5", "6", "7"]);
    assert_eq!(h.tail(4), vec!["4", "5", "6", "7"]);
    assert_eq!(h.tail(1), vec!["7"]);
}

#[test]
fn tail_of_zero_is_empty() {
    let h = history_of(&["A", "B"]);
    assert!(h.tail(0).is_empty());
}

#[test]
fn tail_does_not_change_history() {
    let h = history_of(&["A", "B", "C"]);
    let _ = h.tail(1);
    assert_eq!(h.len(), 3);
    assert_eq!(h.tail(3), vec!["A", "B", "C"]);
}

#[test]
fn clear_then_tail_is_empty() {
    let mut h = history_of(&["A", "B", "C"]);
    h.clear();
    assert!(h.is_empty());
    assert!(h.tail(1).is_empty());
    assert!(h.tail(100).is_empty());
}

#[test]
fn new_history_is_empty() {
    let h = LineHistory::new();
    assert_eq!(h.len(), 0);
    assert!(h.is_empty());
    assert!(h.tail(3).is_empty());
}

#[test]
fn writable_appends_and_flushes() {
    let mut h = LineHistory::new();
    h.write_line("first");
    h.write_line("second");
    assert_eq!(h.tail(10), vec!["first", "second"]);
    Writable::flush(&mut h);
    assert!(h.is_empty());
    h.write_line("third");
    assert_eq!(h.tail(10), vec!["third"]);
}

#[test]
fn deliver_appends_some_and_ignores_none() {
    let mut h = LineHistory::new();
    tui_log::history::deliver(&mut h, Some("one".to_string()));
    tui_log::history::deliver(&mut h, None);
    tui_log::history::deliver(&mut h, Some("two".to_string()));
    assert_eq!(h.tail(10), vec!["one", "two"]);
}
