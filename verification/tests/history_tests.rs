use chat_sessions::errors::CoreError;
use chat_sessions::history::BoundedHistory;
use chat_sessions::turn::{Role, Turn};

fn turn(role: Role, text: &str) -> Turn {
    Turn::new(role, text.to_string()).unwrap()
}

fn texts(ts: &[Turn]) -> Vec<String> {
    ts.iter().map(|t| t.text().clone()).collect()
}

#[test]
fn zero_capacity_is_rejected() {
    let r = BoundedHistory::new(0);
    assert_eq!(r.unwrap_err(), CoreError::Configuration);
}

#[test]
fn blank_turn_is_rejected() {
    assert_eq!(
        Turn::new(Role::User, "".to_string()).unwrap_err(),
        CoreError::Validation
    );
    assert_eq!(
        Turn::new(Role::User, "  \t\r\n ".to_string()).unwrap_err(),
        CoreError::Validation
    );
}

#[test]
fn non_blank_turn_keeps_role_and_text() {
    let t = turn(Role::Assistant, " sure thing ");
    assert_eq!(t.role(), Role::Assistant);
    assert_eq!(t.text().as_str(), " sure thing ");
}

#[test]
fn bounded_window_keeps_most_recent_in_order() {
    // Capacity 3, five appends: only the last three stay, oldest first.
    let mut h = BoundedHistory::new(3).unwrap();
    for text in ["one", "two", "three", "four", "five"] {
        h.append(turn(Role::User, text)).unwrap();
    }
    assert_eq!(h.len(), 3);
    assert_eq!(h.capacity(), 3);
    assert_eq!(texts(&h.snapshot()), vec!["three", "four", "five"]);
}

#[test]
fn appends_below_capacity_keep_everything() {
    let mut h = BoundedHistory::new(10).unwrap();
    h.append(turn(Role::User, "hi")).unwrap();
    h.append(turn(Role::Assistant, "hello")).unwrap();
    assert_eq!(h.len(), 2);
    assert_eq!(texts(&h.snapshot()), vec!["hi", "hello"]);
}

#[test]
fn capacity_one_keeps_only_the_latest() {
    let mut h = BoundedHistory::new(1).unwrap();
    h.append(turn(Role::User, "a")).unwrap();
    h.append(turn(Role::User, "b")).unwrap();
    assert_eq!(texts(&h.snapshot()), vec!["b"]);
}

#[test]
fn snapshot_is_independent_of_later_appends() {
    let mut h = BoundedHistory::new(2).unwrap();
    h.append(turn(Role::User, "first")).unwrap();
    let snap = h.snapshot();
    h.append(turn(Role::User, "second")).unwrap();
    assert_eq!(texts(&snap), vec!["first"]);
    assert_eq!(texts(&h.snapshot()), vec!["first", "second"]);
}

#[test]
fn clear_empties_but_keeps_capacity() {
    let mut h = BoundedHistory::new(2).unwrap();
    h.append(turn(Role::User, "x")).unwrap();
    h.clear();
    assert_eq!(h.len(), 0);
    assert_eq!(h.capacity(), 2);
    h.append(turn(Role::User, "y")).unwrap();
    assert_eq!(texts(&h.snapshot()), vec!["y"]);
}
