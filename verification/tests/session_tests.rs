use chat_sessions::errors::CoreError;
use chat_sessions::session::Session;
use chat_sessions::turn::{text_is_blank, Role, Turn};

fn texts(ts: &[Turn]) -> Vec<String> {
    ts.iter().map(|t| t.text().clone()).collect()
}

#[test]
fn blankness_ignores_surrounding_whitespace() {
    assert!(text_is_blank(""));
    assert!(text_is_blank(" \t\r\n"));
    assert!(!text_is_blank("  x  "));
    assert!(!text_is_blank("hé"));
}

#[test]
fn session_construction_validates_capacity() {
    let r = Session::new("u".to_string(), "p".to_string(), 0);
    assert_eq!(r.unwrap_err(), CoreError::Configuration);
    let s = Session::new("u".to_string(), "p".to_string(), 5).unwrap();
    assert_eq!(s.user_id().as_str(), "u");
    assert_eq!(s.history_len(), 0);
}

#[test]
fn recording_fills_the_window_in_order() {
    let mut s = Session::new("u".to_string(), "sys".to_string(), 4).unwrap();
    s.record_user("q1".to_string()).unwrap();
    s.record_assistant("a1".to_string()).unwrap();
    assert_eq!(s.history_len(), 2);
    let (preamble, context) = s.build_context();
    assert_eq!(preamble.as_str(), "sys");
    assert_eq!(texts(&context), vec!["q1", "a1"]);
    assert_eq!(context[0].role(), Role::User);
    assert_eq!(context[1].role(), Role::Assistant);
}

#[test]
fn recording_blank_text_is_rejected_and_changes_nothing() {
    let mut s = Session::new("u".to_string(), "sys".to_string(), 4).unwrap();
    s.record_user("real".to_string()).unwrap();
    assert_eq!(s.record_user(" ".to_string()).unwrap_err(), CoreError::Validation);
    assert_eq!(s.record_assistant("\n".to_string()).unwrap_err(), CoreError::Validation);
    assert_eq!(texts(&s.snapshot()), vec!["real"]);
}

#[test]
fn session_window_slides_like_its_history() {
    let mut s = Session::new("u".to_string(), "sys".to_string(), 2).unwrap();
    s.record_user("one".to_string()).unwrap();
    s.record_assistant("two".to_string()).unwrap();
    s.record_user("three".to_string()).unwrap();
    assert_eq!(texts(&s.snapshot()), vec!["two", "three"]);
}
