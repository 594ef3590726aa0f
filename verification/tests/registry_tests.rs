use chat_sessions::errors::CoreError;
use chat_sessions::registry::SessionRegistry;
use chat_sessions::turn::{Role, Turn};

fn texts(ts: &[Turn]) -> Vec<String> {
    ts.iter().map(|t| t.text().clone()).collect()
}

#[test]
fn create_happens_once_per_user() {
    // Repeated get_or_create calls for one user: only the first creates,
    // every later call finds the same session.
    let mut reg = SessionRegistry::new();
    let alice = "alice".to_string();
    let pre = "be brief".to_string();
    assert_eq!(reg.get_or_create(&alice, &pre, 10).unwrap(), true);
    assert_eq!(reg.get_or_create(&alice, &pre, 10).unwrap(), false);
    assert_eq!(reg.get_or_create(&alice, &pre, 10).unwrap(), false);
    assert_eq!(reg.user_count(), 1);
    assert!(reg.contains(&alice));
}

#[test]
fn created_session_survives_other_calls() {
    // The session the first call stored is the one every caller sees: a turn
    // recorded after the race is visible through a later lookup.
    let mut reg = SessionRegistry::new();
    let u = "u".to_string();
    let pre = "p".to_string();
    reg.get_or_create(&u, &pre, 4).unwrap();
    reg.record_user(&u, "hello".to_string()).unwrap();
    reg.get_or_create(&u, &pre, 4).unwrap();
    assert_eq!(texts(&reg.snapshot(&u).unwrap()), vec!["hello"]);
}

#[test]
fn failed_creation_inserts_nothing() {
    let mut reg = SessionRegistry::new();
    let u = "u".to_string();
    let pre = "p".to_string();
    assert_eq!(reg.get_or_create(&u, &pre, 0).unwrap_err(), CoreError::Configuration);
    assert!(!reg.contains(&u));
    assert_eq!(reg.user_count(), 0);
    // With a session already there, a bad capacity is never consulted.
    reg.get_or_create(&u, &pre, 3).unwrap();
    assert_eq!(reg.get_or_create(&u, &pre, 0).unwrap(), false);
}

#[test]
fn distinct_users_get_distinct_sessions() {
    let mut reg = SessionRegistry::new();
    let pre = "p".to_string();
    let a = "a".to_string();
    let b = "b".to_string();
    reg.get_or_create(&a, &pre, 3).unwrap();
    reg.get_or_create(&b, &pre, 3).unwrap();
    assert_eq!(reg.user_count(), 2);
    reg.record_user(&a, "from a".to_string()).unwrap();
    assert_eq!(texts(&reg.snapshot(&a).unwrap()), vec!["from a"]);
    assert!(reg.snapshot(&b).unwrap().is_empty());
}

#[test]
fn record_without_session_is_a_caller_error() {
    let mut reg = SessionRegistry::new();
    let ghost_user = "nobody".to_string();
    assert_eq!(
        reg.record_user(&ghost_user, "hi".to_string()).unwrap_err(),
        CoreError::Validation
    );
    assert_eq!(
        reg.build_context(&ghost_user).unwrap_err(),
        CoreError::Validation
    );
}

#[test]
fn record_blank_text_is_rejected() {
    let mut reg = SessionRegistry::new();
    let u = "u".to_string();
    reg.get_or_create(&u, &"p".to_string(), 3).unwrap();
    assert_eq!(
        reg.record_user(&u, "   ".to_string()).unwrap_err(),
        CoreError::Validation
    );
    assert!(reg.snapshot(&u).unwrap().is_empty());
}

#[test]
fn remove_reports_whether_a_session_existed() {
    let mut reg = SessionRegistry::new();
    let u = "u".to_string();
    assert!(!reg.remove(&u));
    reg.get_or_create(&u, &"p".to_string(), 3).unwrap();
    assert!(reg.remove(&u));
    assert!(!reg.remove(&u));
    assert_eq!(reg.user_count(), 0);
}

#[test]
fn window_of_two_serves_only_the_latest_exchange() {
    let mut reg = SessionRegistry::new();
    let u = "u1".to_string();
    reg.get_or_create(&u, &"preamble".to_string(), 2).unwrap();
    reg.record_user(&u, "hi".to_string()).unwrap();
    reg.record_assistant(&u, "hello".to_string()).unwrap();
    reg.record_user(&u, "bet?".to_string()).unwrap();
    reg.record_assistant(&u, "sure".to_string()).unwrap();
    let snap = reg.snapshot(&u).unwrap();
    assert_eq!(texts(&snap), vec!["bet?", "sure"]);
    assert_eq!(snap[0].role(), Role::User);
    assert_eq!(snap[1].role(), Role::Assistant);
    let (preamble, context) = reg.build_context(&u).unwrap();
    assert_eq!(preamble.as_str(), "preamble");
    assert_eq!(texts(&context), vec!["bet?", "sure"]);
}

#[test]
fn context_is_preamble_then_history_in_order() {
    let mut reg = SessionRegistry::new();
    let u = "u".to_string();
    reg.get_or_create(&u, &"system text".to_string(), 8).unwrap();
    reg.record_user(&u, "question".to_string()).unwrap();
    reg.record_assistant(&u, "answer".to_string()).unwrap();
    let (preamble, context) = reg.build_context(&u).unwrap();
    assert_eq!(preamble.as_str(), "system text");
    assert_eq!(texts(&context), vec!["question", "answer"]);
    assert_eq!(context[0].role(), Role::User);
    assert_eq!(context[1].role(), Role::Assistant);
}
