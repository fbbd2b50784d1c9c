use chat_ui::complete_window::{CompleteWindow, Outcome};
use chat_ui::session::{join_published, SessionState};

#[test]
fn new_session_has_only_a_prompt() {
    let session = SessionState::new("abc".to_string());
    assert_eq!(session.prompt, "abc");
    assert_eq!(session.suffix, None);
    assert_eq!(session.pending_generate, None);
}

#[test]
fn set_prompt_replaces_only_the_prompt() {
    let mut session = SessionState::new("abc".to_string());
    session.suffix = Some("tail".to_string());
    session.publish("abc d".to_string());
    session.set_prompt("xyz".to_string());
    assert_eq!(session.prompt, "xyz");
    assert_eq!(session.suffix, Some("tail".to_string()));
    assert_eq!(session.pending_generate, Some("abc d".to_string()));
}

#[test]
fn publish_replaces_what_was_pending() {
    let mut session = SessionState::new("abc".to_string());
    session.publish("abc d".to_string());
    session.publish("abc de".to_string());
    assert_eq!(session.pending_generate, Some("abc de".to_string()));
    assert_eq!(session.prompt, "abc");
}

#[test]
fn commit_makes_the_last_published_text_the_prompt() {
    let mut session = SessionState::new("abc".to_string());
    session.suffix = Some("tail".to_string());
    session.publish("abc d".to_string());
    session.publish("abc de".to_string());
    assert!(session.commit_pending());
    assert_eq!(session.prompt, "abc de");
    assert_eq!(session.pending_generate, None);
    assert_eq!(session.suffix, Some("tail".to_string()));
}

#[test]
fn commit_without_published_text_keeps_the_prompt() {
    let mut session = SessionState::new("abc".to_string());
    assert!(!session.commit_pending());
    assert_eq!(session.prompt, "abc");
    assert_eq!(session.pending_generate, None);
}

#[test]
fn commit_twice_is_commit_once() {
    let mut session = SessionState::new("abc".to_string());
    session.publish("abc d".to_string());
    assert!(session.commit_pending());
    let once = session.clone();
    assert!(!session.commit_pending());
    assert_eq!(session, once);
}

#[test]
fn join_puts_the_suffix_behind_the_pending_text() {
    let pending = "Hello, ".to_string();
    assert_eq!(join_published(&pending, &Some("world".to_string())), "Hello, world");
    assert_eq!(join_published(&pending, &None), "Hello, ");
    assert_eq!(join_published(&String::new(), &Some("x".to_string())), "x");
    assert_eq!(join_published(&pending, &Some(String::new())), "Hello, ");
}

#[test]
fn abort_commits_the_partial_text_and_drops_the_result() {
    let mut session = SessionState::new("The sky is".to_string());
    let mut window = CompleteWindow::new("w".to_string(), session.prompt.clone());
    assert!(window.request_generate().is_some());
    session.publish("The sky is blue".to_string());
    assert!(window.begin_frame(session.pending_generate.clone(), session.suffix.clone()));
    assert_eq!(window.text(), "The sky is blue");
    assert!(window.abort());
    assert!(session.commit_pending());
    assert_eq!(session.prompt, "The sky is blue");
    assert_eq!(session.pending_generate, None);
    assert!(!window.finish_task(Outcome::Completed("The sky is blue and wide".to_string())));
    assert!(!window.begin_frame(session.pending_generate.clone(), session.suffix.clone()));
    assert_eq!(window.text(), "The sky is blue");
    assert!(window.is_ready());
}
