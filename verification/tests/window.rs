use chat_ui::complete_window::{Action, CompleteWindow, Event, Outcome, Request};

fn idle(prompt: &str) -> CompleteWindow {
    CompleteWindow::new("Completion".to_string(), prompt.to_string())
}

fn focused_at(prompt: &str, caret: usize) -> CompleteWindow {
    let mut window = idle(prompt);
    window.track_focus(true, false, Some(caret));
    window
}

#[test]
fn new_window_is_idle_and_shows_the_prompt() {
    let window = idle("Once upon a time");
    assert_eq!(window.name(), "Completion");
    assert_eq!(window.text(), "Once upon a time");
    assert!(!window.has_task());
    assert!(window.is_ready());
    assert!(window.markdown());
    assert_eq!(window.cursor_index(), None);
    assert!(!window.focused());
}

#[test]
fn generate_on_idle_window_starts_a_task() {
    let mut window = idle("abc");
    assert_eq!(window.request_generate(), Some(Request::Generate));
    assert!(window.has_task());
    assert!(!window.is_ready());
    assert_eq!(window.text(), "abc");
}

#[test]
fn second_generate_is_refused_while_one_is_pending() {
    let mut window = idle("abc");
    assert_eq!(window.request_generate(), Some(Request::Generate));
    assert_eq!(window.request_generate(), None);
    assert_eq!(window.request_insert(), None);
    assert!(window.has_task());
    assert_eq!(window.text(), "abc");
}

#[test]
fn insert_is_refused_while_a_task_is_pending() {
    let mut window = focused_at("abc", 2);
    assert_eq!(window.request_generate(), Some(Request::Generate));
    assert_eq!(window.cursor_index(), Some(2));
    assert_eq!(window.request_insert(), None);
    assert!(window.has_task());
}

#[test]
fn insert_without_cursor_is_refused() {
    let mut window = idle("abc");
    assert_eq!(window.request_insert(), None);
    assert!(!window.has_task());
    assert!(window.is_ready());
}

#[test]
fn insert_carries_the_cursor_offset() {
    let mut window = focused_at("hello world", 5);
    assert_eq!(window.request_insert(), Some(Request::Insert(5)));
    assert!(window.has_task());
}

#[test]
fn frame_without_pending_text_keeps_the_buffer() {
    let mut window = idle("abc");
    assert!(!window.begin_frame(None, None));
    assert_eq!(window.text(), "abc");
    assert!(window.is_ready());
}

#[test]
fn frame_ignores_a_suffix_without_pending_text() {
    let mut window = idle("abc");
    assert!(!window.begin_frame(None, Some(" tail".to_string())));
    assert_eq!(window.text(), "abc");
    assert!(window.is_ready());
}

#[test]
fn frame_mirrors_pending_text() {
    let mut window = idle("abc");
    window.request_generate();
    assert!(window.begin_frame(Some("abc def".to_string()), None));
    assert_eq!(window.text(), "abc def");
    assert!(window.begin_frame(Some("abc def ghi".to_string()), None));
    assert_eq!(window.text(), "abc def ghi");
}

#[test]
fn frame_appends_the_suffix_to_pending_text() {
    let mut window = idle("abc");
    window.request_insert();
    assert!(window.begin_frame(Some("ab+".to_string()), Some("c".to_string())));
    assert_eq!(window.text(), "ab+c");
}

#[test]
fn frame_asks_for_repaint_while_a_task_runs() {
    let mut window = idle("abc");
    window.request_generate();
    assert!(window.begin_frame(None, None));
    assert_eq!(window.text(), "abc");
    assert!(!window.is_ready());
}

#[test]
fn mirrored_text_without_a_task_blocks_the_window() {
    let mut window = idle("abc");
    assert!(window.begin_frame(Some("from elsewhere".to_string()), None));
    assert!(!window.has_task());
    assert!(!window.is_ready());
    assert_eq!(window.request_generate(), None);
    assert_eq!(window.edit("typed".to_string()), None);
    assert_eq!(window.text(), "from elsewhere");
    assert!(!window.abort());
    assert!(!window.begin_frame(None, None));
    assert!(window.is_ready());
    assert_eq!(window.request_generate(), Some(Request::Generate));
}

#[test]
fn success_replaces_the_buffer_and_clears_the_task() {
    let mut window = idle("abc");
    window.request_generate();
    assert!(window.finish_task(Outcome::Completed("abc and more".to_string())));
    assert_eq!(window.text(), "abc and more");
    assert!(!window.has_task());
    assert!(window.is_ready());
}

#[test]
fn a_result_is_consumed_only_once() {
    let mut window = idle("abc");
    window.request_generate();
    assert!(window.finish_task(Outcome::Completed("first".to_string())));
    assert!(!window.finish_task(Outcome::Completed("second".to_string())));
    assert_eq!(window.text(), "first");
    assert!(!window.finish_task(Outcome::Failed));
    assert_eq!(window.text(), "first");
    assert!(!window.has_task());
}

#[test]
fn result_without_a_task_is_ignored() {
    let mut window = idle("abc");
    assert!(!window.finish_task(Outcome::Completed("stray".to_string())));
    assert_eq!(window.text(), "abc");
    assert!(window.is_ready());
}

#[test]
fn failure_keeps_the_buffer() {
    let mut window = idle("abc");
    window.request_generate();
    assert!(window.begin_frame(None, None));
    assert!(window.finish_task(Outcome::Failed));
    assert_eq!(window.text(), "abc");
    assert!(!window.has_task());
    assert!(window.is_ready());
}

#[test]
fn failure_after_published_text_keeps_what_is_shown() {
    let mut window = idle("abc");
    window.request_generate();
    window.begin_frame(Some("abc par".to_string()), None);
    assert!(window.finish_task(Outcome::Failed));
    assert_eq!(window.text(), "abc par");
    assert!(!window.has_task());
}

#[test]
fn abort_clears_the_task_and_keeps_the_buffer() {
    let mut window = idle("abc");
    window.request_generate();
    window.begin_frame(Some("abc par".to_string()), None);
    assert!(window.abort());
    assert!(!window.has_task());
    assert_eq!(window.text(), "abc par");
}

#[test]
fn aborted_result_is_never_consumed() {
    let mut window = idle("abc");
    window.request_generate();
    assert!(window.abort());
    assert!(!window.finish_task(Outcome::Completed("too late".to_string())));
    assert_eq!(window.text(), "abc");
    assert!(!window.has_task());
}

#[test]
fn abort_without_a_task_does_nothing() {
    let mut window = idle("abc");
    assert!(!window.abort());
    assert!(window.is_ready());
    assert_eq!(window.text(), "abc");
}

#[test]
fn window_is_ready_again_after_abort() {
    let mut window = idle("abc");
    window.request_generate();
    assert!(window.abort());
    assert!(window.is_ready());
    assert_eq!(window.request_generate(), Some(Request::Generate));
}

#[test]
fn edit_on_idle_window_sets_the_prompt() {
    let mut window = idle("abc");
    assert_eq!(window.edit("abcd".to_string()), Some("abcd".to_string()));
    assert_eq!(window.text(), "abcd");
    assert!(window.is_ready());
}

#[test]
fn edit_to_empty_text_is_taken() {
    let mut window = idle("abc");
    assert_eq!(window.edit(String::new()), Some(String::new()));
    assert_eq!(window.text(), "");
}

#[test]
fn edit_is_refused_while_a_task_is_pending() {
    let mut window = idle("abc");
    window.request_generate();
    assert_eq!(window.edit("abcd".to_string()), None);
    assert_eq!(window.text(), "abc");
    assert!(window.has_task());
}

#[test]
fn focus_gained_records_the_caret() {
    let mut window = idle("abc");
    window.track_focus(true, false, Some(3));
    assert!(window.focused());
    assert_eq!(window.cursor_index(), Some(3));
}

#[test]
fn focus_stays_until_it_is_lost() {
    let mut window = idle("abc");
    window.track_focus(true, false, Some(3));
    window.track_focus(false, false, Some(1));
    assert!(window.focused());
    assert_eq!(window.cursor_index(), Some(1));
    window.track_focus(false, true, Some(1));
    assert!(!window.focused());
    assert_eq!(window.cursor_index(), None);
}

#[test]
fn losing_focus_wins_over_having_it() {
    let mut window = idle("abc");
    window.track_focus(true, true, Some(2));
    assert!(!window.focused());
    assert_eq!(window.cursor_index(), None);
}

#[test]
fn caret_is_unknown_without_focus() {
    let mut window = idle("abc");
    window.track_focus(false, false, Some(2));
    assert!(!window.focused());
    assert_eq!(window.cursor_index(), None);
}

#[test]
fn focused_editor_without_caret_has_no_cursor() {
    let mut window = focused_at("abc", 1);
    window.track_focus(true, false, None);
    assert!(window.focused());
    assert_eq!(window.cursor_index(), None);
    assert_eq!(window.request_insert(), None);
}

#[test]
fn markdown_can_be_switched_off_and_on() {
    let mut window = idle("abc");
    window.set_markdown(false);
    assert!(!window.markdown());
    window.set_markdown(true);
    assert!(window.markdown());
    assert_eq!(window.text(), "abc");
}

#[test]
fn step_answers_each_event_with_its_action() {
    let mut window = idle("abc");
    assert_eq!(
        window.step(Event::Frame { pending: None, suffix: None }),
        Action::Nothing
    );
    assert_eq!(
        window.step(Event::Edited("abcd".to_string())),
        Action::SetPrompt("abcd".to_string())
    );
    assert_eq!(
        window.step(Event::Focus { has_focus: true, lost_focus: false, caret: Some(4) }),
        Action::Nothing
    );
    assert_eq!(window.step(Event::Insert), Action::Spawn(Request::Insert(4)));
    assert_eq!(window.step(Event::Generate), Action::Nothing);
    assert_eq!(window.step(Event::Edited("x".to_string())), Action::Nothing);
    assert_eq!(
        window.step(Event::Frame { pending: Some("abcd+".to_string()), suffix: None }),
        Action::Repaint
    );
    assert_eq!(window.text(), "abcd+");
    assert_eq!(
        window.step(Event::Finished(Outcome::Completed("abcd+done".to_string()))),
        Action::Nothing
    );
    assert_eq!(window.text(), "abcd+done");
    assert_eq!(window.step(Event::Abort), Action::Nothing);
    assert_eq!(window.step(Event::Markdown(false)), Action::Nothing);
    assert!(!window.markdown());
    assert_eq!(
        window.step(Event::Frame { pending: None, suffix: None }),
        Action::Nothing
    );
    assert_eq!(window.step(Event::Generate), Action::Spawn(Request::Generate));
    assert_eq!(window.step(Event::Abort), Action::Cancel);
    assert!(window.is_ready());
}

#[test]
fn never_more_than_one_task_is_outstanding() {
    let events = vec![
        Event::Generate,
        Event::Generate,
        Event::Insert,
        Event::Frame { pending: Some("a".to_string()), suffix: None },
        Event::Generate,
        Event::Finished(Outcome::Failed),
        Event::Generate,
        Event::Frame { pending: None, suffix: None },
        Event::Generate,
        Event::Abort,
        Event::Abort,
        Event::Finished(Outcome::Completed("late".to_string())),
        Event::Focus { has_focus: true, lost_focus: false, caret: Some(0) },
        Event::Insert,
        Event::Insert,
        Event::Finished(Outcome::Completed("done".to_string())),
        Event::Finished(Outcome::Completed("again".to_string())),
        Event::Generate,
    ];
    let mut window = idle("abc");
    let mut spawned = 0;
    let mut retired = 0;
    for event in events {
        let had_task = window.has_task();
        let is_result = matches!(event, Event::Finished(_));
        let action = window.step(event);
        if matches!(action, Action::Spawn(_)) {
            spawned += 1;
        }
        if matches!(action, Action::Cancel) || (is_result && had_task) {
            retired += 1;
        }
        let outstanding = spawned - retired;
        assert!(outstanding == 0 || outstanding == 1);
        assert_eq!(outstanding == 1, window.has_task());
    }
    assert_eq!(spawned, 4);
    assert_eq!(retired, 3);
    assert_eq!(window.text(), "done");
}
