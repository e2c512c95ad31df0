use ttylock::model::{Action, Key, KeyKind, Mode};
use ttylock::session::App;

fn fresh() -> App {
    App::new(String::from("ttylock"), String::from("alice"))
}

fn type_word(app: &mut App, word: &str) {
    for c in word.chars() {
        let a = app.handle_key_event(Key::Char(c), KeyKind::Press);
        assert_eq!(a, Action::Nothing);
    }
}

#[test]
fn default_mode_is_idle() {
    assert_eq!(Mode::default(), Mode::Idle);
}

#[test]
fn new_session_is_locked_and_idle() {
    let app = fresh();
    assert_eq!(app.mode(), Mode::Idle);
    assert_eq!(app.failed_counter(), 0);
    assert!(!app.should_exit());
    assert_eq!(app.cursor_index(), 0);
    assert_eq!(app.status_text(), "");
    assert_eq!(app.service(), "ttylock");
    assert_eq!(app.current_username(), "alice");
}

#[test]
fn enter_in_idle_begins_editing() {
    let mut app = fresh();
    let a = app.handle_key_event(Key::Enter, KeyKind::Press);
    assert_eq!(a, Action::Nothing);
    assert_eq!(app.mode(), Mode::Editing);
}

#[test]
fn idle_ignores_every_key_but_enter() {
    let mut app = fresh();
    for key in [Key::Char('x'), Key::Backspace, Key::Left, Key::Right, Key::Esc, Key::Other] {
        let a = app.handle_key_event(key, KeyKind::Press);
        assert_eq!(a, Action::Nothing);
        assert_eq!(app.mode(), Mode::Idle);
        assert_eq!(app.failed_counter(), 0);
        assert_eq!(app.cursor_index(), 0);
        assert_eq!(app.input_text(), "");
        assert!(!app.should_exit());
    }
}

#[test]
fn releases_are_ignored_everywhere() {
    let mut app = fresh();
    app.handle_key_event(Key::Enter, KeyKind::Release);
    assert_eq!(app.mode(), Mode::Idle);
    app.handle_key_event(Key::Enter, KeyKind::Press);
    assert_eq!(app.mode(), Mode::Editing);
    let a = app.handle_key_event(Key::Char('a'), KeyKind::Release);
    assert_eq!(a, Action::Nothing);
    assert_eq!(app.input_text(), "");
}

#[test]
fn editing_collects_characters_and_enter_asks_for_verification() {
    let mut app = fresh();
    app.handle_key_event(Key::Enter, KeyKind::Press);
    type_word(&mut app, "hunter2");
    assert_eq!(app.input_text(), "hunter2");
    assert_eq!(app.cursor_index(), 7);
    let a = app.handle_key_event(Key::Enter, KeyKind::Press);
    assert_eq!(a, Action::Submit);
    assert_eq!(app.input_text(), "hunter2");
}

#[test]
fn rejected_submit_increments_counter_and_clears_buffer() {
    let mut app = fresh();
    app.handle_key_event(Key::Enter, KeyKind::Press);
    type_word(&mut app, "wrong1");
    assert_eq!(app.handle_key_event(Key::Enter, KeyKind::Press), Action::Submit);
    app.submit_message(false);
    assert_eq!(app.failed_counter(), 1);
    assert!(app.status_text().contains("1"));
    assert_eq!(app.status_text(), "Invalid Password (1)");
    assert_eq!(app.mode(), Mode::Editing);
    assert_eq!(app.input_text(), "");
    assert_eq!(app.cursor_index(), 0);
    assert!(!app.should_exit());
}

#[test]
fn second_rejection_counts_two() {
    let mut app = fresh();
    app.handle_key_event(Key::Enter, KeyKind::Press);
    type_word(&mut app, "wrong1");
    app.handle_key_event(Key::Enter, KeyKind::Press);
    app.submit_message(false);
    type_word(&mut app, "wrong2");
    app.handle_key_event(Key::Enter, KeyKind::Press);
    app.submit_message(false);
    assert_eq!(app.failed_counter(), 2);
    assert_eq!(app.status_text(), "Invalid Password (2)");
    assert_eq!(app.mode(), Mode::Editing);
    assert_eq!(app.input_text(), "");
}

#[test]
fn accepted_submit_unlocks_and_clears_buffer() {
    let mut app = fresh();
    app.handle_key_event(Key::Enter, KeyKind::Press);
    type_word(&mut app, "wrong1");
    app.handle_key_event(Key::Enter, KeyKind::Press);
    app.submit_message(false);
    type_word(&mut app, "correct horse");
    app.handle_key_event(Key::Enter, KeyKind::Press);
    app.submit_message(true);
    assert!(app.should_exit());
    assert_eq!(app.failed_counter(), 1);
    assert_eq!(app.input_text(), "");
    assert_eq!(app.cursor_index(), 0);
}

#[test]
fn unlocked_session_is_terminal() {
    let mut app = fresh();
    app.handle_key_event(Key::Enter, KeyKind::Press);
    app.submit_message(true);
    assert!(app.should_exit());
    for key in [Key::Enter, Key::Char('x'), Key::Esc, Key::Backspace] {
        let a = app.handle_key_event(key, KeyKind::Press);
        assert_eq!(a, Action::Nothing);
        assert!(app.should_exit());
        assert_eq!(app.input_text(), "");
        assert_eq!(app.failed_counter(), 0);
    }
}

#[test]
fn backspace_twice_on_abc_leaves_a() {
    let mut app = fresh();
    app.handle_key_event(Key::Enter, KeyKind::Press);
    type_word(&mut app, "abc");
    assert_eq!(app.cursor_index(), 3);
    app.handle_key_event(Key::Backspace, KeyKind::Press);
    app.handle_key_event(Key::Backspace, KeyKind::Press);
    assert_eq!(app.input_text(), "a");
    assert_eq!(app.cursor_index(), 1);
}

#[test]
fn escape_cancels_editing_and_clears_secret() {
    let mut app = fresh();
    app.handle_key_event(Key::Enter, KeyKind::Press);
    type_word(&mut app, "half-typed");
    app.handle_key_event(Key::Esc, KeyKind::Press);
    assert_eq!(app.mode(), Mode::Idle);
    assert_eq!(app.input_text(), "");
    assert_eq!(app.cursor_index(), 0);
}

#[test]
fn typing_after_failure_clears_status() {
    let mut app = fresh();
    app.handle_key_event(Key::Enter, KeyKind::Press);
    type_word(&mut app, "no");
    app.handle_key_event(Key::Enter, KeyKind::Press);
    app.submit_message(false);
    assert_eq!(app.status_text(), "Invalid Password (1)");
    app.handle_key_event(Key::Char('a'), KeyKind::Press);
    assert_eq!(app.status_text(), "");
    assert_eq!(app.input_text(), "a");
}

#[test]
fn mask_tracks_secret_length_exactly() {
    let mut app = fresh();
    app.handle_key_event(Key::Enter, KeyKind::Press);
    assert_eq!(app.mask_text(), "");
    type_word(&mut app, "abcd");
    assert_eq!(app.mask_text(), "****");
    app.handle_key_event(Key::Left, KeyKind::Press);
    app.handle_key_event(Key::Backspace, KeyKind::Press);
    assert_eq!(app.mask_text(), "***");
    app.handle_key_event(Key::Char('é'), KeyKind::Press);
    assert_eq!(app.mask_text(), "****");
}

#[test]
fn arrow_keys_saturate_at_the_edges() {
    let mut app = fresh();
    app.handle_key_event(Key::Enter, KeyKind::Press);
    type_word(&mut app, "ab");
    app.handle_key_event(Key::Right, KeyKind::Press);
    assert_eq!(app.cursor_index(), 2);
    for _ in 0..4 {
        app.handle_key_event(Key::Left, KeyKind::Press);
    }
    assert_eq!(app.cursor_index(), 0);
    assert_eq!(app.input_text(), "ab");
    for _ in 0..4 {
        app.handle_key_event(Key::Right, KeyKind::Press);
    }
    assert_eq!(app.cursor_index(), 2);
}

#[test]
fn clamp_cursor_clamps_to_secret_length() {
    let mut app = fresh();
    app.handle_key_event(Key::Enter, KeyKind::Press);
    type_word(&mut app, "abc");
    assert_eq!(app.clamp_cursor(0), 0);
    assert_eq!(app.clamp_cursor(2), 2);
    assert_eq!(app.clamp_cursor(3), 3);
    assert_eq!(app.clamp_cursor(17), 3);
}

#[test]
fn direct_editor_methods_match_key_events() {
    let mut app = fresh();
    app.handle_key_event(Key::Enter, KeyKind::Press);
    app.enter_char('a');
    app.enter_char('b');
    app.move_cursor_left();
    app.delete_char();
    assert_eq!(app.input_text(), "b");
    assert_eq!(app.cursor_index(), 0);
    app.move_cursor_right();
    assert_eq!(app.cursor_index(), 1);
    app.reset_cursor();
    assert_eq!(app.cursor_index(), 0);
    assert_eq!(app.input_text(), "b");
}

#[test]
fn exit_and_increment_failed_counter_behave_as_stated() {
    let mut app = fresh();
    app.increment_failed_counter();
    app.increment_failed_counter();
    assert_eq!(app.failed_counter(), 2);
    assert!(!app.should_exit());
    app.exit();
    assert!(app.should_exit());
    assert_eq!(app.failed_counter(), 2);
}
