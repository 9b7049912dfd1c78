use typing_test::app::{decide, Action, App, Key};
use typing_test::passages::{passage, PASSAGE_COUNT};
use typing_test::typing::TypingTest;

fn type_passage(app: &mut App) {
    let passage = app.typing_test().target_text().to_string();
    for c in passage.chars() {
        let key = if c == 'q' || c == 'r' { '?' } else { c };
        assert!(!app.handle_key(Key::Char(key), true));
    }
}

#[test]
fn q_always_quits() {
    let mut test = TypingTest::with_text("ab");
    assert_eq!(decide(&test, Key::Char('q'), true), Action::Quit);
    test.start_test();
    assert_eq!(decide(&test, Key::Char('q'), true), Action::Quit);
    test.add_char('a');
    test.add_char('b');
    assert_eq!(decide(&test, Key::Char('q'), true), Action::Quit);
}

#[test]
fn r_resets_only_while_results_are_on_show() {
    let mut test = TypingTest::with_text("ab");
    assert_eq!(decide(&test, Key::Char('r'), true), Action::Ignore);
    test.start_test();
    assert_eq!(decide(&test, Key::Char('r'), true), Action::Append('r'));
    test.add_char('a');
    test.add_char('b');
    assert!(test.show_results());
    assert_eq!(decide(&test, Key::Char('r'), true), Action::Reset);
}

#[test]
fn enter_starts_only_a_test_that_has_not_started() {
    let mut test = TypingTest::with_text("ab");
    assert_eq!(decide(&test, Key::Enter, true), Action::Start);
    test.start_test();
    assert_eq!(decide(&test, Key::Enter, true), Action::Ignore);
    test.add_char('a');
    test.add_char('b');
    assert_eq!(decide(&test, Key::Enter, true), Action::Ignore);
}

#[test]
fn characters_and_backspace_act_only_while_typing() {
    let mut test = TypingTest::with_text("ab");
    assert_eq!(decide(&test, Key::Char('a'), true), Action::Ignore);
    assert_eq!(decide(&test, Key::Backspace, true), Action::Ignore);
    test.start_test();
    assert_eq!(decide(&test, Key::Char('a'), true), Action::Append('a'));
    assert_eq!(decide(&test, Key::Char(' '), true), Action::Append(' '));
    assert_eq!(decide(&test, Key::Backspace, true), Action::RemoveLast);
    test.add_char('a');
    test.add_char('b');
    assert_eq!(decide(&test, Key::Char('a'), true), Action::Ignore);
    assert_eq!(decide(&test, Key::Backspace, true), Action::Ignore);
}

#[test]
fn other_keys_and_releases_are_ignored() {
    let mut test = TypingTest::with_text("ab");
    assert_eq!(decide(&test, Key::Other, true), Action::Ignore);
    assert_eq!(decide(&test, Key::Enter, false), Action::Ignore);
    assert_eq!(decide(&test, Key::Char('q'), false), Action::Ignore);
    test.start_test();
    assert_eq!(decide(&test, Key::Other, true), Action::Ignore);
    assert_eq!(decide(&test, Key::Char('a'), false), Action::Ignore);
    assert_eq!(decide(&test, Key::Backspace, false), Action::Ignore);
}

#[test]
fn new_program_has_a_blank_test() {
    let app = App::new();
    let test = app.typing_test();
    assert!((0..PASSAGE_COUNT).any(|i| passage(i) == test.target_text()));
    assert!(!test.is_test_started());
    assert_eq!(test.user_input(), "");
}

#[test]
fn keys_drive_a_test_from_start_to_restart() {
    let mut app = App::new();
    assert!(!app.handle_key(Key::Char('x'), true));
    assert_eq!(app.typing_test().user_input(), "");
    assert!(!app.handle_key(Key::Char('r'), true));
    assert!(!app.typing_test().is_test_started());

    assert!(!app.handle_key(Key::Enter, false));
    assert!(!app.typing_test().is_test_started());
    assert!(!app.handle_key(Key::Enter, true));
    assert!(app.typing_test().is_test_started());

    assert!(!app.handle_key(Key::Char('x'), true));
    assert!(!app.handle_key(Key::Char('y'), false));
    assert_eq!(app.typing_test().user_input(), "x");
    assert!(!app.handle_key(Key::Enter, true));
    assert_eq!(app.typing_test().user_input(), "x");
    assert!(!app.handle_key(Key::Char('r'), true));
    assert_eq!(app.typing_test().user_input(), "xr");
    assert!(!app.handle_key(Key::Backspace, true));
    assert!(!app.handle_key(Key::Backspace, true));
    assert!(!app.handle_key(Key::Backspace, true));
    assert_eq!(app.typing_test().user_input(), "");
    assert!(!app.handle_key(Key::Other, true));

    type_passage(&mut app);
    assert!(app.typing_test().is_test_completed());
    assert!(app.typing_test().show_results());
    let typed = app.typing_test().user_input().to_string();
    assert!(!app.handle_key(Key::Char('x'), true));
    assert!(!app.handle_key(Key::Backspace, true));
    assert!(!app.handle_key(Key::Enter, true));
    assert_eq!(app.typing_test().user_input(), typed);

    assert!(!app.handle_key(Key::Char('r'), true));
    assert!(!app.typing_test().is_test_started());
    assert!(!app.typing_test().show_results());
    assert_eq!(app.typing_test().user_input(), "");
    assert_eq!(app.typing_test().wpm(), 0);

    assert!(app.handle_key(Key::Char('q'), true));
    assert!(!app.handle_key(Key::Char('q'), false));
}

#[test]
fn perform_carries_out_each_action() {
    let mut app = App::new();
    assert!(!app.perform(Action::Ignore));
    assert!(!app.perform(Action::Start));
    assert!(app.typing_test().is_test_started());
    assert!(!app.perform(Action::Append('T')));
    assert_eq!(app.typing_test().user_input(), "T");
    assert!(!app.perform(Action::RemoveLast));
    assert_eq!(app.typing_test().user_input(), "");
    assert!(!app.perform(Action::Reset));
    assert!(!app.typing_test().is_test_started());
    assert!(app.perform(Action::Quit));
    assert!(!app.typing_test().is_test_started());
}
