use typing_test::metrics::Fraction;
use typing_test::typing::TypingTest;
use typing_test::ui::{
    create_instructions, create_progress_bar, create_stats_display, create_text_display, render,
    CharStatus, Instruction, StyledChar,
};

const SECOND: u128 = 1_000_000_000;

fn statuses(test: &TypingTest) -> Vec<CharStatus> {
    create_text_display(test).iter().map(|span| span.status).collect()
}

#[test]
fn instruction_follows_the_state_of_the_test() {
    let mut test = TypingTest::with_text("ab");
    assert_eq!(create_instructions(&test), Instruction::Start);
    test.start_test();
    assert_eq!(create_instructions(&test), Instruction::Typing);
    test.add_char('a');
    assert_eq!(create_instructions(&test), Instruction::Typing);
    test.add_char('b');
    assert_eq!(create_instructions(&test), Instruction::Restart);
    test.reset_to(0);
    assert_eq!(create_instructions(&test), Instruction::Start);
}

#[test]
fn instructions_have_their_words() {
    assert_eq!(Instruction::Start.text(), "Press Enter to start typing test");
    assert_eq!(Instruction::Typing.text(), "Type the text below (Backspace to correct)");
    assert_eq!(Instruction::Restart.text(), "Press 'r' to restart or 'q' to quit");
}

#[test]
fn each_character_is_classified() {
    let mut test = TypingTest::with_text("abcde");
    assert_eq!(
        statuses(&test),
        vec![
            CharStatus::Cursor,
            CharStatus::Pending,
            CharStatus::Pending,
            CharStatus::Pending,
            CharStatus::Pending
        ]
    );
    test.start_test();
    test.add_char('a');
    test.add_char('x');
    assert_eq!(
        create_text_display(&test),
        vec![
            StyledChar { ch: 'a', status: CharStatus::Correct },
            StyledChar { ch: 'b', status: CharStatus::Incorrect },
            StyledChar { ch: 'c', status: CharStatus::Cursor },
            StyledChar { ch: 'd', status: CharStatus::Pending },
            StyledChar { ch: 'e', status: CharStatus::Pending },
        ]
    );
    test.remove_char();
    assert_eq!(
        statuses(&test),
        vec![
            CharStatus::Correct,
            CharStatus::Cursor,
            CharStatus::Pending,
            CharStatus::Pending,
            CharStatus::Pending
        ]
    );
}

#[test]
fn at_most_one_character_is_the_cursor() {
    let mut test = TypingTest::with_text("abcd");
    test.start_test();
    for c in "abxd".chars() {
        let cursors = statuses(&test).iter().filter(|s| **s == CharStatus::Cursor).count();
        assert_eq!(cursors, 1);
        assert_eq!(statuses(&test)[test.current_char()], CharStatus::Cursor);
        test.add_char(c);
    }
    assert!(test.is_test_completed());
    assert_eq!(
        statuses(&test),
        vec![
            CharStatus::Correct,
            CharStatus::Correct,
            CharStatus::Incorrect,
            CharStatus::Correct
        ]
    );
}

#[test]
fn empty_passage_displays_no_characters() {
    let mut test = TypingTest::with_text("");
    assert_eq!(create_text_display(&test), vec![]);
    assert_eq!(create_progress_bar(&test), Fraction::of(0, 1));
    test.start_test();
    test.add_char_after('a', SECOND);
    assert_eq!(create_text_display(&test), vec![]);
    assert_eq!(create_progress_bar(&test), Fraction::of(0, 1));
    assert_eq!(
        create_stats_display(&test),
        "\u{f0}\u{178}\u{17d}\u{2030} Test Complete! | WPM: 0 | Accuracy: 0.0% | Correct: 0/0"
    );
}

#[test]
fn progress_is_the_typed_share_of_the_passage() {
    let mut test = TypingTest::with_text("abcd");
    assert_eq!(create_progress_bar(&test), Fraction::of(0, 4));
    test.start_test();
    test.add_char('a');
    assert_eq!(create_progress_bar(&test), Fraction::of(1, 4));
    test.add_char('b');
    test.add_char('c');
    assert_eq!(create_progress_bar(&test), Fraction::of(3, 4));
    test.remove_char();
    assert_eq!(create_progress_bar(&test), Fraction::of(2, 4));
    test.add_char('c');
    test.add_char('d');
    assert_eq!(create_progress_bar(&test), Fraction::of(4, 4));
    test.add_char('e');
    assert_eq!(create_progress_bar(&test), Fraction::of(4, 4));
}

#[test]
fn summary_waits_until_results_are_on_show() {
    let mut test = TypingTest::with_text("ab");
    assert_eq!(create_stats_display(&test), "Ready to start typing test...");
    test.start_test();
    test.add_char('a');
    assert_eq!(create_stats_display(&test), "Ready to start typing test...");
}

#[test]
fn summary_gives_speed_accuracy_and_count() {
    let mut test = TypingTest::with_text("abc");
    test.start_test();
    test.add_char_after('a', SECOND);
    test.add_char_after('x', 2 * SECOND);
    test.add_char_after('c', 6 * SECOND);
    assert_eq!(test.wpm(), 10);
    assert_eq!(
        create_stats_display(&test),
        "\u{f0}\u{178}\u{17d}\u{2030} Test Complete! | WPM: 10 | Accuracy: 66.7% | Correct: 2/3"
    );
    let expected = format!(
        "\u{f0}\u{178}\u{17d}\u{2030} Test Complete! | WPM: {} | Accuracy: {:.1}% | Correct: {}/{}",
        test.wpm(),
        test.accuracy().part() as f64 / test.accuracy().whole() as f64 * 100.0,
        test.correct_chars(),
        test.total_chars()
    );
    assert_eq!(create_stats_display(&test), expected);
}

#[test]
fn summary_of_a_faultless_long_test() {
    let passage = "The quick brown fox jumps over the lazy dog.";
    let mut test = TypingTest::with_text(passage);
    test.start_test();
    for c in passage.chars() {
        test.add_char_after(c, 20 * SECOND);
    }
    assert_eq!(
        create_stats_display(&test),
        "\u{f0}\u{178}\u{17d}\u{2030} Test Complete! | WPM: 27 | Accuracy: 100.0% | Correct: 44/44"
    );
}

#[test]
fn summary_rounds_accuracy_to_one_decimal_place() {
    let mut test = TypingTest::with_text("abcdefgh");
    test.start_test();
    for c in "a???????".chars() {
        test.add_char_after(c, 60 * SECOND);
    }
    assert_eq!(
        create_stats_display(&test),
        "\u{f0}\u{178}\u{17d}\u{2030} Test Complete! | WPM: 1 | Accuracy: 12.5% | Correct: 1/8"
    );
}

#[test]
fn summary_rounds_an_exact_half_to_the_even_tenth() {
    let mut test = TypingTest::with_text("abcdefghijklmnop");
    test.start_test();
    for c in "a???????????????".chars() {
        test.add_char_after(c, 60 * SECOND);
    }
    assert_eq!(test.correct_chars(), 1);
    assert_eq!(
        create_stats_display(&test),
        "\u{f0}\u{178}\u{17d}\u{2030} Test Complete! | WPM: 1 | Accuracy: 6.2% | Correct: 1/16"
    );
    assert_eq!(format!("{:.1}", (1.0f64 / 16.0) * 100.0), "6.2");

    let mut test = TypingTest::with_text("abcdefghijklmnop");
    test.start_test();
    for c in "abc?????????????".chars() {
        test.add_char_after(c, 60 * SECOND);
    }
    assert_eq!(
        create_stats_display(&test),
        "\u{f0}\u{178}\u{17d}\u{2030} Test Complete! | WPM: 1 | Accuracy: 18.8% | Correct: 3/16"
    );
    assert_eq!(format!("{:.1}", (3.0f64 / 16.0) * 100.0), "18.8");
}

#[test]
fn render_puts_the_four_parts_together() {
    let mut test = TypingTest::with_text("ab");
    test.start_test();
    test.add_char('x');
    let screen = render(&test);
    assert_eq!(screen.instruction, Instruction::Typing);
    assert_eq!(
        screen.text,
        vec![
            StyledChar { ch: 'a', status: CharStatus::Incorrect },
            StyledChar { ch: 'b', status: CharStatus::Cursor },
        ]
    );
    assert_eq!(screen.progress, Fraction::of(1, 2));
    assert_eq!(screen.summary, "Ready to start typing test...");

    test.add_char_after('b', 60 * SECOND);
    let screen = render(&test);
    assert_eq!(screen.instruction, Instruction::Restart);
    assert_eq!(
        screen.text,
        vec![
            StyledChar { ch: 'a', status: CharStatus::Incorrect },
            StyledChar { ch: 'b', status: CharStatus::Correct },
        ]
    );
    assert_eq!(screen.progress, Fraction::of(2, 2));
    assert_eq!(
        screen.summary,
        "\u{f0}\u{178}\u{17d}\u{2030} Test Complete! | WPM: 1 | Accuracy: 50.0% | Correct: 1/2"
    );
    assert_eq!(render(&test), screen);
}

#[test]
fn render_does_not_change_the_test() {
    let mut test = TypingTest::with_text("abc");
    test.start_test();
    test.add_char('a');
    let first = render(&test);
    let second = render(&test);
    assert_eq!(first, second);
    assert_eq!(test.user_input(), "a");
    assert_eq!(test.current_char(), 1);
}
