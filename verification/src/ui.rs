//! What a screen shows of a typing test: which instruction, the passage
//! character by character with the state of each, how far the typing has
//! come, and the line of results.

use crate::decimal::{decimal, push_decimal};
use crate::metrics::{Fraction, Share};
use crate::session::Session;
use crate::text::{char_at, chars_of};
use crate::typing::TypingTest;
use vstd::prelude::*;
use vstd::string::StringExecFns;

verus! {

/// The instruction shown while the results are on show.
pub const INSTRUCTION_RESTART: &'static str = "Press 'r' to restart or 'q' to quit";

/// The instruction shown while the user types.
pub const INSTRUCTION_TYPING: &'static str = "Type the text below (Backspace to correct)";

/// The instruction shown before the test is started.
pub const INSTRUCTION_START: &'static str = "Press Enter to start typing test";

/// The line shown in place of results while there are none.
pub const SUMMARY_WAITING: &'static str = "Ready to start typing test...";

/// The results line up to the speed.
pub const SUMMARY_SPEED: &'static str = "ðŸŽ‰ Test Complete! | WPM: ";

/// The results line between speed and accuracy.
pub const SUMMARY_ACCURACY: &'static str = " | Accuracy: ";

/// The decimal point of the accuracy.
pub const SUMMARY_POINT: &'static str = ".";

/// The results line between accuracy and the count of correct characters.
pub const SUMMARY_CORRECT: &'static str = "% | Correct: ";

/// What stands between the count of correct characters and the length of the
/// passage.
pub const SUMMARY_OUT_OF: &'static str = "/";

/// Which of the three instructions a screen shows. Each goes with an emphasis
/// of its own.
#[derive(Clone, Copy, Debug, PartialEq, Eq, Structural)]
pub enum Instruction {
    /// How to start the test.
    Start,
    /// How to type and correct.
    Typing,
    /// How to restart or quit.
    Restart,
}

/// How one character of the passage stands.
#[derive(Clone, Copy, Debug, PartialEq, Eq, Structural)]
pub enum CharStatus {
    /// Typed, and as in the passage.
    Correct,
    /// Typed, and not as in the passage.
    Incorrect,
    /// The next character to type.
    Cursor,
    /// Not reached yet.
    Pending,
}

/// One character of the passage with its status.
#[derive(Clone, Copy, Debug, PartialEq, Eq, Structural)]
pub struct StyledChar {
    pub ch: char,
    pub status: CharStatus,
}

/// All that a screen shows of a test.
#[derive(Debug, PartialEq, Eq)]
pub struct Screen {
    /// The instruction for the state the test is in.
    pub instruction: Instruction,
    /// The passage, each character with its status.
    pub text: Vec<StyledChar>,
    /// How much of the passage has been typed.
    pub progress: Fraction,
    /// The line of results, or of waiting for them.
    pub summary: String,
}

impl Instruction {
    /// The words of the instruction.
    pub open spec fn phrase(self) -> Seq<char> {
        match self {
            Instruction::Start => INSTRUCTION_START@,
            Instruction::Typing => INSTRUCTION_TYPING@,
            Instruction::Restart => INSTRUCTION_RESTART@,
        }
    }

    /// The words of the instruction.
    pub fn text(&self) -> (text: &'static str)
        ensures
            text@ == self.phrase(),
    {
        match self {
            Instruction::Start => INSTRUCTION_START,
            Instruction::Typing => INSTRUCTION_TYPING,
            Instruction::Restart => INSTRUCTION_RESTART,
        }
    }
}

/// The instruction for a session: to restart while results are on show,
/// else to type once the test has started, else to start.
pub open spec fn instruction_for(s: Session) -> Instruction {
    if s.results_visible {
        Instruction::Restart
    } else if s.started() {
        Instruction::Typing
    } else {
        Instruction::Start
    }
}

/// The status of the passage's character at position `i`.
pub open spec fn status_at(s: Session, i: int) -> CharStatus {
    if i < s.typed.len() {
        if s.typed[i] == s.reference[i] {
            CharStatus::Correct
        } else {
            CharStatus::Incorrect
        }
    } else if i == s.typed.len() {
        CharStatus::Cursor
    } else {
        CharStatus::Pending
    }
}

/// Whether `spans` is the passage of the session, character by character,
/// each with its status.
pub open spec fn displays(spans: Seq<StyledChar>, s: Session) -> bool {
    &&& spans.len() == s.reference.len()
    &&& forall|i: int|
        0 <= i < spans.len() ==> (#[trigger] spans[i]).ch == s.reference[i] && spans[i].status
            == status_at(s, i)
}

/// How much of the passage has been typed; nothing of an empty passage.
pub open spec fn progress_of(s: Session) -> Share {
    Share::of(s.cursor, s.total_chars)
}

/// The results line of a session: speed, accuracy in percent to one decimal
/// place, and correct characters out of all; or the line of waiting while no
/// results are on show.
pub open spec fn summary_of(s: Session) -> Seq<char> {
    if s.results_visible {
        SUMMARY_SPEED@ + decimal(s.wpm) + SUMMARY_ACCURACY@ + decimal(s.accuracy.permille() / 10)
            + SUMMARY_POINT@ + decimal(s.accuracy.permille() % 10) + SUMMARY_CORRECT@ + decimal(
            s.correct_count,
        ) + SUMMARY_OUT_OF@ + decimal(s.total_chars)
    } else {
        SUMMARY_WAITING@
    }
}

/// At most one character is the cursor, and there is one exactly while the
/// typed text is shorter than the passage.
pub proof fn lemma_single_cursor(s: Session)
    ensures
        forall|i: int, j: int|
            status_at(s, i) == CharStatus::Cursor && status_at(s, j) == CharStatus::Cursor ==> i
                == j,
        (exists|i: int| 0 <= i < s.reference.len() && status_at(s, i) == CharStatus::Cursor)
            <==> s.typed.len() < s.reference.len(),
{
    if s.typed.len() < s.reference.len() {
        assert(status_at(s, s.typed.len() as int) == CharStatus::Cursor);
    }
}

/// Everything a screen shows of `typing_test`.
pub fn render(typing_test: &TypingTest) -> (screen: Screen)
    ensures
        screen.instruction == instruction_for(typing_test@),
        displays(screen.text@, typing_test@),
        screen.progress@ == progress_of(typing_test@),
        screen.progress@.valid(),
        screen.summary@ == summary_of(typing_test@),
{
    proof {
        use_type_invariant(typing_test);
    }
    Screen {
        instruction: create_instructions(typing_test),
        text: create_text_display(typing_test),
        progress: create_progress_bar(typing_test),
        summary: create_stats_display(typing_test),
    }
}

/// Picks the instruction for the state the test is in.
pub fn create_instructions(typing_test: &TypingTest) -> (instruction: Instruction)
    ensures
        instruction == instruction_for(typing_test@),
{
    if typing_test.show_results() {
        Instruction::Restart
    } else if typing_test.is_test_started() {
        Instruction::Typing
    } else {
        Instruction::Start
    }
}

/// Gives each character of the passage its status.
pub fn create_text_display(typing_test: &TypingTest) -> (spans: Vec<StyledChar>)
    ensures
        displays(spans@, typing_test@),
{
    proof {
        use_type_invariant(typing_test);
    }
    let reference = chars_of(typing_test.target_text());
    let typed = chars_of(typing_test.user_input());
    let mut spans: Vec<StyledChar> = Vec::new();
    let mut i: usize = 0;
    while i < reference.len()
        invariant
            typing_test@.valid(),
            reference@ == typing_test@.reference,
            typed@ == typing_test@.typed,
            i <= reference.len(),
            spans.len() == i,
            forall|j: int|
                0 <= j < i ==> (#[trigger] spans[j]).ch == typing_test@.reference[j] && spans[j].status
                    == status_at(typing_test@, j),
        decreases reference.len() - i,
    {
        let ch = char_at(&reference, i);
        let status = if i < typed.len() {
            if typed[i] == ch {
                CharStatus::Correct
            } else {
                CharStatus::Incorrect
            }
        } else if i == typing_test.current_char() {
            CharStatus::Cursor
        } else {
            CharStatus::Pending
        };
        spans.push(StyledChar { ch, status });
        i = i + 1;
    }
    spans
}

/// Measures how much of the passage has been typed.
pub fn create_progress_bar(typing_test: &TypingTest) -> (progress: Fraction)
    ensures
        progress@ == progress_of(typing_test@),
        progress@.valid(),
{
    proof {
        use_type_invariant(typing_test);
    }
    Fraction::of(typing_test.current_char(), typing_test.total_chars())
}

/// Writes the line of results, or of waiting for them.
pub fn create_stats_display(typing_test: &TypingTest) -> (stats_text: String)
    ensures
        stats_text@ == summary_of(typing_test@),
{
    if typing_test.show_results() {
        let tenths = typing_test.accuracy().tenths_of_percent();
        let mut stats_text = String::new();
        stats_text.append(SUMMARY_SPEED);
        push_decimal(&mut stats_text, typing_test.wpm() as u128);
        stats_text.append(SUMMARY_ACCURACY);
        push_decimal(&mut stats_text, (tenths / 10) as u128);
        stats_text.append(SUMMARY_POINT);
        push_decimal(&mut stats_text, (tenths % 10) as u128);
        stats_text.append(SUMMARY_CORRECT);
        push_decimal(&mut stats_text, typing_test.correct_chars() as u128);
        stats_text.append(SUMMARY_OUT_OF);
        push_decimal(&mut stats_text, typing_test.total_chars() as u128);
        assert(stats_text@ =~= summary_of(typing_test@));
        stats_text
    } else {
        SUMMARY_WAITING.to_owned()
    }
}

} // verus!
