//! The decisions of the program that runs a typing test: which key does what
//! in which state.

use crate::passages::is_passage;
use crate::session::Session;
use crate::typing::TypingTest;
use std::time::Instant;
use vstd::prelude::*;

verus! {

/// A key of the keyboard, as far as the program tells keys apart.
#[derive(Clone, Copy, Debug, PartialEq, Eq, Structural)]
pub enum Key {
    /// A key that gives a character.
    Char(char),
    Enter,
    Backspace,
    /// Any other key.
    Other,
}

/// What the program does on a key.
#[derive(Clone, Copy, Debug, PartialEq, Eq, Structural)]
pub enum Action {
    /// End the program.
    Quit,
    /// Replace the test by a new one.
    Reset,
    /// Start the clock.
    Start,
    /// Type the character.
    Append(char),
    /// Take the last character back.
    RemoveLast,
    /// Nothing.
    Ignore,
}

/// The action for `key` on a session. Only a key that is pressed acts. `q`
/// always quits; `r` resets while results are on show; Enter starts a test
/// that has not started; while typing is under way any other character is
/// typed and Backspace takes one back. Everything else is ignored.
pub open spec fn action_for(s: Session, key: Key, pressed: bool) -> Action {
    if !pressed {
        Action::Ignore
    } else {
        match key {
            Key::Char(c) => {
                if c == 'q' {
                    Action::Quit
                } else if c == 'r' && s.results_visible {
                    Action::Reset
                } else if s.started() && !s.completed {
                    Action::Append(c)
                } else {
                    Action::Ignore
                }
            },
            Key::Enter => {
                if !s.started() {
                    Action::Start
                } else {
                    Action::Ignore
                }
            },
            Key::Backspace => {
                if s.started() && !s.completed {
                    Action::RemoveLast
                } else {
                    Action::Ignore
                }
            },
            Key::Other => Action::Ignore,
        }
    }
}

/// Whether `after` is a session that `action` can leave behind on `before`.
/// A reset leaves a fresh session on some passage of the set, a start leaves
/// what [`Session::start`] gives for some reading of the clock, and typing a
/// character leaves what [`Session::append`] gives for some time elapsed;
/// every other action has one outcome.
pub open spec fn follows(before: Session, action: Action, after: Session) -> bool {
    match action {
        Action::Quit => after == before,
        Action::Reset => is_passage(after.reference) && after == Session::fresh(after.reference),
        Action::Start => exists|now: Instant| after == #[trigger] before.start(now),
        Action::Append(c) => exists|elapsed: nat| after == #[trigger] before.append(c, elapsed),
        Action::RemoveLast => after == before.remove_last(),
        Action::Ignore => after == before,
    }
}

/// The rules of the keys on a valid session: `q` always quits; `r` resets
/// exactly when the test is completed, which is when results are on show;
/// Enter starts a test that has not started and is ignored ever after;
/// characters are typed and taken back only while typing is under way; and a
/// key that is not pressed does nothing.
pub proof fn lemma_key_rules(s: Session, c: char)
    requires
        s.valid(),
    ensures
        action_for(s, Key::Char('q'), true) == Action::Quit,
        action_for(s, Key::Char('r'), true) == Action::Reset <==> s.completed,
        action_for(s, Key::Enter, true) == (if s.started() {
            Action::Ignore
        } else {
            Action::Start
        }),
        c != 'q' && c != 'r' ==> action_for(s, Key::Char(c), true) == (if s.active() {
            Action::Append(c)
        } else {
            Action::Ignore
        }),
        action_for(s, Key::Backspace, true) == (if s.active() {
            Action::RemoveLast
        } else {
            Action::Ignore
        }),
        action_for(s, Key::Other, true) == Action::Ignore,
        forall|key: Key| #[trigger] action_for(s, key, false) == Action::Ignore,
{
}

/// Decides what `key` does to `typing_test`.
pub fn decide(typing_test: &TypingTest, key: Key, pressed: bool) -> (action: Action)
    ensures
        action == action_for(typing_test@, key, pressed),
{
    if !pressed {
        return Action::Ignore;
    }
    match key {
        Key::Char(c) => {
            if c == 'q' {
                Action::Quit
            } else if c == 'r' && typing_test.show_results() {
                Action::Reset
            } else if typing_test.is_test_started() && !typing_test.is_test_completed() {
                Action::Append(c)
            } else {
                Action::Ignore
            }
        },
        Key::Enter => {
            if !typing_test.is_test_started() {
                Action::Start
            } else {
                Action::Ignore
            }
        },
        Key::Backspace => {
            if typing_test.is_test_started() && !typing_test.is_test_completed() {
                Action::RemoveLast
            } else {
                Action::Ignore
            }
        },
        Key::Other => Action::Ignore,
    }
}

/// The program's state: the typing test it runs.
pub struct App {
    typing_test: TypingTest,
}

impl View for App {
    type V = Session;

    closed spec fn view(&self) -> Session {
        self.typing_test@
    }
}

impl App {
    /// A program with a test on a passage drawn at random, not yet started.
    pub fn new() -> (app: Self)
        ensures
            is_passage(app@.reference),
            app@ == Session::fresh(app@.reference),
            app@.valid(),
    {
        App { typing_test: TypingTest::new() }
    }

    /// The test that the program runs.
    pub fn typing_test(&self) -> (typing_test: &TypingTest)
        ensures
            typing_test@ == self@,
            typing_test@.valid(),
    {
        proof {
            use_type_invariant(&self.typing_test);
        }
        &self.typing_test
    }

    /// Handles one key event: decides what the key does, and does it. Says
    /// whether the program is to end.
    pub fn handle_key(&mut self, key: Key, pressed: bool) -> (quit: bool)
        ensures
            quit == (action_for(old(self)@, key, pressed) == Action::Quit),
            follows(old(self)@, action_for(old(self)@, key, pressed), final(self)@),
            final(self)@.valid(),
    {
        let action = decide(&self.typing_test, key, pressed);
        self.perform(action)
    }

    /// Carries out `action` on the test. Says whether the program is to end.
    pub fn perform(&mut self, action: Action) -> (quit: bool)
        ensures
            quit == (action == Action::Quit),
            follows(old(self)@, action, final(self)@),
            final(self)@.valid(),
    {
        proof {
            use_type_invariant(&self.typing_test);
        }
        match action {
            Action::Quit => true,
            Action::Reset => {
                self.typing_test.reset();
                false
            },
            Action::Start => {
                self.typing_test.start_test();
                false
            },
            Action::Append(c) => {
                self.typing_test.add_char(c);
                false
            },
            Action::RemoveLast => {
                self.typing_test.remove_char();
                false
            },
            Action::Ignore => false,
        }
    }
}

} // verus!
