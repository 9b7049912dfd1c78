//! The typing test itself: the passage, what the user has typed against it,
//! the clock, and the figures that come out at the end.

use crate::clock::nanos_since;
use crate::metrics::{whole_seconds, words_per_minute, Fraction, Share};
use crate::passages::{
    is_passage, passage, passage_text, random_passage_index, PASSAGE_COUNT,
};
use crate::session::{
    lemma_append_valid, lemma_figures_in_range, lemma_fresh_valid, lemma_remove_last_valid,
    Session,
};
use crate::text::{count_matches, count_matching, count_words, lemma_matches_bounded};
use std::time::Instant;
use vstd::prelude::*;
use vstd::string::StrSliceExecFns;

verus! {

/// What a test holds. On its own this is plain data: it is the test around it
/// that keeps the session valid.
struct State {
    target_text: String,
    user_input: String,
    start_time: Option<Instant>,
    current_char: usize,
    correct_chars: usize,
    total_chars: usize,
    wpm: u32,
    accuracy: Fraction,
    test_completed: bool,
    show_results: bool,
}

impl View for State {
    type V = Session;

    closed spec fn view(&self) -> Session {
        Session {
            reference: self.target_text@,
            typed: self.user_input@,
            started_at: self.start_time,
            cursor: self.current_char as nat,
            correct_count: self.correct_chars as nat,
            total_chars: self.total_chars as nat,
            completed: self.test_completed,
            results_visible: self.show_results,
            wpm: self.wpm as nat,
            accuracy: self.accuracy@,
        }
    }
}

impl State {
    /// The state of a test on `text` on which nothing has happened yet.
    fn on(text: &str) -> (state: State)
        ensures
            state@ == Session::fresh(text@),
    {
        State {
            target_text: text.to_owned(),
            user_input: String::new(),
            start_time: None,
            current_char: 0,
            correct_chars: 0,
            total_chars: text.unicode_len(),
            wpm: 0,
            accuracy: Fraction::zero(),
            test_completed: false,
            show_results: false,
        }
    }

    /// The state of a test on an empty passage: what a test holds while its
    /// own state is being worked on.
    fn blank() -> (state: State)
        ensures
            state@.valid(),
    {
        proof {
            lemma_fresh_valid(""@);
        }
        State::on("")
    }

    /// Counts anew the typed characters that agree with the passage.
    fn update_stats(&mut self)
        requires
            old(self)@.cursor == old(self)@.typed.len(),
        ensures
            final(self)@ == old(self)@.retype(old(self)@.typed),
    {
        self.correct_chars = count_matching(self.target_text.as_str(), self.user_input.as_str());
    }

    /// Works out speed and accuracy of a test that took `elapsed`
    /// nanoseconds, and marks it completed.
    fn complete_test(&mut self, elapsed: u128)
        requires
            old(self)@.correct_count <= old(self)@.total_chars,
        ensures
            final(self)@ == old(self)@.complete(elapsed as nat),
    {
        let words = count_words(self.user_input.as_str());
        self.wpm = words_per_minute(words, elapsed);
        self.accuracy = Fraction::of(self.correct_chars, self.total_chars);
        self.test_completed = true;
        self.show_results = true;
    }
}

/// One typing test. Its state, as contracts speak of it, is the [`Session`]
/// that its view gives, and that session is valid at all times.
pub struct TypingTest {
    state: State,
}

impl View for TypingTest {
    type V = Session;

    closed spec fn view(&self) -> Session {
        self.state@
    }
}

impl TypingTest {
    /// Every test holds a valid session.
    #[verifier::type_invariant]
    pub open spec fn holds_valid_session(self) -> bool {
        self@.valid()
    }

    /// A test on a passage drawn at random from the set, not yet started.
    pub fn new() -> (test: Self)
        ensures
            is_passage(test@.reference),
            test@ == Session::fresh(test@.reference),
            test@.valid(),
    {
        let random_index = random_passage_index();
        Self::with_passage(random_index)
    }

    /// A test on the passage at `index` of the set, not yet started.
    pub fn with_passage(index: usize) -> (test: Self)
        requires
            index < PASSAGE_COUNT,
        ensures
            test@ == Session::fresh(passage_text(index as int)),
            test@.valid(),
    {
        Self::with_text(passage(index))
    }

    /// A test on `text` as its passage, not yet started.
    pub fn with_text(text: &str) -> (test: Self)
        ensures
            test@ == Session::fresh(text@),
            test@.valid(),
    {
        proof {
            lemma_fresh_valid(text@);
        }
        TypingTest { state: State::on(text) }
    }

    /// Starts the test at the present reading of the clock, unless it was
    /// started already. The session changes as [`Session::start`] says, for
    /// the reading that the clock gave.
    pub fn start_test(&mut self)
        ensures
            exists|now: Instant| final(self)@ == #[trigger] old(self)@.start(now),
            final(self)@.started(),
            final(self)@.valid(),
    {
        proof {
            use_type_invariant(&*self);
        }
        if self.state.start_time.is_none() {
            let now = Instant::now();
            self.start_test_at(now);
        } else {
            assert(self@ == old(self)@.start(old(self)@.started_at->0));
        }
    }

    /// Starts the test at the reading `now` of the clock, unless it was
    /// started already.
    pub fn start_test_at(&mut self, now: Instant)
        ensures
            final(self)@ == old(self)@.start(now),
            final(self)@.valid(),
    {
        proof {
            use_type_invariant(&*self);
        }
        if self.state.start_time.is_none() {
            self.state.start_time = Some(now);
        }
    }

    /// Types `c`. Where that completes the test, the clock is read for the
    /// time the test took. The session changes as [`Session::append`] says,
    /// for the time that the clock gave.
    pub fn add_char(&mut self, c: char)
        ensures
            exists|elapsed: nat| final(self)@ == #[trigger] old(self)@.append(c, elapsed),
            final(self)@.valid(),
    {
        proof {
            use_type_invariant(&*self);
        }
        let missing = self.state.total_chars - self.state.current_char;
        let elapsed = match self.state.start_time {
            Some(start) => {
                if !self.state.test_completed && missing <= 1 {
                    nanos_since(&start)
                } else {
                    0
                }
            },
            None => 0,
        };
        self.add_char_after(c, elapsed);
    }

    /// Types `c`, `elapsed` nanoseconds after the start.
    pub fn add_char_after(&mut self, c: char, elapsed: u128)
        ensures
            final(self)@ == old(self)@.append(c, elapsed as nat),
            final(self)@.valid(),
    {
        proof {
            use_type_invariant(&*self);
            lemma_append_valid(self@, c, elapsed as nat);
        }
        if self.state.start_time.is_none() || self.state.test_completed {
            return ;
        }
        let mut state = State::blank();
        std::mem::swap(&mut state, &mut self.state);
        if state.current_char < state.total_chars {
            state.user_input.push(c);
            state.current_char = state.user_input.as_str().unicode_len();
            state.update_stats();
        }
        if state.current_char >= state.total_chars {
            proof {
                lemma_matches_bounded(state@.reference, state@.typed);
            }
            state.complete_test(elapsed);
        }
        self.state = state;
    }

    /// Takes back the last typed character, if the test is not completed and
    /// there is one.
    pub fn remove_char(&mut self)
        ensures
            final(self)@ == old(self)@.remove_last(),
            final(self)@.valid(),
    {
        proof {
            use_type_invariant(&*self);
            lemma_remove_last_valid(self@);
        }
        if self.state.test_completed || self.state.user_input.as_str().is_empty() {
            return ;
        }
        let mut state = State::blank();
        std::mem::swap(&mut state, &mut self.state);
        state.user_input.pop();
        state.current_char = state.user_input.as_str().unicode_len();
        state.update_stats();
        self.state = state;
    }

    /// Replaces the test by a new one on a passage drawn at random from the
    /// set, whatever state it was in.
    pub fn reset(&mut self)
        ensures
            is_passage(final(self)@.reference),
            final(self)@ == Session::fresh(final(self)@.reference),
            final(self)@.valid(),
    {
        let random_index = random_passage_index();
        self.reset_to(random_index);
    }

    /// Replaces the test by a new one on the passage at `index` of the set,
    /// whatever state it was in.
    pub fn reset_to(&mut self, index: usize)
        requires
            index < PASSAGE_COUNT,
        ensures
            final(self)@ == Session::fresh(passage_text(index as int)),
            final(self)@.valid(),
    {
        proof {
            lemma_fresh_valid(passage_text(index as int));
        }
        self.state = State::on(passage(index));
    }

    /// The passage to type.
    pub fn target_text(&self) -> (text: &str)
        ensures
            text@ == self@.reference,
    {
        self.state.target_text.as_str()
    }

    /// What has been typed so far; never longer than the passage.
    pub fn user_input(&self) -> (text: &str)
        ensures
            text@ == self@.typed,
            text@.len() <= self@.reference.len(),
    {
        proof {
            use_type_invariant(self);
        }
        self.state.user_input.as_str()
    }

    /// The position of the next character to type: the length of the typed
    /// text.
    pub fn current_char(&self) -> (cursor: usize)
        ensures
            cursor == self@.cursor,
            cursor == self@.typed.len(),
    {
        proof {
            use_type_invariant(self);
        }
        self.state.current_char
    }

    /// How many typed characters agree with the passage.
    pub fn correct_chars(&self) -> (count: usize)
        ensures
            count == self@.correct_count,
            count == count_matches(self@.reference, self@.typed),
            count <= self@.typed.len(),
    {
        proof {
            use_type_invariant(self);
            lemma_figures_in_range(self@);
        }
        self.state.correct_chars
    }

    /// The length of the passage in characters.
    pub fn total_chars(&self) -> (count: usize)
        ensures
            count == self@.total_chars,
            count == self@.reference.len(),
    {
        proof {
            use_type_invariant(self);
        }
        self.state.total_chars
    }

    /// Typing speed in words per minute; 0 until the test is completed.
    pub fn wpm(&self) -> (wpm: u32)
        ensures
            wpm == self@.wpm,
            !self@.completed ==> wpm == 0,
    {
        proof {
            use_type_invariant(self);
        }
        self.state.wpm
    }

    /// The share of the passage typed correctly, which is between nothing
    /// and all of it; zero until the test is completed.
    pub fn accuracy(&self) -> (share: Fraction)
        ensures
            share@ == self@.accuracy,
            share@.valid(),
            !self@.completed ==> share@ == Share::zero(),
    {
        proof {
            use_type_invariant(self);
            lemma_figures_in_range(self@);
        }
        self.state.accuracy
    }

    /// Whether the test has been started.
    pub fn is_test_started(&self) -> (started: bool)
        ensures
            started == self@.started(),
    {
        self.state.start_time.is_some()
    }

    /// Whether the passage has been typed to its end.
    pub fn is_test_completed(&self) -> (completed: bool)
        ensures
            completed == self@.completed,
    {
        self.state.test_completed
    }

    /// Whether the results are on show, which they are exactly when the test
    /// is completed.
    pub fn show_results(&self) -> (visible: bool)
        ensures
            visible == self@.results_visible,
            visible == self@.completed,
    {
        proof {
            use_type_invariant(self);
        }
        self.state.show_results
    }

    /// The whole seconds since the test was started, by the clock's present
    /// reading; `None` before the start.
    pub fn elapsed_time(&self) -> (seconds: Option<u64>)
        ensures
            seconds is Some <==> self@.started(),
    {
        match &self.state.start_time {
            Some(start) => Some(whole_seconds(nanos_since(start))),
            None => None,
        }
    }
}

impl Default for TypingTest {
    /// A test on an empty passage, not yet started.
    fn default() -> (test: Self)
        ensures
            test@ == Session::fresh(Seq::empty()),
            test@.valid(),
    {
        proof {
            lemma_fresh_valid(Seq::empty());
        }
        let test = TypingTest::with_text("");
        proof {
            reveal_strlit("");
            assert(test@.reference =~= Seq::<char>::empty());
        }
        test
    }
}

} // verus!
