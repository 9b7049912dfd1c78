//! The typing test as a state machine over mathematical values: what a
//! session holds, how each operation changes it, and what stays true of it.

use crate::counting::lemma_count_none;
use crate::metrics::{lemma_share_in_range, lemma_share_of_valid, lemma_zero_share, speed, Share};
use crate::text::{count_matches, lemma_matches_bounded, same_at, word_count};
use std::time::Instant;
use vstd::prelude::*;

verus! {

/// Where a session stands.
pub enum Phase {
    NotStarted,
    InProgress,
    Completed,
}

/// The state of one typing test.
pub struct Session {
    /// The passage to type.
    pub reference: Seq<char>,
    /// What has been typed so far.
    pub typed: Seq<char>,
    /// The reading of the clock when the test was started; absent before.
    pub started_at: Option<Instant>,
    /// The position of the next character to type.
    pub cursor: nat,
    /// How many typed characters agree with the passage.
    pub correct_count: nat,
    /// The length of the passage.
    pub total_chars: nat,
    /// Whether the passage has been typed to its end.
    pub completed: bool,
    /// Whether the results are on show.
    pub results_visible: bool,
    /// Typing speed in words per minute; 0 until the test is completed.
    pub wpm: nat,
    /// The share of the passage typed correctly; zero until the test is
    /// completed.
    pub accuracy: Share,
}

/// One edit of the typed text.
pub enum Edit {
    /// Type a character, the given number of nanoseconds after the start.
    Append(char, nat),
    /// Take the last character back.
    RemoveLast,
}

impl Session {
    /// A session on `reference` on which nothing has happened yet.
    pub open spec fn fresh(reference: Seq<char>) -> Session {
        Session {
            reference,
            typed: Seq::empty(),
            started_at: None,
            cursor: 0,
            correct_count: 0,
            total_chars: reference.len(),
            completed: false,
            results_visible: false,
            wpm: 0,
            accuracy: Share::zero(),
        }
    }

    /// Whether the test has been started.
    pub open spec fn started(self) -> bool {
        self.started_at is Some
    }

    /// The phase the session is in.
    pub open spec fn phase(self) -> Phase {
        if self.completed {
            Phase::Completed
        } else if self.started() {
            Phase::InProgress
        } else {
            Phase::NotStarted
        }
    }

    /// Whether typing is under way: started and not yet completed.
    pub open spec fn active(self) -> bool {
        self.started() && !self.completed
    }

    /// What holds of every session that the operations can reach.
    pub open spec fn valid(self) -> bool {
        &&& self.cursor == self.typed.len()
        &&& self.total_chars == self.reference.len()
        &&& self.correct_count == count_matches(self.reference, self.typed)
        &&& self.results_visible == self.completed
        &&& self.completed ==> self.started()
        &&& !self.started() ==> self.typed.len() == 0
        &&& self.typed.len() <= self.reference.len()
        &&& self.active() ==> self.typed.len() < self.reference.len() || self.reference.len() == 0
        &&& self.completed ==> self.typed.len() == self.reference.len()
        &&& !self.completed ==> self.wpm == 0 && self.accuracy == Share::zero()
        &&& self.completed ==> self.accuracy == Share::of(self.correct_count, self.total_chars)
    }

    /// Starting the test when the clock reads `now`. A session that was
    /// started already stays as it is and keeps the reading it was started
    /// at.
    pub open spec fn start(self, now: Instant) -> Session {
        if self.started() {
            self
        } else {
            Session { started_at: Some(now), ..self }
        }
    }

    /// The session with the figures of a test that took `elapsed_nanos`
    /// nanoseconds, and marked as completed.
    pub open spec fn complete(self, elapsed_nanos: nat) -> Session {
        Session {
            completed: true,
            results_visible: true,
            wpm: speed(word_count(self.typed), elapsed_nanos),
            accuracy: Share::of(self.correct_count, self.total_chars),
            ..self
        }
    }

    /// The session with `typed` as its typed text, and the cursor and the
    /// count of correct characters brought up to date.
    pub open spec fn retype(self, typed: Seq<char>) -> Session {
        Session {
            typed,
            cursor: typed.len(),
            correct_count: count_matches(self.reference, typed),
            ..self
        }
    }

    /// Typing `c`, `elapsed_nanos` nanoseconds after the start.
    ///
    /// Outside of active typing nothing changes. Otherwise the character is
    /// taken while the typed text is shorter than the passage, and the test is
    /// completed as soon as the typed text is as long as the passage. On an
    /// empty passage that is so before anything is typed: the first
    /// character completes the test and is not taken, so that the typed text
    /// never grows longer than the passage.
    pub open spec fn append(self, c: char, elapsed_nanos: nat) -> Session {
        if !self.active() {
            self
        } else {
            let taken = if self.typed.len() < self.reference.len() {
                self.retype(self.typed.push(c))
            } else {
                self
            };
            if taken.typed.len() >= taken.reference.len() {
                taken.complete(elapsed_nanos)
            } else {
                taken
            }
        }
    }

    /// Taking back the last typed character. Nothing changes when the test
    /// is completed or nothing has been typed.
    pub open spec fn remove_last(self) -> Session {
        if self.completed || self.typed.len() == 0 {
            self
        } else {
            self.retype(self.typed.drop_last())
        }
    }

    /// The session after one edit.
    pub open spec fn edit(self, edit: Edit) -> Session {
        match edit {
            Edit::Append(c, elapsed_nanos) => self.append(c, elapsed_nanos),
            Edit::RemoveLast => self.remove_last(),
        }
    }

    /// The session after a sequence of edits, the first one first.
    pub open spec fn run(self, edits: Seq<Edit>) -> Session
        decreases edits.len(),
    {
        if edits.len() == 0 {
            self
        } else {
            self.run(edits.drop_last()).edit(edits.last())
        }
    }
}

/// A fresh session is valid, whatever the passage.
pub proof fn lemma_fresh_valid(reference: Seq<char>)
    ensures
        Session::fresh(reference).valid(),
{
    lemma_count_none(same_at(reference, Seq::<char>::empty()));
}

/// A fresh session has not started: nothing is typed, the clock is not
/// running, and speed and accuracy are zero.
pub proof fn lemma_fresh_is_blank(reference: Seq<char>)
    ensures
        Session::fresh(reference).phase() == Phase::NotStarted,
        Session::fresh(reference).reference == reference,
        Session::fresh(reference).typed.len() == 0,
        Session::fresh(reference).started_at is None,
        !Session::fresh(reference).completed,
        !Session::fresh(reference).results_visible,
        Session::fresh(reference).cursor == 0,
        Session::fresh(reference).correct_count == 0,
        Session::fresh(reference).wpm == 0,
        Session::fresh(reference).accuracy.part == 0,
        Session::fresh(reference).accuracy.permille() == 0,
{
    lemma_zero_share();
}

/// Starting keeps a session valid, moves one that had not started into
/// typing, and leaves one that had started as it was.
pub proof fn lemma_start_valid(s: Session, now: Instant)
    requires
        s.valid(),
    ensures
        s.start(now).valid(),
        s.started() ==> s.start(now) == s,
        !s.started() ==> s.start(now).phase() == Phase::InProgress && s.start(now).started_at
            == Some(now),
{
}

/// Typing a character keeps a session valid.
pub proof fn lemma_append_valid(s: Session, c: char, elapsed_nanos: nat)
    requires
        s.valid(),
    ensures
        s.append(c, elapsed_nanos).valid(),
{
}

/// Taking a character back keeps a session valid.
pub proof fn lemma_remove_last_valid(s: Session)
    requires
        s.valid(),
    ensures
        s.remove_last().valid(),
{
}

/// Whatever is typed and taken back, in whatever order, the session stays
/// valid: the cursor stands at the end of the typed text, and the count of
/// correct characters is the number of positions at which typed text and
/// passage agree.
pub proof fn lemma_edits_keep_valid(s: Session, edits: Seq<Edit>)
    requires
        s.valid(),
    ensures
        s.run(edits).valid(),
        s.run(edits).cursor == s.run(edits).typed.len(),
        s.run(edits).correct_count == count_matches(s.run(edits).reference, s.run(edits).typed),
        s.run(edits).reference == s.reference,
        s.run(edits).started_at == s.started_at,
    decreases edits.len(),
{
    if edits.len() > 0 {
        lemma_edits_keep_valid(s, edits.drop_last());
        let before = s.run(edits.drop_last());
        match edits.last() {
            Edit::Append(c, elapsed_nanos) => {
                lemma_append_valid(before, c, elapsed_nanos);
            },
            Edit::RemoveLast => {
                lemma_remove_last_valid(before);
            },
        }
    }
}

/// Once a test is completed, typing and taking back change nothing: not the
/// typed text, not the count of correct characters, not speed or accuracy.
pub proof fn lemma_completed_is_final(s: Session, edits: Seq<Edit>)
    requires
        s.completed,
    ensures
        s.run(edits) == s,
    decreases edits.len(),
{
    if edits.len() > 0 {
        lemma_completed_is_final(s, edits.drop_last());
    }
}

/// The accuracy of a valid session lies between 0 and 100 percent, and its
/// speed is not negative.
pub proof fn lemma_figures_in_range(s: Session)
    requires
        s.valid(),
    ensures
        s.accuracy.valid(),
        0 <= 100 * s.accuracy.part <= 100 * s.accuracy.whole,
        s.accuracy.permille() <= 1000,
        s.wpm >= 0,
        s.correct_count <= s.typed.len(),
        s.correct_count <= s.reference.len(),
{
    lemma_matches_bounded(s.reference, s.typed);
    lemma_share_of_valid(s.correct_count, s.total_chars);
    lemma_share_in_range(s.accuracy);
}

/// Results are on show exactly when the test is completed, and a test is
/// completed only after it was started.
pub proof fn lemma_results_follow_completion(s: Session)
    requires
        s.valid(),
    ensures
        s.results_visible == s.completed,
        s.results_visible ==> s.started(),
        s.results_visible == (s.phase() == Phase::Completed),
{
}

} // verus!
