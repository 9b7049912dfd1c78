//! The fixed set of passages a test is drawn from.

use rand::Rng;
use vstd::prelude::*;

verus! {

/// The number of passages in the set.
pub const PASSAGE_COUNT: usize = 10;

pub const PASSAGE_FOX: &'static str = "The quick brown fox jumps over the lazy dog.";

pub const PASSAGE_BOOK: &'static str =
    "Never underestimate the power of a good book and a warm cup of coffee.";

pub const PASSAGE_RUST: &'static str =
    "Programming in Rust can be challenging yet incredibly rewarding for many.";

pub const PASSAGE_LEARNING: &'static str =
    "Learning by doing is an effective way to master new skills and concepts.";

pub const PASSAGE_JOURNEY: &'static str =
    "A journey of a thousand miles begins with a single step towards the horizon.";

pub const PASSAGE_ART: &'static str =
    "The art of programming is the art of organizing complexity and mastering chaos.";

pub const PASSAGE_HUMOR: &'static str =
    "Code is like humor. When you have to explain it, it's bad. When it's good, it's obvious.";

pub const PASSAGE_PROBLEM: &'static str =
    "First, solve the problem. Then, write the code. This approach saves time and frustration.";

pub const PASSAGE_ERRORS: &'static str =
    "The best error messages are the ones that tell you exactly what went wrong and why.";

pub const PASSAGE_CRAFT: &'static str =
    "Clean code always looks like it was written by someone who cares about the craft.";

/// The text of the passage at `index`, for an index below [`PASSAGE_COUNT`].
pub open spec fn passage_text(index: int) -> Seq<char> {
    if index == 0 {
        PASSAGE_FOX@
    } else if index == 1 {
        PASSAGE_BOOK@
    } else if index == 2 {
        PASSAGE_RUST@
    } else if index == 3 {
        PASSAGE_LEARNING@
    } else if index == 4 {
        PASSAGE_JOURNEY@
    } else if index == 5 {
        PASSAGE_ART@
    } else if index == 6 {
        PASSAGE_HUMOR@
    } else if index == 7 {
        PASSAGE_PROBLEM@
    } else if index == 8 {
        PASSAGE_ERRORS@
    } else {
        PASSAGE_CRAFT@
    }
}

/// Whether `text` is one of the passages of the set.
pub open spec fn is_passage(text: Seq<char>) -> bool {
    exists|index: int| 0 <= index < PASSAGE_COUNT && text == #[trigger] passage_text(index)
}

/// The passage at `index`.
pub fn passage(index: usize) -> (text: &'static str)
    requires
        index < PASSAGE_COUNT,
    ensures
        text@ == passage_text(index as int),
{
    if index == 0 {
        PASSAGE_FOX
    } else if index == 1 {
        PASSAGE_BOOK
    } else if index == 2 {
        PASSAGE_RUST
    } else if index == 3 {
        PASSAGE_LEARNING
    } else if index == 4 {
        PASSAGE_JOURNEY
    } else if index == 5 {
        PASSAGE_ART
    } else if index == 6 {
        PASSAGE_HUMOR
    } else if index == 7 {
        PASSAGE_PROBLEM
    } else if index == 8 {
        PASSAGE_ERRORS
    } else {
        PASSAGE_CRAFT
    }
}

/// Trusted: draws a number from the thread's generator of the `rand` crate,
/// by `Rng::gen_range` on the range from 0 up to and excluding `bound`. The
/// draw lies in that range; which number it is, is left open. An empty range
/// would make `gen_range` panic, so `bound` is positive.
#[verifier::external_body]
fn random_below(bound: usize) -> (drawn: usize)
    requires
        bound > 0,
    ensures
        drawn < bound,
{
    rand::thread_rng().gen_range(0..bound)
}

/// Draws the index of one of the passages at random.
pub fn random_passage_index() -> (index: usize)
    ensures
        index < PASSAGE_COUNT,
{
    random_below(PASSAGE_COUNT)
}

} // verus!
