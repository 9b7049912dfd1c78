//! Measures on texts, taken character by character: how far two texts agree,
//! and how many words a text holds.

use crate::counting::{count_where, lemma_count_bounded, lemma_count_none, lemma_count_step};
use vstd::prelude::*;
use vstd::std_specs::iter::IteratorSpec;

verus! {

/// The predicate on positions that holds where `a` and `b` carry the same
/// character.
pub open spec fn same_at(a: Seq<char>, b: Seq<char>) -> spec_fn(int) -> bool {
    |i: int| a[i] == b[i]
}

/// The length of the shorter of two texts.
pub open spec fn shorter_len(a: Seq<char>, b: Seq<char>) -> nat {
    if a.len() <= b.len() {
        a.len()
    } else {
        b.len()
    }
}

/// The number of positions, within the shorter of the two texts, at which
/// both carry the same character.
pub open spec fn count_matches(a: Seq<char>, b: Seq<char>) -> nat {
    count_where(shorter_len(a, b), same_at(a, b))
}

/// No more positions match than the shorter text has.
pub proof fn lemma_matches_bounded(a: Seq<char>, b: Seq<char>)
    ensures
        count_matches(a, b) <= shorter_len(a, b),
        count_matches(a, b) <= a.len(),
        count_matches(a, b) <= b.len(),
{
    lemma_count_bounded(shorter_len(a, b), same_at(a, b));
}

/// The characters of `text`, in order, as a vector.
pub fn chars_of(text: &str) -> (chars: Vec<char>)
    ensures
        chars@ == text@,
{
    let mut chars: Vec<char> = Vec::new();
    let mut rest = text.chars();
    loop
        invariant
            chars@ + rest.remaining() == text@,
            rest.decrease() is Some,
        ensures
            chars@ == text@,
        decreases rest.decrease()->0,
    {
        let ghost before = rest.remaining();
        match rest.next() {
            Some(c) => {
                chars.push(c);
                assert(chars@ + rest.remaining() =~= (chars@.drop_last() + before));
            },
            None => {
                assert(chars@ + rest.remaining() =~= chars@);
                break ;
            },
        }
    }
    chars
}

/// The character at position `i` of `chars`.
pub(crate) fn char_at(chars: &Vec<char>, i: usize) -> (c: char)
    requires
        i < chars.len(),
    ensures
        c == chars[i as int],
{
    chars[i]
}

/// Counts the positions at which `reference` and `typed` agree, looking no
/// further than the end of the shorter one.
pub fn count_matching(reference: &str, typed: &str) -> (count: usize)
    ensures
        count == count_matches(reference@, typed@),
{
    let expected = chars_of(reference);
    let given = chars_of(typed);
    let limit = if expected.len() <= given.len() {
        expected.len()
    } else {
        given.len()
    };
    let mut count: usize = 0;
    let mut i: usize = 0;
    proof {
        lemma_count_none(same_at(reference@, typed@));
    }
    while i < limit
        invariant
            expected@ == reference@,
            given@ == typed@,
            limit == shorter_len(reference@, typed@),
            i <= limit,
            count == count_where(i as nat, same_at(reference@, typed@)),
            count <= i,
        decreases limit - i,
    {
        proof {
            lemma_count_step(i as nat, same_at(reference@, typed@));
        }
        if expected[i] == given[i] {
            count = count + 1;
        }
        i = i + 1;
    }
    count
}

/// Trusted: `String::push` appends one character at the end of the string.
pub assume_specification[ String::push ](text: &mut String, c: char)
    ensures
        final(text)@ == old(text)@.push(c),
;

/// Trusted: `String::pop` removes the last character of the string and hands
/// it back; an empty string stays empty and gives `None`.
pub assume_specification[ String::pop ](text: &mut String) -> (last: Option<char>)
    ensures
        old(text)@.len() > 0 ==> last == Some(old(text)@.last()) && final(text)@ == old(
            text,
        )@.drop_last(),
        old(text)@.len() == 0 ==> last is None && final(text)@ == old(text)@,
;

/// Whether `c` is one of the white-space characters up to U+007F: the space,
/// and the controls from U+0009 (tab) to U+000D (carriage return).
pub open spec fn ascii_white_space(c: char) -> bool {
    c == ' ' || 0x09 <= (c as u32) <= 0x0d
}

/// For a character beyond U+007F, whether `char::is_whitespace` of the
/// standard library reports it as white space: whether the character has the
/// Unicode property `White_Space`.
pub uninterp spec fn white_space(c: char) -> bool;

/// Whether `c` is white space: up to U+007F one of the six characters that
/// [`ascii_white_space`] lists, beyond it what [`white_space`] names.
pub open spec fn is_blank(c: char) -> bool {
    if (c as u32) <= 0x7f {
        ascii_white_space(c)
    } else {
        white_space(c)
    }
}

/// Trusted: `char::is_whitespace` is a function of the character alone. Up
/// to U+007F it answers yes for the space and for U+0009 to U+000D and for
/// no other character; beyond, [`white_space`] names what it answers, and
/// nothing is claimed about which characters those are.
pub assume_specification[ char::is_whitespace ](c: char) -> (blank: bool)
    ensures
        blank == (if (c as u32) <= 0x7f {
            ascii_white_space(c)
        } else {
            white_space(c)
        }),
;

/// For each character of `text`, whether it is white space.
pub open spec fn blanks(text: Seq<char>) -> Seq<bool> {
    Seq::new(text.len(), |i: int| is_blank(text[i]))
}

/// The predicate on positions that holds where a word begins: the position is
/// not blank, and it is the first one or follows a blank one.
pub open spec fn starts_word(blank: Seq<bool>) -> spec_fn(int) -> bool {
    |i: int| !blank[i] && (i == 0 || blank[i - 1])
}

/// The number of words in a text of which `blank` marks the white space: the
/// number of maximal runs of positions that are not blank.
pub open spec fn words_in(blank: Seq<bool>) -> nat {
    count_where(blank.len(), starts_word(blank))
}

/// The number of words in `text`, a word being a maximal run of characters
/// that are not white space.
pub open spec fn word_count(text: Seq<char>) -> nat {
    words_in(blanks(text))
}

/// Marks the white space of `text`, character by character.
pub fn whitespace_mask(text: &str) -> (mask: Vec<bool>)
    ensures
        mask@ == blanks(text@),
{
    let chars = chars_of(text);
    let mut mask: Vec<bool> = Vec::new();
    let mut i: usize = 0;
    while i < chars.len()
        invariant
            chars@ == text@,
            i <= chars.len(),
            mask.len() == i,
            forall|j: int| 0 <= j < i ==> mask[j] == is_blank(text@[j]),
        decreases chars.len() - i,
    {
        mask.push(chars[i].is_whitespace());
        i = i + 1;
    }
    assert(mask@ =~= blanks(text@));
    mask
}

/// Counts the words of a text whose white space `mask` marks.
pub fn count_word_starts(mask: &Vec<bool>) -> (count: usize)
    ensures
        count == words_in(mask@),
{
    let mut count: usize = 0;
    let mut i: usize = 0;
    proof {
        lemma_count_none(starts_word(mask@));
    }
    while i < mask.len()
        invariant
            i <= mask.len(),
            count == count_where(i as nat, starts_word(mask@)),
            count <= i,
        decreases mask.len() - i,
    {
        proof {
            lemma_count_step(i as nat, starts_word(mask@));
        }
        if !mask[i] && (i == 0 || mask[i - 1]) {
            count = count + 1;
        }
        i = i + 1;
    }
    count
}

/// Counts the words of `text`: the pieces that splitting at runs of white
/// space leaves.
pub fn count_words(text: &str) -> (count: usize)
    ensures
        count == word_count(text@),
{
    let mask = whitespace_mask(text);
    count_word_starts(&mask)
}

} // verus!
