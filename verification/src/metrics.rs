//! The figures a finished test reports: typing speed in words per minute, and
//! shares of a whole kept as exact fractions.

use vstd::arithmetic::div_mod::lemma_fundamental_div_mod;
use vstd::prelude::*;

verus! {

/// Nanoseconds in one minute.
pub const NANOS_PER_MINUTE: u128 = 60_000_000_000;

/// Nanoseconds in one second.
pub const NANOS_PER_SECOND: u128 = 1_000_000_000;

/// Words typed per minute when `words` words took `elapsed_nanos`
/// nanoseconds: the quotient rounded down, and no more than a `u32` holds.
/// With no time elapsed the speed is 0.
pub open spec fn speed(words: nat, elapsed_nanos: nat) -> nat {
    if elapsed_nanos == 0 {
        0
    } else if (words * NANOS_PER_MINUTE) / (elapsed_nanos as int) > u32::MAX {
        u32::MAX as nat
    } else {
        ((words * NANOS_PER_MINUTE) / (elapsed_nanos as int)) as nat
    }
}

/// Computes the typing speed in whole words per minute.
pub fn words_per_minute(words: usize, elapsed_nanos: u128) -> (wpm: u32)
    ensures
        wpm == speed(words as nat, elapsed_nanos as nat),
{
    if elapsed_nanos == 0 {
        return 0;
    }
    let typed: u128 = words as u128;
    let per_minute: u128 = typed * NANOS_PER_MINUTE / elapsed_nanos;
    if per_minute > u32::MAX as u128 {
        u32::MAX
    } else {
        per_minute as u32
    }
}

/// The whole seconds in `elapsed_nanos` nanoseconds, and no more than a `u64`
/// holds.
pub open spec fn seconds_in(elapsed_nanos: nat) -> nat {
    if elapsed_nanos / (NANOS_PER_SECOND as nat) > u64::MAX {
        u64::MAX as nat
    } else {
        elapsed_nanos / (NANOS_PER_SECOND as nat)
    }
}

/// Rounds a time in nanoseconds down to whole seconds.
pub fn whole_seconds(elapsed_nanos: u128) -> (seconds: u64)
    ensures
        seconds == seconds_in(elapsed_nanos as nat),
{
    let seconds: u128 = elapsed_nanos / NANOS_PER_SECOND;
    if seconds > u64::MAX as u128 {
        u64::MAX
    } else {
        seconds as u64
    }
}

/// A share of a whole as mathematics: `part` out of `whole`.
pub struct Share {
    pub part: nat,
    pub whole: nat,
}

impl Share {
    /// A share is valid when it lies between nothing and all of a whole that
    /// is not empty.
    pub open spec fn valid(self) -> bool {
        self.part <= self.whole && self.whole > 0
    }

    /// Nothing of a whole.
    pub open spec fn zero() -> Share {
        Share { part: 0, whole: 1 }
    }

    /// The share `part` of `whole`; of an empty whole the share is zero.
    pub open spec fn of(part: nat, whole: nat) -> Share {
        if whole == 0 {
            Share::zero()
        } else {
            Share { part, whole }
        }
    }

    /// The whole tenths of a percent that the share holds: the share in
    /// tenths of a percent, rounded down.
    pub open spec fn permille_floor(self) -> nat {
        (1000 * self.part / self.whole) as nat
    }

    /// What is left of the share beyond its whole tenths of a percent, as a
    /// count out of `whole`.
    pub open spec fn permille_rest(self) -> nat {
        (1000 * self.part % self.whole) as nat
    }

    /// The share in tenths of a percent, rounded to the nearest tenth. A share
    /// that lies exactly half way between two tenths goes to the even one.
    pub open spec fn permille(self) -> nat {
        if 2 * self.permille_rest() > self.whole || (2 * self.permille_rest() == self.whole
            && self.permille_floor() % 2 == 1) {
            self.permille_floor() + 1
        } else {
            self.permille_floor()
        }
    }
}

/// A valid share is at least nothing and at most the whole: as a percentage
/// it lies between 0 and 100, and in tenths of a percent between 0 and 1000.
pub proof fn lemma_share_in_range(share: Share)
    requires
        share.valid(),
    ensures
        0 <= 100 * share.part <= 100 * share.whole,
        0 <= share.permille() <= 1000,
{
    let part = share.part as int;
    let whole = share.whole as int;
    let floor = 1000 * part / whole;
    let rest = 1000 * part % whole;
    assert(1000 * part == whole * floor + rest && 0 <= rest < whole) by {
        lemma_fundamental_div_mod(1000 * part, whole);
    }
    assert(0 <= floor <= 1000 && (floor == 1000 ==> rest == 0)) by (nonlinear_arith)
        requires
            1000 * part == whole * floor + rest,
            0 <= rest < whole,
            0 <= part <= whole,
    ;
}

/// The zero share is valid, and is zero tenths of a percent.
pub proof fn lemma_zero_share()
    ensures
        Share::zero().valid(),
        Share::zero().permille() == 0,
{
    assert(1000 * 0int / 1 == 0 && 1000 * 0int % 1 == 0) by (nonlinear_arith);
}

/// The share of any part in a whole that holds it is valid.
pub proof fn lemma_share_of_valid(part: nat, whole: nat)
    requires
        part <= whole,
    ensures
        Share::of(part, whole).valid(),
{
}

/// A share of a whole, kept exact: `part` out of `whole`. Every value is a
/// valid share.
#[derive(Clone, Copy, Debug, PartialEq, Eq, Structural)]
pub struct Fraction {
    part: usize,
    whole: usize,
}

impl View for Fraction {
    type V = Share;

    closed spec fn view(&self) -> Share {
        Share { part: self.part as nat, whole: self.whole as nat }
    }
}

impl Fraction {
    /// Every fraction is a valid share.
    #[verifier::type_invariant]
    pub open spec fn holds_valid_share(self) -> bool {
        self@.valid()
    }

    /// Nothing of a whole.
    pub fn zero() -> (none: Fraction)
        ensures
            none@ == Share::zero(),
    {
        Fraction { part: 0, whole: 1 }
    }

    /// The share `part` of `whole`, zero where the whole is empty.
    pub fn of(part: usize, whole: usize) -> (share: Fraction)
        requires
            part <= whole,
        ensures
            share@ == Share::of(part as nat, whole as nat),
    {
        if whole == 0 {
            Fraction::zero()
        } else {
            Fraction { part, whole }
        }
    }

    /// The part.
    pub fn part(&self) -> (part: usize)
        ensures
            part == self@.part,
            part <= self@.whole,
    {
        proof {
            use_type_invariant(self);
        }
        self.part
    }

    /// The whole, which is not empty.
    pub fn whole(&self) -> (whole: usize)
        ensures
            whole == self@.whole,
            whole > 0,
    {
        proof {
            use_type_invariant(self);
        }
        self.whole
    }

    /// The fraction in tenths of a percent, rounded to the nearest tenth, and
    /// to the even one from exactly half way between two: a number from 0 to
    /// 1000.
    pub fn tenths_of_percent(&self) -> (tenths: u32)
        ensures
            tenths == self@.permille(),
            tenths <= 1000,
    {
        proof {
            use_type_invariant(self);
            lemma_share_in_range(self@);
        }
        let part: u128 = self.part as u128;
        let whole: u128 = self.whole as u128;
        let floor: u128 = 1000 * part / whole;
        let rest: u128 = 1000 * part % whole;
        if 2 * rest > whole || (2 * rest == whole && floor % 2 == 1) {
            (floor + 1) as u32
        } else {
            floor as u32
        }
    }
}

} // verus!
