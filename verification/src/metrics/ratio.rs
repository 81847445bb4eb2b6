//! Exact quotients of two counters.

use vstd::prelude::*;

verus! {

/// The quotient `num / den` of two counters, kept exact. A stream of
/// percentages or of rates holds such quotients; dividing is left to
/// whoever draws them. Two values of this type are equal where they agree
/// in both numbers: a quotient is not reduced.
#[derive(Debug, Clone, Copy, PartialEq, Eq, Structural)]
pub struct Ratio {
    pub num: u128,
    pub den: u128,
}

impl Ratio {
    /// Whether the quotient exists.
    pub open spec fn defined(self) -> bool {
        self.den > 0
    }

    /// Whether the quotient is zero.
    pub open spec fn is_zero(self) -> bool {
        self.den > 0 && self.num == 0
    }

    /// Whether the quotient is above zero.
    pub open spec fn is_positive(self) -> bool {
        self.den > 0 && self.num > 0
    }

    /// Whether the quotient is at most `bound`.
    pub open spec fn at_most(self, bound: int) -> bool {
        self.den > 0 && self.num <= bound * self.den
    }

    /// The quotient zero.
    pub fn zero() -> (r: Ratio)
        ensures
            r == (Ratio { num: 0, den: 1 }),
    {
        Ratio { num: 0, den: 1 }
    }

    /// The whole number `n`.
    pub fn whole(n: u64) -> (r: Ratio)
        ensures
            r == (Ratio { num: n as u128, den: 1 }),
    {
        Ratio { num: n as u128, den: 1 }
    }

    /// The share of `part` in `whole`, in percent. With `whole` zero the
    /// quotient does not exist.
    pub fn percent_of(part: u64, whole: u64) -> (r: Ratio)
        ensures
            r.num == 100 * part,
            r.den == whole,
    {
        Ratio { num: 100 * (part as u128), den: whole as u128 }
    }
}

} // verus!
