//! Fixed-point reward credit with 18 fractional digits.
//!
//! A `Credit` stores a non-negative amount as an integer count of
//! `10^-18` units, the precision the ledger's fractional arithmetic is
//! carried in. Truncation happens only where a quotient is formed
//! (`from_ratio`) or where the whole-unit part is taken (`whole`).

use vstd::prelude::*;

verus! {

/// Number of `10^-18` units in one whole credit.
pub const CREDIT_SCALE: u128 = 1_000_000_000_000_000_000;

/// A non-negative fractional credit amount, `atto / 10^18` credits.
#[derive(Clone, Copy, PartialEq, Eq, Structural, Debug)]
pub struct Credit {
    pub atto: u128,
}

/// The truncated fixed-point quotient `numer / denom`, in `10^-18` units.
pub open spec fn ratio_atto(numer: int, denom: int) -> int {
    (numer * CREDIT_SCALE) / denom
}

impl Credit {
    pub fn zero() -> (r: Credit)
        ensures
            r.atto == 0,
    {
        Credit { atto: 0 }
    }

    /// `numer / denom` credits, truncated to 18 fractional digits.
    pub fn from_ratio(numer: u64, denom: u64) -> (r: Credit)
        requires
            denom > 0,
        ensures
            r.atto == ratio_atto(numer as int, denom as int),
    {
        Credit { atto: ((numer as u128) * CREDIT_SCALE) / (denom as u128) }
    }

    /// Exactly `units` whole credits.
    pub fn from_whole(units: u64) -> (r: Credit)
        ensures
            r.atto == units as int * CREDIT_SCALE,
    {
        Credit { atto: (units as u128) * CREDIT_SCALE }
    }

    pub fn plus(self, other: Credit) -> (r: Credit)
        requires
            self.atto + other.atto <= u128::MAX,
        ensures
            r.atto == self.atto + other.atto,
    {
        Credit { atto: self.atto + other.atto }
    }

    pub fn minus(self, other: Credit) -> (r: Credit)
        requires
            other.atto <= self.atto,
        ensures
            r.atto == self.atto - other.atto,
    {
        Credit { atto: self.atto - other.atto }
    }

    /// The whole-unit part of the amount, truncating the fraction.
    pub fn whole(self) -> (r: u128)
        ensures
            r == self.atto / CREDIT_SCALE,
    {
        self.atto / CREDIT_SCALE
    }
}

} // verus!
