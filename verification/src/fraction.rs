//! Fixed-point fractions in `[0, 1]`.
//!
//! A `Fraction` stores a number of atomic units out of
//! `FRACTION_UNIT` (`10^18`), the same scale the host's decimal type
//! uses.  Multiplying a coin amount by a fraction truncates toward
//! zero, so the forwarded share of a balance never exceeds the
//! balance itself.

use vstd::arithmetic::div_mod::{
    lemma_div_is_ordered, lemma_div_multiples_vanish, lemma_div_of0, lemma_fundamental_div_mod,
    lemma_hoist_over_denominator, lemma_mod_division_less_than_divisor,
};
use vstd::prelude::*;

verus! {

/// Number of atomic units in a whole: `10^18`.
pub const FRACTION_UNIT: u128 = 1000000000000000000;

/// A fraction in `[0, 1]`, held as `atomics / FRACTION_UNIT`.
#[derive(Clone, Copy, Debug, PartialEq, Eq)]
pub struct Fraction {
    pub atomics: u128,
}

impl Fraction {
    /// The fraction does not exceed one.
    pub open spec fn wf(self) -> bool {
        self.atomics <= FRACTION_UNIT
    }

    /// `floor(amount * self)`, as an unbounded integer.
    pub open spec fn spec_mul_floor(self, amount: u128) -> int {
        (amount * self.atomics) / (FRACTION_UNIT as int)
    }

    /// `floor(amount * self)`, fitted back into a coin amount.  For a
    /// well-formed fraction this loses nothing (`lemma_mul_floor_le`).
    pub open spec fn spec_scaled(self, amount: u128) -> u128 {
        self.spec_mul_floor(amount) as u128
    }

    /// `p` percent, e.g. `percent(10)` is one tenth.
    pub fn percent(p: u64) -> (r: Fraction)
        requires
            p <= 100,
        ensures
            r.atomics == p * 10000000000000000,
            r.wf(),
    {
        Fraction { atomics: (p as u128) * 10000000000000000 }
    }

    /// Truncating multiplication: the exact product `amount * atomics`
    /// divided by `FRACTION_UNIT`, rounded toward zero.
    pub fn mul_floor(&self, amount: u128) -> (r: u128)
        requires
            self.wf(),
        ensures
            r == self.spec_mul_floor(amount),
            r == self.spec_scaled(amount),
            r <= amount,
    {
        let unit = FRACTION_UNIT;
        let q = amount / unit;
        let rem = amount % unit;
        let ghost a = self.atomics as int;
        let ghost u = unit as int;
        proof {
            lemma_fundamental_div_mod(amount as int, u);
            lemma_mod_division_less_than_divisor(amount as int, u);
            assert((q as int) * a <= amount as int) by (nonlinear_arith)
                requires
                    amount as int == u * (q as int) + (rem as int),
                    0 <= rem as int,
                    0 <= q as int,
                    0 <= a <= u,
            ;
            assert((rem as int) * a <= u * u) by (nonlinear_arith)
                requires
                    0 <= rem as int <= u,
                    0 <= a <= u,
            ;
        }
        let high = q * self.atomics;
        let low = (rem * self.atomics) / unit;
        proof {
            assert((rem as int) * a <= (rem as int) * u) by (nonlinear_arith)
                requires
                    0 <= rem as int,
                    a <= u,
            ;
            lemma_div_is_ordered((rem as int) * a, (rem as int) * u, u);
            lemma_div_multiples_vanish(rem as int, u);
            assert((rem as int) * u == u * (rem as int));
            assert(low <= rem);
            assert((amount as int) * a == ((q as int) * a) * u + (rem as int) * a) by (nonlinear_arith)
                requires
                    amount as int == u * (q as int) + (rem as int),
            ;
            lemma_hoist_over_denominator((rem as int) * a, (q as int) * a, unit as nat);
            // high + low <= q * unit + rem == amount
            assert((q as int) * a <= (q as int) * u) by (nonlinear_arith)
                requires
                    0 <= q as int,
                    a <= u,
            ;
            assert((q as int) * u == u * (q as int));
        }
        high + low
    }

    /// The truncated product is never negative and never exceeds the
    /// amount, so it always fits back into a coin amount.
    pub proof fn lemma_mul_floor_le(self, amount: u128)
        requires
            self.wf(),
        ensures
            0 <= self.spec_mul_floor(amount) <= amount,
            self.spec_scaled(amount) == self.spec_mul_floor(amount),
    {
        let a = self.atomics as int;
        let u = FRACTION_UNIT as int;
        assert((amount as int) * a <= (amount as int) * u) by (nonlinear_arith)
            requires
                0 <= a <= u,
                0 <= amount as int,
        ;
        lemma_div_is_ordered((amount as int) * a, (amount as int) * u, u);
        lemma_div_multiples_vanish(amount as int, u);
        assert((amount as int) * u == u * (amount as int));
        assert(0 <= (amount as int) * a) by (nonlinear_arith)
            requires
                0 <= a,
                0 <= amount as int,
        ;
        lemma_div_is_ordered(0, (amount as int) * a, u);
        lemma_div_of0(u);
    }
}

} // verus!
