//! Non-negative fixed-point prices.
use vstd::prelude::*;

verus! {

/// Ten to the number of fractional digits of a price.
pub const DECIMAL_FRACTIONAL: u128 = 1_000_000_000_000_000_000;

/// A non-negative decimal with eighteen fractional digits, held as
/// `atomics / 10^18`.
#[derive(PartialEq, Eq, Structural, Clone, Copy, Debug)]
pub struct Decimal {
    pub atomics: u128,
}

impl Decimal {
    /// The price zero, handed out for a symbol that has no price.
    pub fn zero() -> (r: Decimal)
        ensures
            r.atomics == 0,
    {
        Decimal { atomics: 0 }
    }

    /// The decimal `atomics / 10^18`.
    pub fn raw(atomics: u128) -> (r: Decimal)
        ensures
            r.atomics == atomics,
    {
        Decimal { atomics }
    }

    /// The whole number `n`.
    pub fn from_integer(n: u64) -> (r: Decimal)
        ensures
            r.atomics == n * DECIMAL_FRACTIONAL,
    {
        assert(n * DECIMAL_FRACTIONAL <= u64::MAX * DECIMAL_FRACTIONAL) by (nonlinear_arith);
        Decimal { atomics: n as u128 * DECIMAL_FRACTIONAL }
    }

    /// The whole number `whole` plus `cents` hundredths.
    pub fn from_cents(whole: u64, cents: u8) -> (r: Decimal)
        requires
            cents < 100,
        ensures
            r.atomics == whole * DECIMAL_FRACTIONAL + cents * (DECIMAL_FRACTIONAL / 100),
    {
        assert(whole * DECIMAL_FRACTIONAL <= u64::MAX * DECIMAL_FRACTIONAL) by (nonlinear_arith);
        assert(cents * (DECIMAL_FRACTIONAL / 100) < DECIMAL_FRACTIONAL) by (nonlinear_arith)
            requires cents < 100;
        Decimal { atomics: whole as u128 * DECIMAL_FRACTIONAL + cents as u128 * (DECIMAL_FRACTIONAL / 100) }
    }

    pub fn is_zero(&self) -> (r: bool)
        ensures
            r == (self.atomics == 0),
    {
        self.atomics == 0
    }
}

} // verus!
