//! Fixed-point money and rates.
//!
//! Every monetary quantity is a [`CashValue`]: a signed count of hundredths of
//! the currency unit. Every fraction (a tax rate, an inflation figure, a
//! contribution percentage) is a [`Rate`]: a signed count of billionths.
//! Products of the two are rounded down to the next hundredth.
use vstd::prelude::*;

verus! {

/// Hundredths in one whole currency unit.
pub const MINOR_PER_UNIT: i64 = 100;

/// Largest magnitude, in hundredths, that the library's arithmetic accepts.
pub const CASH_LIMIT: i64 = 1_000_000_000_000_000_000;

/// Billionths in the rate 1.0.
pub const RATE_SCALE: i64 = 1_000_000_000;

/// Largest magnitude, in billionths, that the library's arithmetic accepts.
pub const RATE_LIMIT: i64 = 9_000_000_000;

/// The product of an amount and a rate in billionths, rounded down.
pub open spec fn mul_rate(amount: int, ppb: int) -> int {
    (amount * ppb) / (RATE_SCALE as int)
}

/// An amount after growth by a rate: the amount plus its rounded-down share.
pub open spec fn grow(amount: int, ppb: int) -> int {
    amount + mul_rate(amount, ppb)
}

/// The quotient rounded towards negative infinity.
pub fn floor_div(n: i128, d: i128) -> (q: i128)
    requires
        d > 0,
    ensures
        q == n / d,
{
    proof {
        assert(i128::MIN <= n / d <= i128::MAX) by (nonlinear_arith)
            requires
                d > 0,
                i128::MIN <= n <= i128::MAX,
        ;
    }
    match n.checked_div_euclid(d) {
        Some(q) => q,
        None => 0,
    }
}

/// A product with a rate between zero and one lies between zero and the amount.
pub proof fn lemma_mul_rate_fraction(amount: int, ppb: int)
    requires
        0 <= ppb <= RATE_SCALE,
    ensures
        amount >= 0 ==> 0 <= mul_rate(amount, ppb) <= amount,
        amount <= 0 ==> amount <= mul_rate(amount, ppb) <= 0,
{
    assert(amount >= 0 ==> 0 <= (amount * ppb) / 1_000_000_000 <= amount) by (nonlinear_arith)
        requires
            0 <= ppb <= 1_000_000_000,
    ;
    assert(amount <= 0 ==> amount <= (amount * ppb) / 1_000_000_000 <= 0) by (nonlinear_arith)
        requires
            0 <= ppb <= 1_000_000_000,
    ;
}

/// A product with a non-negative rate does not fall when the amount rises.
pub proof fn lemma_mul_rate_monotone(low: int, high: int, ppb: int)
    requires
        low <= high,
        0 <= ppb,
    ensures
        mul_rate(low, ppb) <= mul_rate(high, ppb),
{
    assert((low * ppb) / 1_000_000_000 <= (high * ppb) / 1_000_000_000) by (nonlinear_arith)
        requires
            low <= high,
            0 <= ppb,
    ;
}

/// A product of a non-negative amount does not fall when the rate rises.
pub proof fn lemma_mul_rate_monotone_rate(amount: int, low: int, high: int)
    requires
        0 <= amount,
        low <= high,
    ensures
        mul_rate(amount, low) <= mul_rate(amount, high),
{
    assert((amount * low) / 1_000_000_000 <= (amount * high) / 1_000_000_000) by (nonlinear_arith)
        requires
            0 <= amount,
            low <= high,
    ;
}

/// A product is bounded by the product of the bounds.
pub proof fn lemma_mul_rate_bound(amount: int, ppb: int, amount_bound: int, whole: int)
    requires
        -amount_bound <= amount <= amount_bound,
        0 <= whole,
        -whole * RATE_SCALE <= ppb <= whole * RATE_SCALE,
    ensures
        -amount_bound * whole <= mul_rate(amount, ppb) <= amount_bound * whole,
{
    assert(-amount_bound * whole <= (amount * ppb) / 1_000_000_000 <= amount_bound * whole)
        by (nonlinear_arith)
        requires
            -amount_bound <= amount <= amount_bound,
            0 <= whole,
            -whole * 1_000_000_000 <= ppb <= whole * 1_000_000_000,
    ;
}

/// A monetary amount in hundredths of the currency unit.
///
/// Negative amounts are meaningful as intermediate results.
#[derive(Clone, Copy, Debug, PartialEq, Eq, Structural)]
pub struct CashValue {
    pub minor: i64,
}

impl View for CashValue {
    type V = int;

    open spec fn view(&self) -> int {
        self.minor as int
    }
}

impl CashValue {
    /// The amount lies within the magnitude that the arithmetic accepts.
    pub open spec fn in_range(self) -> bool {
        -CASH_LIMIT <= self.minor <= CASH_LIMIT
    }

    /// The amount lies within the given magnitude.
    pub open spec fn within(self, limit: int) -> bool {
        -limit <= self.minor <= limit
    }

    /// The amount of the given count of hundredths.
    pub fn from_minor(minor: i64) -> (r: Self)
        ensures
            r@ == minor,
    {
        CashValue { minor }
    }

    /// The amount of the given count of whole units.
    pub fn from_units(units: i64) -> (r: Self)
        requires
            -CASH_LIMIT <= units * MINOR_PER_UNIT <= CASH_LIMIT,
        ensures
            r@ == units * MINOR_PER_UNIT,
            r.in_range(),
    {
        CashValue { minor: units * MINOR_PER_UNIT }
    }

    /// The amount zero.
    pub fn zero() -> (r: Self)
        ensures
            r@ == 0,
    {
        CashValue { minor: 0 }
    }

    /// The largest amount, used as the ceiling of a band that has none.
    pub fn max_value() -> (r: Self)
        ensures
            r@ == i64::MAX,
    {
        CashValue { minor: i64::MAX }
    }

    /// The count of hundredths.
    pub fn minor(&self) -> (r: i64)
        ensures
            r == self@,
    {
        self.minor
    }

    /// The sum of two amounts.
    pub fn plus(self, other: CashValue) -> (r: CashValue)
        requires
            i64::MIN <= self@ + other@ <= i64::MAX,
        ensures
            r@ == self@ + other@,
    {
        CashValue { minor: self.minor + other.minor }
    }

    /// The difference of two amounts.
    pub fn minus(self, other: CashValue) -> (r: CashValue)
        requires
            i64::MIN <= self@ - other@ <= i64::MAX,
        ensures
            r@ == self@ - other@,
    {
        CashValue { minor: self.minor - other.minor }
    }

    /// The amount divided into the given count of equal parts, rounded down.
    pub fn split(self, parts: i64) -> (r: CashValue)
        requires
            parts > 0,
        ensures
            r@ == self@ / (parts as int),
    {
        proof {
            assert(i64::MIN <= (self.minor as int) / (parts as int) <= i64::MAX)
                by (nonlinear_arith)
                requires
                    parts > 0,
                    i64::MIN <= self.minor <= i64::MAX,
            ;
        }
        let q: i128 = floor_div(self.minor as i128, parts as i128);
        CashValue { minor: q as i64 }
    }
}

/// A fraction in billionths: a tax rate, a growth rate, a share of income.
#[derive(Clone, Copy, Debug, PartialEq, Eq, Structural)]
pub struct Rate {
    pub ppb: i64,
}

impl View for Rate {
    type V = int;

    open spec fn view(&self) -> int {
        self.ppb as int
    }
}

impl Rate {
    /// The rate lies within the magnitude that the arithmetic accepts.
    pub open spec fn in_range(self) -> bool {
        -RATE_LIMIT <= self.ppb <= RATE_LIMIT
    }

    /// The rate lies between zero and one.
    pub open spec fn is_fraction(self) -> bool {
        0 <= self.ppb <= RATE_SCALE
    }

    /// The rate of the given count of billionths.
    pub fn from_ppb(ppb: i64) -> (r: Self)
        ensures
            r@ == ppb,
    {
        Rate { ppb }
    }

    /// The rate zero.
    pub fn zero() -> (r: Self)
        ensures
            r@ == 0,
    {
        Rate { ppb: 0 }
    }

    /// The count of billionths.
    pub fn ppb(&self) -> (r: i64)
        ensures
            r == self@,
    {
        self.ppb
    }

    /// The product of an amount and this rate, rounded down.
    pub fn of(&self, amount: CashValue) -> (r: CashValue)
        requires
            self.in_range(),
            amount.in_range(),
        ensures
            r@ == mul_rate(amount@, self@),
            r.within(9 * CASH_LIMIT),
    {
        proof {
            lemma_mul_rate_bound(amount@, self@, CASH_LIMIT as int, 9);
        }
        let product: i128 = (amount.minor as i128) * (self.ppb as i128);
        let q: i128 = floor_div(product, RATE_SCALE as i128);
        CashValue { minor: q as i64 }
    }

    /// The amount grown by this rate. The amount has to leave room for the
    /// growth: at the largest rate it grows tenfold.
    pub fn grow(&self, amount: CashValue) -> (r: CashValue)
        requires
            self.in_range(),
            amount.within(CASH_LIMIT / 10),
        ensures
            r@ == grow(amount@, self@),
            r.in_range(),
    {
        proof {
            lemma_mul_rate_bound(amount@, self@, CASH_LIMIT / 10, 9);
        }
        let share = self.of(amount);
        CashValue { minor: amount.minor + share.minor }
    }
}

} // verus!
