//! Banded taxation: the clamped-range rule that every band shares.
use vstd::prelude::*;
use crate::money::{mul_rate, CashValue, Rate, CASH_LIMIT};

pub mod uk;

verus! {

/// A tax rate: a fraction in billionths.
pub type TaxRate = Rate;

/// The part of an income that falls into the band from `min` to `max`.
///
/// Nothing falls into the band until the income exceeds `min`; from `max` on
/// the whole width of the band does.
pub open spec fn band_amount(income: int, min: int, max: int) -> int {
    if income > min {
        if income < max {
            income - min
        } else {
            max - min
        }
    } else {
        0
    }
}

/// The tax that a band from `min` to `max` raises on an income.
pub open spec fn band_tax(income: int, min: int, max: int, rate: int) -> int {
    mul_rate(band_amount(income, min, max), rate)
}

/// In a band whose floor does not exceed its ceiling, the part of an income
/// that falls into it is never negative, does not fall when the income rises
/// and does not rise when the floor does.
pub proof fn lemma_band_amount_monotone(
    low: int,
    high: int,
    low_min: int,
    high_min: int,
    max: int,
)
    requires
        low <= high,
        high_min <= low_min <= max,
    ensures
        0 <= band_amount(low, low_min, max) <= band_amount(high, high_min, max),
{
}

/// The rule that every band of every tax shares.
pub struct ThresholdCalculator;

impl ThresholdCalculator {
    /// The tax that the band from `min` to `max` raises on `income` at `rate`.
    pub fn calc(min: CashValue, max: CashValue, rate: TaxRate, income: CashValue) -> (tax:
        CashValue)
        requires
            income.in_range(),
            min.in_range(),
            max@ >= -CASH_LIMIT,
            rate.is_fraction(),
        ensures
            tax@ == band_tax(income@, min@, max@, rate@),
            tax.within(2 * CASH_LIMIT),
    {
        let amount: i128 = if income.minor > min.minor {
            if income.minor < max.minor {
                (income.minor as i128) - (min.minor as i128)
            } else {
                (max.minor as i128) - (min.minor as i128)
            }
        } else {
            0
        };
        proof {
            crate::money::lemma_mul_rate_bound(amount as int, rate@, 2 * CASH_LIMIT, 1);
        }
        let product: i128 = amount * (rate.ppb as i128);
        let q: i128 = crate::money::floor_div(product, crate::money::RATE_SCALE as i128);
        CashValue { minor: q as i64 }
    }
}

} // verus!
