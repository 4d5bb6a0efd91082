//! What holds of the tax engine on every input.
use vstd::prelude::*;
use crate::money::{
    lemma_mul_rate_fraction, lemma_mul_rate_monotone, lemma_mul_rate_monotone_rate, mul_rate,
    MINOR_PER_UNIT, RATE_SCALE,
};
use crate::tax::{band_amount, lemma_band_amount_monotone};
use crate::tax::uk::capital::{capital_gains_tax, gains_in_basic_bracket};
use crate::tax::uk::income::{
    additional_tax, allowances, band_fill, basic_floor, basic_tax, dividend_tax, higher_tax,
    income_tax_total, period_threshold, taxable_income, total_income,
};
use crate::tax::uk::ni::{ni_due, ni_threshold, NIC};
use crate::tax::uk::{total_tax, UKTaxConfig, UKTaxInput};

verus! {

/// A category that is exempt owes no National Insurance, whatever the income,
/// the period and the configuration.
pub proof fn lemma_exempt_categories_owe_nothing(
    nic: NIC,
    income: int,
    is_paye: bool,
    config: UKTaxConfig,
)
    requires
        nic.is_exempt(),
    ensures
        ni_due(nic, income, is_paye, config) == 0,
{
}

/// The floor of the basic band does not rise with the income, and never lies
/// over the top of the band.
proof fn lemma_basic_floor_falls(low: int, high: int, is_paye: bool, config: UKTaxConfig)
    requires
        config.in_range(),
        config.ordered(),
        low <= high,
    ensures
        0 <= basic_floor(high, is_paye, config) <= basic_floor(low, is_paye, config)
            <= period_threshold(config.basic_income_top_band@, is_paye),
{
    let trigger = period_threshold(config.personal_allowance_taper_threshold_band@, is_paye);
    let taper = config.personal_allowance_taper_value@;
    if high >= trigger {
        lemma_mul_rate_monotone(0, high - trigger, taper);
        assert(mul_rate(0, taper) == 0);
        if low >= trigger {
            lemma_mul_rate_monotone(0, low - trigger, taper);
            lemma_mul_rate_monotone(low - trigger, high - trigger, taper);
        }
    }
}

/// The tax of each income band does not fall when the income rises.
proof fn lemma_bands_monotone(low: int, high: int, is_paye: bool, config: UKTaxConfig)
    requires
        config.in_range(),
        config.ordered(),
        low <= high,
    ensures
        basic_tax(low, is_paye, config) <= basic_tax(high, is_paye, config),
        0 <= higher_tax(low, is_paye, config) <= higher_tax(high, is_paye, config),
        0 <= additional_tax(low, is_paye, config) <= additional_tax(high, is_paye, config),
{
    lemma_basic_floor_falls(low, high, is_paye, config);
    let top = period_threshold(config.basic_income_top_band@, is_paye);
    lemma_band_amount_monotone(
        low,
        high,
        basic_floor(low, is_paye, config),
        basic_floor(high, is_paye, config),
        top,
    );
    lemma_mul_rate_monotone(
        band_amount(low, basic_floor(low, is_paye, config), top),
        band_amount(high, basic_floor(high, is_paye, config), top),
        config.basic_income_rate@,
    );
    let higher_min = period_threshold(config.basic_income_top_band@ + MINOR_PER_UNIT, is_paye);
    let higher_max = period_threshold(config.higher_rate_top_band@, is_paye);
    lemma_band_amount_monotone(low, high, higher_min, higher_min, higher_max);
    lemma_mul_rate_monotone(
        band_amount(low, higher_min, higher_max),
        band_amount(high, higher_min, higher_max),
        config.higher_income_rate@,
    );
    lemma_mul_rate_fraction(band_amount(low, higher_min, higher_max), config.higher_income_rate@);
    let additional_min = period_threshold(config.higher_rate_top_band@ + MINOR_PER_UNIT, is_paye);
    lemma_band_amount_monotone(low, high, additional_min, additional_min, i64::MAX as int);
    lemma_mul_rate_monotone(
        band_amount(low, additional_min, i64::MAX as int),
        band_amount(high, additional_min, i64::MAX as int),
        config.additional_income_rate@,
    );
    lemma_mul_rate_fraction(
        band_amount(low, additional_min, i64::MAX as int),
        config.additional_income_rate@,
    );
}

/// National Insurance does not fall when the income rises.
proof fn lemma_ni_monotone(nic: NIC, low: int, high: int, is_paye: bool, config: UKTaxConfig)
    requires
        config.in_range(),
        config.ordered(),
        low <= high,
    ensures
        ni_due(nic, low, is_paye, config) <= ni_due(nic, high, is_paye, config),
{
    let first = ni_threshold(config.ni_band_1_band@, is_paye);
    let second = ni_threshold(config.ni_band_2_band@, is_paye);
    lemma_band_amount_monotone(low, high, first, first, second);
    lemma_band_amount_monotone(low, high, second, second, i64::MAX as int);
    lemma_mul_rate_monotone(
        band_amount(low, first, second),
        band_amount(high, first, second),
        config.ni_band_1_rate@,
    );
    lemma_mul_rate_monotone(
        band_amount(low, first, second),
        band_amount(high, first, second),
        config.ni_band_2_rate@,
    );
    lemma_mul_rate_monotone(
        band_amount(low, first, second),
        band_amount(high, first, second),
        config.ni_band_3_rate@,
    );
    lemma_mul_rate_monotone(
        band_amount(low, second, i64::MAX as int),
        band_amount(high, second, i64::MAX as int),
        config.ni_band_1_rate@,
    );
}

/// The numerator of the dividend tax: three parts at their three rates.
spec fn weighted(in_basic: int, filled: int, amount: int, config: UKTaxConfig) -> int {
    in_basic * config.basic_dividend_rate@ + (filled - in_basic) * config.higher_dividend_rate@
        + (amount - filled) * config.additional_dividend_rate@
}

/// Moving part of a dividend from a lower band into a higher one does not
/// lower the weighted sum.
proof fn lemma_weighted_monotone(
    low_basic: int,
    low_filled: int,
    high_basic: int,
    high_filled: int,
    amount: int,
    config: UKTaxConfig,
)
    requires
        config.in_range(),
        config.ordered(),
        0 <= high_basic <= low_basic,
        high_filled <= low_filled <= amount,
        high_basic <= high_filled,
    ensures
        weighted(low_basic, low_filled, amount, config) <= weighted(
            high_basic,
            high_filled,
            amount,
            config,
        ),
        weighted(high_basic, high_filled, amount, config) <= amount
            * config.additional_dividend_rate@,
{
    let rb = config.basic_dividend_rate@;
    let rh = config.higher_dividend_rate@;
    let ra = config.additional_dividend_rate@;
    assert(low_basic * rb + (low_filled - low_basic) * rh + (amount - low_filled) * ra
        <= high_basic * rb + (high_filled - high_basic) * rh + (amount - high_filled) * ra)
        by (nonlinear_arith)
        requires
            0 <= rb <= rh <= ra,
            high_basic <= low_basic,
            high_filled <= low_filled,
    ;
    assert(high_basic * rb + (high_filled - high_basic) * rh + (amount - high_filled) * ra
        <= amount * ra) by (nonlinear_arith)
        requires
            0 <= rb <= rh <= ra,
            0 <= high_basic <= high_filled,
    ;
}

/// The tax on a dividend does not fall when the taxable income rises.
proof fn lemma_dividend_monotone(
    dividend: int,
    low_additional: int,
    high_additional: int,
    low: int,
    high: int,
    config: UKTaxConfig,
)
    requires
        config.in_range(),
        config.ordered(),
        low <= high,
        0 <= low_additional <= high_additional,
    ensures
        dividend_tax(dividend, low_additional, low, config) <= dividend_tax(
            dividend,
            high_additional,
            high,
            config,
        ),
{
    if dividend > config.dividend_allowance_band@ {
        let amount = dividend - config.dividend_allowance_band@;
        let scale = RATE_SCALE as int;
        if low_additional <= 0 {
            let low_basic = band_fill(config.basic_income_top_band@ - low, amount);
            let low_higher = band_fill(config.higher_rate_top_band@ - low, amount - low_basic);
            let high_basic = band_fill(config.basic_income_top_band@ - high, amount);
            let high_higher = band_fill(config.higher_rate_top_band@ - high, amount - high_basic);
            let low_sum = weighted(low_basic, low_basic + low_higher, amount, config);
            assert(low_sum == low_basic * config.basic_dividend_rate@ + low_higher
                * config.higher_dividend_rate@ + (amount - low_basic - low_higher)
                * config.additional_dividend_rate@);
            if high_additional <= 0 {
                lemma_weighted_monotone(
                    low_basic,
                    low_basic + low_higher,
                    high_basic,
                    high_basic + high_higher,
                    amount,
                    config,
                );
                let high_sum = weighted(high_basic, high_basic + high_higher, amount, config);
                assert(high_sum == high_basic * config.basic_dividend_rate@ + high_higher
                    * config.higher_dividend_rate@ + (amount - high_basic - high_higher)
                    * config.additional_dividend_rate@);
                assert(low_sum / scale <= high_sum / scale) by (nonlinear_arith)
                    requires
                        low_sum <= high_sum,
                        scale > 0,
                ;
            } else {
                lemma_weighted_monotone(
                    low_basic,
                    low_basic + low_higher,
                    low_basic,
                    low_basic + low_higher,
                    amount,
                    config,
                );
                let whole = amount * config.additional_dividend_rate@;
                assert(low_sum / scale <= whole / scale) by (nonlinear_arith)
                    requires
                        low_sum <= whole,
                        scale > 0,
                ;
            }
        }
    }
}

/// The tax on non-negative gains does not fall when the taxable income rises.
proof fn lemma_capital_gains_monotone(low: UKTaxInput, high: UKTaxInput, config: UKTaxConfig)
    requires
        config.in_range(),
        config.ordered(),
        taxable_income(low) <= taxable_income(high),
        low.capital_gains == high.capital_gains,
        0 <= low.capital_gains@,
    ensures
        capital_gains_tax(low, config) <= capital_gains_tax(high, config),
{
    let gains = low.capital_gains@;
    lemma_mul_rate_monotone_rate(
        gains,
        config.basic_residential_capital_rate@,
        config.higher_residential_capital_rate@,
    );
    lemma_mul_rate_monotone_rate(
        gains,
        config.basic_other_capital_rate@,
        config.higher_other_capital_rate@,
    );
    assert(gains_in_basic_bracket(high, config) ==> gains_in_basic_bracket(low, config));
}

/// The allowances do not rise when employment income rises or contributions
/// fall.
proof fn lemma_allowances_fall(low: UKTaxInput, high: UKTaxInput, config: UKTaxConfig)
    requires
        config.in_range(),
        config.ordered(),
        same_but_employment(low, high),
        0 <= low.savings@,
    ensures
        allowances(high, config) <= allowances(low, config),
{
    lemma_bands_monotone(taxable_income(low), taxable_income(high), false, config);
}

/// Two aggregates that differ at most in the employment income taxed outside
/// PAYE and in the pension contributions, the second with no less of the one
/// and no more of the other: the second has the higher taxable income, all
/// else fixed.
pub open spec fn same_but_employment(low: UKTaxInput, high: UKTaxInput) -> bool {
    &&& low.non_paye_employment@ <= high.non_paye_employment@
    &&& high.contributions@ <= low.contributions@
    &&& low.paye_employment == high.paye_employment
    &&& low.savings == high.savings
    &&& low.rental == high.rental
    &&& low.self_employment == high.self_employment
    &&& low.paye_tax_paid == high.paye_tax_paid
    &&& low.ni == high.ni
    &&& low.dividend == high.dividend
    &&& low.capital_gains == high.capital_gains
}

/// The tax due does not fall when the taxable income rises and all else stays
/// fixed, as long as neither the savings income nor the gains are negative.
///
/// The taxable income rises through more employment income outside PAYE or
/// through lower pension contributions. Income of the kinds that carry an
/// allowance of their own is held fixed: a first unit of such income raises
/// the allowance by as much as itself.
pub proof fn lemma_tax_monotone_in_income(low: UKTaxInput, high: UKTaxInput, config: UKTaxConfig)
    requires
        config.in_range(),
        config.ordered(),
        same_but_employment(low, high),
        0 <= low.savings@,
        0 <= low.capital_gains@,
    ensures
        taxable_income(low) <= taxable_income(high),
        total_tax(low, config) <= total_tax(high, config),
{
    let low_income = taxable_income(low);
    let high_income = taxable_income(high);
    assert(total_income(low) <= total_income(high));
    lemma_bands_monotone(low_income, high_income, false, config);
    lemma_allowances_fall(low, high, config);
    lemma_capital_gains_monotone(low, high, config);
    lemma_ni_monotone(low.ni, low.non_paye_employment@, high.non_paye_employment@, false, config);
    lemma_dividend_monotone(
        low.dividend@,
        additional_tax(low_income, false, config),
        additional_tax(high_income, false, config),
        low_income,
        high_income,
        config,
    );
    assert(income_tax_total(low, config) <= income_tax_total(high, config));
}

/// The tax and insurance withheld from a period's pay do not fall when the
/// pay rises.
pub proof fn lemma_paye_monotone_in_pay(
    low: int,
    high: int,
    contribution: int,
    ni: NIC,
    config: UKTaxConfig,
)
    requires
        config.in_range(),
        config.ordered(),
        low <= high,
    ensures
        crate::tax::uk::paye_due(low, contribution, ni, config) <= crate::tax::uk::paye_due(
            high,
            contribution,
            ni,
            config,
        ),
{
    lemma_bands_monotone(low - contribution, high - contribution, true, config);
    lemma_ni_monotone(ni, low, high, true, config);
}

/// Figures without any income, gain or dividend owe no tax, whatever the
/// category and the configuration.
pub proof fn lemma_no_income_no_tax(ni: NIC, config: UKTaxConfig)
    requires
        config.in_range(),
    ensures
        total_tax(UKTaxInput { ni, ..UKTaxInput::empty() }, config) == 0,
{
    let input = UKTaxInput { ni, ..UKTaxInput::empty() };
    assert(taxable_income(input) == 0);
    assert(mul_rate(0, config.basic_income_rate@) == 0);
    assert(mul_rate(0, config.higher_income_rate@) == 0);
    assert(mul_rate(0, config.additional_income_rate@) == 0);
    assert(mul_rate(0, config.ni_band_1_rate@) == 0);
    assert(mul_rate(0, config.ni_band_2_rate@) == 0);
    assert(mul_rate(0, config.ni_band_3_rate@) == 0);
    assert(mul_rate(0, config.basic_residential_capital_rate@) == 0);
    assert(mul_rate(0, config.basic_other_capital_rate@) == 0);
    assert(mul_rate(0, config.higher_residential_capital_rate@) == 0);
    assert(mul_rate(0, config.higher_other_capital_rate@) == 0);
    assert(basic_floor(0, false, config) >= 0) by {
        lemma_mul_rate_monotone(0, 0, config.personal_allowance_taper_value@);
    }
}

/// Under the standard configuration the tax due does not fall when the
/// taxable income rises through employment income or lower contributions,
/// as long as neither the savings income nor the gains are negative.
pub proof fn lemma_standard_tax_monotone_in_income(low: UKTaxInput, high: UKTaxInput)
    requires
        same_but_employment(low, high),
        0 <= low.savings@,
        0 <= low.capital_gains@,
    ensures
        total_tax(low, UKTaxConfig::standard()) <= total_tax(high, UKTaxConfig::standard()),
{
    lemma_tax_monotone_in_income(low, high, UKTaxConfig::standard());
}

/// A configuration whose bands and rates ascend still has them ascending
/// after its thresholds have grown by an inflation that is not negative: the
/// tax of every later year rises with the income as that of the first does.
pub proof fn lemma_inflation_keeps_order(config: UKTaxConfig, ppb: int)
    requires
        config.in_range(),
        config.ordered(),
        0 <= ppb <= crate::money::RATE_LIMIT,
    ensures
        config.inflated(ppb).ordered(),
{
    let unit = MINOR_PER_UNIT as int;
    lemma_grown_in_order(config.personal_allowance_band@, config.basic_income_top_band@, ppb);
    lemma_grown_in_order(
        config.basic_income_top_band@,
        config.basic_income_top_band@ + unit,
        ppb,
    );
    lemma_grown_in_order(
        config.basic_income_top_band@ + unit,
        config.higher_rate_top_band@,
        ppb,
    );
    lemma_grown_in_order(config.ni_band_1_band@, config.ni_band_2_band@, ppb);
    lemma_grown_in_order(
        config.higher_rate_savings_allowance_band@,
        config.basic_rate_savings_allowance_band@,
        ppb,
    );
    lemma_grown_in_order(0, config.personal_allowance_band@, ppb);
    lemma_grown_in_order(0, config.ni_band_1_band@, ppb);
    lemma_grown_in_order(0, config.higher_rate_savings_allowance_band@, ppb);
    assert(mul_rate(0, ppb) == 0);
}

/// Two amounts in order, neither negative nor over the limit of a threshold
/// by more than a unit, are in order after growth by a rate that is not
/// negative, and their growth fits.
proof fn lemma_grown_in_order(low: int, high: int, ppb: int)
    requires
        0 <= low <= high <= crate::tax::uk::TAX_LIMIT + MINOR_PER_UNIT,
        0 <= ppb <= crate::money::RATE_LIMIT,
    ensures
        crate::money::grow(low, ppb) <= crate::money::grow(high, ppb),
        mul_rate(low, ppb) <= mul_rate(high, ppb),
        0 <= crate::money::grow(high, ppb) <= 10 * (crate::tax::uk::TAX_LIMIT + MINOR_PER_UNIT),
{
    lemma_mul_rate_monotone(low, high, ppb);
    lemma_mul_rate_monotone(0, low, ppb);
    assert(mul_rate(0, ppb) == 0);
    crate::money::lemma_mul_rate_bound(
        high,
        ppb,
        crate::tax::uk::TAX_LIMIT + MINOR_PER_UNIT,
        9,
    );
}

} // verus!
