//! Income tax in three bands, its allowances, the PAYE variant and the tax on
//! dividends.
use vstd::prelude::*;
use crate::money::{floor_div, mul_rate, CashValue, MINOR_PER_UNIT, RATE_SCALE};
use crate::tax::{band_amount, band_tax, ThresholdCalculator};
use crate::tax::uk::{UKTaxConfig, UKTaxInput, PERIODS_PER_YEAR, TAX_LIMIT};

verus! {

/// A yearly threshold as it counts for the period: a twelfth of itself,
/// rounded down, for one pay period.
pub open spec fn period_threshold(band: int, is_paye: bool) -> int {
    if is_paye {
        band / (PERIODS_PER_YEAR as int)
    } else {
        band
    }
}

/// The floor of the basic band. Up to the taper threshold it is the personal
/// allowance. Beyond, the allowance shrinks by the taper factor times the
/// excess, but not below zero.
pub open spec fn basic_floor(income: int, is_paye: bool, config: UKTaxConfig) -> int {
    let trigger = period_threshold(config.personal_allowance_taper_threshold_band@, is_paye);
    let allowance = period_threshold(config.personal_allowance_band@, is_paye);
    if income < trigger {
        allowance
    } else {
        let tapered = allowance - mul_rate(
            income - trigger,
            config.personal_allowance_taper_value@,
        );
        if tapered < 0 {
            0
        } else {
            tapered
        }
    }
}

/// The tax of the basic band.
pub open spec fn basic_tax(income: int, is_paye: bool, config: UKTaxConfig) -> int {
    band_tax(
        income,
        basic_floor(income, is_paye, config),
        period_threshold(config.basic_income_top_band@, is_paye),
        config.basic_income_rate@,
    )
}

/// The tax of the higher band, which starts one whole unit over the top of
/// the basic band.
pub open spec fn higher_tax(income: int, is_paye: bool, config: UKTaxConfig) -> int {
    band_tax(
        income,
        period_threshold(config.basic_income_top_band@ + MINOR_PER_UNIT, is_paye),
        period_threshold(config.higher_rate_top_band@, is_paye),
        config.higher_income_rate@,
    )
}

/// The tax of the additional band, which starts one whole unit over the top
/// of the higher band and has no ceiling.
pub open spec fn additional_tax(income: int, is_paye: bool, config: UKTaxConfig) -> int {
    band_tax(
        income,
        period_threshold(config.higher_rate_top_band@ + MINOR_PER_UNIT, is_paye),
        i64::MAX as int,
        config.additional_income_rate@,
    )
}

/// The smaller of an allowance and the income that it shelters.
pub open spec fn capped(income: int, allowance: int) -> int {
    if income > allowance {
        allowance
    } else {
        income
    }
}

/// The personal savings allowance: none without savings income and none for
/// a payer of additional-rate tax; the smaller one for a payer of higher-rate
/// tax; the larger one otherwise.
pub open spec fn personal_savings_allowance_spec(
    savings: int,
    higher: int,
    additional: int,
    config: UKTaxConfig,
) -> int {
    if savings == 0 {
        0
    } else if additional != 0 {
        0
    } else if higher == 0 {
        capped(savings, config.basic_rate_savings_allowance_band@)
    } else {
        capped(savings, config.higher_rate_savings_allowance_band@)
    }
}

/// The starting allowance for savings, which applies only while the total
/// income stays under the personal allowance plus the starting allowance.
pub open spec fn starting_savings_allowance_spec(
    savings: int,
    total_income: int,
    config: UKTaxConfig,
) -> int {
    if total_income < config.personal_allowance_band@ + config.starting_savings_allowance_band@ {
        capped(savings, config.starting_savings_allowance_band@)
    } else {
        0
    }
}

/// A flat allowance, which applies only to a positive income of its kind.
pub open spec fn flat_allowance(income: int, allowance: int) -> int {
    if income > 0 {
        capped(income, allowance)
    } else {
        0
    }
}

/// The year's income before pension contributions: employment outside PAYE,
/// rental, savings and self-employment.
pub open spec fn total_income(input: UKTaxInput) -> int {
    input.non_paye_employment@ + input.rental@ + input.savings@ + input.self_employment@
}

/// The taxable income: the total income less the pension contributions.
pub open spec fn taxable_income(input: UKTaxInput) -> int {
    total_income(input) - input.contributions@
}

/// The sum of the four allowances.
pub open spec fn allowances(input: UKTaxInput, config: UKTaxConfig) -> int {
    let income = taxable_income(input);
    personal_savings_allowance_spec(
        input.savings@,
        higher_tax(income, false, config),
        additional_tax(income, false, config),
        config,
    ) + flat_allowance(input.self_employment@, config.self_employment_allowance_band@)
        + flat_allowance(input.rental@, config.rental_allowance_band@)
        + starting_savings_allowance_spec(input.savings@, total_income(input), config)
}

/// Whether an itemised result is the year's income tax on the given figures.
pub open spec fn is_income_tax(out: IncomeTaxOutput, input: UKTaxInput, config: UKTaxConfig) -> bool {
    let income = taxable_income(input);
    &&& out.0@ == basic_tax(income, false, config)
    &&& out.1@ == higher_tax(income, false, config)
    &&& out.2@ == additional_tax(income, false, config)
    &&& out.3@ == allowances(input, config)
    &&& out.4@ == income
}

/// The year's income tax: the three bands less the allowances.
pub open spec fn income_tax_total(input: UKTaxInput, config: UKTaxConfig) -> int {
    let income = taxable_income(input);
    basic_tax(income, false, config) + higher_tax(income, false, config) + additional_tax(
        income,
        false,
        config,
    ) - allowances(input, config)
}

/// Whether an itemised result is one pay period's income tax on the pay less
/// the contribution. No allowance applies.
pub open spec fn is_paye_income_tax(
    out: IncomeTaxOutput,
    pay: int,
    contribution: int,
    config: UKTaxConfig,
) -> bool {
    let income = pay - contribution;
    &&& out.0@ == basic_tax(income, true, config)
    &&& out.1@ == higher_tax(income, true, config)
    &&& out.2@ == additional_tax(income, true, config)
    &&& out.3@ == 0
    &&& out.4@ == income
}

/// The part of a remaining amount that a band with the given headroom takes.
pub open spec fn band_fill(headroom: int, left: int) -> int {
    if headroom > 0 && left > 0 {
        if headroom < left {
            headroom
        } else {
            left
        }
    } else {
        0
    }
}

/// The tax on dividends. Dividends up to the allowance owe nothing. The rest
/// is taxed at the additional rate where additional-rate income tax is paid.
/// Otherwise it fills what the taxable income has left of the basic band, then
/// what it has left of the higher band, and the remainder falls into the
/// additional band; the three parts are taxed at their rates and the sum is
/// rounded down once.
pub open spec fn dividend_tax(
    dividend: int,
    additional: int,
    taxable: int,
    config: UKTaxConfig,
) -> int {
    if dividend <= config.dividend_allowance_band@ {
        0
    } else {
        let amount = dividend - config.dividend_allowance_band@;
        if additional > 0 {
            mul_rate(amount, config.additional_dividend_rate@)
        } else {
            let in_basic = band_fill(config.basic_income_top_band@ - taxable, amount);
            let in_higher = band_fill(config.higher_rate_top_band@ - taxable, amount - in_basic);
            let in_additional = amount - in_basic - in_higher;
            (in_basic * config.basic_dividend_rate@ + in_higher * config.higher_dividend_rate@
                + in_additional * config.additional_dividend_rate@) / (RATE_SCALE as int)
        }
    }
}

fn for_period(band: CashValue, is_paye: bool) -> (r: CashValue)
    requires
        0 <= band@ <= TAX_LIMIT + MINOR_PER_UNIT,
    ensures
        r@ == period_threshold(band@, is_paye),
        0 <= r@ <= band@,
{
    if is_paye {
        CashValue { minor: band.minor / PERIODS_PER_YEAR }
    } else {
        band
    }
}

fn basic(total_income: CashValue, is_paye: bool, config: &UKTaxConfig) -> (tax: CashValue)
    requires
        total_income.within(5 * TAX_LIMIT),
        config.in_range(),
    ensures
        tax@ == basic_tax(total_income@, is_paye, *config),
        tax.within(5 * TAX_LIMIT),
{
    let trigger = for_period(config.personal_allowance_taper_threshold_band, is_paye);
    let min = for_period(config.personal_allowance_band, is_paye);
    let max = for_period(config.basic_income_top_band, is_paye);
    let rate = config.basic_income_rate;
    if total_income.minor < trigger.minor {
        proof {
            crate::money::lemma_mul_rate_fraction(
                band_amount(total_income@, min@, max@),
                rate@,
            );
        }
        ThresholdCalculator::calc(min, max, rate, total_income)
    } else {
        let income_over = CashValue { minor: total_income.minor - trigger.minor };
        proof {
            crate::money::lemma_mul_rate_bound(
                income_over@,
                config.personal_allowance_taper_value@,
                5 * TAX_LIMIT,
                9,
            );
            crate::money::lemma_mul_rate_monotone(
                0,
                income_over@,
                config.personal_allowance_taper_value@,
            );
            assert(mul_rate(0, config.personal_allowance_taper_value@) == 0);
        }
        let shrink = config.personal_allowance_taper_value.of(income_over);
        let mut min_basic_threshold = CashValue { minor: min.minor - shrink.minor };
        if min_basic_threshold.minor < 0 {
            min_basic_threshold = CashValue::zero();
        }
        proof {
            crate::money::lemma_mul_rate_fraction(
                band_amount(total_income@, min_basic_threshold@, max@),
                rate@,
            );
        }
        ThresholdCalculator::calc(min_basic_threshold, max, rate, total_income)
    }
}

fn higher(total_income: CashValue, is_paye: bool, config: &UKTaxConfig) -> (tax: CashValue)
    requires
        total_income.within(5 * TAX_LIMIT),
        config.in_range(),
    ensures
        tax@ == higher_tax(total_income@, is_paye, *config),
        tax.within(5 * TAX_LIMIT),
{
    let rate = config.higher_income_rate;
    let min = for_period(
        CashValue { minor: config.basic_income_top_band.minor + MINOR_PER_UNIT },
        is_paye,
    );
    let max = for_period(config.higher_rate_top_band, is_paye);
    proof {
        crate::money::lemma_mul_rate_fraction(band_amount(total_income@, min@, max@), rate@);
    }
    ThresholdCalculator::calc(min, max, rate, total_income)
}

fn additional(total_income: CashValue, is_paye: bool, config: &UKTaxConfig) -> (tax: CashValue)
    requires
        total_income.within(5 * TAX_LIMIT),
        config.in_range(),
    ensures
        tax@ == additional_tax(total_income@, is_paye, *config),
        0 <= tax@ <= 5 * TAX_LIMIT,
{
    let rate = config.additional_income_rate;
    let min = for_period(
        CashValue { minor: config.higher_rate_top_band.minor + MINOR_PER_UNIT },
        is_paye,
    );
    let max = CashValue::max_value();
    proof {
        crate::money::lemma_mul_rate_fraction(band_amount(total_income@, min@, max@), rate@);
    }
    ThresholdCalculator::calc(min, max, rate, total_income)
}

fn cap(income: CashValue, allowance: CashValue) -> (r: CashValue)
    ensures
        r@ == capped(income@, allowance@),
{
    if income.minor > allowance.minor {
        allowance
    } else {
        income
    }
}

/// The personal savings allowance of a payer with the given savings income
/// and band taxes.
pub fn personal_savings_allowance(
    savings_income: CashValue,
    _basic: CashValue,
    higher: CashValue,
    additional: CashValue,
    config: &UKTaxConfig,
) -> (allowance: CashValue)
    ensures
        allowance@ == personal_savings_allowance_spec(
            savings_income@,
            higher@,
            additional@,
            *config,
        ),
{
    if savings_income.minor == 0 {
        return CashValue::zero();
    }
    if additional.minor != 0 {
        return CashValue::zero();
    }
    if higher.minor == 0 {
        cap(savings_income, config.basic_rate_savings_allowance_band)
    } else {
        cap(savings_income, config.higher_rate_savings_allowance_band)
    }
}

fn starting_savings_allowance(
    savings_income: CashValue,
    total_income: CashValue,
    config: &UKTaxConfig,
) -> (allowance: CashValue)
    requires
        config.in_range(),
    ensures
        allowance@ == starting_savings_allowance_spec(savings_income@, total_income@, *config),
{
    let allowance = config.starting_savings_allowance_band;
    let threshold = CashValue { minor: config.personal_allowance_band.minor + allowance.minor };
    if total_income.minor < threshold.minor {
        cap(savings_income, allowance)
    } else {
        CashValue::zero()
    }
}

fn self_employment_allowance(self_employment_income: CashValue, config: &UKTaxConfig) -> (allowance:
    CashValue)
    ensures
        allowance@ == flat_allowance(
            self_employment_income@,
            config.self_employment_allowance_band@,
        ),
{
    if self_employment_income.minor > 0 {
        cap(self_employment_income, config.self_employment_allowance_band)
    } else {
        CashValue::zero()
    }
}

fn rental_allowance(rental_income: CashValue, config: &UKTaxConfig) -> (allowance: CashValue)
    ensures
        allowance@ == flat_allowance(rental_income@, config.rental_allowance_band@),
{
    if rental_income.minor > 0 {
        cap(rental_income, config.rental_allowance_band)
    } else {
        CashValue::zero()
    }
}

/// Income tax, itemised: the basic, higher and additional band, the sum of
/// the allowances, and the taxable income that they were computed on.
#[derive(Clone, Copy, Debug, PartialEq, Eq, Structural)]
pub struct IncomeTaxOutput(
    pub CashValue,
    pub CashValue,
    pub CashValue,
    pub CashValue,
    pub CashValue,
);

impl IncomeTaxOutput {
    /// The three bands less the allowances.
    pub open spec fn spec_total(self) -> int {
        self.0@ + self.1@ + self.2@ - self.3@
    }

    /// Every item lies within the magnitude that a year's figures give.
    pub open spec fn in_range(self) -> bool {
        &&& self.0.within(5 * TAX_LIMIT)
        &&& self.1.within(5 * TAX_LIMIT)
        &&& self.2.within(5 * TAX_LIMIT)
        &&& self.3.within(4 * TAX_LIMIT)
        &&& self.4.within(5 * TAX_LIMIT)
    }

    /// The tax of the additional band.
    pub fn additional(&self) -> (tax: CashValue)
        ensures
            tax == self.2,
    {
        self.2
    }

    /// The taxable income that the tax was computed on.
    pub fn taxable_income(&self) -> (income: CashValue)
        ensures
            income == self.4,
    {
        self.4
    }

    /// The tax of the three bands less the allowances.
    pub fn total(&self) -> (tax: CashValue)
        requires
            self.in_range(),
        ensures
            tax@ == self.spec_total(),
            tax.within(19 * TAX_LIMIT),
    {
        CashValue { minor: self.0.minor + self.1.minor + self.2.minor - self.3.minor }
    }
}

/// The income tax of a year.
pub struct IncomeTax;

impl IncomeTax {
    /// The year's income tax, itemised.
    pub fn calc(input: &UKTaxInput, config: &UKTaxConfig) -> (out: IncomeTaxOutput)
        requires
            input.in_range(),
            config.in_range(),
        ensures
            is_income_tax(out, *input, *config),
            out.in_range(),
            out.spec_total() == income_tax_total(*input, *config),
    {
        let taxable_income_net_pension = Self::taxable_income(input);
        let basic = basic(taxable_income_net_pension, false, config);
        let higher = higher(taxable_income_net_pension, false, config);
        let additional = additional(taxable_income_net_pension, false, config);
        let allowances = Self::allowances(input, basic, higher, additional, config);
        IncomeTaxOutput(basic, higher, additional, allowances, taxable_income_net_pension)
    }

    fn allowances(
        period: &UKTaxInput,
        basic: CashValue,
        higher: CashValue,
        additional: CashValue,
        config: &UKTaxConfig,
    ) -> (sum: CashValue)
        requires
            period.in_range(),
            config.in_range(),
        ensures
            sum@ == personal_savings_allowance_spec(period.savings@, higher@, additional@, *config)
                + flat_allowance(period.self_employment@, config.self_employment_allowance_band@)
                + flat_allowance(period.rental@, config.rental_allowance_band@)
                + starting_savings_allowance_spec(period.savings@, total_income(*period), *config),
            sum.within(4 * TAX_LIMIT),
    {
        let total = CashValue {
            minor: period.non_paye_employment.minor + period.rental.minor + period.savings.minor
                + period.self_employment.minor,
        };
        let saving_allowance = personal_savings_allowance(
            period.savings,
            basic,
            higher,
            additional,
            config,
        );
        let self_employment_allowance = self_employment_allowance(period.self_employment, config);
        let rental_allowance = rental_allowance(period.rental, config);
        let starting_savings_allowance = starting_savings_allowance(period.savings, total, config);
        CashValue {
            minor: saving_allowance.minor + self_employment_allowance.minor
                + rental_allowance.minor + starting_savings_allowance.minor,
        }
    }

    /// The taxable income: employment outside PAYE, rental, savings and
    /// self-employment, less the pension contributions. Pay under PAYE is
    /// taxed apart.
    pub fn taxable_income(input: &UKTaxInput) -> (income: CashValue)
        requires
            input.in_range(),
        ensures
            income@ == taxable_income(*input),
            income.within(5 * TAX_LIMIT),
    {
        CashValue {
            minor: input.non_paye_employment.minor + input.rental.minor + input.savings.minor
                + input.self_employment.minor - input.contributions.minor,
        }
    }
}

/// The income tax withheld from one pay period's pay.
pub struct PAYEIncomeTax;

impl PAYEIncomeTax {
    /// One pay period's income tax, itemised.
    pub fn calc(pay: CashValue, contribution: CashValue, config: &UKTaxConfig) -> (out:
        IncomeTaxOutput)
        requires
            pay.within(TAX_LIMIT as int),
            contribution.within(TAX_LIMIT as int),
            config.in_range(),
        ensures
            is_paye_income_tax(out, pay@, contribution@, *config),
            out.in_range(),
    {
        let taxable_income_net_pension = CashValue { minor: pay.minor - contribution.minor };
        let basic = basic(taxable_income_net_pension, true, config);
        let higher = higher(taxable_income_net_pension, true, config);
        let additional = additional(taxable_income_net_pension, true, config);
        IncomeTaxOutput(basic, higher, additional, CashValue::zero(), taxable_income_net_pension)
    }
}

fn fill(headroom: i64, left: i64) -> (part: i64)
    ensures
        part == band_fill(headroom as int, left as int),
{
    if headroom > 0 && left > 0 {
        if headroom < left {
            headroom
        } else {
            left
        }
    } else {
        0
    }
}

/// The tax on dividends.
pub struct DividendTax;

impl DividendTax {
    /// The tax on the year's dividends, given the income tax of the same year.
    pub fn calc(period: &UKTaxInput, income_tax: &IncomeTaxOutput, config: &UKTaxConfig) -> (tax:
        CashValue)
        requires
            period.in_range(),
            income_tax.in_range(),
            config.in_range(),
        ensures
            tax@ == dividend_tax(period.dividend@, income_tax.2@, income_tax.4@, *config),
            0 <= tax@ <= TAX_LIMIT,
    {
        let dividend = period.dividend;
        let allowance = config.dividend_allowance_band;
        if dividend.minor <= allowance.minor {
            return CashValue::zero();
        }
        let taxable_amount = CashValue { minor: dividend.minor - allowance.minor };
        if income_tax.additional().minor > 0 {
            proof {
                crate::money::lemma_mul_rate_fraction(
                    taxable_amount@,
                    config.additional_dividend_rate@,
                );
            }
            config.additional_dividend_rate.of(taxable_amount)
        } else {
            let taxable = income_tax.taxable_income();
            let in_basic = fill(
                config.basic_income_top_band.minor - taxable.minor,
                taxable_amount.minor,
            );
            let in_higher = fill(
                config.higher_rate_top_band.minor - taxable.minor,
                taxable_amount.minor - in_basic,
            );
            let in_additional = taxable_amount.minor - in_basic - in_higher;
            proof {
                lemma_weighted_parts(
                    in_basic as int,
                    in_higher as int,
                    in_additional as int,
                    config.basic_dividend_rate@,
                    config.higher_dividend_rate@,
                    config.additional_dividend_rate@,
                );
            }
            let weighted: i128 = (in_basic as i128) * (config.basic_dividend_rate.ppb as i128)
                + (in_higher as i128) * (config.higher_dividend_rate.ppb as i128)
                + (in_additional as i128) * (config.additional_dividend_rate.ppb as i128);
            let q = floor_div(weighted, RATE_SCALE as i128);
            CashValue { minor: q as i64 }
        }
    }
}

/// Three non-negative parts taxed at three fractions raise between nothing
/// and their sum.
pub proof fn lemma_weighted_parts(a: int, b: int, c: int, ra: int, rb: int, rc: int)
    requires
        0 <= a,
        0 <= b,
        0 <= c,
        0 <= ra <= RATE_SCALE,
        0 <= rb <= RATE_SCALE,
        0 <= rc <= RATE_SCALE,
    ensures
        0 <= a * ra <= a * RATE_SCALE,
        0 <= b * rb <= b * RATE_SCALE,
        0 <= c * rc <= c * RATE_SCALE,
        0 <= (a * ra + b * rb + c * rc) / (RATE_SCALE as int) <= a + b + c,
{
    assert(0 <= a * ra <= a * 1_000_000_000) by (nonlinear_arith)
        requires
            0 <= a,
            0 <= ra <= 1_000_000_000,
    ;
    assert(0 <= b * rb <= b * 1_000_000_000) by (nonlinear_arith)
        requires
            0 <= b,
            0 <= rb <= 1_000_000_000,
    ;
    assert(0 <= c * rc <= c * 1_000_000_000) by (nonlinear_arith)
        requires
            0 <= c,
            0 <= rc <= 1_000_000_000,
    ;
}

} // verus!
