//! The tax engine: stateless functions from a year's aggregated income and a
//! rate configuration to the itemised tax due.
use vstd::prelude::*;
use crate::money::{grow, CashValue, Rate, RATE_SCALE, RATE_LIMIT};
use crate::tax::TaxRate;
use crate::tax::uk::capital::{capital_gains_tax, CapitalGainsTax, CapitalGainsTaxOutput};
use crate::tax::uk::income::{
    dividend_tax, DividendTax, IncomeTax, IncomeTaxOutput, PAYEIncomeTax,
};
use crate::tax::uk::ni::{ni_due, NITaxOutput, NIC};

pub mod capital;
pub mod income;
pub mod laws;
pub mod ni;

verus! {

/// Largest magnitude, in hundredths, of a figure handed to the tax engine.
pub const TAX_LIMIT: i64 = 10_000_000_000_000_000;

/// Pay periods in a tax year.
pub const PERIODS_PER_YEAR: i64 = 12;

/// All band thresholds and rates of one tax year.
#[derive(Clone, Copy, Debug, PartialEq, Eq, Structural)]
pub struct UKTaxConfig {
    pub basic_income_rate: TaxRate,
    pub higher_income_rate: TaxRate,
    pub additional_income_rate: TaxRate,
    pub basic_dividend_rate: TaxRate,
    pub higher_dividend_rate: TaxRate,
    pub additional_dividend_rate: TaxRate,
    pub basic_residential_capital_rate: TaxRate,
    pub higher_residential_capital_rate: TaxRate,
    pub basic_other_capital_rate: TaxRate,
    pub higher_other_capital_rate: TaxRate,
    pub ni_band_1_rate: TaxRate,
    pub ni_band_2_rate: TaxRate,
    pub ni_band_3_rate: TaxRate,
    pub personal_allowance_band: CashValue,
    pub personal_allowance_taper_threshold_band: CashValue,
    /// By how many hundredths the personal allowance shrinks for each
    /// hundredth of income over the taper threshold.
    pub personal_allowance_taper_value: Rate,
    pub basic_income_top_band: CashValue,
    pub higher_rate_top_band: CashValue,
    pub starting_savings_allowance_band: CashValue,
    pub self_employment_allowance_band: CashValue,
    pub rental_allowance_band: CashValue,
    pub dividend_allowance_band: CashValue,
    pub capital_gains_allowance_band: CashValue,
    pub ni_band_1_band: CashValue,
    pub ni_band_2_band: CashValue,
    pub basic_rate_savings_allowance_band: CashValue,
    pub higher_rate_savings_allowance_band: CashValue,
}

/// A threshold that the engine accepts: not negative and within the limit.
pub open spec fn band_in_range(band: CashValue) -> bool {
    0 <= band@ <= TAX_LIMIT
}

impl UKTaxConfig {
    /// Every rate is a fraction and every threshold lies within the limit.
    pub open spec fn in_range(self) -> bool {
        &&& self.basic_income_rate.is_fraction()
        &&& self.higher_income_rate.is_fraction()
        &&& self.additional_income_rate.is_fraction()
        &&& self.basic_dividend_rate.is_fraction()
        &&& self.higher_dividend_rate.is_fraction()
        &&& self.additional_dividend_rate.is_fraction()
        &&& self.basic_residential_capital_rate.is_fraction()
        &&& self.higher_residential_capital_rate.is_fraction()
        &&& self.basic_other_capital_rate.is_fraction()
        &&& self.higher_other_capital_rate.is_fraction()
        &&& self.ni_band_1_rate.is_fraction()
        &&& self.ni_band_2_rate.is_fraction()
        &&& self.ni_band_3_rate.is_fraction()
        &&& 0 <= self.personal_allowance_taper_value@ <= RATE_LIMIT
        &&& band_in_range(self.personal_allowance_band)
        &&& band_in_range(self.personal_allowance_taper_threshold_band)
        &&& band_in_range(self.basic_income_top_band)
        &&& band_in_range(self.higher_rate_top_band)
        &&& band_in_range(self.starting_savings_allowance_band)
        &&& band_in_range(self.self_employment_allowance_band)
        &&& band_in_range(self.rental_allowance_band)
        &&& band_in_range(self.dividend_allowance_band)
        &&& band_in_range(self.capital_gains_allowance_band)
        &&& band_in_range(self.ni_band_1_band)
        &&& band_in_range(self.ni_band_2_band)
        &&& band_in_range(self.basic_rate_savings_allowance_band)
        &&& band_in_range(self.higher_rate_savings_allowance_band)
    }

    /// Each band's floor lies below its ceiling, and no rate or allowance
    /// favours the bracket above over the one below.
    pub open spec fn ordered(self) -> bool {
        &&& self.personal_allowance_band@ <= self.basic_income_top_band@
        &&& self.basic_income_top_band@ + crate::money::MINOR_PER_UNIT
            <= self.higher_rate_top_band@
        &&& self.ni_band_1_band@ <= self.ni_band_2_band@
        &&& self.basic_dividend_rate@ <= self.higher_dividend_rate@
        &&& self.higher_dividend_rate@ <= self.additional_dividend_rate@
        &&& self.basic_residential_capital_rate@ <= self.higher_residential_capital_rate@
        &&& self.basic_other_capital_rate@ <= self.higher_other_capital_rate@
        &&& self.higher_rate_savings_allowance_band@ <= self.basic_rate_savings_allowance_band@
    }

    /// The configuration that [`Default`] gives.
    pub open spec fn standard() -> UKTaxConfig {
        UKTaxConfig {
            basic_income_rate: Rate { ppb: 220_000_000 },
            higher_income_rate: Rate { ppb: 400_000_000 },
            additional_income_rate: Rate { ppb: 450_000_000 },
            basic_dividend_rate: Rate { ppb: 87_500_000 },
            higher_dividend_rate: Rate { ppb: 337_500_000 },
            additional_dividend_rate: Rate { ppb: 393_500_000 },
            basic_residential_capital_rate: Rate { ppb: 180_000_000 },
            higher_residential_capital_rate: Rate { ppb: 280_000_000 },
            basic_other_capital_rate: Rate { ppb: 100_000_000 },
            higher_other_capital_rate: Rate { ppb: 280_000_000 },
            ni_band_1_rate: Rate { ppb: 32_500_000 },
            ni_band_2_rate: Rate { ppb: 71_000_000 },
            ni_band_3_rate: Rate { ppb: 132_500_000 },
            personal_allowance_band: CashValue { minor: 1_257_100 },
            personal_allowance_taper_threshold_band: CashValue { minor: 10_000_000 },
            personal_allowance_taper_value: Rate { ppb: 2_000_000_000 },
            basic_income_top_band: CashValue { minor: 5_027_000 },
            higher_rate_top_band: CashValue { minor: 15_000_000 },
            starting_savings_allowance_band: CashValue { minor: 500_000 },
            self_employment_allowance_band: CashValue { minor: 100_000 },
            rental_allowance_band: CashValue { minor: 100_000 },
            dividend_allowance_band: CashValue { minor: 200_000 },
            capital_gains_allowance_band: CashValue { minor: 1_230_000 },
            ni_band_1_band: CashValue { minor: 82_301 },
            ni_band_2_band: CashValue { minor: 418_900 },
            basic_rate_savings_allowance_band: CashValue { minor: 100_000 },
            higher_rate_savings_allowance_band: CashValue { minor: 50_000 },
        }
    }

    /// This configuration with every threshold grown by the rate. The rates,
    /// and the taper factor, stay as they are.
    pub open spec fn inflated(self, ppb: int) -> UKTaxConfig {
        UKTaxConfig {
            personal_allowance_band: inflate_band(self.personal_allowance_band, ppb),
            personal_allowance_taper_threshold_band: inflate_band(
                self.personal_allowance_taper_threshold_band,
                ppb,
            ),
            basic_income_top_band: inflate_band(self.basic_income_top_band, ppb),
            higher_rate_top_band: inflate_band(self.higher_rate_top_band, ppb),
            starting_savings_allowance_band: inflate_band(
                self.starting_savings_allowance_band,
                ppb,
            ),
            self_employment_allowance_band: inflate_band(self.self_employment_allowance_band, ppb),
            rental_allowance_band: inflate_band(self.rental_allowance_band, ppb),
            dividend_allowance_band: inflate_band(self.dividend_allowance_band, ppb),
            capital_gains_allowance_band: inflate_band(self.capital_gains_allowance_band, ppb),
            ni_band_1_band: inflate_band(self.ni_band_1_band, ppb),
            ni_band_2_band: inflate_band(self.ni_band_2_band, ppb),
            basic_rate_savings_allowance_band: inflate_band(
                self.basic_rate_savings_allowance_band,
                ppb,
            ),
            higher_rate_savings_allowance_band: inflate_band(
                self.higher_rate_savings_allowance_band,
                ppb,
            ),
            ..self
        }
    }

    /// The configuration of the next tax year: every threshold grown by the
    /// inflation rate, every rate unchanged.
    pub fn apply_inflation(&self, value: Rate) -> (next: UKTaxConfig)
        requires
            self.in_range(),
            -RATE_SCALE <= value@ <= RATE_LIMIT,
        ensures
            next == self.inflated(value@),
    {
        UKTaxConfig {
            basic_income_rate: self.basic_income_rate,
            higher_income_rate: self.higher_income_rate,
            additional_income_rate: self.additional_income_rate,
            basic_dividend_rate: self.basic_dividend_rate,
            higher_dividend_rate: self.higher_dividend_rate,
            additional_dividend_rate: self.additional_dividend_rate,
            basic_residential_capital_rate: self.basic_residential_capital_rate,
            basic_other_capital_rate: self.basic_other_capital_rate,
            higher_residential_capital_rate: self.higher_residential_capital_rate,
            higher_other_capital_rate: self.higher_other_capital_rate,
            ni_band_1_rate: self.ni_band_1_rate,
            ni_band_2_rate: self.ni_band_2_rate,
            ni_band_3_rate: self.ni_band_3_rate,
            personal_allowance_band: value.grow(self.personal_allowance_band),
            personal_allowance_taper_threshold_band: value.grow(
                self.personal_allowance_taper_threshold_band,
            ),
            personal_allowance_taper_value: self.personal_allowance_taper_value,
            basic_income_top_band: value.grow(self.basic_income_top_band),
            higher_rate_top_band: value.grow(self.higher_rate_top_band),
            starting_savings_allowance_band: value.grow(self.starting_savings_allowance_band),
            self_employment_allowance_band: value.grow(self.self_employment_allowance_band),
            rental_allowance_band: value.grow(self.rental_allowance_band),
            dividend_allowance_band: value.grow(self.dividend_allowance_band),
            capital_gains_allowance_band: value.grow(self.capital_gains_allowance_band),
            ni_band_1_band: value.grow(self.ni_band_1_band),
            ni_band_2_band: value.grow(self.ni_band_2_band),
            basic_rate_savings_allowance_band: value.grow(self.basic_rate_savings_allowance_band),
            higher_rate_savings_allowance_band: value.grow(
                self.higher_rate_savings_allowance_band,
            ),
        }
    }

    /// Whether the engine accepts this configuration.
    pub fn check_range(&self) -> (ok: bool)
        ensures
            ok == self.in_range(),
    {
        rate_is_fraction(self.basic_income_rate) && rate_is_fraction(self.higher_income_rate)
            && rate_is_fraction(self.additional_income_rate) && rate_is_fraction(
            self.basic_dividend_rate,
        ) && rate_is_fraction(self.higher_dividend_rate) && rate_is_fraction(
            self.additional_dividend_rate,
        ) && rate_is_fraction(self.basic_residential_capital_rate) && rate_is_fraction(
            self.higher_residential_capital_rate,
        ) && rate_is_fraction(self.basic_other_capital_rate) && rate_is_fraction(
            self.higher_other_capital_rate,
        ) && rate_is_fraction(self.ni_band_1_rate) && rate_is_fraction(self.ni_band_2_rate)
            && rate_is_fraction(self.ni_band_3_rate) && 0
            <= self.personal_allowance_taper_value.ppb && self.personal_allowance_taper_value.ppb
            <= RATE_LIMIT && band_ok(self.personal_allowance_band) && band_ok(
            self.personal_allowance_taper_threshold_band,
        ) && band_ok(self.basic_income_top_band) && band_ok(self.higher_rate_top_band) && band_ok(
            self.starting_savings_allowance_band,
        ) && band_ok(self.self_employment_allowance_band) && band_ok(self.rental_allowance_band)
            && band_ok(self.dividend_allowance_band) && band_ok(self.capital_gains_allowance_band)
            && band_ok(self.ni_band_1_band) && band_ok(self.ni_band_2_band) && band_ok(
            self.basic_rate_savings_allowance_band,
        ) && band_ok(self.higher_rate_savings_allowance_band)
    }
}

/// A threshold grown by a rate.
pub open spec fn inflate_band(band: CashValue, ppb: int) -> CashValue {
    CashValue { minor: grow(band@, ppb) as i64 }
}

fn rate_is_fraction(rate: TaxRate) -> (ok: bool)
    ensures
        ok == rate.is_fraction(),
{
    0 <= rate.ppb && rate.ppb <= RATE_SCALE
}

fn band_ok(band: CashValue) -> (ok: bool)
    ensures
        ok == band_in_range(band),
{
    0 <= band.minor && band.minor <= TAX_LIMIT
}

impl Default for UKTaxConfig {
    fn default() -> (config: Self)
        ensures
            config == UKTaxConfig::standard(),
            config.in_range(),
            config.ordered(),
    {
        UKTaxConfig {
            basic_income_rate: Rate { ppb: 220_000_000 },
            higher_income_rate: Rate { ppb: 400_000_000 },
            additional_income_rate: Rate { ppb: 450_000_000 },
            basic_dividend_rate: Rate { ppb: 87_500_000 },
            higher_dividend_rate: Rate { ppb: 337_500_000 },
            additional_dividend_rate: Rate { ppb: 393_500_000 },
            basic_residential_capital_rate: Rate { ppb: 180_000_000 },
            higher_residential_capital_rate: Rate { ppb: 280_000_000 },
            basic_other_capital_rate: Rate { ppb: 100_000_000 },
            higher_other_capital_rate: Rate { ppb: 280_000_000 },
            ni_band_1_rate: Rate { ppb: 32_500_000 },
            ni_band_2_rate: Rate { ppb: 71_000_000 },
            ni_band_3_rate: Rate { ppb: 132_500_000 },
            personal_allowance_band: CashValue { minor: 1_257_100 },
            personal_allowance_taper_threshold_band: CashValue { minor: 10_000_000 },
            personal_allowance_taper_value: Rate { ppb: 2_000_000_000 },
            basic_income_top_band: CashValue { minor: 5_027_000 },
            higher_rate_top_band: CashValue { minor: 15_000_000 },
            starting_savings_allowance_band: CashValue { minor: 500_000 },
            self_employment_allowance_band: CashValue { minor: 100_000 },
            rental_allowance_band: CashValue { minor: 100_000 },
            dividend_allowance_band: CashValue { minor: 200_000 },
            capital_gains_allowance_band: CashValue { minor: 1_230_000 },
            ni_band_1_band: CashValue { minor: 82_301 },
            ni_band_2_band: CashValue { minor: 418_900 },
            basic_rate_savings_allowance_band: CashValue { minor: 100_000 },
            higher_rate_savings_allowance_band: CashValue { minor: 50_000 },
        }
    }
}

/// The totals of one tax period, accumulated over the year and consumed once
/// at settlement.
#[derive(Clone, Copy, Debug, PartialEq, Eq, Structural)]
pub struct UKTaxInput {
    pub non_paye_employment: CashValue,
    pub paye_employment: CashValue,
    pub savings: CashValue,
    pub rental: CashValue,
    pub self_employment: CashValue,
    pub contributions: CashValue,
    pub paye_tax_paid: CashValue,
    pub ni: NIC,
    pub dividend: CashValue,
    pub capital_gains: CashValue,
}

impl UKTaxInput {
    /// Every figure lies within the magnitude that the engine accepts.
    pub open spec fn in_range(self) -> bool {
        &&& self.non_paye_employment.within(TAX_LIMIT as int)
        &&& self.paye_employment.within(TAX_LIMIT as int)
        &&& self.savings.within(TAX_LIMIT as int)
        &&& self.rental.within(TAX_LIMIT as int)
        &&& self.self_employment.within(TAX_LIMIT as int)
        &&& self.contributions.within(TAX_LIMIT as int)
        &&& self.paye_tax_paid.within(TAX_LIMIT as int)
        &&& self.dividend.within(TAX_LIMIT as int)
        &&& self.capital_gains.within(TAX_LIMIT as int)
    }

    /// The empty aggregate: no income, category A.
    pub open spec fn empty() -> UKTaxInput {
        UKTaxInput {
            non_paye_employment: CashValue { minor: 0 },
            paye_employment: CashValue { minor: 0 },
            savings: CashValue { minor: 0 },
            rental: CashValue { minor: 0 },
            self_employment: CashValue { minor: 0 },
            contributions: CashValue { minor: 0 },
            paye_tax_paid: CashValue { minor: 0 },
            ni: NIC::A,
            dividend: CashValue { minor: 0 },
            capital_gains: CashValue { minor: 0 },
        }
    }

    /// The empty aggregate.
    pub fn default() -> (input: Self)
        ensures
            input == UKTaxInput::empty(),
            input.in_range(),
    {
        UKTaxInput {
            non_paye_employment: CashValue::zero(),
            paye_employment: CashValue::zero(),
            savings: CashValue::zero(),
            rental: CashValue::zero(),
            self_employment: CashValue::zero(),
            contributions: CashValue::zero(),
            paye_tax_paid: CashValue::zero(),
            ni: NIC::A,
            dividend: CashValue::zero(),
            capital_gains: CashValue::zero(),
        }
    }

    /// Whether the engine accepts these figures.
    pub fn check_range(&self) -> (ok: bool)
        ensures
            ok == self.in_range(),
    {
        figure_ok(self.non_paye_employment) && figure_ok(self.paye_employment) && figure_ok(
            self.savings,
        ) && figure_ok(self.rental) && figure_ok(self.self_employment) && figure_ok(
            self.contributions,
        ) && figure_ok(self.paye_tax_paid) && figure_ok(self.dividend) && figure_ok(
            self.capital_gains,
        )
    }
}

/// Whether a figure lies within the magnitude that the engine accepts.
pub fn figure_ok(figure: CashValue) -> (ok: bool)
    ensures
        ok == figure.within(TAX_LIMIT as int),
{
    -TAX_LIMIT <= figure.minor && figure.minor <= TAX_LIMIT
}

/// The itemised tax of one period.
#[derive(Clone, Copy, Debug)]
pub struct UKTaxOutput {
    pub income: IncomeTaxOutput,
    pub capital_gains: CapitalGainsTaxOutput,
    pub ni: NITaxOutput,
    pub dividend: CashValue,
    pub paye_tax_paid: CashValue,
}

impl UKTaxOutput {
    /// The tax due: the four components less what was withheld already.
    pub open spec fn spec_total(self) -> int {
        self.income.spec_total() + self.capital_gains.0@ + self.ni.0@ + self.dividend@
            - self.paye_tax_paid@
    }

    /// Every component lies within the magnitude that a year's figures give.
    pub open spec fn in_range(self) -> bool {
        &&& self.income.in_range()
        &&& self.capital_gains.0.within(2 * TAX_LIMIT)
        &&& self.ni.0.within(12 * TAX_LIMIT)
        &&& self.dividend.within(2 * TAX_LIMIT)
        &&& self.paye_tax_paid.within(TAX_LIMIT as int)
    }

    /// The tax due: the four components less what was withheld already.
    pub fn total(&self) -> (sum: CashValue)
        requires
            self.in_range(),
        ensures
            sum@ == self.spec_total(),
            sum.within(40 * TAX_LIMIT),
    {
        let income = self.income.total();
        CashValue {
            minor: income.minor + self.capital_gains.0.minor + self.ni.0.minor
                + self.dividend.minor - self.paye_tax_paid.minor,
        }
    }
}

/// The tax due on a year's figures under a configuration.
pub open spec fn total_tax(input: UKTaxInput, config: UKTaxConfig) -> int {
    income::income_tax_total(input, config) + capital_gains_tax(input, config) + ni_due(
        input.ni,
        input.non_paye_employment@,
        false,
        config,
    ) + dividend_tax(
        input.dividend@,
        income::additional_tax(income::taxable_income(input), false, config),
        income::taxable_income(input),
        config,
    ) - input.paye_tax_paid@
}

/// The tax and insurance withheld from one period's pay.
pub open spec fn paye_due(pay: int, contribution: int, ni: NIC, config: UKTaxConfig) -> int {
    income::basic_tax(pay - contribution, true, config) + income::higher_tax(
        pay - contribution,
        true,
        config,
    ) + income::additional_tax(pay - contribution, true, config) + ni_due(ni, pay, true, config)
}

/// The tax of a period: of a year, or of one pay period under PAYE.
#[derive(Clone, Copy, Debug)]
pub struct TaxPeriod;

impl TaxPeriod {
    /// The itemised tax on a year's figures.
    pub fn calc(input: &UKTaxInput, config: &UKTaxConfig) -> (out: UKTaxOutput)
        requires
            input.in_range(),
            config.in_range(),
        ensures
            out.in_range(),
            income::is_income_tax(out.income, *input, *config),
            out.capital_gains.0@ == capital_gains_tax(*input, *config),
            out.ni.0@ == ni_due(input.ni, input.non_paye_employment@, false, *config),
            out.dividend@ == dividend_tax(
                input.dividend@,
                out.income.2@,
                out.income.4@,
                *config,
            ),
            out.paye_tax_paid == input.paye_tax_paid,
            out.spec_total() == total_tax(*input, *config),
    {
        let it = IncomeTax::calc(input, config);
        let cg = CapitalGainsTax::calc(input, config);
        let ni = input.ni.calc(input, config);
        let divi = DividendTax::calc(input, &it, config);
        UKTaxOutput {
            income: it,
            capital_gains: cg,
            ni,
            dividend: divi,
            paye_tax_paid: input.paye_tax_paid,
        }
    }

    /// The tax and insurance withheld from one pay period's pay. Every
    /// threshold counts for a twelfth, and no allowance applies.
    pub fn paye(pay: CashValue, contribution: CashValue, ni: NIC, config: &UKTaxConfig) -> (out:
        UKTaxOutput)
        requires
            pay.within(TAX_LIMIT as int),
            contribution.within(TAX_LIMIT as int),
            config.in_range(),
        ensures
            out.in_range(),
            income::is_paye_income_tax(out.income, pay@, contribution@, *config),
            out.capital_gains.0@ == 0,
            out.ni.0@ == ni_due(ni, pay@, true, *config),
            out.dividend@ == 0,
            out.paye_tax_paid@ == 0,
            out.spec_total() == paye_due(pay@, contribution@, ni, *config),
    {
        let it = PAYEIncomeTax::calc(pay, contribution, config);
        let ni = ni.paye_calc(pay, config);
        UKTaxOutput {
            income: it,
            capital_gains: CapitalGainsTaxOutput::zero(),
            ni,
            dividend: CashValue::zero(),
            paye_tax_paid: CashValue::zero(),
        }
    }
}

} // verus!
