//! The tax on realised capital gains.
use vstd::prelude::*;
use crate::money::{mul_rate, CashValue};
use crate::tax::uk::income::{taxable_income, IncomeTax};
use crate::tax::uk::{UKTaxConfig, UKTaxInput, TAX_LIMIT};

verus! {

/// Whether the gains are taxed in the basic bracket: the taxable income over
/// the personal allowance, together with the gains over the annual exempt
/// amount, stays under the top of the basic band.
pub open spec fn gains_in_basic_bracket(input: UKTaxInput, config: UKTaxConfig) -> bool {
    (taxable_income(input) - config.personal_allowance_band@) + (input.capital_gains@
        - config.capital_gains_allowance_band@) < config.basic_income_top_band@
}

/// The tax on the year's gains: the whole gain at the residential rate plus
/// the whole gain at the other rate of its bracket. The exempt amount counts
/// for the choice of the bracket only.
pub open spec fn capital_gains_tax(input: UKTaxInput, config: UKTaxConfig) -> int {
    if gains_in_basic_bracket(input, config) {
        mul_rate(input.capital_gains@, config.basic_residential_capital_rate@) + mul_rate(
            input.capital_gains@,
            config.basic_other_capital_rate@,
        )
    } else {
        mul_rate(input.capital_gains@, config.higher_residential_capital_rate@) + mul_rate(
            input.capital_gains@,
            config.higher_other_capital_rate@,
        )
    }
}

/// The tax on a year's capital gains.
#[derive(Clone, Copy, Debug)]
pub struct CapitalGainsTaxOutput(pub CashValue);

impl CapitalGainsTaxOutput {
    /// The tax.
    pub fn total(&self) -> (tax: CashValue)
        ensures
            tax == self.0,
    {
        self.0
    }

    /// No tax.
    pub fn zero() -> (out: Self)
        ensures
            out.0@ == 0,
    {
        CapitalGainsTaxOutput(CashValue::zero())
    }
}

/// The tax on capital gains.
pub struct CapitalGainsTax;

impl CapitalGainsTax {
    /// The tax on the year's realised gains.
    pub fn calc(period: &UKTaxInput, config: &UKTaxConfig) -> (out: CapitalGainsTaxOutput)
        requires
            period.in_range(),
            config.in_range(),
        ensures
            out.0@ == capital_gains_tax(*period, *config),
            out.0.within(2 * TAX_LIMIT),
    {
        let capital_gains = period.capital_gains;
        let taxable_income = IncomeTax::taxable_income(period);
        let income_over_basic = taxable_income.minor - config.personal_allowance_band.minor;
        let taxable_gain = capital_gains.minor - config.capital_gains_allowance_band.minor;
        proof {
            crate::money::lemma_mul_rate_fraction(
                capital_gains@,
                config.basic_residential_capital_rate@,
            );
            crate::money::lemma_mul_rate_fraction(capital_gains@, config.basic_other_capital_rate@);
            crate::money::lemma_mul_rate_fraction(
                capital_gains@,
                config.higher_residential_capital_rate@,
            );
            crate::money::lemma_mul_rate_fraction(
                capital_gains@,
                config.higher_other_capital_rate@,
            );
        }
        if income_over_basic + taxable_gain < config.basic_income_top_band.minor {
            let resi_tax = config.basic_residential_capital_rate.of(capital_gains);
            let other_tax = config.basic_other_capital_rate.of(capital_gains);
            CapitalGainsTaxOutput(resi_tax.plus(other_tax))
        } else {
            let resi_tax = config.higher_residential_capital_rate.of(capital_gains);
            let other_tax = config.higher_other_capital_rate.of(capital_gains);
            CapitalGainsTaxOutput(resi_tax.plus(other_tax))
        }
    }
}

} // verus!
