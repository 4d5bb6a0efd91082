//! National Insurance: twelve categories, three band formulas.
use vstd::prelude::*;
use crate::money::CashValue;
use crate::tax::{band_tax, ThresholdCalculator};
use crate::tax::uk::{UKTaxConfig, UKTaxInput, PERIODS_PER_YEAR, TAX_LIMIT};

verus! {

/// A monthly threshold as it counts for the period: itself for one pay
/// period, twelve times itself for the year.
pub open spec fn ni_threshold(band: int, is_paye: bool) -> int {
    if is_paye {
        band
    } else {
        band * PERIODS_PER_YEAR
    }
}

/// The upper band: everything over the second threshold, at the first rate.
pub open spec fn nib1(income: int, is_paye: bool, config: UKTaxConfig) -> int {
    band_tax(
        income,
        ni_threshold(config.ni_band_2_band@, is_paye),
        i64::MAX as int,
        config.ni_band_1_rate@,
    )
}

/// The main band, between the two thresholds, at the given rate.
pub open spec fn ni_main_band(income: int, is_paye: bool, config: UKTaxConfig, rate: int) -> int {
    band_tax(
        income,
        ni_threshold(config.ni_band_1_band@, is_paye),
        ni_threshold(config.ni_band_2_band@, is_paye),
        rate,
    )
}

/// The main band at the second rate.
pub open spec fn nib2(income: int, is_paye: bool, config: UKTaxConfig) -> int {
    ni_main_band(income, is_paye, config, config.ni_band_2_rate@)
}

/// The main band at the third rate.
pub open spec fn nib3(income: int, is_paye: bool, config: UKTaxConfig) -> int {
    ni_main_band(income, is_paye, config, config.ni_band_3_rate@)
}

/// The main band at the first rate.
pub open spec fn nib4(income: int, is_paye: bool, config: UKTaxConfig) -> int {
    ni_main_band(income, is_paye, config, config.ni_band_1_rate@)
}

fn threshold(band: CashValue, is_paye: bool) -> (r: CashValue)
    requires
        0 <= band@ <= TAX_LIMIT,
    ensures
        r@ == ni_threshold(band@, is_paye),
        0 <= r@ <= 12 * TAX_LIMIT,
{
    if is_paye {
        band
    } else {
        CashValue { minor: band.minor * PERIODS_PER_YEAR }
    }
}

/// The upper band: everything over the second threshold, at the first rate.
pub struct NIB1;

impl NIB1 {
    /// The contribution of the band on an income, for a pay period or for a year.
    pub fn calc(income: CashValue, is_paye: bool, config: &UKTaxConfig) -> (due: CashValue)
        requires
            income.within(TAX_LIMIT as int),
            config.in_range(),
        ensures
            due@ == nib1(income@, is_paye, *config),
            0 <= due@ <= TAX_LIMIT,
    {
        let min = threshold(config.ni_band_2_band, is_paye);
        let max = CashValue::max_value();
        proof {
            crate::money::lemma_mul_rate_fraction(
                crate::tax::band_amount(income@, min@, max@),
                config.ni_band_1_rate@,
            );
        }
        ThresholdCalculator::calc(min, max, config.ni_band_1_rate, income)
    }
}

fn main_band(income: CashValue, is_paye: bool, config: &UKTaxConfig, rate: crate::tax::TaxRate) -> (due:
    CashValue)
    requires
        income.within(TAX_LIMIT as int),
        config.in_range(),
        rate.is_fraction(),
    ensures
        due@ == ni_main_band(income@, is_paye, *config, rate@),
        due.within(12 * TAX_LIMIT),
{
    let min = threshold(config.ni_band_1_band, is_paye);
    let max = threshold(config.ni_band_2_band, is_paye);
    proof {
        crate::money::lemma_mul_rate_fraction(
            crate::tax::band_amount(income@, min@, max@),
            rate@,
        );
    }
    ThresholdCalculator::calc(min, max, rate, income)
}

/// The main band at the second rate.
pub struct NIB2;

impl NIB2 {
    /// The contribution of the band on an income, for a pay period or for a year.
    pub fn calc(income: CashValue, is_paye: bool, config: &UKTaxConfig) -> (due: CashValue)
        requires
            income.within(TAX_LIMIT as int),
            config.in_range(),
        ensures
            due@ == nib2(income@, is_paye, *config),
            due.within(12 * TAX_LIMIT),
    {
        main_band(income, is_paye, config, config.ni_band_2_rate)
    }
}

/// The main band at the third rate.
pub struct NIB3;

impl NIB3 {
    /// The contribution of the band on an income, for a pay period or for a year.
    pub fn calc(income: CashValue, is_paye: bool, config: &UKTaxConfig) -> (due: CashValue)
        requires
            income.within(TAX_LIMIT as int),
            config.in_range(),
        ensures
            due@ == nib3(income@, is_paye, *config),
            due.within(12 * TAX_LIMIT),
    {
        main_band(income, is_paye, config, config.ni_band_3_rate)
    }
}

/// The main band at the first rate.
pub struct NIB4;

impl NIB4 {
    /// The contribution of the band on an income, for a pay period or for a year.
    pub fn calc(income: CashValue, is_paye: bool, config: &UKTaxConfig) -> (due: CashValue)
        requires
            income.within(TAX_LIMIT as int),
            config.in_range(),
        ensures
            due@ == nib4(income@, is_paye, *config),
            due.within(12 * TAX_LIMIT),
    {
        main_band(income, is_paye, config, config.ni_band_1_rate)
    }
}

/// The National Insurance of a period.
#[derive(Clone, Copy, Debug)]
pub struct NITaxOutput(pub CashValue);

impl NITaxOutput {
    /// The contribution.
    pub fn total(&self) -> (due: CashValue)
        ensures
            due == self.0,
    {
        self.0
    }
}

/// The twelve National Insurance category letters.
#[derive(Clone, Copy, Debug, PartialEq, Eq, Structural)]
pub enum NIC {
    A,
    B,
    C,
    F,
    H,
    I,
    J,
    L,
    M,
    S,
    V,
    Z,
}

/// The insurance due from a category on an income.
pub open spec fn ni_due(nic: NIC, income: int, is_paye: bool, config: UKTaxConfig) -> int {
    match nic {
        NIC::A | NIC::F | NIC::H | NIC::M | NIC::V => nib3(income, is_paye, config) + nib1(
            income,
            is_paye,
            config,
        ),
        NIC::B | NIC::I => nib2(income, is_paye, config) + nib1(income, is_paye, config),
        NIC::J | NIC::L | NIC::Z => nib4(income, is_paye, config) + nib1(income, is_paye, config),
        NIC::C | NIC::S => 0,
    }
}

fn ni_calc(nic: NIC, inc: CashValue, is_paye: bool, config: &UKTaxConfig) -> (due: CashValue)
    requires
        inc.within(TAX_LIMIT as int),
        config.in_range(),
    ensures
        due@ == ni_due(nic, inc@, is_paye, *config),
        due.within(12 * TAX_LIMIT),
{
    match nic {
        NIC::A | NIC::F | NIC::H | NIC::M | NIC::V => {
            let main = NIB3::calc(inc, is_paye, config);
            let upper = NIB1::calc(inc, is_paye, config);
            proof {
                lemma_bands_exclusive(inc@, is_paye, *config, config.ni_band_3_rate@);
            }
            main.plus(upper)
        },
        NIC::B | NIC::I => {
            let main = NIB2::calc(inc, is_paye, config);
            let upper = NIB1::calc(inc, is_paye, config);
            proof {
                lemma_bands_exclusive(inc@, is_paye, *config, config.ni_band_2_rate@);
            }
            main.plus(upper)
        },
        NIC::J | NIC::L | NIC::Z => {
            let main = NIB4::calc(inc, is_paye, config);
            let upper = NIB1::calc(inc, is_paye, config);
            proof {
                lemma_bands_exclusive(inc@, is_paye, *config, config.ni_band_1_rate@);
            }
            main.plus(upper)
        },
        NIC::C | NIC::S => CashValue::zero(),
    }
}

/// The main band and the upper band together never raise more than the
/// magnitude of twelve monthly thresholds and the income.
proof fn lemma_bands_exclusive(income: int, is_paye: bool, config: UKTaxConfig, rate: int)
    requires
        -TAX_LIMIT <= income <= TAX_LIMIT,
        config.in_range(),
        0 <= rate <= crate::money::RATE_SCALE,
    ensures
        -12 * TAX_LIMIT <= ni_main_band(income, is_paye, config, rate) + nib1(
            income,
            is_paye,
            config,
        ) <= 12 * TAX_LIMIT,
{
    let min = ni_threshold(config.ni_band_1_band@, is_paye);
    let max = ni_threshold(config.ni_band_2_band@, is_paye);
    crate::money::lemma_mul_rate_fraction(crate::tax::band_amount(income, min, max), rate);
    crate::money::lemma_mul_rate_fraction(
        crate::tax::band_amount(income, max, i64::MAX as int),
        config.ni_band_1_rate@,
    );
}

impl NIC {
    /// The categories that owe no contribution.
    pub open spec fn is_exempt(self) -> bool {
        self == NIC::C || self == NIC::S
    }

    /// The insurance due on the year's employment income taxed outside PAYE.
    /// Pay taxed under PAYE has had its contribution withheld already.
    pub fn calc(&self, period: &UKTaxInput, config: &UKTaxConfig) -> (out: NITaxOutput)
        requires
            period.in_range(),
            config.in_range(),
        ensures
            out.0@ == ni_due(*self, period.non_paye_employment@, false, *config),
            out.0.within(12 * TAX_LIMIT),
            self.is_exempt() ==> out.0@ == 0,
    {
        NITaxOutput(ni_calc(*self, period.non_paye_employment, false, config))
    }

    /// The insurance due on one pay period's pay.
    pub fn paye_calc(&self, pay: CashValue, config: &UKTaxConfig) -> (out: NITaxOutput)
        requires
            pay.within(TAX_LIMIT as int),
            config.in_range(),
        ensures
            out.0@ == ni_due(*self, pay@, true, *config),
            out.0.within(12 * TAX_LIMIT),
            self.is_exempt() ==> out.0@ == 0,
    {
        NITaxOutput(ni_calc(*self, pay, true, config))
    }
}

} // verus!
