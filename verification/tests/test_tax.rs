use antevorta::money::{CashValue, Rate};
use antevorta::tax::uk::income::{personal_savings_allowance, DividendTax, IncomeTax, PAYEIncomeTax};
use antevorta::tax::uk::capital::CapitalGainsTax;
use antevorta::tax::uk::ni::{NIB1, NIB2, NIB3, NIB4, NIC};
use antevorta::tax::uk::{TaxPeriod, UKTaxConfig, UKTaxInput};
use antevorta::tax::ThresholdCalculator;

fn tax_cash(units: f64) -> CashValue {
    CashValue::from_minor((units * 100.0).round() as i64)
}

fn tax_units(value: CashValue) -> f64 {
    value.minor() as f64 / 100.0
}

fn tax_rate(fraction: f64) -> Rate {
    Rate::from_ppb((fraction * 1_000_000_000.0).round() as i64)
}

#[test]
fn income_test_savings_allowance_output() {
    let config = UKTaxConfig::default();
    //Basic rate taxpayer, no savings income should generate zero allowance
    let a = personal_savings_allowance(
        tax_cash(0.0),
        tax_cash(1_000.0),
        tax_cash(0.0),
        tax_cash(0.0),
        &config,
    );
    assert!(tax_units(a) == 0.0);

    //Higher rate taxpayer with savings income should generate allowance
    let a1 = personal_savings_allowance(
        tax_cash(1_000.0),
        tax_cash(1_000.0),
        tax_cash(1_000.0),
        tax_cash(0.0),
        &config,
    );
    assert!(tax_units(a1) != 0.0);

    //Basic rate taxpayer with savings income should generate allowance
    let a2 = personal_savings_allowance(
        tax_cash(1_000.0),
        tax_cash(1_000.0),
        tax_cash(0.0),
        tax_cash(0.0),
        &config,
    );
    assert!(tax_units(a2) != 0.0);
}

#[test]
fn test_that_uk_tax_flow_works() {
    let config = UKTaxConfig::default();
    let mut input = UKTaxInput::default();
    input.non_paye_employment = tax_cash(80_000.0);
    input.contributions = tax_cash(4_000.0);

    let paid = TaxPeriod::calc(&input, &config);
    let _total = paid.total();
}

#[test]
fn test_that_income_tax_calculates_correctly() {
    //This is a rough test, not bound closely to the actual values
    let config = UKTaxConfig::default();
    let mut input = UKTaxInput::default();
    input.non_paye_employment = tax_cash(45_000.0);
    //Implies 5% contributions
    input.contributions = tax_cash(2_250.0);

    let paid = TaxPeriod::calc(&input, &config);
    assert!(tax_units(paid.total()) > 8_000.0 && tax_units(paid.total()) < 12_000.0);
}

#[test]
fn test_that_dividend_income_calculates_correctly() {
    //This is a rough test that the output is sane, not that is exactly correct
    let config = UKTaxConfig::default();
    let mut input = UKTaxInput::default();
    input.non_paye_employment = tax_cash(70_000.0);
    input.dividend = tax_cash(10_000.0);
    let tax_paid = TaxPeriod::calc(&input, &config).total();

    //Should be within a few percent of normal income tax rate for income above
    //basic rate
    let mut input1 = UKTaxInput::default();
    input1.non_paye_employment = tax_cash(80_000.0);
    let tax_paid1 = TaxPeriod::calc(&input1, &config).total();
    assert!(tax_units(tax_paid) / tax_units(tax_paid1) > 0.9);
}

#[test]
fn test_that_paye_income_calculates_correctly() {
    //This is very rough until we build out everything fully
    //but PAYE should come out to somewhere near the annual
    //figure using a wage with minimal adjustments
    let annual_wage = 80_000.0;
    let contribution_rate = 0.05;
    let annual_contribution = annual_wage * contribution_rate;
    let monthly_wage = annual_wage / 12.0;
    let monthly_contribution = monthly_wage * contribution_rate;

    let config = UKTaxConfig::default();

    let paye = TaxPeriod::paye(
        tax_cash(monthly_wage),
        tax_cash(monthly_contribution),
        NIC::A,
        &config,
    );
    let paye_paid = paye.total();

    let mut input = UKTaxInput::default();
    input.non_paye_employment = tax_cash(annual_wage);
    input.contributions = tax_cash(annual_contribution);
    let tax_paid = TaxPeriod::calc(&input, &config).total();

    let annualised_paye_total = tax_units(paye_paid) * 12.0;
    let diff = tax_units(tax_paid) - annualised_paye_total;
    assert!(diff > -10.0 && diff < 10.0);
}

#[test]
fn band_tax_is_the_rate_on_the_part_within_the_band() {
    let calc = |income: f64| {
        tax_units(ThresholdCalculator::calc(
            tax_cash(100.0),
            tax_cash(300.0),
            tax_rate(0.2),
            tax_cash(income),
        ))
    };
    assert_eq!(calc(50.0), 0.0);
    assert_eq!(calc(100.0), 0.0);
    assert_eq!(calc(200.0), 20.0);
    assert_eq!(calc(300.0), 40.0);
    assert_eq!(calc(10_000.0), 40.0);
    // Products are rounded down to the hundredth.
    assert_eq!(
        ThresholdCalculator::calc(
            CashValue::from_minor(0),
            CashValue::from_minor(1_000),
            Rate::from_ppb(333_333_333),
            CashValue::from_minor(10),
        )
        .minor(),
        3
    );
}

#[test]
fn income_tax_bands_of_the_standard_year() {
    let config = UKTaxConfig::default();
    let mut input = UKTaxInput::default();
    input.non_paye_employment = tax_cash(60_000.0);
    let out = IncomeTax::calc(&input, &config);
    // Basic band: 22% of 50270 - 12571.
    assert_eq!(tax_units(out.0), 8_293.78);
    // Higher band: 40% of 60000 - 50271.
    assert_eq!(tax_units(out.1), 3_891.6);
    assert_eq!(tax_units(out.additional()), 0.0);
    assert_eq!(tax_units(out.taxable_income()), 60_000.0);
    assert_eq!(out.total().minor(), 829_378 + 389_160);
    assert_eq!(tax_units(IncomeTax::taxable_income(&input)), 60_000.0);
}

#[test]
fn taxable_income_sums_the_four_incomes_less_contributions() {
    let mut input = UKTaxInput::default();
    input.non_paye_employment = tax_cash(1_000.0);
    input.rental = tax_cash(200.0);
    input.savings = tax_cash(30.0);
    input.self_employment = tax_cash(4.0);
    input.contributions = tax_cash(100.0);
    input.paye_employment = tax_cash(50_000.0);
    assert_eq!(tax_units(IncomeTax::taxable_income(&input)), 1_134.0);
}

#[test]
fn personal_allowance_tapers_by_twice_the_excess() {
    let config = UKTaxConfig::default();
    let mut input = UKTaxInput::default();
    // 1000 over the taper threshold: the floor of the basic band falls
    // from 12571 to 10571.
    input.non_paye_employment = tax_cash(101_000.0);
    let out = IncomeTax::calc(&input, &config);
    assert_eq!(tax_units(out.0), ((50_270.0 - 10_571.0) * 0.22f64 * 100.0).floor() / 100.0);
    // Far over the threshold the allowance is gone.
    input.non_paye_employment = tax_cash(200_000.0);
    let out = IncomeTax::calc(&input, &config);
    assert_eq!(tax_units(out.0), 11_059.4);
    // Additional band: 45% of 200000 - 150001.
    assert_eq!(tax_units(out.additional()), 22_499.55);
}

#[test]
fn allowances_are_capped_by_the_income_of_their_kind() {
    let config = UKTaxConfig::default();
    let mut input = UKTaxInput::default();
    input.non_paye_employment = tax_cash(30_000.0);
    input.rental = tax_cash(400.0);
    input.self_employment = tax_cash(5_000.0);
    input.savings = tax_cash(600.0);
    let out = IncomeTax::calc(&input, &config);
    // Rental 400, self-employment 1000, savings 600 as a basic-rate payer;
    // no starting allowance at this income.
    assert_eq!(tax_units(out.3), 2_000.0);
    input.non_paye_employment = tax_cash(10_000.0);
    let out = IncomeTax::calc(&input, &config);
    // Total income 16000 lies under 17571: the starting allowance adds 600.
    assert_eq!(tax_units(out.3), 2_600.0);
}

#[test]
fn exempt_categories_owe_no_national_insurance() {
    let config = UKTaxConfig::default();
    for wage in [0.0, 1_000.0, 50_000.0, 5_000_000.0] {
        let mut input = UKTaxInput::default();
        input.non_paye_employment = tax_cash(wage);
        for nic in [NIC::C, NIC::S] {
            assert_eq!(nic.calc(&input, &config).total().minor(), 0);
            assert_eq!(nic.paye_calc(tax_cash(wage), &config).total().minor(), 0);
        }
    }
}

#[test]
fn national_insurance_by_category() {
    let config = UKTaxConfig::default();
    let mut input = UKTaxInput::default();
    input.non_paye_employment = tax_cash(60_000.0);
    // Main band from 9876.12 to 50268, upper band over 50268.
    let main = 50_268.0 - 9_876.12;
    let upper = ((60_000.0 - 50_268.0) * 0.0325f64 * 100.0).floor() / 100.0;
    let a = NIC::A.calc(&input, &config).total();
    assert_eq!(tax_units(a), (main * 0.1325f64 * 100.0).floor() / 100.0 + upper);
    let b = NIC::B.calc(&input, &config).total();
    assert_eq!(tax_units(b), (main * 0.071f64 * 100.0).floor() / 100.0 + upper);
    let j = NIC::J.calc(&input, &config).total();
    assert_eq!(tax_units(j), (main * 0.0325f64 * 100.0).floor() / 100.0 + upper);
    assert_eq!(tax_units(NIB1::calc(tax_cash(60_000.0), false, &config)), upper);
    assert_eq!(NIB2::calc(tax_cash(60_000.0), false, &config).minor(), b.minor() - tax_cash(upper).minor());
    assert_eq!(NIB3::calc(tax_cash(60_000.0), false, &config).minor(), a.minor() - tax_cash(upper).minor());
    assert_eq!(NIB4::calc(tax_cash(60_000.0), false, &config).minor(), j.minor() - tax_cash(upper).minor());
    // PAYE income pays its insurance as it is paid, not at the end of the year.
    let mut paye_only = UKTaxInput::default();
    paye_only.paye_employment = tax_cash(60_000.0);
    assert_eq!(NIC::A.calc(&paye_only, &config).total().minor(), 0);
}

#[test]
fn capital_gains_are_taxed_by_bracket() {
    let config = UKTaxConfig::default();
    let mut input = UKTaxInput::default();
    input.capital_gains = tax_cash(10_000.0);
    input.non_paye_employment = tax_cash(20_000.0);
    // Basic bracket: 18% and 10% of the gain.
    assert_eq!(tax_units(CapitalGainsTax::calc(&input, &config).total()), 2_800.0);
    input.non_paye_employment = tax_cash(80_000.0);
    // Higher bracket: 28% and 28% of the gain.
    assert_eq!(tax_units(CapitalGainsTax::calc(&input, &config).total()), 5_600.0);
}

#[test]
fn dividends_fill_the_bands_in_turn() {
    let config = UKTaxConfig::default();
    let mut input = UKTaxInput::default();
    input.dividend = tax_cash(1_500.0);
    input.non_paye_employment = tax_cash(40_000.0);
    let it = IncomeTax::calc(&input, &config);
    // Under the allowance nothing is due.
    assert_eq!(tax_units(DividendTax::calc(&input, &it, &config)), 0.0);
    // 12000 taxable: 10270 fill the basic band, the rest is taxed higher.
    input.dividend = tax_cash(14_000.0);
    assert_eq!(
        tax_units(DividendTax::calc(&input, &it, &config)),
        ((10_270.0 * 0.0875f64 + 1_730.0 * 0.3375) * 100.0).floor() / 100.0
    );
    // A payer of additional-rate tax pays the additional rate on all of it.
    input.non_paye_employment = tax_cash(200_000.0);
    let it = IncomeTax::calc(&input, &config);
    assert_eq!(tax_units(DividendTax::calc(&input, &it, &config)), 4_722.0);
}

#[test]
fn paye_divides_the_thresholds_by_twelve() {
    let config = UKTaxConfig::default();
    let out = PAYEIncomeTax::calc(tax_cash(5_000.0), tax_cash(0.0), &config);
    // Monthly floor 1047.58 and ceiling 4189.16 of the basic band.
    assert_eq!(out.0.minor(), (418_916 - 104_758) * 22 / 100);
    // Monthly floor 4189.25 of the higher band.
    assert_eq!(out.1.minor(), (500_000 - 418_925) * 40 / 100);
    assert_eq!(out.3.minor(), 0);
}

#[test]
fn tax_total_subtracts_what_paye_withheld() {
    let config = UKTaxConfig::default();
    let mut input = UKTaxInput::default();
    input.non_paye_employment = tax_cash(45_000.0);
    let before = TaxPeriod::calc(&input, &config).total();
    input.paye_tax_paid = tax_cash(1_234.56);
    let after = TaxPeriod::calc(&input, &config).total();
    assert_eq!(before.minor() - after.minor(), 123_456);
}

#[test]
fn tax_does_not_fall_when_employment_income_rises() {
    let config = UKTaxConfig::default();
    let mut last = i64::MIN;
    let mut wage = 0.0;
    while wage <= 260_000.0 {
        let mut input = UKTaxInput::default();
        input.non_paye_employment = tax_cash(wage);
        input.savings = tax_cash(800.0);
        input.dividend = tax_cash(9_000.0);
        input.capital_gains = tax_cash(20_000.0);
        input.rental = tax_cash(3_000.0);
        let due = TaxPeriod::calc(&input, &config).total().minor();
        assert!(due >= last, "tax fell at a wage of {}", wage);
        last = due;
        wage += 123.45;
    }
}

#[test]
fn inflation_grows_thresholds_and_leaves_rates() {
    let config = UKTaxConfig::default();
    let next = config.apply_inflation(tax_rate(0.1));
    assert_eq!(tax_units(next.personal_allowance_band), 13_828.1);
    assert_eq!(tax_units(next.basic_income_top_band), 55_297.0);
    assert_eq!(tax_units(next.ni_band_1_band), 905.31);
    assert_eq!(next.basic_income_rate, config.basic_income_rate);
    assert_eq!(next.personal_allowance_taper_value, config.personal_allowance_taper_value);
    assert!(next.check_range());
    assert_eq!(config.apply_inflation(tax_rate(0.0)), config);
}

#[test]
fn no_income_owes_no_tax() {
    let config = UKTaxConfig::default();
    let input = UKTaxInput::default();
    assert!(input.check_range());
    assert_eq!(TaxPeriod::calc(&input, &config).total().minor(), 0);
}
