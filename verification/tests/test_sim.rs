use antevorta::acc::CanTransfer;
use antevorta::clock::Clock;
use antevorta::config::uk::{
    FlowUKSimConfig, ScheduleUKSimConfig, StackUKSimConfig, SupportedFlowTypes,
    SupportedSchedules, SupportedStackTypes, UKSimConfig,
};
use antevorta::flow::{Employment, EmploymentPAYE, Expense, Flow, PctOfIncomeExpense, Rental};
use antevorta::input::{constant_series, HashMapSourceSim, HashMapSourceSimBuilder, SimDataRep};
use antevorta::money::{CashValue, Rate};
use antevorta::mutation::{CashBalanceStrategy, Mutations, TaxStrategy};
use antevorta::output::UKSimulationOutput;
use antevorta::schedule::Schedule;
use antevorta::sim::uk::{
    plan_settlement, Ledger, Settlement, SimError, SimLoopState, SimState, UKSimulationResult,
    UKSimulationState,
};
use antevorta::sim::{SimRunner, SimulationState};
use antevorta::strat::{CashStrategy, DividendPayment, InvestmentStrategy, Trade, TradeType};
use antevorta::tax::uk::ni::NIC;
use antevorta::tax::uk::{TaxPeriod, UKTaxConfig, UKTaxInput};

const DAY: i64 = 86_400;
// 1 April 1970, the first settlement day after the epoch.
const TAX_DAY_1970: i64 = 90 * DAY;

fn sim_cash(units: f64) -> CashValue {
    CashValue::from_minor((units * 100.0).round() as i64)
}

fn sim_units(value: CashValue) -> f64 {
    value.minor() as f64 / 100.0
}

fn sim_rate(fraction: f64) -> Rate {
    Rate::from_ppb((fraction * 1_000_000_000.0).round() as i64)
}

fn sim_source(clock: &Clock, inflation: f64) -> HashMapSourceSim {
    HashMapSourceSimBuilder::start()
        .with_inflation(constant_series(sim_rate(inflation), clock))
        .with_rates(constant_series(sim_rate(0.0), clock))
        .with_house_prices(constant_series(sim_rate(0.0), clock))
        .build()
}

fn sim_flow(
    flow_type: SupportedFlowTypes,
    value: Option<f64>,
    schedule_type: SupportedSchedules,
    static_growth: Option<f64>,
    pct: Option<f64>,
) -> FlowUKSimConfig {
    FlowUKSimConfig {
        flow_type,
        person: None,
        value: value.map(sim_cash),
        schedule: ScheduleUKSimConfig { schedule_type, day: None, month: None },
        static_growth: static_growth.map(sim_rate),
        pct: pct.map(sim_rate),
    }
}

fn sim_stack(stack_type: SupportedStackTypes, value: f64) -> StackUKSimConfig {
    StackUKSimConfig {
        stack_type,
        person: None,
        value: sim_cash(value),
        rate: None,
        term: None,
        fix_length: None,
    }
}

fn sim_three_stacks(gia: f64, sipp: f64, isa: f64) -> Option<Vec<StackUKSimConfig>> {
    Some(vec![
        sim_stack(SupportedStackTypes::Gia, gia),
        sim_stack(SupportedStackTypes::Sipp, sipp),
        sim_stack(SupportedStackTypes::Isa, isa),
    ])
}

fn sim_build(config: &UKSimConfig, clock: &Clock) -> UKSimulationState<CashStrategy> {
    config
        .create(CashStrategy::new(), CashStrategy::new(), CashStrategy::new(), sim_source(clock, 0.0))
        .unwrap()
}

fn sim_run(
    clock: Clock,
    state: UKSimulationState<CashStrategy>,
) -> (CashValue, UKSimulationState<CashStrategy>) {
    let mut runner = SimRunner { clock, state };
    let value = runner.run().unwrap();
    (value.0, runner.state)
}

/*
 * This tests if the deposit strategy is making the correct rebalancing. Needs to be tested from
 * top-level because of the hierarchial dependencies in the code. We need to strictly control the
 * data coming in so that the correct sequence of deposits should occur within the strategy.
 * DepositStrategy is only triggered on wage income types.
 */
#[test]
fn sim_depositstrategy() {
    let clock = Clock::with_length_in_days(10, 3).unwrap();
    let config = UKSimConfig {
        starting_cash: sim_cash(0.0),
        nic: NIC::A,
        contribution_pct: sim_rate(0.05),
        emergency_cash_min: sim_cash(5000.0),
        lifetime_pension_contributions: sim_cash(0.0),
        flows: Some(vec![sim_flow(
            SupportedFlowTypes::Employment,
            Some(4000.0),
            SupportedSchedules::EveryDay,
            None,
            None,
        )]),
        stacks: sim_three_stacks(0.0, 0.0, 0.0),
    };
    let sim = sim_build(&config, &clock);
    //The value of the bank account should be equal to the emergency fund balance
    //4_000 * SIM_LENGTH = 12_000
    //The total value of the portfolio should be equal to the total amount of wages
    //Note: if costs aren't zero then this isn't true, so no broker costs can be added to this
    //simulation
    let (value, sim) = sim_run(clock, sim);
    assert!(sim_units(value) == 12_000.0);
    assert_eq!(sim_units(sim.bank.balance), 5_000.0);
    assert_eq!(sim_units(sim.sipp.liquidation_value()), 600.0);
    assert_eq!(sim_units(sim.isa.liquidation_value()), 6_400.0);
}

//Tests that the simulation produces the right results after we add in other parts of the
//simulation i.e. taxation.
#[test]
fn sim_result_test() {
    let clock = Clock::with_length_in_days(1, 365 * 2).unwrap();
    let config = UKSimConfig {
        starting_cash: sim_cash(0.0),
        nic: NIC::A,
        contribution_pct: sim_rate(0.05),
        emergency_cash_min: sim_cash(0.0),
        lifetime_pension_contributions: sim_cash(0.0),
        flows: Some(vec![sim_flow(
            SupportedFlowTypes::Employment,
            Some(4000.0),
            SupportedSchedules::EndOfMonth,
            None,
            None,
        )]),
        stacks: sim_three_stacks(1000.0, 1000.0, 1000.0),
    };
    let sim = sim_build(&config, &clock);
    let (_, sim) = sim_run(clock, sim);
    assert!(sim_units(UKSimulationOutput::get_final_value(&sim).unwrap()) > 40_000.0);
}

#[test]
fn sim_test() {
    let clock = Clock::with_length_in_days(1, 1000).unwrap();
    let config = UKSimConfig {
        starting_cash: sim_cash(1000.0),
        nic: NIC::A,
        contribution_pct: sim_rate(0.05),
        emergency_cash_min: sim_cash(1000.0),
        lifetime_pension_contributions: sim_cash(0.0),
        flows: Some(vec![sim_flow(
            SupportedFlowTypes::EmploymentStaticGrowth,
            Some(4000.0),
            SupportedSchedules::StartOfMonth,
            Some(0.0001),
            None,
        )]),
        stacks: sim_three_stacks(0.0, 0.0, 0.0),
    };
    let sim = sim_build(&config, &clock);
    let (_, sim) = sim_run(clock, sim);

    let perf = UKSimulationOutput::get_output(&sim);
    // 32 month starts lie within the thousand days after 1 January 1970,
    // and three settlement days.
    assert_eq!(perf.values.len(), 32);
    assert_eq!(perf.returns_dates.len(), 32);
    assert_eq!(perf.cash.len(), 32);
    assert_eq!(perf.tax_paid.len(), 3);
    assert_eq!(perf.returns_dates[0], 31 * DAY + 1);
}

fn sim_household(
    bank: f64,
    isa: f64,
    gia: f64,
    sipp: f64,
    flows: Vec<Flow>,
    clock: &Clock,
) -> UKSimulationState<CashStrategy> {
    let config = UKSimConfig {
        starting_cash: sim_cash(bank),
        nic: NIC::A,
        contribution_pct: sim_rate(0.0),
        emergency_cash_min: sim_cash(1_000_000.0),
        lifetime_pension_contributions: sim_cash(0.0),
        flows: Some(Vec::new()),
        stacks: sim_three_stacks(gia, sipp, isa),
    };
    let mut sim = sim_build(&config, clock);
    sim.flows = flows;
    sim
}

#[test]
fn tax_is_paid_by_the_isa_alone_when_it_covers_the_bill() {
    let clock = Clock::with_length_in_days(0, 100).unwrap();
    let mut sim = sim_household(0.0, 20_000.0, 3_000.0, 700.0, Vec::new(), &clock);
    sim.ledger.non_paye_income_annual = sim_cash(40_000.0);
    let mut input = UKTaxInput::default();
    input.non_paye_employment = sim_cash(40_000.0);
    let due = TaxPeriod::calc(&input, &UKTaxConfig::default()).total();
    assert!(sim_units(due) > 0.0 && sim_units(due) < 20_000.0);

    assert_eq!(sim.pay_taxes(TAX_DAY_1970), Ok(Some(Settlement::FromIsa)));
    assert_eq!(sim.sim_state, SimState::Ready);
    assert_eq!(sim.bank.balance.minor(), 0);
    assert_eq!(sim.isa.liquidation_value().minor(), 2_000_000 - due.minor());
    assert_eq!(sim_units(sim.gia.liquidation_value()), 3_000.0);
    assert_eq!(sim_units(sim.sipp.liquidation_value()), 700.0);
    assert_eq!(sim.tracker.tax_paid, vec![due]);
    assert_eq!(sim.ledger.paid_into_isa_since_start.minor(), -due.minor());
    assert_eq!(sim.ledger.non_paye_income_annual.minor(), 0);
}

#[test]
fn tax_takes_the_whole_isa_and_the_rest_from_the_gia() {
    let clock = Clock::with_length_in_days(0, 100).unwrap();
    let mut sim = sim_household(10.0, 2_000.0, 30_000.0, 700.0, Vec::new(), &clock);
    sim.ledger.non_paye_income_annual = sim_cash(40_000.0);
    let mut input = UKTaxInput::default();
    input.non_paye_employment = sim_cash(40_000.0);
    let due = TaxPeriod::calc(&input, &UKTaxConfig::default()).total();

    assert_eq!(sim.pay_taxes(TAX_DAY_1970), Ok(Some(Settlement::FromIsaAndGia)));
    assert_eq!(sim_units(sim.bank.balance), 10.0);
    assert_eq!(sim.isa.liquidation_value().minor(), 0);
    assert_eq!(sim.gia.liquidation_value().minor(), 3_000_000 - (due.minor() - 200_000));
    assert_eq!(sim_units(sim.sipp.liquidation_value()), 700.0);
}

#[test]
fn tax_is_paid_by_the_bank_when_it_can() {
    let clock = Clock::with_length_in_days(0, 100).unwrap();
    let mut sim = sim_household(50_000.0, 2_000.0, 3_000.0, 700.0, Vec::new(), &clock);
    sim.ledger.non_paye_income_annual = sim_cash(40_000.0);
    sim.ledger.tax_paid_annual = sim_cash(5.0);
    let mut input = UKTaxInput::default();
    input.non_paye_employment = sim_cash(40_000.0);
    let due = TaxPeriod::calc(&input, &UKTaxConfig::default()).total();

    assert_eq!(sim.pay_taxes(TAX_DAY_1970), Ok(Some(Settlement::FromBank)));
    assert_eq!(sim.bank.balance.minor(), 5_000_000 - due.minor());
    assert_eq!(sim_units(sim.isa.liquidation_value()), 2_000.0);
    assert_eq!(sim_units(sim.gia.liquidation_value()), 3_000.0);
    assert_eq!(sim.tracker.tax_paid, vec![CashValue::from_minor(due.minor() + 500)]);
    assert_eq!(sim.tracker.gross_income.len(), 1);
    // No other day settles anything.
    assert_eq!(sim.pay_taxes(TAX_DAY_1970 + DAY), Ok(None));
    assert_eq!(sim.bank.balance.minor(), 5_000_000 - due.minor());
}

#[test]
fn tax_that_nothing_covers_makes_the_simulation_unrecoverable() {
    let clock = Clock::with_length_in_days(0, 100).unwrap();
    let mut sim = sim_household(100.0, 2_000.0, 3_000.0, 50_000.0, Vec::new(), &clock);
    sim.ledger.non_paye_income_annual = sim_cash(40_000.0);
    let mut input = UKTaxInput::default();
    input.non_paye_employment = sim_cash(40_000.0);
    let due = TaxPeriod::calc(&input, &UKTaxConfig::default()).total();
    assert!(sim_units(due) > 5_100.0);

    assert_eq!(sim.update(TAX_DAY_1970), Ok(()));
    assert_eq!(sim.sim_state, SimState::Unrecoverable);
    assert_eq!(sim.bank.balance.minor(), 0);
    assert_eq!(sim.isa.liquidation_value().minor(), 0);
    assert_eq!(sim.gia.liquidation_value().minor(), 0);
    assert_eq!(sim.sipp.liquidation_value().minor(), 0);
    assert_eq!(sim.get_total_value().minor(), 0);

    // Nothing moves any more, whatever the day brings.
    sim.flows = vec![Rental::flow(sim_cash(500.0), Schedule::EveryDay)];
    assert_eq!(sim.update(TAX_DAY_1970 + DAY), Ok(()));
    assert_eq!(sim.bank.balance.minor(), 0);
    assert_eq!(sim.ledger.gross_income_annual.minor(), 0);
    assert_eq!(sim.sim_state, SimState::Unrecoverable);
}

#[test]
fn settlement_plan_follows_the_cascade() {
    let plan = |due: f64, bank: bool, isa: f64, gia: f64| {
        plan_settlement(sim_cash(due), bank, sim_cash(isa), sim_cash(gia))
    };
    assert_eq!(plan(100.0, true, 0.0, 0.0), Settlement::FromBank);
    assert_eq!(plan(100.0, false, 101.0, 0.0), Settlement::FromIsa);
    assert_eq!(plan(100.0, false, 100.0, 0.0), Settlement::FromIsaAndGia);
    assert_eq!(plan(100.0, false, 40.0, 60.0), Settlement::FromIsaAndGia);
    assert_eq!(plan(100.0, false, 40.0, 59.99), Settlement::Unrecoverable);
    assert_eq!(plan(100.0, false, 0.0, 0.0), Settlement::Unrecoverable);
}

#[test]
fn wage_and_share_of_income_on_one_day_net_to_three_quarters() {
    let clock = Clock::with_length_in_days(0, 10).unwrap();
    let flows = vec![
        Employment::static_growth(sim_cash(4_000.0), Schedule::SpecificEpoch(3 * DAY), sim_rate(0.0)),
        PctOfIncomeExpense::flow(sim_rate(0.25), Schedule::SpecificEpoch(3 * DAY)),
    ];
    let mut sim = sim_household(500.0, 0.0, 0.0, 0.0, flows, &clock);
    assert_eq!(sim.update(2 * DAY), Ok(()));
    assert_eq!(sim_units(sim.bank.balance), 500.0);
    assert_eq!(sim.update(3 * DAY), Ok(()));
    assert_eq!(sim_units(sim.bank.balance), 3_500.0);
    assert_eq!(sim_units(sim.ledger.expense_annual), 1_000.0);
    assert_eq!(sim_units(sim.ledger.income_paid_in_curr_loop), 4_000.0);
    assert_eq!(sim_units(sim.get_total_value()), 3_500.0);
}

#[test]
fn share_of_income_before_any_income_is_an_error() {
    let clock = Clock::with_length_in_days(0, 10).unwrap();
    let flows = vec![
        PctOfIncomeExpense::flow(sim_rate(0.25), Schedule::EveryDay),
        Employment::static_growth(sim_cash(4_000.0), Schedule::EveryDay, sim_rate(0.0)),
    ];
    let mut sim = sim_household(500.0, 0.0, 0.0, 0.0, flows, &clock);
    assert_eq!(sim.update(3 * DAY), Err(SimError::NoIncomeForExpense));
    assert_eq!(sim_units(sim.bank.balance), 500.0);
}

#[test]
fn dormant_household_stays_at_zero() {
    let clock = Clock::with_length_in_days(0, 800).unwrap();
    let config = UKSimConfig {
        starting_cash: sim_cash(0.0),
        nic: NIC::A,
        contribution_pct: sim_rate(0.05),
        emergency_cash_min: sim_cash(0.0),
        lifetime_pension_contributions: sim_cash(0.0),
        flows: Some(Vec::new()),
        stacks: sim_three_stacks(0.0, 0.0, 0.0),
    };
    let sim = config
        .create(CashStrategy::new(), CashStrategy::new(), CashStrategy::new(), sim_source(&clock, 0.0001))
        .unwrap();
    let (value, sim) = sim_run(clock, sim);
    assert_eq!(value.minor(), 0);
    assert_eq!(sim.bank.balance.minor(), 0);
    assert_eq!(sim.isa.liquidation_value().minor(), 0);
    assert_eq!(sim.gia.liquidation_value().minor(), 0);
    assert_eq!(sim.sipp.liquidation_value().minor(), 0);
    assert_eq!(sim.sim_state, SimState::Ready);
    assert_eq!(sim.ledger, Ledger::new());
    // Two settlement days have passed and each has grown the thresholds.
    assert_eq!(sim.tracker.tax_paid, vec![CashValue::from_minor(0); 2]);
    assert!(sim.tax_config.personal_allowance_band.minor() > 1_257_100);
}

#[test]
fn settlement_without_inflation_is_an_error() {
    let clock = Clock::with_length_in_days(0, 10).unwrap();
    let mut sim = sim_household(500.0, 0.0, 0.0, 0.0, Vec::new(), &clock);
    assert_eq!(sim.update(TAX_DAY_1970), Err(SimError::MissingInflation));
    assert_eq!(sim_units(sim.bank.balance), 500.0);
}

#[test]
fn paye_wage_is_paid_net_of_tax_and_contribution() {
    let clock = Clock::with_length_in_days(0, 10).unwrap();
    let flows = vec![EmploymentPAYE::static_growth(
        sim_cash(5_000.0),
        Schedule::SpecificEpoch(2 * DAY),
        sim_rate(0.1),
    )];
    let mut sim = sim_household(0.0, 0.0, 0.0, 0.0, flows, &clock);
    sim.contribution_pct = sim_rate(0.1);
    let withheld =
        TaxPeriod::paye(sim_cash(5_000.0), sim_cash(500.0), NIC::A, &UKTaxConfig::default()).total();
    assert!(withheld.minor() > 0);
    assert_eq!(sim.update(2 * DAY), Ok(()));
    assert_eq!(sim.bank.balance.minor(), 500_000 - 50_000 - withheld.minor());
    assert_eq!(sim_units(sim.sipp.liquidation_value()), 500.0);
    assert_eq!(sim.ledger.tax_paid_paye_annual, withheld);
    assert_eq!(sim.ledger.tax_paid_annual, withheld);
    assert_eq!(sim_units(sim.ledger.gross_income_annual), 5_000.0);
    assert_eq!(sim.ledger.paye_income_annual.minor(), 450_000 - withheld.minor());
    assert_eq!(sim_units(sim.ledger.sipp_contributions_annual), 500.0);
    // The wage has grown by a tenth for the next time.
    assert_eq!(
        sim.flows[0],
        EmploymentPAYE::static_growth(sim_cash(5_500.0), Schedule::SpecificEpoch(2 * DAY), sim_rate(0.1))
    );
}

#[test]
fn contribution_that_the_pension_cannot_take_stays_in_the_pay() {
    let clock = Clock::with_length_in_days(0, 10).unwrap();
    let flows = vec![Employment::static_growth(
        sim_cash(100_000.0),
        Schedule::EveryDay,
        sim_rate(0.0),
    )];
    let mut sim = sim_household(0.0, 0.0, 0.0, 0.0, flows, &clock);
    sim.contribution_pct = sim_rate(0.5);
    assert_eq!(sim.update(2 * DAY), Ok(()));
    // Half the wage is 50000, of which the annual threshold lets 40000 in.
    assert_eq!(sim_units(sim.sipp.liquidation_value()), 40_000.0);
    assert_eq!(sim_units(sim.bank.balance), 60_000.0);
    assert_eq!(sim.update(3 * DAY), Ok(()));
    assert_eq!(sim_units(sim.sipp.liquidation_value()), 40_000.0);
    assert_eq!(sim_units(sim.bank.balance), 160_000.0);
    assert_eq!(sim_units(sim.ledger.non_paye_income_annual), 200_000.0);
    assert_eq!(sim_units(sim.ledger.net_income_annual), 160_000.0);
}

#[test]
fn rent_and_expenses_move_the_bank() {
    let clock = Clock::with_length_in_days(0, 10).unwrap();
    let flows = vec![
        Rental::flow(sim_cash(700.0), Schedule::EveryDay),
        Expense::flow(sim_cash(200.0), Schedule::EveryDay),
        Expense::flow(sim_cash(5_000.0), Schedule::EveryDay),
    ];
    let mut sim = sim_household(0.0, 0.0, 0.0, 0.0, flows, &clock);
    assert_eq!(sim.update(2 * DAY), Ok(()));
    // The second expense exceeds the balance and is not paid, but counted.
    assert_eq!(sim_units(sim.bank.balance), 500.0);
    assert_eq!(sim_units(sim.ledger.rental_income_annual), 700.0);
    assert_eq!(sim_units(sim.ledger.expense_annual), 5_200.0);
}

#[test]
fn inflation_linked_flows_grow_by_the_inflation_of_the_day() {
    let clock = Clock::with_length_in_days(0, 10).unwrap();
    let flows = vec![
        Employment::flow(sim_cash(1_000.0), Schedule::EveryDay),
        Expense::inflation_linked(sim_cash(100.0), Schedule::EveryDay),
    ];
    let mut sim = sim_household(0.0, 0.0, 0.0, 0.0, flows, &clock);
    sim.source = sim_source(&clock, 0.1);
    assert_eq!(sim.update(2 * DAY), Ok(()));
    assert_eq!(sim_units(sim.bank.balance), 900.0);
    assert_eq!(sim.flows[0], Employment::flow(sim_cash(1_100.0), Schedule::EveryDay));
    assert_eq!(sim.flows[1], Expense::inflation_linked(sim_cash(110.0), Schedule::EveryDay));
    // Without a quote for the day the growth cannot be worked out.
    assert_eq!(sim.update(20 * DAY), Err(SimError::MissingInflation));
}

#[test]
fn spare_cash_goes_to_the_isa_and_then_to_the_gia() {
    let clock = Clock::with_length_in_days(0, 10).unwrap();
    let mut sim = sim_household(30_000.0, 0.0, 0.0, 0.0, Vec::new(), &clock);
    sim.emergency_fund_minimum = sim_cash(4_000.0);
    sim.rebalance_cash();
    assert_eq!(sim_units(sim.bank.balance), 4_000.0);
    assert_eq!(sim_units(sim.isa.liquidation_value()), 20_000.0);
    assert_eq!(sim_units(sim.gia.liquidation_value()), 6_000.0);
    assert_eq!(sim_units(sim.ledger.paid_into_isa_since_start), 20_000.0);
    assert_eq!(sim_units(sim.ledger.paid_into_gia_since_start), 6_000.0);
    sim.rebalance_cash();
    assert_eq!(sim_units(sim.bank.balance), 4_000.0);
    assert!(sim.within_limits());
    assert_eq!(sim_units(sim.get_state().0), 30_000.0);
}

#[test]
fn rules_of_a_tick_as_values() {
    let clock = Clock::with_length_in_days(0, 100).unwrap();
    let mut sim = sim_household(9_000.0, 0.0, 0.0, 0.0, Vec::new(), &clock);
    let sweep = Mutations::CashBalance(CashBalanceStrategy::new(sim_cash(1_000.0)));
    assert_eq!(sweep.check(5 * DAY, &mut sim), Ok(()));
    assert_eq!(sim_units(sim.bank.balance), 1_000.0);
    assert_eq!(sim_units(sim.isa.liquidation_value()), 8_000.0);
    let tax = Mutations::TaxHashSource(TaxStrategy::new());
    assert_eq!(tax.check(TAX_DAY_1970, &mut sim), Ok(()));
    assert_eq!(sim.tracker.tax_paid.len(), 1);
    assert_eq!(tax.check(TAX_DAY_1970 + 200 * DAY, &mut sim), Ok(()));
    assert_eq!(sim.tracker.tax_paid.len(), 1);
}

#[test]
fn gains_and_dividends_of_the_gia_are_taxed_at_settlement() {
    let clock = Clock::with_length_in_days(0, 100).unwrap();
    let mut gia = CashStrategy::new();
    gia.record_trade(Trade::new("ABC", sim_cash(10_000.0), 100, 10 * DAY, TradeType::Buy));
    gia.record_trade(Trade::new("ABC", sim_cash(40_000.0), 100, 20 * DAY, TradeType::Sell));
    gia.record_dividend(DividendPayment::new(sim_cash(3_000.0), "ABC", 30 * DAY));
    let config = UKSimConfig {
        starting_cash: sim_cash(100_000.0),
        nic: NIC::A,
        contribution_pct: sim_rate(0.0),
        emergency_cash_min: sim_cash(1_000_000.0),
        lifetime_pension_contributions: sim_cash(0.0),
        flows: Some(Vec::new()),
        stacks: sim_three_stacks(0.0, 0.0, 0.0),
    };
    let mut sim = config
        .create(CashStrategy::new(), CashStrategy::new(), gia, sim_source(&clock, 0.0))
        .unwrap();
    let mut input = UKTaxInput::default();
    input.capital_gains = sim_cash(30_000.0);
    input.dividend = sim_cash(3_000.0);
    let due = TaxPeriod::calc(&input, &UKTaxConfig::default()).total();
    // 28% of the gain in the basic bracket and 8.75% of the dividend over the allowance.
    assert_eq!(sim_units(due), 8_400.0 + 87.5);
    assert_eq!(sim.pay_taxes(TAX_DAY_1970), Ok(Some(Settlement::FromBank)));
    assert_eq!(sim.bank.balance.minor(), 10_000_000 - due.minor());
}

#[test]
fn loop_state_and_result_add_up() {
    let mut state = SimLoopState::init();
    state.paid_income(sim_cash(12.5));
    state.paid_income(sim_cash(0.5));
    assert_eq!(sim_units(state.income_paid), 13.0);
    state.clear();
    assert_eq!(sim_units(state.income_paid), 0.0);
    let result = UKSimulationResult {
        cash: sim_cash(1.0),
        isa: sim_cash(20.0),
        gia: sim_cash(300.0),
        sipp: sim_cash(4000.0),
    };
    assert_eq!(sim_units(result.get_total_value()), 4_321.0);
    let clock = Clock::with_length_in_days(0, 10).unwrap();
    let sim = sim_household(7.0, 1.0, 2.0, 3.0, Vec::new(), &clock);
    assert_eq!(sim_units(sim.get_perf().get_total_value()), 13.0);
}

#[test]
fn bank_deposit_is_the_only_way_in() {
    let clock = Clock::with_length_in_days(0, 10).unwrap();
    let mut sim = sim_household(7.0, 0.0, 0.0, 0.0, Vec::new(), &clock);
    sim.bank.deposit(sim_cash(3.0));
    sim.clear_loop();
    sim.update_tracker(31 * DAY);
    assert_eq!(sim.tracker.cash, vec![sim_cash(10.0)]);
    assert_eq!(sim.tracker.isa_snapshot.len(), 1);
    assert_eq!(sim.tracker.isa_snapshot[0].date, 31 * DAY);
    sim.update_tracker(32 * DAY);
    assert_eq!(sim.tracker.cash.len(), 1);
    let _ = SimDataRep::new();
}

#[test]
fn figures_outside_the_accepted_range_stop_the_tick() {
    let clock = Clock::with_length_in_days(0, 100).unwrap();
    // A wage over the largest amount that a flow can carry.
    let flows =
        vec![Rental::flow(CashValue::from_minor(10_000_000_000_000_001), Schedule::EveryDay)];
    let mut sim = sim_household(0.0, 0.0, 0.0, 0.0, flows, &clock);
    assert_eq!(sim.update(2 * DAY), Err(SimError::OutOfRange));
    assert_eq!(sim.bank.balance.minor(), 0);

    // An inflation over what the arithmetic accepts at settlement.
    let mut sim = sim_household(0.0, 0.0, 0.0, 0.0, Vec::new(), &clock);
    sim.source = sim_source(&clock, 9.5);
    assert_eq!(sim.update(TAX_DAY_1970), Err(SimError::OutOfRange));
    assert_eq!(sim.tax_config, UKTaxConfig::default());
    // An inflation of one and a half is large, but it can be applied.
    let mut sim = sim_household(0.0, 0.0, 0.0, 0.0, Vec::new(), &clock);
    sim.source = sim_source(&clock, 1.5);
    assert_eq!(sim.update(TAX_DAY_1970), Ok(()));
    assert_eq!(sim_units(sim.tax_config.personal_allowance_band), 12_571.0 * 2.5);
    // One below minus one would take more than everything.
    let mut sim = sim_household(0.0, 0.0, 0.0, 0.0, Vec::new(), &clock);
    sim.source = sim_source(&clock, -1.5);
    assert_eq!(sim.update(TAX_DAY_1970), Err(SimError::OutOfRange));

    // A ledger that has left the range is found before the next tick.
    let mut sim = sim_household(0.0, 0.0, 0.0, 0.0, Vec::new(), &clock);
    sim.ledger.gross_income_annual = CashValue::from_minor(10_000_000_000_000_001);
    assert!(!sim.check_limits());
}

#[test]
fn final_value_needs_a_performance_date() {
    let clock = Clock::with_length_in_days(0, 100).unwrap();
    let mut sim = sim_household(10.0, 20.0, 30.0, 40.0, Vec::new(), &clock);
    assert_eq!(UKSimulationOutput::get_final_value(&sim), None);
    assert_eq!(sim.update(31 * DAY), Ok(()));
    assert_eq!(sim_units(UKSimulationOutput::get_final_value(&sim).unwrap()), 100.0);
    let out = UKSimulationOutput::get_output(&sim);
    assert_eq!(out.values, vec![sim_cash(90.0)]);
    assert_eq!(out.investment_cash_flows, vec![sim_cash(0.0)]);
    assert_eq!(out.returns_dates, vec![31 * DAY]);
    assert_eq!(out.cash, vec![sim_cash(10.0)]);
}

#[test]
fn tick_runs_its_steps_in_order() {
    // On 1 April 1970 a household with spare cash, a tax bill and flows:
    // the sweep comes before the settlement, the settlement before the
    // flows, and a second sweep after them.
    let clock = Clock::with_length_in_days(0, 100).unwrap();
    let flows = vec![
        Rental::flow(sim_cash(1_000.0), Schedule::EveryDay),
        PctOfIncomeExpense::flow(sim_rate(0.1), Schedule::EveryDay),
    ];
    let mut sim = sim_household(6_000.0, 0.0, 0.0, 0.0, flows, &clock);
    sim.emergency_fund_minimum = sim_cash(5_000.0);
    sim.ledger.rental_income_annual = sim_cash(30_000.0);
    let mut input = UKTaxInput::default();
    input.rental = sim_cash(30_000.0);
    let due = TaxPeriod::calc(&input, &UKTaxConfig::default()).total();
    // 22% of 30000 - 12571, less the property allowance of 1000.
    assert_eq!(sim_units(due), 2_834.38);
    assert_eq!(sim.update(TAX_DAY_1970), Ok(()));
    // First sweep: 1000 to the ISA. Settlement: the bank pays. Flows: 1000
    // in, 100 out. Second sweep: nothing over 5000.
    assert_eq!(sim_units(sim.isa.liquidation_value()), 1_000.0);
    assert_eq!(sim.bank.balance.minor(), 500_000 - due.minor() + 100_000 - 10_000);
    assert_eq!(sim.tracker.tax_paid, vec![due]);
    assert_eq!(sim_units(sim.ledger.rental_income_annual), 1_000.0);
    assert_eq!(sim_units(sim.ledger.expense_annual), 100.0);
    // The settlement day is the first of a month: the performance was
    // recorded before anything moved.
    assert_eq!(sim.tracker.cash, vec![sim_cash(6_000.0)]);
}
