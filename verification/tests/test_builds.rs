/*
Tests various build configs that should either pass or fail.
*/
use antevorta::clock::Clock;
use antevorta::config::uk::{
    order_flows, ConfigError, FlowUKSimConfig, ScheduleUKSimConfig,
    StackUKSimConfig, SupportedFlowTypes, SupportedSchedules, SupportedStackTypes, UKSimConfig,
};
use antevorta::flow::{Employment, Expense, Flow, PctOfIncomeExpense, Rental};
use antevorta::input::{constant_series, HashMapSourceSim, HashMapSourceSimBuilder};
use antevorta::money::{CashValue, Rate};
use antevorta::schedule::Schedule;
use antevorta::sim::uk::UKSimulationState;
use antevorta::sim::SimRunner;
use antevorta::strat::CashStrategy;
use antevorta::tax::uk::ni::NIC;

fn build_cash(units: f64) -> CashValue {
    CashValue::from_minor((units * 100.0).round() as i64)
}

fn build_units(value: CashValue) -> f64 {
    value.minor() as f64 / 100.0
}

fn build_rate(fraction: f64) -> Rate {
    Rate::from_ppb((fraction * 1_000_000_000.0).round() as i64)
}

fn setup() -> (Clock, HashMapSourceSim) {
    let clock = Clock::with_length_in_days(1, 100).unwrap();
    let sim_data = HashMapSourceSimBuilder::start()
        .with_inflation(constant_series(build_rate(0.0), &clock))
        .with_rates(constant_series(build_rate(0.0), &clock))
        .with_house_prices(constant_series(build_rate(0.0), &clock))
        .build();
    (clock, sim_data)
}

fn build_flow(
    flow_type: SupportedFlowTypes,
    value: Option<f64>,
    static_growth: Option<f64>,
    pct: Option<f64>,
) -> FlowUKSimConfig {
    FlowUKSimConfig {
        flow_type,
        person: Some(0),
        value: value.map(build_cash),
        schedule: ScheduleUKSimConfig {
            schedule_type: SupportedSchedules::EndOfMonth,
            day: None,
            month: None,
        },
        static_growth: static_growth.map(build_rate),
        pct: pct.map(build_rate),
    }
}

fn build_stack(stack_type: SupportedStackTypes, value: f64) -> StackUKSimConfig {
    StackUKSimConfig {
        stack_type,
        person: None,
        value: build_cash(value),
        rate: None,
        term: None,
        fix_length: None,
    }
}

fn build_and_run(config: &UKSimConfig) -> CashValue {
    let (clock, sim_data) = setup();
    let sim: UKSimulationState<CashStrategy> = config
        .create(CashStrategy::new(), CashStrategy::new(), CashStrategy::new(), sim_data)
        .unwrap();
    let mut runner = SimRunner { clock, state: sim };
    runner.run().unwrap().0
}

#[test]
#[should_panic]
fn test_that_build_fails_without_all_stacks() {
    let config = UKSimConfig {
        starting_cash: build_cash(1000.0),
        nic: NIC::A,
        lifetime_pension_contributions: build_cash(10.0),
        emergency_cash_min: build_cash(4000.0),
        contribution_pct: build_rate(0.1),
        flows: None,
        stacks: Some(vec![build_stack(SupportedStackTypes::Isa, 4000.0)]),
    };
    let value = build_and_run(&config);
    assert!(build_units(value) > 0.0);
}

#[test]
fn test_that_percent_of_income_expense_can_build() {
    let config = UKSimConfig {
        starting_cash: build_cash(1000.0),
        nic: NIC::A,
        lifetime_pension_contributions: build_cash(10.0),
        contribution_pct: build_rate(0.1),
        emergency_cash_min: build_cash(4000.0),
        flows: Some(vec![
            build_flow(SupportedFlowTypes::Employment, Some(4000.0), None, None),
            build_flow(SupportedFlowTypes::PctOfIncomeExpense, None, None, Some(0.25)),
        ]),
        stacks: Some(vec![
            build_stack(SupportedStackTypes::Isa, 4000.0),
            build_stack(SupportedStackTypes::Gia, 4000.0),
            build_stack(SupportedStackTypes::Sipp, 4000.0),
        ]),
    };
    let value = build_and_run(&config);
    assert!(build_units(value) > 0.0);
}

#[test]
fn test_that_static_growth_can_build() {
    let config = UKSimConfig {
        starting_cash: build_cash(1000.0),
        nic: NIC::A,
        lifetime_pension_contributions: build_cash(10.0),
        contribution_pct: build_rate(0.1),
        emergency_cash_min: build_cash(4000.0),
        flows: Some(vec![build_flow(
            SupportedFlowTypes::EmploymentStaticGrowth,
            Some(1000.0),
            Some(0.1),
            None,
        )]),
        stacks: Some(vec![
            build_stack(SupportedStackTypes::Isa, 4000.0),
            build_stack(SupportedStackTypes::Gia, 4000.0),
            build_stack(SupportedStackTypes::Sipp, 4000.0),
        ]),
    };
    let value = build_and_run(&config);
    assert!(build_units(value) > 0.0)
}

#[test]
fn test_build_that_orders_income_expense_before_income() {
    //This was triggering an error where the expense was deducted before the income when going
    //through the loop. Which caused issues with calculations downstream.
    let config = UKSimConfig {
        flows: Some(vec![
            build_flow(SupportedFlowTypes::PctOfIncomeExpense, None, None, Some(0.5)),
            build_flow(SupportedFlowTypes::Employment, Some(4500.0), None, None),
        ]),
        stacks: Some(vec![
            build_stack(SupportedStackTypes::Gia, 0.0),
            build_stack(SupportedStackTypes::Isa, 0.0),
            build_stack(SupportedStackTypes::Sipp, 0.0),
        ]),
        nic: NIC::A,
        contribution_pct: build_rate(0.05),
        emergency_cash_min: build_cash(1000.0),
        starting_cash: build_cash(5000.0),
        lifetime_pension_contributions: build_cash(0.0),
    };
    let value = build_and_run(&config);
    assert!(build_units(value) > 0.0)
}

#[test]
fn test_that_mortgage_can_build() {
    let config = UKSimConfig {
        starting_cash: build_cash(1000.0),
        nic: NIC::A,
        lifetime_pension_contributions: build_cash(10.0),
        contribution_pct: build_rate(0.1),
        emergency_cash_min: build_cash(4000.0),
        flows: Some(vec![build_flow(
            SupportedFlowTypes::EmploymentStaticGrowth,
            Some(1000.0),
            Some(0.1),
            None,
        )]),
        stacks: Some(vec![
            build_stack(SupportedStackTypes::Isa, 4000.0),
            build_stack(SupportedStackTypes::Gia, 4000.0),
            build_stack(SupportedStackTypes::Sipp, 4000.0),
            StackUKSimConfig {
                stack_type: SupportedStackTypes::Mortgage,
                person: None,
                value: build_cash(4000.0),
                rate: Some(build_rate(0.05)),
                term: Some(30),
                fix_length: Some(5),
            },
        ]),
    };
    let value = build_and_run(&config);
    assert!(build_units(value) > 0.0)
}

#[test]
fn flows_are_put_income_first_in_their_order() {
    let wage = Employment::flow(build_cash(1.0), Schedule::EveryDay);
    let rent = Rental::flow(build_cash(2.0), Schedule::EveryDay);
    let bill = Expense::flow(build_cash(3.0), Schedule::EveryDay);
    let linked = Expense::inflation_linked(build_cash(4.0), Schedule::EveryDay);
    let share = PctOfIncomeExpense::flow(build_rate(0.5), Schedule::EveryDay);
    let flows: Vec<Flow> = vec![share, wage, bill, rent, linked];
    assert_eq!(order_flows(&flows), vec![wage, rent, share, bill, linked]);
    assert!(share.is_expense() && bill.is_expense() && linked.is_expense());
    assert!(!wage.is_expense() && !rent.is_expense());
    assert_eq!(order_flows(&Vec::new()), Vec::new());
}

#[test]
fn description_faults_are_told_apart() {
    let (_, sim_data) = setup();
    let good = UKSimConfig {
        starting_cash: build_cash(1000.0),
        nic: NIC::A,
        lifetime_pension_contributions: build_cash(10.0),
        contribution_pct: build_rate(0.1),
        emergency_cash_min: build_cash(4000.0),
        flows: Some(Vec::new()),
        stacks: Some(vec![
            build_stack(SupportedStackTypes::Isa, 1.0),
            build_stack(SupportedStackTypes::Isa, 2.0),
            build_stack(SupportedStackTypes::Gia, 3.0),
            build_stack(SupportedStackTypes::Sipp, 4.0),
        ]),
    };
    let fault = |config: &UKSimConfig| {
        config
            .create(CashStrategy::new(), CashStrategy::new(), CashStrategy::new(), sim_data.clone())
            .err()
    };
    assert_eq!(fault(&good), None);
    let sim = good
        .create(CashStrategy::new(), CashStrategy::new(), CashStrategy::new(), sim_data.clone())
        .unwrap();
    // The last stack of a kind counts.
    assert_eq!(build_units(sim.isa.liquidation_value()), 2.0);
    assert_eq!(build_units(sim.bank.balance), 1000.0);
    assert_eq!(build_units(sim.sipp.lifetime_contributions), 10.0);
    assert_eq!(sim.annual_tax_schedule, Schedule::EveryYear(1, 4));

    let mut config = good.clone();
    config.stacks = None;
    assert_eq!(fault(&config), Some(ConfigError::MissingStacks));
    let mut config = good.clone();
    config.flows = None;
    assert_eq!(fault(&config), Some(ConfigError::MissingFlows));
    let mut config = good.clone();
    config.stacks = Some(vec![
        build_stack(SupportedStackTypes::Isa, 1.0),
        build_stack(SupportedStackTypes::Gia, 3.0),
    ]);
    assert_eq!(fault(&config), Some(ConfigError::MissingAccount));
    let mut config = good.clone();
    config.flows = Some(vec![build_flow(SupportedFlowTypes::Rental, None, None, None)]);
    assert_eq!(fault(&config), Some(ConfigError::MissingValue));
    let mut config = good.clone();
    config.flows =
        Some(vec![build_flow(SupportedFlowTypes::EmploymentStaticGrowth, Some(1.0), None, None)]);
    assert_eq!(fault(&config), Some(ConfigError::MissingValue));
    let mut config = good.clone();
    config.stacks.as_mut().unwrap().push(build_stack(SupportedStackTypes::Mortgage, 5.0));
    assert_eq!(fault(&config), Some(ConfigError::MissingValue));
    let mut config = good.clone();
    config.stacks.as_mut().unwrap().push(build_stack(SupportedStackTypes::Gia, -5.0));
    assert_eq!(fault(&config), Some(ConfigError::OutOfRange));
    let mut config = good.clone();
    config.contribution_pct = build_rate(1.5);
    assert_eq!(fault(&config), Some(ConfigError::OutOfRange));
}
