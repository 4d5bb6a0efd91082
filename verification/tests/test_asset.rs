use antevorta::acc::{CanTransfer, TransferResult};
use antevorta::asset::SingleAssetStrategy;
use antevorta::clock::Clock;
use antevorta::config::uk::{
    FlowUKSimConfig, ScheduleUKSimConfig, StackUKSimConfig, SupportedFlowTypes,
    SupportedSchedules, SupportedStackTypes, UKSimConfig,
};
use antevorta::input::{constant_series, HashMapSourceSimBuilder};
use antevorta::money::{CashValue, Rate};
use antevorta::sim::uk::SimState;
use antevorta::sim::SimRunner;
use antevorta::stack::{Gia, Isa};
use antevorta::strat::{InvestmentStrategy, StrategyEvent, TradeType};
use antevorta::tax::uk::ni::NIC;

const ASSET_DAY: i64 = 86_400;

fn asset_cash(units: f64) -> CashValue {
    CashValue::from_minor((units * 100.0).round() as i64)
}

fn asset_units(value: CashValue) -> f64 {
    value.minor() as f64 / 100.0
}

fn asset_rate(fraction: f64) -> Rate {
    Rate::from_ppb((fraction * 1_000_000_000.0).round() as i64)
}

fn asset_strategy(price: f64, daily_return: f64, dividend: f64) -> SingleAssetStrategy {
    SingleAssetStrategy::new(
        "ABC",
        asset_cash(price),
        asset_rate(daily_return),
        asset_cash(dividend),
        0,
    )
    .unwrap()
}

#[test]
fn single_asset_strategy_needs_a_price() {
    let make = |price: f64, daily_return: f64, dividend: f64, today: i64| {
        SingleAssetStrategy::new(
            "ABC",
            asset_cash(price),
            asset_rate(daily_return),
            asset_cash(dividend),
            today,
        )
        .is_some()
    };
    assert!(make(10.0, 0.0, 0.0, 0));
    assert!(!make(0.0, 0.0, 0.0, 0));
    assert!(make(10.0, 1.5, 0.0, 0));
    assert!(!make(10.0, 9.5, 0.0, 0));
    assert!(!make(10.0, -1.5, 0.0, 0));
    assert!(!make(10.0, 0.0, -1.0, 0));
    assert!(!make(10.0, 0.0, 0.0, i64::MAX));
}

#[test]
fn trading_buys_whole_units_and_keeps_the_change() {
    let mut strat = asset_strategy(30.0, 0.0, 0.0);
    strat.init(asset_cash(100.0));
    assert_eq!(asset_units(strat.get_liquidation_value()), 100.0);
    assert_eq!(asset_units(strat.update()), 100.0);
    assert_eq!(strat.units, 3);
    assert_eq!(asset_units(strat.free_cash), 10.0);
    let trades = strat.trades_between(0, 0);
    assert_eq!(trades.len(), 1);
    assert_eq!(trades[0].typ, TradeType::Buy);
    assert_eq!((trades[0].quantity, asset_units(trades[0].value)), (3, 90.0));
    // Nothing more can be bought.
    strat.update();
    assert_eq!(strat.trades_between(0, 0).len(), 1);
}

#[test]
fn price_follows_its_path_day_by_day() {
    let mut strat = asset_strategy(10.0, 0.1, 0.0);
    strat.init(asset_cash(1_000.0));
    strat.update();
    strat.check();
    assert_eq!(asset_units(strat.price), 11.0);
    assert_eq!(strat.today, ASSET_DAY);
    assert_eq!(asset_units(strat.get_liquidation_value()), 1_100.0);
    strat.check();
    assert_eq!(asset_units(strat.price), 12.1);
    assert_eq!(asset_units(strat.get_liquidation_value()), 1_210.0);
}

#[test]
fn withdrawal_needs_cash_but_liquidation_sells() {
    let mut strat = asset_strategy(10.0, 0.1, 0.0);
    strat.init(asset_cash(1_000.0));
    strat.update();
    strat.check();
    assert_eq!(
        strat.withdraw_cash(asset_cash(5.0)),
        StrategyEvent::WithdrawFailure(asset_cash(5.0))
    );
    assert_eq!(
        strat.withdraw_cash_with_liquidation(asset_cash(2_000.0)),
        StrategyEvent::WithdrawFailure(asset_cash(2_000.0))
    );
    assert_eq!(asset_units(strat.get_liquidation_value()), 1_100.0);
    // 545 takes fifty units at 11; the change of 5 stays as cash.
    assert_eq!(
        strat.withdraw_cash_with_liquidation(asset_cash(545.0)),
        StrategyEvent::WithdrawSuccess(asset_cash(545.0))
    );
    assert_eq!(strat.units, 50);
    assert_eq!(asset_units(strat.free_cash), 5.0);
    assert_eq!(asset_units(strat.get_liquidation_value()), 555.0);
    assert_eq!(
        strat.withdraw_cash(asset_cash(5.0)),
        StrategyEvent::WithdrawSuccess(asset_cash(5.0))
    );
    let sales = strat.trades_between(ASSET_DAY, ASSET_DAY);
    assert_eq!(sales.len(), 1);
    assert_eq!(sales[0].typ, TradeType::Sell);
    assert_eq!((sales[0].quantity, asset_units(sales[0].value)), (50, 550.0));
    strat.zero();
    assert_eq!(strat.get_liquidation_value().minor(), 0);
}

#[test]
fn dividends_are_paid_on_every_unit_and_recorded() {
    let mut strat = asset_strategy(10.0, 0.0, 0.05);
    strat.finish();
    assert_eq!(strat.dividends_between(0, 10 * ASSET_DAY).len(), 0);
    strat.deposit_cash(asset_cash(1_000.0));
    strat.update();
    strat.check();
    strat.finish();
    strat.check();
    strat.finish();
    assert_eq!(asset_units(strat.free_cash), 10.0);
    let paid = strat.dividends_between(0, 10 * ASSET_DAY);
    assert_eq!(paid.len(), 2);
    assert_eq!((paid[0].date, asset_units(paid[0].value)), (ASSET_DAY, 5.0));
    assert_eq!(strat.dividends_between(2 * ASSET_DAY, 2 * ASSET_DAY).len(), 1);
}

#[test]
fn gia_works_out_the_gain_of_a_sale_at_a_higher_price() {
    let mut gia = Gia::new_with_cash(asset_strategy(10.0, 0.1, 0.0), asset_cash(1_000.0));
    gia.rebalance();
    gia.check();
    assert_eq!(gia.withdraw(asset_cash(1.0)), TransferResult::Failure);
    assert_eq!(gia.liquidate(asset_cash(550.0)), TransferResult::Success);
    assert_eq!(asset_units(gia.liquidation_value()), 550.0);
    // Fifty units bought at 10 and sold at 11.
    assert_eq!(asset_units(gia.get_capital_gains(2 * ASSET_DAY, -1).unwrap()), 50.0);
    // A year that starts after the sale has no gain.
    assert_eq!(asset_units(gia.get_capital_gains(2 * ASSET_DAY, ASSET_DAY).unwrap()), 0.0);
}

#[test]
fn isa_over_an_asset_takes_deposits_up_to_the_threshold() {
    let mut isa = Isa::new(asset_strategy(7.0, 0.0, 0.0));
    let (applied, remainder) = isa.deposit_wrapper(asset_cash(25_000.0));
    assert_eq!((asset_units(applied), asset_units(remainder)), (20_000.0, 5_000.0));
    isa.rebalance();
    assert_eq!(isa.strat.units, 2_857);
    assert_eq!(asset_units(isa.liquidation_value()), 20_000.0);
}

#[test]
fn household_invested_in_an_asset_grows_with_its_price() {
    let clock = Clock::with_length_in_days(0, 60).unwrap();
    let source = HashMapSourceSimBuilder::start()
        .with_inflation(constant_series(asset_rate(0.0), &clock))
        .build();
    let config = UKSimConfig {
        starting_cash: asset_cash(0.0),
        nic: NIC::A,
        contribution_pct: asset_rate(0.1),
        emergency_cash_min: asset_cash(500.0),
        lifetime_pension_contributions: asset_cash(0.0),
        flows: Some(vec![FlowUKSimConfig {
            flow_type: SupportedFlowTypes::Employment,
            person: None,
            value: Some(asset_cash(3_000.0)),
            schedule: ScheduleUKSimConfig {
                schedule_type: SupportedSchedules::StartOfMonth,
                day: None,
                month: None,
            },
            static_growth: None,
            pct: None,
        }]),
        stacks: Some(
            [SupportedStackTypes::Isa, SupportedStackTypes::Sipp, SupportedStackTypes::Gia]
                .into_iter()
                .map(|stack_type| StackUKSimConfig {
                    stack_type,
                    person: None,
                    value: asset_cash(1_000.0),
                    rate: None,
                    term: None,
                    fix_length: None,
                })
                .collect(),
        ),
    };
    let sim = config
        .create(
            asset_strategy(10.0, 0.001, 0.0),
            asset_strategy(10.0, 0.001, 0.0),
            asset_strategy(10.0, 0.0, 0.01),
            source,
        )
        .unwrap();
    let mut runner = SimRunner { clock, state: sim };
    let value = runner.run().unwrap().0;
    let sim = runner.state;
    assert_eq!(sim.sim_state, SimState::Ready);
    // Two wages of 3000 have been paid, on 1 February and on 1 March.
    assert_eq!(asset_units(sim.bank.balance), 500.0);
    assert_eq!(asset_units(sim.ledger.gross_income_annual), 6_000.0);
    assert_eq!(asset_units(sim.ledger.sipp_contributions_annual), 600.0);
    // Three accounts of 1000 and two wages: what is there beyond that is
    // the growth of the prices and the dividends of the GIA.
    assert!(asset_units(value) > 9_000.0);
    // The ISA started with 1000 and took the sweeps of 2200 and 2700.
    assert!(asset_units(sim.isa.liquidation_value()) > 5_900.0);
    assert!(sim.gia.strat.dividends_between(0, 60 * ASSET_DAY).len() >= 59);
    assert_eq!(sim.isa.strat.today, 60 * ASSET_DAY);
}
