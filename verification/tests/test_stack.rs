use antevorta::acc::{CanTransfer, Transfer, TransferResult};
use antevorta::clock::Clock;
use antevorta::gains::calculate_capital_gains;
use antevorta::input::{constant_series, HashMapSourceSimBuilder};
use antevorta::loan::{AmortizingLoanLogic, LoanEvent, Mortgage, MortgageError};
use antevorta::money::{CashValue, Rate};
use antevorta::stack::{
    isa_deposit_logic, sipp_deposit_logic, BankAcc, Gia, Isa, Sipp, UKAccount,
};
use antevorta::strat::{CashStrategy, DividendPayment, InvestmentStrategy, Trade, TradeType};

fn stack_cash(units: f64) -> CashValue {
    CashValue::from_minor((units * 100.0).round() as i64)
}

fn stack_units(value: CashValue) -> f64 {
    value.minor() as f64 / 100.0
}

fn stack_rate(fraction: f64) -> Rate {
    Rate::from_ppb((fraction * 1_000_000_000.0).round() as i64)
}

#[test]
fn test_that_isa_threshold() {
    let res = isa_deposit_logic(stack_cash(100.0), stack_cash(50.0), stack_cash(0.0));
    assert!(stack_units(res.0) == 50.0 && stack_units(res.1) == 50.0);

    let res1 = isa_deposit_logic(stack_cash(10.0), stack_cash(50.0), stack_cash(0.0));
    assert!(stack_units(res1.0) == 10.0 && stack_units(res1.1) == 0.0);

    let res2 = isa_deposit_logic(stack_cash(10.0), stack_cash(50.0), stack_cash(40.0));
    assert!(stack_units(res2.0) == 10.0 && stack_units(res2.1) == 0.0);

    let res3 = isa_deposit_logic(stack_cash(10.0), stack_cash(50.0), stack_cash(45.0));
    assert!(stack_units(res3.0) == 5.0 && stack_units(res3.1) == 5.0);
}

#[test]
fn test_that_sipp_threshold() {
    let c = stack_cash;
    let res = sipp_deposit_logic(c(100.0), c(50.0), c(50.0), c(0.0), c(0.0));
    assert!(stack_units(res.0) == 50.0 && stack_units(res.1) == 50.0);

    let res1 = sipp_deposit_logic(c(10.0), c(50.0), c(50.0), c(0.0), c(0.0));
    assert!(stack_units(res1.0) == 10.0 && stack_units(res1.1) == 0.0);

    let res2 = sipp_deposit_logic(c(10.0), c(50.0), c(50.0), c(40.0), c(40.0));
    assert!(stack_units(res2.0) == 10.0 && stack_units(res2.1) == 0.0);

    let res3 = sipp_deposit_logic(c(10.0), c(50.0), c(50.0), c(45.0), c(45.0));
    assert!(stack_units(res3.0) == 5.0 && stack_units(res3.1) == 5.0);

    let res4 = sipp_deposit_logic(c(10.0), c(50.0), c(100.0), c(45.0), c(45.0));
    assert!(stack_units(res4.0) == 5.0 && stack_units(res4.1) == 5.0);

    let res5 = sipp_deposit_logic(c(10.0), c(100.0), c(50.0), c(45.0), c(45.0));
    assert!(stack_units(res5.0) == 5.0 && stack_units(res5.1) == 5.0);
}

#[test]
fn test_capital_gains_calculation_logic() {
    let t1 = Trade::new("ABC", stack_cash(1000.0), 100, 1, TradeType::Buy);

    let t2 = Trade::new("ABC", stack_cash(1100.0), 100, 10, TradeType::Sell);

    let trades = vec![t1, t2];
    let capital_gains = calculate_capital_gains(&trades, 0).unwrap();
    assert!(stack_units(capital_gains) == 100.0);

    let t1 = Trade::new("ABC", stack_cash(1000.0), 100, 1, TradeType::Buy);

    let t2 = Trade::new("ABC", stack_cash(1100.0), 100, 10, TradeType::Sell);

    let trades = vec![t1, t2];
    let capital_gains = calculate_capital_gains(&trades, 5).unwrap();
    assert!(stack_units(capital_gains) == 100.0);

    let t1 = Trade::new("ABC", stack_cash(1000.0), 100, 1, TradeType::Buy);

    let t2 = Trade::new("ABC", stack_cash(825.0), 75, 10, TradeType::Sell);

    let t3 = Trade::new("ABC", stack_cash(275.0), 25, 10, TradeType::Sell);

    let trades = vec![t1, t2, t3];
    let capital_gains = calculate_capital_gains(&trades, 0).unwrap();
    assert!(stack_units(capital_gains) == 100.0);

    let t1 = Trade::new("ABC", stack_cash(1000.0), 100, 1, TradeType::Buy);

    let t2 = Trade::new("ABC", stack_cash(1000.0), 50, 10, TradeType::Buy);

    let t3 = Trade::new("ABC", stack_cash(10.0), 150, 15, TradeType::Sell);

    let trades = vec![t1, t2, t3];
    let capital_gains = calculate_capital_gains(&trades, 0).unwrap();
    assert!(stack_units(capital_gains) > -1991.0 && stack_units(capital_gains) < -1990.0);
}

#[test]
fn test_that_mortgage_payment_reduces_balance() {
    let mut clock = Clock::with_length_in_days(1, 60).unwrap();

    let rates = constant_series(stack_rate(0.02), &clock);
    let source = HashMapSourceSimBuilder::start().with_rates(rates).build();

    let rate = stack_rate(0.05);
    let mut mortgage = Mortgage::start(stack_cash(100_000.0), rate, 1, 1, source);
    let mut test_acc = BankAcc { balance: stack_cash(10_000.0) };

    while clock.has_next() {
        clock.tick();
        mortgage.try_pay(clock.now(), None, &mut test_acc).unwrap();
    }

    println!("{:?}", test_acc.balance);
    assert!(stack_units(test_acc.balance) != 20_000.0);
}

#[test]
fn test_that_mortgage_payment_fails_with_insufficient_balance() {
    let mut clock = Clock::with_length_in_days(1, 60).unwrap();

    let rates = constant_series(stack_rate(0.02), &clock);
    let source = HashMapSourceSimBuilder::start().with_rates(rates).build();

    let rate = stack_rate(0.05);
    let mut mortgage = Mortgage::start(stack_cash(1_000_000.0), rate, 1, 1, source);
    let mut test_acc = BankAcc { balance: stack_cash(1_000.0) };

    let mut events = 0;
    while clock.has_next() {
        clock.tick();
        if let Some(event) = mortgage.try_pay(clock.now(), None, &mut test_acc).unwrap() {
            assert!(matches!(event, LoanEvent::PaymentFailure(_)));
            events += 1;
        }
    }
    assert_eq!(events, 2);
    assert_eq!(stack_units(test_acc.balance), 1_000.0);
}

#[test]
fn mortgage_payments_fall_on_the_25th_and_lower_the_balance() {
    // 1970-01-25 and 1970-02-25 lie within sixty days of the epoch.
    let mut clock = Clock::with_length_in_days(0, 60).unwrap();
    let source = HashMapSourceSimBuilder::start().build();
    let mut mortgage = Mortgage::start(stack_cash(120_000.0), stack_rate(0.01), 0, 10, source);
    assert_eq!(stack_units(mortgage.loan.amortization_payment_min), 1_000.0);
    let mut bank = BankAcc { balance: stack_cash(10_000.0) };
    let mut paid = Vec::new();
    while clock.has_next() {
        clock.tick();
        if let Some(event) = mortgage.pay(clock.now(), None, &mut bank) {
            paid.push((clock.now(), event));
        }
    }
    assert_eq!(paid.len(), 2);
    assert_eq!(paid[0].0, 24 * 86_400);
    // 1000 of principal and one percent of 120000 in interest.
    assert_eq!(paid[0].1, LoanEvent::PaymentSuccess(stack_cash(2_200.0)));
    // 1000 of principal and one percent of 119000 in interest.
    assert_eq!(paid[1].1, LoanEvent::PaymentSuccess(stack_cash(2_190.0)));
    assert_eq!(stack_units(mortgage.loan.balance), 118_000.0);
    assert_eq!(stack_units(bank.balance), 10_000.0 - 2_200.0 - 2_190.0);
}

#[test]
fn loan_payment_takes_the_larger_of_minimum_and_overpayment() {
    let loan = AmortizingLoanLogic::new(stack_cash(12_000.0), stack_rate(0.1), 1);
    assert_eq!(stack_units(loan.amortization_payment_min), 1_000.0);
    // Interest is a tenth of the balance: 1200.
    assert_eq!(stack_units(loan.payment_due(None)), 2_200.0);
    // An overpayment under the minimum counts for nothing.
    assert_eq!(stack_units(loan.payment_due(Some(stack_cash(500.0)))), 2_200.0);
    // An overpayment over the minimum replaces it.
    assert_eq!(stack_units(loan.payment_due(Some(stack_cash(5_000.0)))), 6_200.0);
    // No payment repays more than the balance.
    assert_eq!(stack_units(loan.payment_due(Some(stack_cash(50_000.0)))), 13_200.0);
}

#[test]
fn loan_without_balance_is_complete() {
    let mut loan = AmortizingLoanLogic::new(stack_cash(0.0), stack_rate(0.1), 1);
    let mut bank = BankAcc { balance: stack_cash(100.0) };
    assert_eq!(loan.payment(None, &mut bank), LoanEvent::Completed);
    assert_eq!(stack_units(bank.balance), 100.0);
}

#[test]
fn mortgage_refix_takes_the_reference_rate_plus_margin() {
    // A one-year fix from the epoch ends after 52 weeks; the first payment
    // day after that is 1971-01-25.
    let end_of_fix = 52 * 604_800;
    let payment_day = (365 + 24) * 86_400;
    assert!(payment_day > end_of_fix);
    let mut rates = antevorta::input::SimDataRep::new();
    rates.insert(payment_day, stack_rate(0.02));
    let source = HashMapSourceSimBuilder::start().with_rates(rates).build();
    let mut mortgage = Mortgage::start(stack_cash(24_000.0), stack_rate(0.05), 0, 1, source);
    assert_eq!(mortgage.current_fix_end_date, end_of_fix);
    let mut bank = BankAcc { balance: stack_cash(100_000.0) };
    let event = mortgage.try_pay(payment_day, None, &mut bank).unwrap();
    assert_eq!(mortgage.loan.rate, stack_rate(0.06));
    assert_eq!(mortgage.current_fix_end_date, payment_day + end_of_fix);
    // 2000 of principal and six percent of 24000 in interest.
    assert_eq!(event, Some(LoanEvent::PaymentSuccess(stack_cash(3_440.0))));
}

#[test]
fn mortgage_refix_without_a_rate_is_an_error() {
    let payment_day = (365 + 24) * 86_400;
    let source = HashMapSourceSimBuilder::start().build();
    let mut mortgage = Mortgage::start(stack_cash(24_000.0), stack_rate(0.05), 0, 1, source);
    let mut bank = BankAcc { balance: stack_cash(100_000.0) };
    assert_eq!(mortgage.try_pay(payment_day, None, &mut bank), Err(MortgageError::MissingRate));
    assert_eq!(stack_units(bank.balance), 100_000.0);
    assert_eq!(stack_units(mortgage.loan.balance), 24_000.0);
    // A day that is no payment day asks for no rate.
    assert_eq!(mortgage.try_pay(payment_day + 86_400, None, &mut bank), Ok(None));
}

#[test]
fn allocation_adds_up_and_stops_at_the_threshold() {
    for amount in [0.0, 1.0, 49.99, 50.0, 50.01, 1_000.0] {
        for paid in [0.0, 10.0, 49.99, 50.0, 75.0] {
            let (applied, remainder) =
                isa_deposit_logic(stack_cash(amount), stack_cash(50.0), stack_cash(paid));
            assert_eq!(applied.minor() + remainder.minor(), stack_cash(amount).minor());
            assert!(applied.minor() >= 0 && remainder.minor() >= 0);
            if paid >= 50.0 {
                assert_eq!(applied.minor(), 0);
            }
            let (applied, remainder) = sipp_deposit_logic(
                stack_cash(amount),
                stack_cash(50.0),
                stack_cash(60.0),
                stack_cash(paid),
                stack_cash(paid),
            );
            assert_eq!(applied.minor() + remainder.minor(), stack_cash(amount).minor());
            assert!(applied.minor() >= 0 && remainder.minor() >= 0);
            if paid >= 50.0 {
                assert_eq!(applied.minor(), 0);
            }
        }
    }
}

#[test]
fn account_thresholds_are_the_statutory_ones() {
    assert_eq!(stack_units(UKAccount::IsaAnnualDepositThreshold.val()), 20_000.0);
    assert_eq!(stack_units(UKAccount::SippAnnualContributionThreshold.val()), 40_000.0);
    assert_eq!(stack_units(UKAccount::SippLifetimeContributionThreshold.val()), 1_073_100.0);
}

#[test]
fn isa_takes_no_more_than_the_annual_threshold_in_a_year() {
    let mut isa = Isa::new(CashStrategy::new());
    let (applied, remainder) = isa.deposit_wrapper(stack_cash(15_000.0));
    assert_eq!((stack_units(applied), stack_units(remainder)), (15_000.0, 0.0));
    let (applied, remainder) = isa.deposit_wrapper(stack_cash(15_000.0));
    assert_eq!((stack_units(applied), stack_units(remainder)), (5_000.0, 10_000.0));
    let (applied, remainder) = isa.deposit_wrapper(stack_cash(1.0));
    assert_eq!((stack_units(applied), stack_units(remainder)), (0.0, 1.0));
    assert_eq!(stack_units(isa.liquidation_value()), 20_000.0);
    isa.tax_year_end();
    let (applied, _) = isa.deposit_wrapper(stack_cash(1.0));
    assert_eq!(stack_units(applied), 1.0);
}

#[test]
fn sipp_refuses_every_withdrawal() {
    let mut sipp = Sipp::new_with_cash(CashStrategy::new(), stack_cash(0.0), stack_cash(500.0));
    assert_eq!(sipp.withdraw(stack_cash(1.0)), TransferResult::Failure);
    assert_eq!(sipp.liquidate(stack_cash(1.0)), TransferResult::Failure);
    assert_eq!(sipp.deposit(stack_cash(1.0)), TransferResult::Success);
    assert_eq!(stack_units(sipp.liquidation_value()), 501.0);
}

#[test]
fn sipp_lifetime_threshold_binds_when_it_is_the_smaller() {
    let mut sipp = Sipp::new(CashStrategy::new(), stack_cash(1_073_000.0));
    let (applied, remainder) = sipp.deposit_wrapper(stack_cash(1_000.0));
    assert_eq!((stack_units(applied), stack_units(remainder)), (100.0, 900.0));
    assert_eq!(stack_units(sipp.lifetime_contributions), 1_073_100.0);
}

#[test]
fn bank_withdrawal_fails_without_funds_and_moves_nothing() {
    let mut bank = BankAcc::new();
    assert_eq!(bank.deposit(stack_cash(100.0)), TransferResult::Success);
    assert_eq!(bank.withdraw(stack_cash(100.01)), TransferResult::Failure);
    assert_eq!(stack_units(bank.balance), 100.0);
    assert_eq!(bank.liquidate(stack_cash(40.0)), TransferResult::Success);
    assert_eq!(stack_units(bank.balance), 60.0);
    bank.zero();
    assert_eq!(stack_units(bank.balance), 0.0);
    assert_eq!(stack_units(BankAcc::default().balance), 0.0);
}

#[test]
fn transfer_moves_money_only_when_the_source_gives_it_up() {
    let mut bank = BankAcc { balance: stack_cash(100.0) };
    let mut gia = Gia::new(CashStrategy::new());
    assert_eq!(Transfer::from(&mut bank, &mut gia, stack_cash(150.0)), TransferResult::Failure);
    assert_eq!((stack_units(bank.balance), stack_units(gia.liquidation_value())), (100.0, 0.0));
    assert_eq!(Transfer::from(&mut bank, &mut gia, stack_cash(60.0)), TransferResult::Success);
    assert_eq!((stack_units(bank.balance), stack_units(gia.liquidation_value())), (40.0, 60.0));
    assert_eq!(Transfer::force(&mut gia, &mut bank, stack_cash(10.0)), TransferResult::Success);
    assert_eq!((stack_units(bank.balance), stack_units(gia.liquidation_value())), (50.0, 50.0));
    assert_eq!(Transfer::to(&mut bank, stack_cash(5.0)), TransferResult::Success);
    assert_eq!(stack_units(bank.balance), 55.0);
}

#[test]
fn gia_reports_gains_and_dividends_of_the_year() {
    let mut strat = CashStrategy::new();
    strat.record_trade(Trade::new("ABC", stack_cash(1000.0), 100, 10, TradeType::Buy));
    strat.record_trade(Trade::new("XYZ", stack_cash(500.0), 10, 20, TradeType::Buy));
    strat.record_trade(Trade::new("ABC", stack_cash(600.0), 50, 30, TradeType::Sell));
    strat.record_trade(Trade::new("ABC", stack_cash(700.0), 50, 200, TradeType::Sell));
    strat.record_dividend(DividendPayment::new(stack_cash(5.0), "ABC", 15));
    strat.record_dividend(DividendPayment::new(stack_cash(7.0), "ABC", 40));
    strat.record_dividend(DividendPayment::new(stack_cash(9.0), "ABC", 300));
    assert_eq!(strat.trades_between(15, 100).len(), 2);
    let gia = Gia::new(strat);
    // Only the sale at 30 lies after 25 and within the history up to 100.
    assert_eq!(stack_units(gia.get_capital_gains(100, 25).unwrap()), 100.0);
    // Both sales count from 0 on. The first realises 100. It leaves 50 units
    // at a cost of 1000 - 600, so the second realises 700 - 400.
    assert_eq!(stack_units(gia.get_capital_gains(250, 0).unwrap()), 400.0);
    assert_eq!(stack_units(gia.get_dividends(100, 20).unwrap()), 7.0);
    assert_eq!(stack_units(gia.get_dividends(300, 15).unwrap()), 21.0);
}

#[test]
fn history_outside_the_accepted_range_reports_nothing() {
    let dear = Trade::new("ABC", CashValue::from_minor(10_000_000_000_000_001), 1, 1, TradeType::Buy);
    assert_eq!(calculate_capital_gains(&[dear], 0), None);
    let many = Trade::new("ABC", stack_cash(1.0), 1_000_000_001, 1, TradeType::Buy);
    assert_eq!(calculate_capital_gains(&[many], 0), None);
    let mut strat = CashStrategy::new();
    strat.record_dividend(DividendPayment::new(stack_cash(-1.0), "ABC", 5));
    assert_eq!(Gia::new(strat).get_dividends(10, 0), None);
    assert_eq!(calculate_capital_gains(&[], 0), Some(stack_cash(0.0)));
}

#[test]
fn sale_after_a_negative_position_is_costed_at_the_average() {
    // A sale of 100 units for 1000 leaves minus 100 units at minus 1000:
    // ten a unit. The next sale of 50 units for 600 realises 600 - 50 * 10.
    let t1 = Trade::new("ABC", stack_cash(1000.0), 100, 1, TradeType::Sell);
    let t2 = Trade::new("ABC", stack_cash(600.0), 50, 5, TradeType::Sell);
    let trades = vec![t1, t2];
    assert_eq!(stack_units(calculate_capital_gains(&trades, 0).unwrap()), 100.0);
    // The order of the history does not matter.
    let t1 = Trade::new("ABC", stack_cash(1000.0), 100, 1, TradeType::Sell);
    let t2 = Trade::new("ABC", stack_cash(600.0), 50, 5, TradeType::Sell);
    assert_eq!(stack_units(calculate_capital_gains(&[t2, t1], 0).unwrap()), 100.0);
    // A position of no units has no average cost: the sale realises nothing.
    let buy = Trade::new("ABC", stack_cash(1000.0), 100, 1, TradeType::Buy);
    let out = Trade::new("ABC", stack_cash(1100.0), 100, 2, TradeType::Sell);
    let again = Trade::new("ABC", stack_cash(50.0), 5, 3, TradeType::Sell);
    assert_eq!(stack_units(calculate_capital_gains(&[buy, out, again], 2).unwrap()), 0.0);
}

#[test]
fn pension_refusal_changes_nothing() {
    let mut sipp = Sipp::new_with_cash(CashStrategy::new(), stack_cash(70.0), stack_cash(500.0));
    sipp.deposit_wrapper(stack_cash(30.0));
    assert_eq!(sipp.withdraw(stack_cash(0.0)), TransferResult::Failure);
    assert_eq!(sipp.liquidate(stack_cash(10.0)), TransferResult::Failure);
    assert_eq!(stack_units(sipp.liquidation_value()), 530.0);
    assert_eq!(stack_units(sipp.lifetime_contributions), 100.0);
    assert_eq!(stack_units(sipp.current_tax_year_contributions), 30.0);
    assert_eq!(sipp.deposit(stack_cash(5.0)), TransferResult::Success);
    assert_eq!(stack_units(sipp.lifetime_contributions), 100.0);
    assert_eq!(stack_units(sipp.current_tax_year_contributions), 30.0);
}

#[test]
fn sale_without_a_holding_realises_nothing() {
    let t1 = Trade::new("ABC", stack_cash(1100.0), 100, 10, TradeType::Sell);
    let t2 = Trade::new("XYZ", stack_cash(1000.0), 100, 1, TradeType::Buy);
    let trades = vec![t2, t1];
    assert_eq!(stack_units(calculate_capital_gains(&trades, 0).unwrap()), 0.0);
}
