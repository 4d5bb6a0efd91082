//! The two standing rules of a tick as values: the sweep of spare cash and
//! the settlement of the tax year.
use vstd::prelude::*;
use crate::money::{CashValue, CASH_LIMIT};
use crate::schedule::DateTime;
use crate::sim::uk::{Settlement, SimError, UKSimulationState};
use crate::strat::InvestmentStrategy;
use crate::tax::uk::TAX_LIMIT;

verus! {

/// A standing rule of a tick.
#[derive(Clone, Copy, Debug, PartialEq, Eq, Structural)]
pub enum Mutations {
    CashBalance(CashBalanceStrategy),
    TaxHashSource(TaxStrategy),
}

impl Mutations {
    /// Applies the rule to a simulation at a time. Only the settlement of
    /// the tax year can be stopped; then nothing has changed.
    pub fn check<S: InvestmentStrategy>(&self, curr: DateTime, state: &mut UKSimulationState<S>) -> (outcome:
        Result<(), SimError>)
        requires
            old(state).wf(),
            self matches Mutations::CashBalance(rule) ==> rule.wf(),
        ensures
            final(state).sound(),
            match *self {
                Mutations::CashBalance(rule) => outcome.is_ok() && UKSimulationState::swept(
                    old(state),
                    final(state),
                    rule.emergency_fund_minimum@,
                ),
                Mutations::TaxHashSource(_) => exists|settled: Result<Option<Settlement>, SimError>|
                    #[trigger] UKSimulationState::taxes_paid(
                        old(state),
                        final(state),
                        curr as int,
                        settled,
                    ) && match settled {
                        Ok(_) => outcome.is_ok(),
                        Err(error) => outcome == Err::<(), SimError>(error),
                    },
            },
    {
        match self {
            Mutations::CashBalance(strat) => {
                strat.check(curr, state);
                Ok(())
            },
            Mutations::TaxHashSource(strat) => {
                let settled = strat.check(curr, state);
                proof {
                    assert(UKSimulationState::taxes_paid(
                        old(state),
                        state,
                        curr as int,
                        settled,
                    ));
                }
                match settled {
                    Ok(_) => Ok(()),
                    Err(error) => Err(error),
                }
            },
        }
    }
}

/// The sweep of what the bank holds over a minimum.
#[derive(Clone, Copy, Debug, PartialEq, Eq, Structural)]
pub struct CashBalanceStrategy {
    pub emergency_fund_minimum: CashValue,
}

impl CashBalanceStrategy {
    /// The minimum is not negative and lies within the limit.
    pub open spec fn wf(self) -> bool {
        0 <= self.emergency_fund_minimum@ <= CASH_LIMIT
    }

    /// Sweeps what the bank of a simulation holds over the minimum.
    pub fn check<S: InvestmentStrategy>(&self, _curr: DateTime, state: &mut UKSimulationState<S>)
        requires
            old(state).sound(),
            old(state).ledger.within(TAX_LIMIT as int),
            self.wf(),
        ensures
            final(state).sound(),
            UKSimulationState::swept(old(state), final(state), self.emergency_fund_minimum@),
    {
        state.sweep_cash(self.emergency_fund_minimum);
    }

    /// The sweep down to a minimum.
    pub fn new(emergency_fund_minimum: CashValue) -> (rule: Self)
        ensures
            rule.emergency_fund_minimum == emergency_fund_minimum,
    {
        Self { emergency_fund_minimum }
    }
}

/// The settlement of the tax year on the simulation's annual schedule.
#[derive(Clone, Copy, Debug, PartialEq, Eq, Structural)]
pub struct TaxStrategy;

impl TaxStrategy {
    /// Settles the tax year of a simulation if its annual schedule triggers
    /// at the time.
    pub fn check<S: InvestmentStrategy>(&self, curr: DateTime, state: &mut UKSimulationState<S>) -> (outcome:
        Result<Option<Settlement>, SimError>)
        requires
            old(state).wf(),
        ensures
            final(state).sound(),
            UKSimulationState::taxes_paid(old(state), final(state), curr as int, outcome),
    {
        state.pay_taxes(curr)
    }

    /// The settlement rule.
    pub fn new() -> (rule: Self) {
        Self
    }
}

} // verus!
