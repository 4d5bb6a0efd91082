//! What a finished simulation reports.
use vstd::prelude::*;
use crate::money::CashValue;
use crate::schedule::DateTime;
use crate::sim::uk::{snapshot_ok, StrategySnapshot, UKSimulationState};
use crate::strat::InvestmentStrategy;

verus! {

/// The record of a simulation: the totals of each tax year, the cash on each
/// performance date, and the value of the three investment accounts
/// together, with what was paid into them, on each performance date.
#[derive(Clone, Debug)]
pub struct UKSimulationOutput {
    pub cash: Vec<CashValue>,
    pub gross_income: Vec<CashValue>,
    pub net_income: Vec<CashValue>,
    pub expense: Vec<CashValue>,
    pub tax_paid: Vec<CashValue>,
    pub sipp_contributions: Vec<CashValue>,
    pub values: Vec<CashValue>,
    pub returns_dates: Vec<DateTime>,
    pub investment_cash_flows: Vec<CashValue>,
}

/// How many performance dates have a snapshot of all three accounts.
pub open spec fn joined_len(
    isa: Seq<StrategySnapshot>,
    sipp: Seq<StrategySnapshot>,
    gia: Seq<StrategySnapshot>,
) -> int {
    if isa.len() <= sipp.len() && isa.len() <= gia.len() {
        isa.len() as int
    } else if sipp.len() <= gia.len() {
        sipp.len() as int
    } else {
        gia.len() as int
    }
}

fn copy_values(values: &Vec<CashValue>) -> (copy: Vec<CashValue>)
    ensures
        copy@ == values@,
{
    let mut copy: Vec<CashValue> = Vec::new();
    let mut i: usize = 0;
    while i < values.len()
        invariant
            i <= values.len(),
            copy@ == values@.take(i as int),
        decreases values.len() - i,
    {
        copy.push(values[i]);
        proof {
            assert(values@.take(i + 1) == values@.take(i as int).push(values@[i as int]));
        }
        i = i + 1;
    }
    proof {
        assert(values@.take(i as int) == values@);
    }
    copy
}

impl UKSimulationOutput {
    /// What the household was worth on the last performance date: the three
    /// investment accounts and the cash. Nothing before the first
    /// performance date.
    pub fn get_final_value<S: InvestmentStrategy>(sim: &UKSimulationState<S>) -> (total: Option<
        CashValue,
    >)
        requires
            sim.sound(),
        ensures
            total.is_some() == (sim.tracker.isa_snapshot@.len() > 0 && sim.tracker.gia_snapshot@.len()
                > 0 && sim.tracker.sipp_snapshot@.len() > 0 && sim.tracker.cash@.len() > 0),
            total matches Some(value) ==> value@ == sim.tracker.isa_snapshot@.last().portfolio_value@
                + sim.tracker.gia_snapshot@.last().portfolio_value@
                + sim.tracker.sipp_snapshot@.last().portfolio_value@ + sim.tracker.cash@.last()@,
    {
        let tracker = &sim.tracker;
        if tracker.isa_snapshot.len() == 0 || tracker.gia_snapshot.len() == 0
            || tracker.sipp_snapshot.len() == 0 || tracker.cash.len() == 0 {
            return None;
        }
        let isa = tracker.isa_snapshot[tracker.isa_snapshot.len() - 1];
        let gia = tracker.gia_snapshot[tracker.gia_snapshot.len() - 1];
        let sipp = tracker.sipp_snapshot[tracker.sipp_snapshot.len() - 1];
        let cash = tracker.cash[tracker.cash.len() - 1];
        proof {
            assert(snapshot_ok(isa) && snapshot_ok(gia) && snapshot_ok(sipp));
            assert(cash.in_range());
        }
        Some(
            CashValue {
                minor: isa.portfolio_value.minor + gia.portfolio_value.minor
                    + sipp.portfolio_value.minor + cash.minor,
            },
        )
    }

    /// The record of a simulation. The values and the net payments of the
    /// three investment accounts are added up date by date, over the dates
    /// that have a snapshot of all three.
    pub fn get_output<S: InvestmentStrategy>(sim: &UKSimulationState<S>) -> (out:
        UKSimulationOutput)
        requires
            sim.sound(),
        ensures
            out.cash@ == sim.tracker.cash@,
            out.gross_income@ == sim.tracker.gross_income@,
            out.net_income@ == sim.tracker.net_income@,
            out.expense@ == sim.tracker.expense@,
            out.tax_paid@ == sim.tracker.tax_paid@,
            out.sipp_contributions@ == sim.tracker.sipp_contributions@,
            out.values@.len() == joined_len(
                sim.tracker.isa_snapshot@,
                sim.tracker.sipp_snapshot@,
                sim.tracker.gia_snapshot@,
            ),
            out.returns_dates@.len() == out.values@.len(),
            out.investment_cash_flows@.len() == out.values@.len(),
            forall|i: int|
                0 <= i < out.values@.len() ==> {
                    &&& (#[trigger] out.values@[i])@ == sim.tracker.isa_snapshot@[i].portfolio_value@
                        + sim.tracker.sipp_snapshot@[i].portfolio_value@
                        + sim.tracker.gia_snapshot@[i].portfolio_value@
                    &&& out.investment_cash_flows@[i]@ == sim.tracker.isa_snapshot@[i].net_cash_flow@
                        + sim.tracker.sipp_snapshot@[i].net_cash_flow@
                        + sim.tracker.gia_snapshot@[i].net_cash_flow@
                    &&& out.returns_dates@[i] == sim.tracker.isa_snapshot@[i].date
                },
    {
        let tracker = &sim.tracker;
        let mut values: Vec<CashValue> = Vec::new();
        let mut flows: Vec<CashValue> = Vec::new();
        let mut dates: Vec<DateTime> = Vec::new();
        let mut i: usize = 0;
        while i < tracker.isa_snapshot.len() && i < tracker.sipp_snapshot.len() && i
            < tracker.gia_snapshot.len()
            invariant
                tracker.recorded(),
                i <= tracker.isa_snapshot@.len(),
                i <= tracker.sipp_snapshot@.len(),
                i <= tracker.gia_snapshot@.len(),
                values@.len() == i,
                flows@.len() == i,
                dates@.len() == i,
                forall|k: int|
                    0 <= k < i ==> {
                        &&& (#[trigger] values@[k])@ == tracker.isa_snapshot@[k].portfolio_value@
                            + tracker.sipp_snapshot@[k].portfolio_value@
                            + tracker.gia_snapshot@[k].portfolio_value@
                        &&& flows@[k]@ == tracker.isa_snapshot@[k].net_cash_flow@
                            + tracker.sipp_snapshot@[k].net_cash_flow@
                            + tracker.gia_snapshot@[k].net_cash_flow@
                        &&& dates@[k] == tracker.isa_snapshot@[k].date
                    },
            decreases tracker.isa_snapshot@.len() - i,
        {
            let isa = tracker.isa_snapshot[i];
            let sipp = tracker.sipp_snapshot[i];
            let gia = tracker.gia_snapshot[i];
            proof {
                assert(snapshot_ok(isa) && snapshot_ok(gia) && snapshot_ok(sipp));
            }
            //Should be the same across account types
            dates.push(isa.date);
            values.push(
                CashValue {
                    minor: isa.portfolio_value.minor + sipp.portfolio_value.minor
                        + gia.portfolio_value.minor,
                },
            );
            flows.push(
                CashValue {
                    minor: isa.net_cash_flow.minor + sipp.net_cash_flow.minor
                        + gia.net_cash_flow.minor,
                },
            );
            i = i + 1;
        }
        UKSimulationOutput {
            cash: copy_values(&tracker.cash),
            gross_income: copy_values(&tracker.gross_income),
            net_income: copy_values(&tracker.net_income),
            expense: copy_values(&tracker.expense),
            tax_paid: copy_values(&tracker.tax_paid),
            sipp_contributions: copy_values(&tracker.sipp_contributions),
            values,
            returns_dates: dates,
            investment_cash_flows: flows,
        }
    }
}

} // verus!
