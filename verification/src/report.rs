//! The yearly report of a household's flows.
use vstd::prelude::*;
use crate::money::{CashValue, CASH_LIMIT};
use crate::schedule::{DateTime, Schedule};

verus! {

/// What is told of each flow as it is paid.
pub trait FlowReporter {
    /// The gross income reported since the last reset.
    spec fn gross_income(&self) -> int;

    /// The net income reported since the last reset.
    spec fn net_income(&self) -> int;

    /// The tax reported since the last reset.
    spec fn tax(&self) -> int;

    /// The expenses reported since the last reset.
    spec fn expenses(&self) -> int;

    fn paid_gross_income(&mut self, income: CashValue)
        requires
            -CASH_LIMIT <= old(self).gross_income() + income@ <= CASH_LIMIT,
        ensures
            final(self).gross_income() == old(self).gross_income() + income@,
            final(self).net_income() == old(self).net_income(),
            final(self).tax() == old(self).tax(),
            final(self).expenses() == old(self).expenses(),
    ;

    fn paid_net_income(&mut self, income: CashValue)
        requires
            -CASH_LIMIT <= old(self).net_income() + income@ <= CASH_LIMIT,
        ensures
            final(self).net_income() == old(self).net_income() + income@,
            final(self).gross_income() == old(self).gross_income(),
            final(self).tax() == old(self).tax(),
            final(self).expenses() == old(self).expenses(),
    ;

    fn paid_tax(&mut self, tax: CashValue)
        requires
            -CASH_LIMIT <= old(self).tax() + tax@ <= CASH_LIMIT,
        ensures
            final(self).tax() == old(self).tax() + tax@,
            final(self).gross_income() == old(self).gross_income(),
            final(self).net_income() == old(self).net_income(),
            final(self).expenses() == old(self).expenses(),
    ;

    fn paid_expense(&mut self, expense: CashValue)
        requires
            -CASH_LIMIT <= old(self).expenses() + expense@ <= CASH_LIMIT,
        ensures
            final(self).expenses() == old(self).expenses() + expense@,
            final(self).gross_income() == old(self).gross_income(),
            final(self).net_income() == old(self).net_income(),
            final(self).tax() == old(self).tax(),
    ;

    fn reset(&mut self)
        ensures
            final(self).gross_income() == 0,
            final(self).net_income() == 0,
            final(self).tax() == 0,
            final(self).expenses() == 0,
    ;
}

/// The balances and the flows of one year.
#[derive(Clone, Copy, Debug, PartialEq, Eq, Structural)]
pub struct UKAnnualReport {
    pub isa: CashValue,
    pub sipp: CashValue,
    pub gia: CashValue,
    pub cash: CashValue,
    pub gross_income: CashValue,
    pub net_income: CashValue,
    pub expense: CashValue,
    pub tax_paid: CashValue,
}

//This should run on the same cycle as the tax year. All the state about the stacks is taken from
//an instance of simulation rather than held on this struct. All the state from flows is held on
//this struct and updated through time. The client must reset annually.
//
//Client must call reset. This is to ensure that check doesn't mutate.
#[derive(Clone, Copy, Debug, PartialEq, Eq, Structural)]
pub struct DefaultUKReporter {
    pub schedule: Schedule,
    pub gross_income_sum: CashValue,
    pub net_income_sum: CashValue,
    pub expense_sum: CashValue,
    pub tax_paid_sum: CashValue,
}

impl DefaultUKReporter {
    /// A reporter that reports on a schedule and has been told nothing yet.
    pub fn new(schedule: Schedule) -> (reporter: Self)
        ensures
            reporter.schedule == schedule,
            reporter.gross_income_sum@ == 0,
            reporter.net_income_sum@ == 0,
            reporter.expense_sum@ == 0,
            reporter.tax_paid_sum@ == 0,
    {
        Self {
            schedule,
            gross_income_sum: CashValue::zero(),
            net_income_sum: CashValue::zero(),
            expense_sum: CashValue::zero(),
            tax_paid_sum: CashValue::zero(),
        }
    }

    /// The report of the year, on a day on which the schedule triggers: the
    /// balances given and the sums reported since the last reset.
    pub fn check(
        &self,
        isa: CashValue,
        gia: CashValue,
        sipp: CashValue,
        cash: CashValue,
        curr_date: DateTime,
    ) -> (report: Option<UKAnnualReport>)
        ensures
            report == if self.schedule.hits(curr_date as int) {
                Some(
                    UKAnnualReport {
                        isa,
                        gia,
                        sipp,
                        cash,
                        gross_income: self.gross_income_sum,
                        net_income: self.net_income_sum,
                        expense: self.expense_sum,
                        tax_paid: self.tax_paid_sum,
                    },
                )
            } else {
                None
            },
    {
        if self.schedule.check(curr_date) {
            let report = UKAnnualReport {
                isa,
                gia,
                sipp,
                cash,
                gross_income: self.gross_income_sum,
                net_income: self.net_income_sum,
                expense: self.expense_sum,
                tax_paid: self.tax_paid_sum,
            };
            return Some(report);
        }
        None
    }
}

impl FlowReporter for DefaultUKReporter {
    open spec fn gross_income(&self) -> int {
        self.gross_income_sum@
    }

    open spec fn net_income(&self) -> int {
        self.net_income_sum@
    }

    open spec fn tax(&self) -> int {
        self.tax_paid_sum@
    }

    open spec fn expenses(&self) -> int {
        self.expense_sum@
    }

    fn paid_tax(&mut self, tax: CashValue) {
        self.tax_paid_sum = CashValue { minor: self.tax_paid_sum.minor + tax.minor };
    }

    fn paid_expense(&mut self, expense: CashValue) {
        self.expense_sum = CashValue { minor: self.expense_sum.minor + expense.minor };
    }

    fn paid_gross_income(&mut self, income: CashValue) {
        self.gross_income_sum = CashValue { minor: self.gross_income_sum.minor + income.minor };
    }

    fn paid_net_income(&mut self, income: CashValue) {
        self.net_income_sum = CashValue { minor: self.net_income_sum.minor + income.minor };
    }

    fn reset(&mut self) {
        self.tax_paid_sum = CashValue::zero();
        self.gross_income_sum = CashValue::zero();
        self.net_income_sum = CashValue::zero();
        self.expense_sum = CashValue::zero();
    }
}

} // verus!
