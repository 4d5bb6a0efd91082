//! The amortizing mortgage.
use vstd::prelude::*;
use crate::acc::{CanTransfer, TransferResult};
use crate::calendar::{LAST_TIMESTAMP, SECONDS_PER_WEEK};
use crate::input::SimDataSource;
use crate::money::{mul_rate, CashValue, Rate, RATE_LIMIT};
use crate::schedule::{DateTime, Schedule};
use crate::tax::uk::TAX_LIMIT;

verus! {

/// What a lender adds to the reference rate when a fix is renewed.
pub const MORTGAGE_MARGIN: i64 = 40_000_000;

/// The day of the month on which a mortgage payment falls due.
pub const MORTGAGE_PAYMENT_DAY: i32 = 25;

/// Weeks that count as one year of a fix.
pub const WEEKS_PER_YEAR: i64 = 52;

/// Payments in a year.
pub const PAYMENTS_PER_YEAR: i64 = 12;

/// How a payment on a loan ended.
#[derive(Clone, Copy, Debug, PartialEq, Eq, Structural)]
pub enum LoanEvent {
    PaymentSuccess(CashValue),
    PaymentFailure(CashValue),
    Completed,
}

/// The payment that repays a balance in equal parts over a term of years.
pub open spec fn amortization_payment(balance: int, term_yrs: int) -> int {
    balance / (term_yrs * PAYMENTS_PER_YEAR)
}

/// The part of the balance that a payment repays: the minimum payment, or a
/// requested payment that exceeds it, but never more than the balance.
pub open spec fn principal_due(balance: int, minimum: int, requested: Option<CashValue>) -> int {
    let wanted = match requested {
        Some(overpay) => if overpay@ > minimum {
            overpay@
        } else {
            minimum
        },
        None => minimum,
    };
    if balance < wanted {
        balance
    } else {
        wanted
    }
}

/// The time at which a fix of the given years that starts at a time ends.
pub open spec fn fix_end(start: int, fix_yrs: int) -> int {
    start + fix_yrs * WEEKS_PER_YEAR * SECONDS_PER_WEEK
}

//Logic implies monthly payments
pub fn calculate_amortization_payment(balance: CashValue, term_yrs: u8) -> (payment: CashValue)
    requires
        term_yrs > 0,
    ensures
        payment@ == amortization_payment(balance@, term_yrs as int),
{
    let term_months: i64 = (term_yrs as i64) * PAYMENTS_PER_YEAR;
    balance.split(term_months)
}

/// A loan with a rate and a minimum payment.
#[derive(Clone, Copy, Debug, PartialEq, Eq, Structural)]
pub struct AmortizingLoanLogic {
    pub balance: CashValue,
    pub rate: Rate,
    pub amortization_payment_min: CashValue,
}

impl AmortizingLoanLogic {
    /// The balance and the minimum payment are not negative and lie within
    /// the limit, and the rate lies within what the arithmetic accepts.
    pub open spec fn wf(self) -> bool {
        &&& 0 <= self.balance@ <= TAX_LIMIT
        &&& 0 <= self.amortization_payment_min@ <= TAX_LIMIT
        &&& self.rate.in_range()
    }

    /// The interest that falls due with a payment.
    pub open spec fn interest(self) -> int {
        mul_rate(self.balance@, self.rate@)
    }

    /// The part of the balance that a payment repays.
    pub open spec fn principal(self, requested: Option<CashValue>) -> int {
        principal_due(self.balance@, self.amortization_payment_min@, requested)
    }

    /// What a payment comes to: the principal and the interest on the whole
    /// balance. The balance stays as it is.
    pub fn payment_due(&self, amortization_payment: Option<CashValue>) -> (due: CashValue)
        requires
            self.wf(),
        ensures
            due@ == self.principal(amortization_payment) + self.interest(),
            due.within(10 * TAX_LIMIT),
            0 <= self.principal(amortization_payment) <= self.balance@,
    {
        proof {
            crate::money::lemma_mul_rate_bound(self.balance@, self.rate@, TAX_LIMIT as int, 9);
        }
        let interest = self.rate.of(self.balance);
        let principal = self.principal_part(amortization_payment);
        CashValue { minor: principal.minor + interest.minor }
    }

    fn principal_part(&self, amortization_payment: Option<CashValue>) -> (part: CashValue)
        requires
            self.wf(),
        ensures
            part@ == self.principal(amortization_payment),
            0 <= part@ <= self.balance@,
    {
        let mut wanted = self.amortization_payment_min;
        if let Some(overpay) = amortization_payment {
            if overpay.minor > self.amortization_payment_min.minor {
                wanted = overpay;
            }
        }
        if self.balance.minor < wanted.minor {
            self.balance
        } else {
            wanted
        }
    }

    /// Makes the payment that is due out of a source. A loan without a
    /// balance is complete and asks for nothing. A payment that the source
    /// covers lowers the balance by the principal; one that it does not cover
    /// changes nothing.
    pub fn payment<A: CanTransfer>(
        &mut self,
        amortization_payment: Option<CashValue>,
        src: &mut A,
    ) -> (event: LoanEvent)
        requires
            old(self).wf(),
            old(src).inv(),
        ensures
            final(self).wf(),
            final(src).inv(),
            final(self).rate == old(self).rate,
            final(self).amortization_payment_min == old(self).amortization_payment_min,
            old(self).balance@ == 0 ==> event == LoanEvent::Completed && *final(self) == *old(self)
                && final(src).balance() == old(src).balance(),
            old(self).balance@ != 0 ==> {
                let principal = old(self).principal(amortization_payment);
                let due = principal + old(self).interest();
                if old(src).can_withdraw(due) {
                    &&& event == LoanEvent::PaymentSuccess(CashValue { minor: due as i64 })
                    &&& final(self).balance@ == old(self).balance@ - principal
                    &&& final(src).balance() == old(src).balance() - due
                } else {
                    &&& event == LoanEvent::PaymentFailure(CashValue { minor: due as i64 })
                    &&& final(self).balance == old(self).balance
                    &&& final(src).balance() == old(src).balance()
                }
            },
    {
        if self.balance.minor == 0 {
            return LoanEvent::Completed;
        }
        let payment_due = self.payment_due(amortization_payment);
        if let TransferResult::Success = src.withdraw(payment_due) {
            let principal = self.principal_part(amortization_payment);
            self.balance = CashValue { minor: self.balance.minor - principal.minor };
            return LoanEvent::PaymentSuccess(payment_due);
        }
        LoanEvent::PaymentFailure(payment_due)
    }

    /// A loan that is repaid in equal parts over a term of years.
    pub fn new(balance: CashValue, rate: Rate, term_yrs: u8) -> (loan: Self)
        requires
            term_yrs > 0,
            0 <= balance@ <= TAX_LIMIT,
            rate.in_range(),
        ensures
            loan.wf(),
            loan.balance == balance,
            loan.rate == rate,
            loan.amortization_payment_min@ == amortization_payment(balance@, term_yrs as int),
    {
        let amortization_payment_min = calculate_amortization_payment(balance, term_yrs);
        proof {
            let months = term_yrs * PAYMENTS_PER_YEAR;
            assert(0 <= balance@ / months <= balance@) by (nonlinear_arith)
                requires
                    months >= 1,
                    0 <= balance@,
            ;
        }
        Self { balance, rate, amortization_payment_min }
    }
}

/// A mortgage: a loan whose rate is fixed for a run of years at a time and
/// set anew, from the reference rate of the day, when a fix has run out.
pub struct Mortgage<T: SimDataSource> {
    pub loan: AmortizingLoanLogic,
    pub payment_schedule: Schedule,
    //We assume that the fix period rolls through term
    pub fix_period: u8,
    pub current_fix_end_date: DateTime,
    pub source: T,
}

/// What stops a mortgage payment.
#[derive(Clone, Copy, Debug, PartialEq, Eq, Structural)]
pub enum MortgageError {
    /// The fix has run out and the source quotes no usable reference rate.
    MissingRate,
}

impl<T: SimDataSource> Mortgage<T> {
    /// The loan is sound, the fix has a length, and its end is a time that fits.
    pub open spec fn wf(&self) -> bool {
        &&& self.loan.wf()
        &&& self.fix_period > 0
        &&& -LAST_TIMESTAMP <= self.current_fix_end_date <= 2 * LAST_TIMESTAMP
    }

    /// Whether a payment at a time has to set the rate anew.
    pub open spec fn refix_due(&self, now: int) -> bool {
        self.payment_schedule.hits(now) && now > self.current_fix_end_date
    }

    /// Whether the source quotes a reference rate for a time that, with the
    /// margin, lies within what the arithmetic accepts.
    pub open spec fn rate_known(&self, now: int) -> bool {
        self.source.interest_rate_at(now) matches Some(rate) && -RATE_LIMIT <= rate@
            + MORTGAGE_MARGIN <= RATE_LIMIT
    }

    /// A mortgage whose first fix starts at a time. Payments fall due on the
    /// 25th of each month, and the first fix is as long as the term over which the
    /// minimum payment repays the balance.
    pub fn start(
        balance: CashValue,
        rate: Rate,
        start_date: DateTime,
        initial_fix_in_yrs: u8,
        source: T,
    ) -> (mortgage: Self)
        requires
            initial_fix_in_yrs > 0,
            0 <= balance@ <= TAX_LIMIT,
            rate.in_range(),
            -LAST_TIMESTAMP <= start_date <= LAST_TIMESTAMP,
        ensures
            mortgage.wf(),
            mortgage.loan.balance == balance,
            mortgage.loan.rate == rate,
            mortgage.loan.amortization_payment_min@ == amortization_payment(
                balance@,
                initial_fix_in_yrs as int,
            ),
            mortgage.payment_schedule == Schedule::EveryMonth(MORTGAGE_PAYMENT_DAY),
            mortgage.fix_period == initial_fix_in_yrs,
            mortgage.current_fix_end_date == fix_end(start_date as int, initial_fix_in_yrs as int),
            mortgage.source == source,
    {
        //This isn't totally accurate but it should be very close, the inaccuracy on the final fix
        //should come out if we catch LoanEvent::Completed
        let current_fix_end_date = start_date + (initial_fix_in_yrs as i64) * WEEKS_PER_YEAR
            * SECONDS_PER_WEEK;
        let loan = AmortizingLoanLogic::new(balance, rate, initial_fix_in_yrs);
        let payment_schedule = Schedule::EveryMonth(MORTGAGE_PAYMENT_DAY);
        Self {
            loan,
            payment_schedule,
            fix_period: initial_fix_in_yrs,
            current_fix_end_date,
            source,
        }
    }

    /// The loan as a payment at a time finds it: set anew, at the reference
    /// rate plus the margin and with a new minimum payment, where the fix has
    /// run out.
    pub open spec fn loan_at(&self, now: int) -> AmortizingLoanLogic {
        if self.refix_due(now) {
            AmortizingLoanLogic {
                balance: self.loan.balance,
                rate: Rate {
                    ppb: (self.source.interest_rate_at(now).unwrap()@ + MORTGAGE_MARGIN) as i64,
                },
                amortization_payment_min: CashValue {
                    minor: amortization_payment(self.loan.balance@, self.fix_period as int) as i64,
                },
            }
        } else {
            self.loan
        }
    }

    /// What a payment at a time does, given a source before and after it.
    ///
    /// On any day but a payment day nothing changes and there is no event.
    /// On a payment day, where the fix has run out, the loan is first set
    /// anew and the next fix starts from that day. A loan without a balance
    /// is complete. Else the payment is the principal and the interest on
    /// the whole balance: where the source gives it up, the balance falls by
    /// the principal; where it does not, nothing moves.
    pub open spec fn paid<A: CanTransfer>(
        pre: &Self,
        post: &Self,
        now: int,
        requested: Option<CashValue>,
        src: &A,
        src_after: &A,
        event: Option<LoanEvent>,
    ) -> bool {
        let loan = pre.loan_at(now);
        let principal = loan.principal(requested);
        let due = principal + loan.interest();
        &&& post.payment_schedule == pre.payment_schedule
        &&& post.fix_period == pre.fix_period
        &&& post.source == pre.source
        &&& post.current_fix_end_date == if pre.refix_due(now) {
            fix_end(now, pre.fix_period as int)
        } else {
            pre.current_fix_end_date as int
        }
        &&& if !pre.payment_schedule.hits(now) {
            event.is_none() && post.loan == pre.loan && src_after.balance() == src.balance()
        } else if loan.balance@ == 0 {
            event == Some(LoanEvent::Completed) && post.loan == loan && src_after.balance()
                == src.balance()
        } else if src.can_withdraw(due) {
            &&& event == Some(LoanEvent::PaymentSuccess(CashValue { minor: due as i64 }))
            &&& post.loan == (AmortizingLoanLogic {
                balance: CashValue { minor: (loan.balance@ - principal) as i64 },
                ..loan
            })
            &&& src_after.balance() == src.balance() - due
        } else {
            &&& event == Some(LoanEvent::PaymentFailure(CashValue { minor: due as i64 }))
            &&& post.loan == loan
            &&& src_after.balance() == src.balance()
        }
    }

    /// On a payment day, makes the payment that is due out of a source and
    /// returns how it ended; on any other day does nothing. Where the fix has
    /// run out, the rate is first set anew and the next fix starts. Then the
    /// source has to quote a reference rate for the day: without one the
    /// loan cannot go on.
    pub fn pay<A: CanTransfer>(
        &mut self,
        now: DateTime,
        amortization_payment: Option<CashValue>,
        src: &mut A,
    ) -> (event: Option<LoanEvent>)
        requires
            old(self).wf(),
            old(src).inv(),
            old(self).refix_due(now as int) ==> old(self).rate_known(now as int),
        ensures
            final(self).wf(),
            final(src).inv(),
            Self::paid(
                old(self),
                final(self),
                now as int,
                amortization_payment,
                old(src),
                final(src),
                event,
            ),
    {
        if self.payment_schedule.check(now) {
            if now > self.current_fix_end_date {
                //Need to reissue using new data
                if let Some(rate) = self.source.get_current_interest_rate(now) {
                    let mortgage_margin = Rate { ppb: rate.ppb + MORTGAGE_MARGIN };
                    let remaining = self.loan.balance;
                    self.loan = AmortizingLoanLogic::new(
                        remaining,
                        mortgage_margin,
                        self.fix_period,
                    );
                    self.current_fix_end_date = now + (self.fix_period as i64) * WEEKS_PER_YEAR
                        * SECONDS_PER_WEEK;
                }
            }
            Some(self.loan.payment(amortization_payment, src))
        } else {
            None
        }
    }

    /// Makes the payment of a day as [`Mortgage::pay`] does, unless the fix
    /// has run out and the source quotes no usable reference rate: then
    /// nothing changes and the error says so.
    pub fn try_pay<A: CanTransfer>(
        &mut self,
        now: DateTime,
        amortization_payment: Option<CashValue>,
        src: &mut A,
    ) -> (outcome: Result<Option<LoanEvent>, MortgageError>)
        requires
            old(self).wf(),
            old(src).inv(),
        ensures
            final(self).wf(),
            final(src).inv(),
            outcome.is_err() == (old(self).refix_due(now as int) && !old(self).rate_known(
                now as int,
            )),
            outcome matches Err(error) ==> error == MortgageError::MissingRate && *final(self)
                == *old(self) && final(src).balance() == old(src).balance(),
            outcome matches Ok(event) ==> Self::paid(
                old(self),
                final(self),
                now as int,
                amortization_payment,
                old(src),
                final(src),
                event,
            ),
    {
        if self.payment_schedule.check(now) && now > self.current_fix_end_date {
            match self.source.get_current_interest_rate(now) {
                Some(rate) => {
                    if rate.ppb < -RATE_LIMIT - MORTGAGE_MARGIN || rate.ppb > RATE_LIMIT
                        - MORTGAGE_MARGIN {
                        return Err(MortgageError::MissingRate);
                    }
                },
                None => {
                    return Err(MortgageError::MissingRate);
                },
            }
        }
        Ok(self.pay(now, amortization_payment, src))
    }
}

} // verus!
