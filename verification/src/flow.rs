//! Scheduled income and expenses, and how their amounts grow.
use vstd::prelude::*;
use crate::acc::CanTransfer;
use crate::input::{quotable, HashMapSourceSim, SimDataSource};
use crate::money::{grow, mul_rate, CashValue, Rate};
use crate::schedule::{DateTime, Schedule};
use crate::sim::uk::{Books, Ledger, PayTerms, SimError, UKSimulationState};
use crate::stack::{bank_accepts, bank_gives, pension_takes};
use crate::strat::InvestmentStrategy;
use crate::tax::uk::{paye_due, TaxPeriod, TAX_LIMIT};

verus! {

/// An amount of money that a flow can carry: not negative and within what
/// the tax engine accepts.
pub open spec fn flow_amount(value: CashValue) -> bool {
    0 <= value@ <= TAX_LIMIT
}

/// A total with an amount added.
pub open spec fn credited(total: CashValue, amount: int) -> CashValue {
    CashValue { minor: (total@ + amount) as i64 }
}

fn credit(total: CashValue, amount: CashValue) -> (sum: CashValue)
    requires
        total.within(TAX_LIMIT as int),
        amount.within(42 * TAX_LIMIT),
    ensures
        sum == credited(total, amount@),
        sum@ == total@ + amount@,
{
    CashValue { minor: total.minor + amount.minor }
}

/// Whether a flow has touched nothing but the bank, the pension and the
/// ledger.
pub open spec fn only_cash_moved<S: InvestmentStrategy>(
    pre: &UKSimulationState<S>,
    post: &UKSimulationState<S>,
) -> bool {
    &&& post.same_setup(pre)
    &&& post.isa == pre.isa
    &&& post.gia == pre.gia
    &&& post.tax_config == pre.tax_config
    &&& post.sim_state == pre.sim_state
    &&& post.tracker == pre.tracker
}

/// What the pension takes of the contribution on a wage.
pub open spec fn contributed(value: int, terms: PayTerms, books: Books) -> int {
    pension_takes(
        books.pension_year,
        books.pension_lifetime,
        books.pension,
        mul_rate(value, terms.contribution_pct@),
    )
}

/// The books after the pension has taken a contribution.
pub open spec fn pension_paid(books: Books, contributed: int) -> Books {
    Books {
        pension: books.pension + contributed,
        pension_year: books.pension_year + contributed,
        pension_lifetime: books.pension_lifetime + contributed,
        ..books
    }
}

/// The bank balance after a deposit, which fails where the balance would
/// leave the range that the bank accepts.
pub open spec fn bank_after_deposit(balance: int, amount: int) -> int {
    if bank_accepts(balance, amount) {
        balance + amount
    } else {
        balance
    }
}

/// The bank balance after a withdrawal, which fails where the bank does not
/// hold the amount.
pub open spec fn bank_after_withdrawal(balance: int, amount: int) -> int {
    if bank_gives(balance, amount) {
        balance - amount
    } else {
        balance
    }
}

//Default growth is inflation-linked. This type of growth assumes that the polling frequency for
//changes to the flow state is monthly. If it is more than this, the value will be updated too
//often.
#[derive(Clone, Copy, Debug, PartialEq, Eq, Structural)]
pub enum Flow {
    Employment(InflationLinkedGrowth, Employment),
    EmploymentStaticGrowth(StaticGrowth, Employment),
    EmploymentPAYE(InflationLinkedGrowth, EmploymentPAYE),
    EmploymentPAYEStaticGrowth(StaticGrowth, EmploymentPAYE),
    Rental(Rental),
    Expense(Expense),
    InflationLinkedExpense(InflationLinkedGrowth, Expense),
    PctOfIncomeExpense(PctOfIncomeExpense),
}

/// Growth by the inflation that the data source quotes for the day.
#[derive(Clone, Copy, Debug, PartialEq, Eq, Structural)]
pub struct InflationLinkedGrowth {
    pub schedule: Schedule,
}

impl InflationLinkedGrowth {
    /// Whether the growth can be applied at a time: where it is due, the
    /// source quotes an inflation rate that can be applied.
    pub open spec fn ready(self, curr: int, source: HashMapSourceSim) -> bool {
        self.schedule.hits(curr) ==> (source.inflation_at(curr) matches Some(rate) && quotable(
            rate,
        ))
    }

    /// An amount after the growth of a day.
    pub open spec fn grown(self, curr: int, source: HashMapSourceSim, value: CashValue) -> CashValue {
        if self.schedule.hits(curr) {
            CashValue { minor: grow(value@, source.inflation_at(curr).unwrap()@) as i64 }
        } else {
            value
        }
    }

    fn apply(&self, curr: DateTime, source: &HashMapSourceSim, value: CashValue) -> (new_val:
        CashValue)
        requires
            self.ready(curr as int, *source),
            flow_amount(value),
        ensures
            new_val == self.grown(curr as int, *source, value),
            0 <= new_val@ <= 10 * TAX_LIMIT,
    {
        if self.schedule.check(curr) {
            if let Some(inflation) = source.get_current_inflation(curr) {
                proof {
                    lemma_growth_keeps_sign(value@, inflation@);
                }
                return inflation.grow(value);
            }
        }
        value
    }

    /// Growth by the quoted inflation on the days of a schedule.
    pub fn new(schedule: Schedule) -> (growth: Self)
        ensures
            growth.schedule == schedule,
    {
        Self { schedule }
    }
}

/// An amount that is not negative stays so under growth by a rate of minus
/// one or more, and grows no more than tenfold under a rate that the
/// arithmetic accepts.
pub proof fn lemma_growth_keeps_sign(value: int, ppb: int)
    requires
        0 <= value,
        -crate::money::RATE_SCALE <= ppb <= crate::money::RATE_LIMIT,
    ensures
        0 <= grow(value, ppb) <= 10 * value,
{
    assert(-value <= (value * ppb) / 1_000_000_000 <= 9 * value) by (nonlinear_arith)
        requires
            0 <= value,
            -1_000_000_000 <= ppb <= 9_000_000_000,
    ;
}

/// Growth by a fixed rate each time the flow comes due.
#[derive(Clone, Copy, Debug, PartialEq, Eq, Structural)]
pub struct StaticGrowth {
    pub growth_rate: Rate,
}

impl StaticGrowth {
    /// An amount after the growth of a day on which the flow is due or not.
    pub open spec fn grown(self, due: bool, value: CashValue) -> CashValue {
        if due {
            CashValue { minor: grow(value@, self.growth_rate@) as i64 }
        } else {
            value
        }
    }

    fn apply(&self, due: bool, value: CashValue) -> (new_val: CashValue)
        requires
            quotable(self.growth_rate),
            flow_amount(value),
        ensures
            new_val == self.grown(due, value),
            0 <= new_val@ <= 10 * TAX_LIMIT,
    {
        if due {
            proof {
                lemma_growth_keeps_sign(value@, self.growth_rate@);
            }
            self.growth_rate.grow(value)
        } else {
            value
        }
    }

    /// Growth by a fixed rate.
    pub fn new(growth_rate: Rate) -> (growth: Self)
        ensures
            growth.growth_rate == growth_rate,
    {
        Self { growth_rate }
    }
}

/// A wage that is taxed at the end of the tax year.
#[derive(Clone, Copy, Debug, PartialEq, Eq, Structural)]
pub struct Employment {
    pub value: CashValue,
    pub schedule: Schedule,
}

impl Employment {
    /// The ledger after a wage: the gross wage counts as employment income
    /// outside PAYE and as gross income, the wage less the pension
    /// contribution as net income and as income of the tick.
    pub open spec fn ledger_after(self, ledger: Ledger, contributed: int) -> Ledger {
        let net_pay = self.value@ - contributed;
        Ledger {
            non_paye_income_annual: credited(ledger.non_paye_income_annual, self.value@),
            sipp_contributions_annual: credited(ledger.sipp_contributions_annual, contributed),
            paid_into_sipp_since_start: credited(ledger.paid_into_sipp_since_start, contributed),
            gross_income_annual: credited(ledger.gross_income_annual, self.value@),
            net_income_annual: credited(ledger.net_income_annual, net_pay),
            income_paid_in_curr_loop: credited(ledger.income_paid_in_curr_loop, net_pay),
            ..ledger
        }
    }

    /// The books after a wage: the pension takes what it can of the
    /// contribution, and the bank is paid the wage less what the pension
    /// took.
    pub open spec fn books_after(self, terms: PayTerms, books: Books) -> Books {
        let taken = contributed(self.value@, terms, books);
        Books {
            bank: bank_after_deposit(books.bank, self.value@ - taken),
            ledger: self.ledger_after(books.ledger, taken),
            ..pension_paid(books, taken)
        }
    }

    /// What a wage that is due does.
    pub open spec fn paid<S: InvestmentStrategy>(
        self,
        pre: &UKSimulationState<S>,
        post: &UKSimulationState<S>,
    ) -> bool {
        only_cash_moved(pre, post) && post.books() == self.books_after(pre.pay_terms(), pre.books())
    }

    /// Pays the wage if it is due.
    pub fn check<S: InvestmentStrategy>(&self, curr: DateTime, state: &mut UKSimulationState<S>)
        requires
            old(state).wf(),
            flow_amount(self.value),
        ensures
            final(state).sound(),
            final(state).ledger.within(42 * TAX_LIMIT),
            !self.schedule.hits(curr as int) ==> *final(state) == *old(state),
            self.schedule.hits(curr as int) ==> self.paid(old(state), final(state)),
    {
        if self.schedule.check(curr) {
            //Non-paye employment income deducts contributions but doesn't take income tax or NI
            //until annual tax date
            state.ledger.non_paye_income_annual = credit(
                state.ledger.non_paye_income_annual,
                self.value,
            );
            proof {
                crate::money::lemma_mul_rate_fraction(self.value@, state.contribution_pct@);
            }
            let contribution = state.contribution_pct.of(self.value);
            let (contributed, _remainder) = state.sipp.deposit_wrapper(contribution);
            state.ledger.sipp_contributions_annual = credit(
                state.ledger.sipp_contributions_annual,
                contributed,
            );
            state.ledger.paid_into_sipp_since_start = credit(
                state.ledger.paid_into_sipp_since_start,
                contributed,
            );
            let net_pay = CashValue { minor: self.value.minor - contributed.minor };
            state.bank.deposit(net_pay);

            state.ledger.gross_income_annual = credit(state.ledger.gross_income_annual, self.value);
            state.ledger.net_income_annual = credit(state.ledger.net_income_annual, net_pay);
            state.ledger.income_paid_in_curr_loop = credit(
                state.ledger.income_paid_in_curr_loop,
                net_pay,
            );
        }
    }

    /// The wage.
    pub fn get_value(&self) -> (value: CashValue)
        ensures
            value == self.value,
    {
        self.value
    }

    /// Sets the wage.
    pub fn set_value(&mut self, cash: CashValue)
        ensures
            final(self).value == cash,
            final(self).schedule == old(self).schedule,
    {
        self.value = cash;
    }

    /// A wage that grows by a fixed rate each time it is paid.
    pub fn static_growth(value: CashValue, schedule: Schedule, growth: Rate) -> (flow: Flow)
        ensures
            flow == Flow::EmploymentStaticGrowth(
                StaticGrowth { growth_rate: growth },
                Employment { value, schedule },
            ),
    {
        let growth = StaticGrowth::new(growth);
        let employment = Employment::new(value, schedule);
        Flow::EmploymentStaticGrowth(growth, employment)
    }

    /// A wage that grows with inflation each time it is paid.
    pub fn flow(value: CashValue, schedule: Schedule) -> (flow: Flow)
        ensures
            flow == Flow::Employment(
                InflationLinkedGrowth { schedule },
                Employment { value, schedule },
            ),
    {
        let income = Employment::new(value, schedule);
        let data = InflationLinkedGrowth::new(schedule);
        Flow::Employment(data, income)
    }

    /// A wage on a schedule.
    pub fn new(value: CashValue, schedule: Schedule) -> (employment: Self)
        ensures
            employment.value == value,
            employment.schedule == schedule,
    {
        Self { value, schedule }
    }
}

/// A wage from which tax and National Insurance are withheld as it is paid.
#[derive(Clone, Copy, Debug, PartialEq, Eq, Structural)]
pub struct EmploymentPAYE {
    pub value: CashValue,
    pub schedule: Schedule,
}

impl EmploymentPAYE {
    /// What is withheld from the wage after a pension contribution.
    pub open spec fn withheld(self, terms: PayTerms, books: Books) -> int {
        paye_due(self.value@, contributed(self.value@, terms, books), terms.nic, terms.config)
    }

    /// The ledger after a wage: what was withheld counts as tax paid and as
    /// tax paid under PAYE; the gross wage as gross income; the wage less
    /// contribution and tax as pay under PAYE, as net income and as income
    /// of the tick.
    pub open spec fn ledger_after(self, ledger: Ledger, contributed: int, withheld: int) -> Ledger {
        let net_pay = self.value@ - contributed - withheld;
        Ledger {
            sipp_contributions_annual: credited(ledger.sipp_contributions_annual, contributed),
            paid_into_sipp_since_start: credited(ledger.paid_into_sipp_since_start, contributed),
            tax_paid_annual: credited(ledger.tax_paid_annual, withheld),
            tax_paid_paye_annual: credited(ledger.tax_paid_paye_annual, withheld),
            paye_income_annual: credited(ledger.paye_income_annual, net_pay),
            gross_income_annual: credited(ledger.gross_income_annual, self.value@),
            net_income_annual: credited(ledger.net_income_annual, net_pay),
            income_paid_in_curr_loop: credited(ledger.income_paid_in_curr_loop, net_pay),
            ..ledger
        }
    }

    /// The books after a wage: the pension takes what it can of the
    /// contribution, tax and insurance are withheld on the wage less what
    /// the pension took, and the bank is paid the rest.
    pub open spec fn books_after(self, terms: PayTerms, books: Books) -> Books {
        let taken = contributed(self.value@, terms, books);
        let withheld = self.withheld(terms, books);
        Books {
            bank: bank_after_deposit(books.bank, self.value@ - taken - withheld),
            ledger: self.ledger_after(books.ledger, taken, withheld),
            ..pension_paid(books, taken)
        }
    }

    /// What a wage that is due does.
    pub open spec fn paid<S: InvestmentStrategy>(
        self,
        pre: &UKSimulationState<S>,
        post: &UKSimulationState<S>,
    ) -> bool {
        only_cash_moved(pre, post) && post.books() == self.books_after(pre.pay_terms(), pre.books())
    }

    /// Pays the wage, net of what is withheld, if it is due.
    pub fn check<S: InvestmentStrategy>(&self, curr: DateTime, state: &mut UKSimulationState<S>)
        requires
            old(state).wf(),
            flow_amount(self.value),
        ensures
            final(state).sound(),
            final(state).ledger.within(82 * TAX_LIMIT),
            !self.schedule.hits(curr as int) ==> *final(state) == *old(state),
            self.schedule.hits(curr as int) ==> self.paid(old(state), final(state)),
    {
        if self.schedule.check(curr) {
            //Have to deduct income tax and NI and SIPP contributions
            proof {
                crate::money::lemma_mul_rate_fraction(self.value@, state.contribution_pct@);
            }
            let contribution = state.contribution_pct.of(self.value);
            let (contributed, _remainder) = state.sipp.deposit_wrapper(contribution);
            state.ledger.sipp_contributions_annual = credit(
                state.ledger.sipp_contributions_annual,
                contributed,
            );
            state.ledger.paid_into_sipp_since_start = credit(
                state.ledger.paid_into_sipp_since_start,
                contributed,
            );

            //Takes both income tax and NI
            let paye_paid = TaxPeriod::paye(
                self.value,
                contributed,
                state.nic_group,
                &state.tax_config,
            );
            let withheld = paye_paid.total();
            state.ledger.tax_paid_annual = credit(state.ledger.tax_paid_annual, withheld);
            state.ledger.tax_paid_paye_annual = credit(state.ledger.tax_paid_paye_annual, withheld);

            //We don't deduct paye paid from bank but deduct it straight from gross_pay
            let net_pay = CashValue {
                minor: self.value.minor - contributed.minor - withheld.minor,
            };
            state.bank.deposit(net_pay);

            state.ledger.paye_income_annual = credit(state.ledger.paye_income_annual, net_pay);

            state.ledger.gross_income_annual = credit(state.ledger.gross_income_annual, self.value);
            state.ledger.net_income_annual = credit(state.ledger.net_income_annual, net_pay);
            state.ledger.income_paid_in_curr_loop = credit(
                state.ledger.income_paid_in_curr_loop,
                net_pay,
            );
        }
    }

    /// The wage.
    pub fn get_value(&self) -> (value: CashValue)
        ensures
            value == self.value,
    {
        self.value
    }

    /// Sets the wage.
    pub fn set_value(&mut self, val: CashValue)
        ensures
            final(self).value == val,
            final(self).schedule == old(self).schedule,
    {
        self.value = val;
    }

    /// A wage under PAYE that grows by a fixed rate each time it is paid.
    pub fn static_growth(value: CashValue, schedule: Schedule, growth: Rate) -> (flow: Flow)
        ensures
            flow == Flow::EmploymentPAYEStaticGrowth(
                StaticGrowth { growth_rate: growth },
                EmploymentPAYE { value, schedule },
            ),
    {
        let growth = StaticGrowth::new(growth);
        let employment = EmploymentPAYE::new(value, schedule);
        Flow::EmploymentPAYEStaticGrowth(growth, employment)
    }

    /// A wage under PAYE that grows with inflation each time it is paid.
    pub fn flow(value: CashValue, schedule: Schedule) -> (flow: Flow)
        ensures
            flow == Flow::EmploymentPAYE(
                InflationLinkedGrowth { schedule },
                EmploymentPAYE { value, schedule },
            ),
    {
        let income = EmploymentPAYE::new(value, schedule);
        let data = InflationLinkedGrowth::new(schedule);
        Flow::EmploymentPAYE(data, income)
    }

    /// A wage under PAYE on a schedule.
    pub fn new(value: CashValue, schedule: Schedule) -> (employment: Self)
        ensures
            employment.value == value,
            employment.schedule == schedule,
    {
        Self { value, schedule }
    }
}

/// Rent received.
#[derive(Clone, Copy, Debug, PartialEq, Eq, Structural)]
pub struct Rental {
    pub value: CashValue,
    pub schedule: Schedule,
}

impl Rental {
    /// The ledger after a rent: it counts as rental income, as gross income
    /// and as income of the tick.
    pub open spec fn ledger_after(self, ledger: Ledger) -> Ledger {
        Ledger {
            rental_income_annual: credited(ledger.rental_income_annual, self.value@),
            gross_income_annual: credited(ledger.gross_income_annual, self.value@),
            income_paid_in_curr_loop: credited(ledger.income_paid_in_curr_loop, self.value@),
            ..ledger
        }
    }

    /// The books after a rent: the bank is paid the whole of it.
    pub open spec fn books_after(self, books: Books) -> Books {
        Books {
            bank: bank_after_deposit(books.bank, self.value@),
            ledger: self.ledger_after(books.ledger),
            ..books
        }
    }

    /// What a rent that is due does.
    pub open spec fn paid<S: InvestmentStrategy>(
        self,
        pre: &UKSimulationState<S>,
        post: &UKSimulationState<S>,
    ) -> bool {
        only_cash_moved(pre, post) && post.sipp == pre.sipp && post.books() == self.books_after(
            pre.books(),
        )
    }

    /// Pays the rent in if it is due.
    pub fn check<S: InvestmentStrategy>(&self, curr: DateTime, state: &mut UKSimulationState<S>)
        requires
            old(state).wf(),
            flow_amount(self.value),
        ensures
            final(state).sound(),
            final(state).ledger.within(2 * TAX_LIMIT),
            !self.schedule.hits(curr as int) ==> *final(state) == *old(state),
            self.schedule.hits(curr as int) ==> self.paid(old(state), final(state)),
    {
        if self.schedule.check(curr) {
            state.ledger.rental_income_annual = credit(
                state.ledger.rental_income_annual,
                self.value,
            );
            state.bank.deposit(self.value);

            state.ledger.gross_income_annual = credit(state.ledger.gross_income_annual, self.value);
            state.ledger.income_paid_in_curr_loop = credit(
                state.ledger.income_paid_in_curr_loop,
                self.value,
            );
        }
    }

    /// The rent.
    pub fn get_value(&self) -> (value: CashValue)
        ensures
            value == self.value,
    {
        self.value
    }

    /// Sets the rent.
    pub fn set_value(&mut self, val: CashValue)
        ensures
            final(self).value == val,
            final(self).schedule == old(self).schedule,
    {
        self.value = val;
    }

    /// A rent on a schedule.
    pub fn new(value: CashValue, schedule: Schedule) -> (rental: Self)
        ensures
            rental.value == value,
            rental.schedule == schedule,
    {
        Self { value, schedule }
    }

    /// A rent as a flow.
    pub fn flow(value: CashValue, schedule: Schedule) -> (flow: Flow)
        ensures
            flow == Flow::Rental(Rental { value, schedule }),
    {
        Flow::Rental(Self::new(value, schedule))
    }
}

/// A fixed expense.
#[derive(Clone, Copy, Debug, PartialEq, Eq, Structural)]
pub struct Expense {
    pub value: CashValue,
    pub schedule: Schedule,
}

/// The books after an expense: it counts as expense of the year, and the
/// bank pays it if it holds that much.
pub open spec fn books_after_expense(amount: int, books: Books) -> Books {
    Books {
        bank: bank_after_withdrawal(books.bank, amount),
        ledger: Ledger { expense_annual: credited(books.ledger.expense_annual, amount), ..books.ledger },
        ..books
    }
}

/// What an expense that is due does.
pub open spec fn expense_paid<S: InvestmentStrategy>(
    amount: int,
    pre: &UKSimulationState<S>,
    post: &UKSimulationState<S>,
) -> bool {
    only_cash_moved(pre, post) && post.sipp == pre.sipp && post.books() == books_after_expense(
        amount,
        pre.books(),
    )
}

fn pay_expense<S: InvestmentStrategy>(amount: CashValue, state: &mut UKSimulationState<S>)
    requires
        old(state).wf(),
        0 <= amount@ <= TAX_LIMIT,
    ensures
        final(state).sound(),
        final(state).ledger.within(2 * TAX_LIMIT),
        expense_paid(amount@, old(state), final(state)),
{
    state.ledger.expense_annual = credit(state.ledger.expense_annual, amount);
    state.bank.withdraw(amount);
}

impl Expense {
    /// Pays the expense if it is due and the bank holds that much.
    pub fn check<S: InvestmentStrategy>(&self, curr: DateTime, state: &mut UKSimulationState<S>)
        requires
            old(state).wf(),
            flow_amount(self.value),
        ensures
            final(state).sound(),
            final(state).ledger.within(2 * TAX_LIMIT),
            !self.schedule.hits(curr as int) ==> *final(state) == *old(state),
            self.schedule.hits(curr as int) ==> expense_paid(self.value@, old(state), final(state)),
    {
        if self.schedule.check(curr) {
            pay_expense(self.value, state);
        }
    }

    /// The expense.
    pub fn get_value(&self) -> (value: CashValue)
        ensures
            value == self.value,
    {
        self.value
    }

    /// Sets the expense.
    pub fn set_value(&mut self, val: CashValue)
        ensures
            final(self).value == val,
            final(self).schedule == old(self).schedule,
    {
        self.value = val;
    }

    /// An expense on a schedule.
    pub fn new(value: CashValue, schedule: Schedule) -> (expense: Self)
        ensures
            expense.value == value,
            expense.schedule == schedule,
    {
        Self { value, schedule }
    }

    /// An expense that grows with inflation each time it is due.
    pub fn inflation_linked(value: CashValue, schedule: Schedule) -> (flow: Flow)
        ensures
            flow == Flow::InflationLinkedExpense(
                InflationLinkedGrowth { schedule },
                Expense { value, schedule },
            ),
    {
        let expense = Expense::new(value, schedule);
        let data = InflationLinkedGrowth::new(schedule);
        Flow::InflationLinkedExpense(data, expense)
    }

    /// An expense as a flow.
    pub fn flow(value: CashValue, schedule: Schedule) -> (flow: Flow)
        ensures
            flow == Flow::Expense(Expense { value, schedule }),
    {
        Flow::Expense(Self::new(value, schedule))
    }
}

/// An expense of a share of the income that the tick has paid so far.
#[derive(Clone, Copy, Debug, PartialEq, Eq, Structural)]
pub struct PctOfIncomeExpense {
    pub pct: Rate,
    pub schedule: Schedule,
}

impl PctOfIncomeExpense {
    /// The expense: the share of the income of the tick, rounded down.
    pub open spec fn amount(self, income_paid: int) -> int {
        mul_rate(income_paid, self.pct@)
    }

    /// Whether the expense can be worked out at a time: where it is due,
    /// income has been paid in the tick.
    pub open spec fn ready(self, curr: int, income_paid: int) -> bool {
        self.schedule.hits(curr) ==> income_paid > 0
    }

    /// Pays the expense if it is due. The income of the tick has to be
    /// positive by then: an expense that comes due before any income is a
    /// fault in the order of the flows.
    pub fn check<S: InvestmentStrategy>(&self, curr: DateTime, state: &mut UKSimulationState<S>)
        requires
            old(state).wf(),
            self.pct.is_fraction(),
            self.ready(curr as int, old(state).ledger.income_paid_in_curr_loop@),
        ensures
            final(state).sound(),
            final(state).ledger.within(2 * TAX_LIMIT),
            !self.schedule.hits(curr as int) ==> *final(state) == *old(state),
            self.schedule.hits(curr as int) ==> expense_paid(
                self.amount(old(state).ledger.income_paid_in_curr_loop@),
                old(state),
                final(state),
            ),
    {
        if self.schedule.check(curr) {
            //This is correct, tried to fiddle with this and we need to make sure that income runs
            //before expense. If this isn't true then the simulation cannot continue/we generate
            //lots of erroneous transactions.
            proof {
                crate::money::lemma_mul_rate_fraction(
                    state.ledger.income_paid_in_curr_loop@,
                    self.pct@,
                );
            }
            let expense_value = self.pct.of(state.ledger.income_paid_in_curr_loop);
            pay_expense(expense_value, state);
        }
    }

    /// An expense of a share of income on a schedule.
    pub fn new(pct: Rate, schedule: Schedule) -> (expense: Self)
        ensures
            expense.pct == pct,
            expense.schedule == schedule,
    {
        Self { pct, schedule }
    }

    /// An expense of a share of income as a flow.
    pub fn flow(pct: Rate, schedule: Schedule) -> (flow: Flow)
        ensures
            flow == Flow::PctOfIncomeExpense(PctOfIncomeExpense { pct, schedule }),
    {
        Flow::PctOfIncomeExpense(Self::new(pct, schedule))
    }
}

impl Flow {
    /// Whether the flow takes money out.
    pub open spec fn expense(self) -> bool {
        self is Expense || self is InflationLinkedExpense || self is PctOfIncomeExpense
    }

    /// Whether the flow takes money out.
    pub fn is_expense(&self) -> (expense: bool)
        ensures
            expense == self.expense(),
    {
        match self {
            Flow::Expense(_) | Flow::InflationLinkedExpense(_, _) | Flow::PctOfIncomeExpense(_) => {
                true
            },
            _ => false,
        }
    }

    /// The amount is one that a flow can carry, a share lies between nothing
    /// and the whole, and a fixed growth rate is one that can be quoted.
    pub open spec fn wf(self) -> bool {
        match self {
            Flow::Employment(_, val) => flow_amount(val.value),
            Flow::EmploymentStaticGrowth(growth, val) => flow_amount(val.value) && quotable(
                growth.growth_rate,
            ),
            Flow::EmploymentPAYE(_, val) => flow_amount(val.value),
            Flow::EmploymentPAYEStaticGrowth(growth, val) => flow_amount(val.value) && quotable(
                growth.growth_rate,
            ),
            Flow::Rental(val) => flow_amount(val.value),
            Flow::Expense(val) => flow_amount(val.value),
            Flow::InflationLinkedExpense(_, val) => flow_amount(val.value),
            Flow::PctOfIncomeExpense(val) => val.pct.is_fraction(),
        }
    }

    /// What stops the flow at a time, if anything, given the data source
    /// and the income that the tick has paid so far: inflation-linked growth
    /// that is due without a quoted inflation, or a share of income that is
    /// due before any income.
    pub open spec fn obstacle(self, curr: int, source: HashMapSourceSim, income_paid: int) -> Option<
        SimError,
    > {
        match self {
            Flow::Employment(growth, _) | Flow::EmploymentPAYE(growth, _)
            | Flow::InflationLinkedExpense(growth, _) => if !growth.schedule.hits(curr) {
                None
            } else {
                match source.inflation_at(curr) {
                    None => Some(SimError::MissingInflation),
                    Some(rate) => if quotable(rate) {
                        None
                    } else {
                        Some(SimError::OutOfRange)
                    },
                }
            },
            Flow::PctOfIncomeExpense(val) => if val.ready(curr, income_paid) {
                None
            } else {
                Some(SimError::NoIncomeForExpense)
            },
            _ => None,
        }
    }

    /// Whether nothing stops the flow at a time in a simulation.
    pub open spec fn ready<S: InvestmentStrategy>(self, curr: int, state: &UKSimulationState<S>) -> bool {
        self.obstacle(curr, state.source, state.ledger.income_paid_in_curr_loop@).is_none()
    }

    /// Whether the amounts and rates of the flow are ones that it can carry.
    pub fn check_range(&self) -> (ok: bool)
        ensures
            ok == self.wf(),
    {
        match self {
            Flow::Employment(_, val) => amount_ok(val.value),
            Flow::EmploymentStaticGrowth(growth, val) => amount_ok(val.value) && rate_ok(
                growth.growth_rate,
            ),
            Flow::EmploymentPAYE(_, val) => amount_ok(val.value),
            Flow::EmploymentPAYEStaticGrowth(growth, val) => amount_ok(val.value) && rate_ok(
                growth.growth_rate,
            ),
            Flow::Rental(val) => amount_ok(val.value),
            Flow::Expense(val) => amount_ok(val.value),
            Flow::InflationLinkedExpense(_, val) => amount_ok(val.value),
            Flow::PctOfIncomeExpense(val) => 0 <= val.pct.ppb && val.pct.ppb
                <= crate::money::RATE_SCALE,
        }
    }

    /// What stops the flow at a time, if anything.
    pub fn find_obstacle<S: InvestmentStrategy>(&self, curr: DateTime, state: &UKSimulationState<S>) -> (found:
        Option<SimError>)
        ensures
            found == self.obstacle(
                curr as int,
                state.source,
                state.ledger.income_paid_in_curr_loop@,
            ),
    {
        match self {
            Flow::Employment(growth, _) | Flow::EmploymentPAYE(growth, _)
            | Flow::InflationLinkedExpense(growth, _) => {
                if !growth.schedule.check(curr) {
                    None
                } else {
                    match state.source.get_current_inflation(curr) {
                        None => Some(SimError::MissingInflation),
                        Some(rate) => {
                            if rate_ok(rate) {
                                None
                            } else {
                                Some(SimError::OutOfRange)
                            }
                        },
                    }
                }
            },
            Flow::PctOfIncomeExpense(val) => {
                if val.schedule.check(curr) && state.ledger.income_paid_in_curr_loop.minor <= 0 {
                    Some(SimError::NoIncomeForExpense)
                } else {
                    None
                }
            },
            _ => None,
        }
    }

    /// Whether the flow is due at a time.
    pub open spec fn due(self, curr: int) -> bool {
        match self {
            Flow::Employment(_, val) => val.schedule.hits(curr),
            Flow::EmploymentStaticGrowth(_, val) => val.schedule.hits(curr),
            Flow::EmploymentPAYE(_, val) => val.schedule.hits(curr),
            Flow::EmploymentPAYEStaticGrowth(_, val) => val.schedule.hits(curr),
            Flow::Rental(val) => val.schedule.hits(curr),
            Flow::Expense(val) => val.schedule.hits(curr),
            Flow::InflationLinkedExpense(_, val) => val.schedule.hits(curr),
            Flow::PctOfIncomeExpense(val) => val.schedule.hits(curr),
        }
    }

    /// The books after the flow has had its turn at a time: as they were
    /// where the flow is not due, else as its kind of flow leaves them.
    pub open spec fn books_after(self, curr: int, terms: PayTerms, books: Books) -> Books {
        if !self.due(curr) {
            books
        } else {
            match self {
                Flow::Employment(_, val) => val.books_after(terms, books),
                Flow::EmploymentStaticGrowth(_, val) => val.books_after(terms, books),
                Flow::EmploymentPAYE(_, val) => val.books_after(terms, books),
                Flow::EmploymentPAYEStaticGrowth(_, val) => val.books_after(terms, books),
                Flow::Rental(val) => val.books_after(books),
                Flow::Expense(val) => books_after_expense(val.value@, books),
                Flow::InflationLinkedExpense(_, val) => books_after_expense(val.value@, books),
                Flow::PctOfIncomeExpense(val) => books_after_expense(
                    val.amount(books.ledger.income_paid_in_curr_loop@),
                    books,
                ),
            }
        }
    }

    /// The flow after a day: its amount grown where its growth is due.
    /// Inflation-linked growth is due by its own schedule, fixed growth
    /// whenever the flow is.
    pub open spec fn grown(self, curr: int, source: HashMapSourceSim) -> Flow {
        match self {
            Flow::Employment(growth, val) => Flow::Employment(
                growth,
                Employment { value: growth.grown(curr, source, val.value), ..val },
            ),
            Flow::EmploymentStaticGrowth(growth, val) => Flow::EmploymentStaticGrowth(
                growth,
                Employment { value: growth.grown(val.schedule.hits(curr), val.value), ..val },
            ),
            Flow::EmploymentPAYE(growth, val) => Flow::EmploymentPAYE(
                growth,
                EmploymentPAYE { value: growth.grown(curr, source, val.value), ..val },
            ),
            Flow::EmploymentPAYEStaticGrowth(growth, val) => Flow::EmploymentPAYEStaticGrowth(
                growth,
                EmploymentPAYE { value: growth.grown(val.schedule.hits(curr), val.value), ..val },
            ),
            Flow::InflationLinkedExpense(growth, val) => Flow::InflationLinkedExpense(
                growth,
                Expense { value: growth.grown(curr, source, val.value), ..val },
            ),
            _ => self,
        }
    }

    /// Lets the flow act on the simulation if it is due, and then lets its
    /// amount grow if its growth is due. A flow touches nothing but the
    /// bank, the pension and the ledger.
    pub fn check<S: InvestmentStrategy>(&mut self, curr: DateTime, state: &mut UKSimulationState<S>)
        requires
            old(state).wf(),
            old(self).wf(),
            old(self).ready(curr as int, old(state)),
        ensures
            final(state).sound(),
            final(state).ledger.within(82 * TAX_LIMIT),
            only_cash_moved(old(state), final(state)),
            final(state).books() == old(self).books_after(
                curr as int,
                old(state).pay_terms(),
                old(state).books(),
            ),
            !old(self).due(curr as int) ==> *final(state) == *old(state),
            *final(self) == old(self).grown(curr as int, old(state).source),
    {
        //Sometimes the check call will be made to the underlying object. If the data references
        //some additional data, i.e. inflation, then the call is made to the growth object instead
        //which modifies the value
        match self {
            Flow::Employment(growth, val) => {
                let new_val = growth.apply(curr, &state.source, val.value);
                val.check(curr, state);
                val.set_value(new_val);
            },
            Flow::EmploymentStaticGrowth(growth, val) => {
                let due = val.schedule.check(curr);
                val.check(curr, state);
                let new_val = growth.apply(due, val.value);
                val.set_value(new_val);
            },
            Flow::EmploymentPAYE(growth, val) => {
                let new_val = growth.apply(curr, &state.source, val.value);
                val.check(curr, state);
                val.set_value(new_val);
            },
            Flow::EmploymentPAYEStaticGrowth(growth, val) => {
                let due = val.schedule.check(curr);
                val.check(curr, state);
                let new_val = growth.apply(due, val.value);
                val.set_value(new_val);
            },
            Flow::Rental(val) => val.check(curr, state),
            Flow::Expense(val) => val.check(curr, state),
            Flow::InflationLinkedExpense(growth, val) => {
                let new_val = growth.apply(curr, &state.source, val.value);
                val.check(curr, state);
                val.set_value(new_val);
            },
            Flow::PctOfIncomeExpense(val) => val.check(curr, state),
        }
    }
}

fn amount_ok(value: CashValue) -> (ok: bool)
    ensures
        ok == flow_amount(value),
{
    0 <= value.minor && value.minor <= TAX_LIMIT
}

fn rate_ok(rate: Rate) -> (ok: bool)
    ensures
        ok == quotable(rate),
{
    -crate::money::RATE_SCALE <= rate.ppb && rate.ppb <= crate::money::RATE_LIMIT
}

} // verus!
