//! The simulation of one household, tick by tick.
use vstd::prelude::*;
use crate::acc::{CanTransfer, TransferResult};
use crate::flow::{contributed, Employment, Flow, PctOfIncomeExpense, StaticGrowth};
use crate::input::{quotable, HashMapSourceSim, SimDataSource};
use crate::money::{lemma_mul_rate_fraction, mul_rate, CashValue, Rate, CASH_LIMIT};
use crate::schedule::{DateTime, Schedule};
use crate::stack::{bank_accepts, BankAcc, Gia, Isa, Sipp};
use crate::strat::InvestmentStrategy;
use crate::tax::uk::ni::NIC;
use crate::tax::uk::{total_tax, TaxPeriod, UKTaxConfig, UKTaxInput, TAX_LIMIT};

verus! {

/// The value and the net payments of one investment account at a time.
#[derive(Clone, Copy, Debug, PartialEq, Eq, Structural)]
pub struct StrategySnapshot {
    pub date: DateTime,
    pub portfolio_value: CashValue,
    pub net_cash_flow: CashValue,
}

/// One year of the household's figures.
#[derive(Clone, Copy, Debug, PartialEq, Eq, Structural)]
pub struct UKSimulationPerformanceAnnualFrame {
    pub isa_snapshot: StrategySnapshot,
    pub sipp_snapshot: StrategySnapshot,
    pub gia_snapshot: StrategySnapshot,
    pub cash: CashValue,
    pub gross_income: CashValue,
    pub net_income: CashValue,
    pub expense: CashValue,
    pub tax_paid: CashValue,
    pub sipp_contributions: CashValue,
}

/// Whether the simulation still runs.
#[derive(Clone, Copy, Debug, PartialEq, Eq, Structural)]
pub enum SimState {
    Ready,
    //If in unrecoverable state, all further mutations to state stop should only happen when we run
    //out of money
    Unrecoverable,
}

/// What aborts a run.
#[derive(Clone, Copy, Debug, PartialEq, Eq, Structural)]
pub enum SimError {
    /// The source quotes no inflation for a day on which it is needed.
    MissingInflation,
    /// A percentage-of-income expense came due before any income of the tick.
    NoIncomeForExpense,
    /// A figure has left the range that the arithmetic accepts.
    OutOfRange,
}

/// The running totals of a simulation.
#[derive(Clone, Copy, Debug, PartialEq, Eq, Structural)]
pub struct Ledger {
    pub income_paid_in_curr_loop: CashValue,
    pub gross_income_annual: CashValue,
    pub net_income_annual: CashValue,
    pub expense_annual: CashValue,
    pub tax_paid_annual: CashValue,
    pub tax_paid_paye_annual: CashValue,
    pub non_paye_income_annual: CashValue,
    pub paye_income_annual: CashValue,
    pub savings_income_annual: CashValue,
    pub rental_income_annual: CashValue,
    pub self_employment_income_annual: CashValue,
    pub sipp_contributions_annual: CashValue,
    //Persists over the life of simulation
    pub paid_into_isa_since_start: CashValue,
    pub paid_into_gia_since_start: CashValue,
    pub paid_into_sipp_since_start: CashValue,
}

impl Ledger {
    /// Every total lies within the given magnitude.
    pub open spec fn within(self, limit: int) -> bool {
        &&& self.income_paid_in_curr_loop.within(limit)
        &&& self.gross_income_annual.within(limit)
        &&& self.net_income_annual.within(limit)
        &&& self.expense_annual.within(limit)
        &&& self.tax_paid_annual.within(limit)
        &&& self.tax_paid_paye_annual.within(limit)
        &&& self.non_paye_income_annual.within(limit)
        &&& self.paye_income_annual.within(limit)
        &&& self.savings_income_annual.within(limit)
        &&& self.rental_income_annual.within(limit)
        &&& self.self_employment_income_annual.within(limit)
        &&& self.sipp_contributions_annual.within(limit)
        &&& self.paid_into_isa_since_start.within(limit)
        &&& self.paid_into_gia_since_start.within(limit)
        &&& self.paid_into_sipp_since_start.within(limit)
    }

    /// The ledger with every total at zero.
    pub open spec fn blank() -> Ledger {
        Ledger {
            income_paid_in_curr_loop: CashValue { minor: 0 },
            gross_income_annual: CashValue { minor: 0 },
            net_income_annual: CashValue { minor: 0 },
            expense_annual: CashValue { minor: 0 },
            tax_paid_annual: CashValue { minor: 0 },
            tax_paid_paye_annual: CashValue { minor: 0 },
            non_paye_income_annual: CashValue { minor: 0 },
            paye_income_annual: CashValue { minor: 0 },
            savings_income_annual: CashValue { minor: 0 },
            rental_income_annual: CashValue { minor: 0 },
            self_employment_income_annual: CashValue { minor: 0 },
            sipp_contributions_annual: CashValue { minor: 0 },
            paid_into_isa_since_start: CashValue { minor: 0 },
            paid_into_gia_since_start: CashValue { minor: 0 },
            paid_into_sipp_since_start: CashValue { minor: 0 },
        }
    }

    /// The totals of the year that the tax is worked out on are all zero.
    pub open spec fn nothing_to_tax(self) -> bool {
        &&& self.non_paye_income_annual@ == 0
        &&& self.paye_income_annual@ == 0
        &&& self.savings_income_annual@ == 0
        &&& self.rental_income_annual@ == 0
        &&& self.self_employment_income_annual@ == 0
        &&& self.sipp_contributions_annual@ == 0
        &&& self.tax_paid_paye_annual@ == 0
    }

    /// This ledger with the totals of the year at zero.
    pub open spec fn year_cleared(self) -> Ledger {
        Ledger {
            gross_income_annual: CashValue { minor: 0 },
            net_income_annual: CashValue { minor: 0 },
            expense_annual: CashValue { minor: 0 },
            tax_paid_annual: CashValue { minor: 0 },
            tax_paid_paye_annual: CashValue { minor: 0 },
            non_paye_income_annual: CashValue { minor: 0 },
            paye_income_annual: CashValue { minor: 0 },
            savings_income_annual: CashValue { minor: 0 },
            rental_income_annual: CashValue { minor: 0 },
            self_employment_income_annual: CashValue { minor: 0 },
            sipp_contributions_annual: CashValue { minor: 0 },
            ..self
        }
    }

    /// The figures that the year's totals hand to the tax engine, with the
    /// gains and dividends of the year.
    pub open spec fn tax_input(self, ni: NIC, capital_gains: CashValue, dividend: CashValue) -> UKTaxInput {
        UKTaxInput {
            non_paye_employment: self.non_paye_income_annual,
            paye_employment: self.paye_income_annual,
            rental: self.rental_income_annual,
            savings: self.savings_income_annual,
            self_employment: self.self_employment_income_annual,
            ni,
            paye_tax_paid: self.tax_paid_paye_annual,
            contributions: self.sipp_contributions_annual,
            capital_gains,
            dividend,
        }
    }

    /// The ledger with every total at zero.
    pub fn new() -> (ledger: Ledger)
        ensures
            ledger == Ledger::blank(),
    {
        Ledger {
            income_paid_in_curr_loop: CashValue::zero(),
            gross_income_annual: CashValue::zero(),
            net_income_annual: CashValue::zero(),
            expense_annual: CashValue::zero(),
            tax_paid_annual: CashValue::zero(),
            tax_paid_paye_annual: CashValue::zero(),
            non_paye_income_annual: CashValue::zero(),
            paye_income_annual: CashValue::zero(),
            savings_income_annual: CashValue::zero(),
            rental_income_annual: CashValue::zero(),
            self_employment_income_annual: CashValue::zero(),
            sipp_contributions_annual: CashValue::zero(),
            paid_into_isa_since_start: CashValue::zero(),
            paid_into_gia_since_start: CashValue::zero(),
            paid_into_sipp_since_start: CashValue::zero(),
        }
    }

    /// Whether every total lies within what the tax engine accepts.
    pub fn check_range(&self) -> (ok: bool)
        ensures
            ok == self.within(TAX_LIMIT as int),
    {
        crate::tax::uk::figure_ok(self.income_paid_in_curr_loop) && crate::tax::uk::figure_ok(
            self.gross_income_annual,
        ) && crate::tax::uk::figure_ok(self.net_income_annual) && crate::tax::uk::figure_ok(
            self.expense_annual,
        ) && crate::tax::uk::figure_ok(self.tax_paid_annual) && crate::tax::uk::figure_ok(
            self.tax_paid_paye_annual,
        ) && crate::tax::uk::figure_ok(self.non_paye_income_annual) && crate::tax::uk::figure_ok(
            self.paye_income_annual,
        ) && crate::tax::uk::figure_ok(self.savings_income_annual) && crate::tax::uk::figure_ok(
            self.rental_income_annual,
        ) && crate::tax::uk::figure_ok(self.self_employment_income_annual)
            && crate::tax::uk::figure_ok(self.sipp_contributions_annual)
            && crate::tax::uk::figure_ok(self.paid_into_isa_since_start)
            && crate::tax::uk::figure_ok(self.paid_into_gia_since_start)
            && crate::tax::uk::figure_ok(self.paid_into_sipp_since_start)
    }
}

/// Whether a snapshot holds a value that an account can have and a net
/// payment that the ledger can hold.
pub open spec fn snapshot_ok(snapshot: StrategySnapshot) -> bool {
    0 <= snapshot.portfolio_value@ <= CASH_LIMIT && snapshot.net_cash_flow.within(TAX_LIMIT as int)
}

/// What the simulation has recorded: a snapshot of each investment account
/// and of the cash on each performance date, and the totals of each tax year.
pub struct Tracker {
    pub isa_snapshot: Vec<StrategySnapshot>,
    pub sipp_snapshot: Vec<StrategySnapshot>,
    pub gia_snapshot: Vec<StrategySnapshot>,
    pub cash: Vec<CashValue>,
    pub gross_income: Vec<CashValue>,
    pub net_income: Vec<CashValue>,
    pub expense: Vec<CashValue>,
    //includes paye
    pub tax_paid: Vec<CashValue>,
    pub sipp_contributions: Vec<CashValue>,
}

impl Tracker {
    /// Each of the nine lists is empty.
    pub open spec fn blank(&self) -> bool {
        &&& self.isa_snapshot@.len() == 0
        &&& self.sipp_snapshot@.len() == 0
        &&& self.gia_snapshot@.len() == 0
        &&& self.cash@.len() == 0
        &&& self.gross_income@.len() == 0
        &&& self.net_income@.len() == 0
        &&& self.expense@.len() == 0
        &&& self.tax_paid@.len() == 0
        &&& self.sipp_contributions@.len() == 0
    }

    /// The record without any entry.
    pub fn new() -> (tracker: Tracker)
        ensures
            tracker.blank(),
            tracker.recorded(),
    {
        Tracker {
            isa_snapshot: Vec::new(),
            sipp_snapshot: Vec::new(),
            gia_snapshot: Vec::new(),
            cash: Vec::new(),
            gross_income: Vec::new(),
            net_income: Vec::new(),
            expense: Vec::new(),
            tax_paid: Vec::new(),
            sipp_contributions: Vec::new(),
        }
    }

    /// Every snapshot holds a value that an account can have and a net
    /// payment that the ledger can hold, and every record of the cash a
    /// balance that the bank can have.
    pub open spec fn recorded(&self) -> bool {
        &&& forall|i: int|
            0 <= i < self.isa_snapshot@.len() ==> snapshot_ok(#[trigger] self.isa_snapshot@[i])
        &&& forall|i: int|
            0 <= i < self.sipp_snapshot@.len() ==> snapshot_ok(#[trigger] self.sipp_snapshot@[i])
        &&& forall|i: int|
            0 <= i < self.gia_snapshot@.len() ==> snapshot_ok(#[trigger] self.gia_snapshot@[i])
        &&& forall|i: int| 0 <= i < self.cash@.len() ==> (#[trigger] self.cash@[i]).in_range()
    }

    /// Whether the snapshots are those of another tracker.
    pub open spec fn same_snapshots(&self, other: &Tracker) -> bool {
        &&& self.isa_snapshot@ == other.isa_snapshot@
        &&& self.sipp_snapshot@ == other.sipp_snapshot@
        &&& self.gia_snapshot@ == other.gia_snapshot@
        &&& self.cash@ == other.cash@
    }

    /// Whether the yearly totals are those of another tracker.
    pub open spec fn same_years(&self, other: &Tracker) -> bool {
        &&& self.gross_income@ == other.gross_income@
        &&& self.net_income@ == other.net_income@
        &&& self.expense@ == other.expense@
        &&& self.tax_paid@ == other.tax_paid@
        &&& self.sipp_contributions@ == other.sipp_contributions@
    }

    /// Whether the yearly totals are those of another tracker and one year
    /// more, with the totals of a ledger.
    pub open spec fn year_added(&self, before: &Tracker, ledger: Ledger) -> bool {
        &&& self.gross_income@ == before.gross_income@.push(ledger.gross_income_annual)
        &&& self.net_income@ == before.net_income@.push(ledger.net_income_annual)
        &&& self.expense@ == before.expense@.push(ledger.expense_annual)
        &&& self.tax_paid@ == before.tax_paid@.push(ledger.tax_paid_annual)
        &&& self.sipp_contributions@ == before.sipp_contributions@.push(
            ledger.sipp_contributions_annual,
        )
    }
}

/// The figures that the flows of a tick move: the bank balance, what the
/// pension is worth and has been paid in the year and in the lifetime, and
/// the ledger.
pub struct Books {
    pub bank: int,
    pub pension: int,
    pub pension_year: int,
    pub pension_lifetime: int,
    pub ledger: Ledger,
}

/// The terms on which wages are paid: the share that goes to the pension,
/// the insurance category and the tax configuration.
pub struct PayTerms {
    pub contribution_pct: Rate,
    pub nic: NIC,
    pub config: UKTaxConfig,
}

/// How a tax bill is settled.
#[derive(Clone, Copy, Debug, PartialEq, Eq, Structural)]
pub enum Settlement {
    /// The bank pays the whole bill.
    FromBank,
    /// The ISA is sold down by the whole bill.
    FromIsa,
    /// The ISA is sold whole and the GIA is sold down by the rest of the bill.
    FromIsaAndGia,
    /// The ISA and the GIA together do not cover the bill.
    Unrecoverable,
}

/// How a bill is settled, given whether the bank pays it and what the ISA and
/// the GIA would fetch.
pub open spec fn settlement(tax_due: int, bank_pays: bool, isa_value: int, gia_value: int) -> Settlement {
    if bank_pays {
        Settlement::FromBank
    } else if gia_value + isa_value < tax_due {
        Settlement::Unrecoverable
    } else if isa_value > tax_due {
        Settlement::FromIsa
    } else {
        Settlement::FromIsaAndGia
    }
}

/// Decides how a tax bill is settled. The bank pays if it can. If it cannot,
/// the ISA pays alone if it is worth more than the bill; else the ISA is
/// sold whole and the GIA pays the rest; and where both together are worth
/// less than the bill, the bill cannot be paid.
pub fn plan_settlement(
    tax_due: CashValue,
    bank_pays: bool,
    isa_value: CashValue,
    gia_value: CashValue,
) -> (plan: Settlement)
    requires
        0 <= isa_value@ <= CASH_LIMIT,
        0 <= gia_value@ <= CASH_LIMIT,
    ensures
        plan == settlement(tax_due@, bank_pays, isa_value@, gia_value@),
{
    if bank_pays {
        Settlement::FromBank
    } else if gia_value.minor + isa_value.minor < tax_due.minor {
        Settlement::Unrecoverable
    } else if isa_value.minor > tax_due.minor {
        Settlement::FromIsa
    } else {
        Settlement::FromIsaAndGia
    }
}

/// How far the flows of a tick got: the books as the turns taken have left
/// them, how many flows have had their turn, and what stopped the next one,
/// if anything did.
pub struct FlowsRun {
    pub books: Books,
    pub turns: int,
    pub stopped: Option<SimError>,
}

/// What stops a flow before its turn, if anything, given the books as the
/// flows before it have left them: the ledger or the flow's own figures lie
/// outside what the arithmetic accepts, or the flow has an obstacle of its
/// own.
pub open spec fn turn_obstacle(flow: Flow, curr: int, source: HashMapSourceSim, books: Books) -> Option<
    SimError,
> {
    if !books.ledger.within(TAX_LIMIT as int) || !flow.wf() {
        Some(SimError::OutOfRange)
    } else {
        flow.obstacle(curr, source, books.ledger.income_paid_in_curr_loop@)
    }
}

/// How far the first `n` flows of a list get at a time, one turn after the
/// other in the order of the list, from the books given. Once a flow is
/// stopped, no flow after it has a turn.
pub open spec fn flows_run(
    flows: Seq<Flow>,
    n: int,
    curr: int,
    terms: PayTerms,
    source: HashMapSourceSim,
    start: Books,
) -> FlowsRun
    decreases n,
{
    if n <= 0 {
        FlowsRun { books: start, turns: 0, stopped: None }
    } else {
        let before = flows_run(flows, n - 1, curr, terms, source, start);
        if before.stopped.is_some() {
            before
        } else {
            match turn_obstacle(flows[n - 1], curr, source, before.books) {
                Some(error) => FlowsRun { stopped: Some(error), ..before },
                None => FlowsRun {
                    books: flows[n - 1].books_after(curr, terms, before.books),
                    turns: n,
                    stopped: None,
                },
            }
        }
    }
}

/// Flows that have not been stopped have all had their turn; and once a
/// flow has been stopped, the flows after it change nothing.
pub proof fn lemma_flows_run_stays_stopped(
    flows: Seq<Flow>,
    n: int,
    m: int,
    curr: int,
    terms: PayTerms,
    source: HashMapSourceSim,
    start: Books,
)
    requires
        0 <= n <= m,
    ensures
        flows_run(flows, n, curr, terms, source, start).stopped.is_none() ==> flows_run(
            flows,
            n,
            curr,
            terms,
            source,
            start,
        ).turns == n,
        flows_run(flows, n, curr, terms, source, start).stopped.is_some() ==> flows_run(
            flows,
            m,
            curr,
            terms,
            source,
            start,
        ) == flows_run(flows, n, curr, terms, source, start),
    decreases m,
{
    if n > 0 {
        lemma_flows_run_stays_stopped(flows, n - 1, n - 1, curr, terms, source, start);
    }
    if n < m {
        lemma_flows_run_stays_stopped(flows, n, m - 1, curr, terms, source, start);
    }
}

/// What a wage outside PAYE pays into the bank: the wage less what the
/// pension takes of the contribution on it.
pub open spec fn net_wage(wage: Employment, terms: PayTerms, books: Books) -> int {
    wage.value@ - contributed(wage.value@, terms, books)
}

/// A wage outside PAYE, then an expense of a share of income.
pub open spec fn wage_then_share(growth: StaticGrowth, wage: Employment, share: PctOfIncomeExpense) -> Seq<
    Flow,
> {
    seq![Flow::EmploymentStaticGrowth(growth, wage), Flow::PctOfIncomeExpense(share)]
}

/// An expense of a share of income, then a wage outside PAYE.
pub open spec fn share_then_wage(growth: StaticGrowth, wage: Employment, share: PctOfIncomeExpense) -> Seq<
    Flow,
> {
    seq![Flow::PctOfIncomeExpense(share), Flow::EmploymentStaticGrowth(growth, wage)]
}

/// A wage and an expense of a share of income that are due at the same
/// time, in a tick that has paid no income yet, with a bank that holds no
/// debt and has room for the wage. With the wage first, both have their
/// turn: the share is taken of what the wage has paid, and the bank ends
/// higher by what the wage paid less the share of it. With the expense
/// first, the expense is stopped for want of income and nothing is paid.
pub proof fn lemma_wage_before_share_of_income(
    growth: StaticGrowth,
    wage: Employment,
    share: PctOfIncomeExpense,
    curr: int,
    terms: PayTerms,
    source: HashMapSourceSim,
    start: Books,
)
    requires
        Flow::EmploymentStaticGrowth(growth, wage).wf(),
        Flow::PctOfIncomeExpense(share).wf(),
        wage.schedule.hits(curr),
        share.schedule.hits(curr),
        start.ledger.within(TAX_LIMIT as int),
        start.ledger.income_paid_in_curr_loop@ == 0,
        wage.books_after(terms, start).ledger.within(TAX_LIMIT as int),
        net_wage(wage, terms, start) > 0,
        0 <= start.bank,
        bank_accepts(start.bank, net_wage(wage, terms, start)),
    ensures
        ({
            let run = flows_run(wage_then_share(growth, wage, share), 2, curr, terms, source, start);
            let net = net_wage(wage, terms, start);
            &&& run.stopped.is_none()
            &&& run.turns == 2
            &&& run.books.ledger.income_paid_in_curr_loop@ == net
            &&& run.books.bank == start.bank + net - mul_rate(net, share.pct@)
            &&& 0 <= mul_rate(net, share.pct@) <= net
        }),
        flows_run(share_then_wage(growth, wage, share), 2, curr, terms, source, start) == (FlowsRun {
            books: start,
            turns: 0,
            stopped: Some(SimError::NoIncomeForExpense),
        }),
{
    let net = net_wage(wage, terms, start);
    let earned = wage.books_after(terms, start);
    lemma_mul_rate_fraction(net, share.pct@);
    reveal_with_fuel(flows_run, 3);
    let forward = wage_then_share(growth, wage, share);
    let backward = share_then_wage(growth, wage, share);
    assert(forward[0] == Flow::EmploymentStaticGrowth(growth, wage));
    assert(forward[1] == Flow::PctOfIncomeExpense(share));
    assert(backward[0] == Flow::PctOfIncomeExpense(share));
    assert(flows_run(forward, 1, curr, terms, source, start).books == earned);
    assert(earned.ledger.income_paid_in_curr_loop@ == net);
    assert(earned.bank == start.bank + net);
}

//Each loop we check for rebalance, check tax, and then check for user-defined income events.
pub struct UKSimulationState<S: InvestmentStrategy> {
    //Has to be ordered, tax has to be calculated first
    pub nic_group: NIC,
    pub annual_tax_schedule: Schedule,
    pub perf_schedule: Schedule,
    pub contribution_pct: Rate,
    pub emergency_fund_minimum: CashValue,
    pub source: HashMapSourceSim,
    //At the moment, clients are not modifying the actual list of flows but the internal state can
    //change
    pub flows: Vec<Flow>,
    pub bank: BankAcc,
    pub sipp: Sipp<S>,
    pub gia: Gia<S>,
    pub isa: Isa<S>,
    pub tax_config: UKTaxConfig,
    pub sim_state: SimState,
    //All of this state is flushed at some point
    pub ledger: Ledger,
    pub tracker: Tracker,
}

impl<S: InvestmentStrategy> UKSimulationState<S> {
    /// The accounts are sound, the contribution is a fraction of the pay and
    /// the emergency fund is not negative.
    pub open spec fn sound(&self) -> bool {
        &&& self.isa.wf()
        &&& self.gia.wf()
        &&& self.sipp.wf()
        &&& self.bank.inv()
        &&& self.contribution_pct.is_fraction()
        &&& 0 <= self.emergency_fund_minimum@ <= CASH_LIMIT
        &&& self.tracker.recorded()
    }

    /// The totals and the tax configuration lie within what the tax engine
    /// accepts.
    pub open spec fn in_limits(&self) -> bool {
        &&& self.ledger.within(TAX_LIMIT as int)
        &&& self.tax_config.in_range()
    }

    /// The state is one that a tick can start from.
    pub open spec fn wf(&self) -> bool {
        self.sound() && self.in_limits()
    }

    /// Whether the parameters, the source and the flows are those of another
    /// state.
    pub open spec fn same_setup(&self, other: &Self) -> bool {
        &&& self.nic_group == other.nic_group
        &&& self.annual_tax_schedule == other.annual_tax_schedule
        &&& self.perf_schedule == other.perf_schedule
        &&& self.contribution_pct == other.contribution_pct
        &&& self.emergency_fund_minimum == other.emergency_fund_minimum
        &&& self.source == other.source
        &&& self.flows == other.flows
    }

    /// The figures that the flows of a tick move.
    pub open spec fn books(&self) -> Books {
        Books {
            bank: self.bank.balance@,
            pension: self.sipp.strat.value(),
            pension_year: self.sipp.current_tax_year_contributions@,
            pension_lifetime: self.sipp.lifetime_contributions@,
            ledger: self.ledger,
        }
    }

    /// The terms on which wages are paid.
    pub open spec fn pay_terms(&self) -> PayTerms {
        PayTerms {
            contribution_pct: self.contribution_pct,
            nic: self.nic_group,
            config: self.tax_config,
        }
    }

    /// The four balances are zero.
    pub open spec fn emptied(&self) -> bool {
        &&& self.bank.balance@ == 0
        &&& self.isa.strat.value() == 0
        &&& self.gia.strat.value() == 0
        &&& self.sipp.strat.value() == 0
    }

    /// A household without flows, without an emergency fund, without money,
    /// without a history of trades or dividends, and with nothing in the
    /// year's totals that the tax is worked out on.
    pub open spec fn dormant(&self) -> bool {
        &&& self.sim_state == SimState::Ready
        &&& self.flows@.len() == 0
        &&& self.emergency_fund_minimum@ == 0
        &&& self.emptied()
        &&& self.ledger.nothing_to_tax()
        &&& self.gia.strat.trades().len() == 0
        &&& self.gia.strat.dividends().len() == 0
    }

    /// What the bank holds over a minimum.
    pub open spec fn excess_over(&self, minimum: int) -> int {
        self.bank.balance@ - minimum
    }

    /// What a sweep of the bank down to a minimum pays into the ISA: what the
    /// ISA takes of the excess.
    pub open spec fn swept_to_isa(&self, minimum: int) -> int {
        if self.excess_over(minimum) > 0 {
            self.isa.takes(self.excess_over(minimum))
        } else {
            0
        }
    }

    /// What a sweep of the bank down to a minimum pays into the GIA: what the
    /// ISA leaves of the excess, if the GIA has room for it.
    pub open spec fn swept_to_gia(&self, minimum: int) -> int {
        let rest = self.excess_over(minimum) - self.swept_to_isa(minimum);
        if self.excess_over(minimum) > 0 && rest > 0 && self.gia.strat.value() + rest
            <= CASH_LIMIT {
            rest
        } else {
            0
        }
    }

    /// What a sweep of the bank down to a minimum does: the bank gives up
    /// what the ISA and the GIA take, and what they take counts as paid into
    /// them.
    pub open spec fn swept(pre: &Self, post: &Self, minimum: int) -> bool {
        let to_isa = pre.swept_to_isa(minimum);
        let to_gia = pre.swept_to_gia(minimum);
        &&& post.bank.balance@ == pre.bank.balance@ - to_isa - to_gia
        &&& post.isa.strat.value() == pre.isa.strat.value() + to_isa
        &&& post.isa.current_tax_year_deposits@ == pre.isa.current_tax_year_deposits@ + to_isa
        &&& post.gia.strat.value() == pre.gia.strat.value() + to_gia
        &&& post.gia.strat.trades() == pre.gia.strat.trades()
        &&& post.gia.strat.dividends() == pre.gia.strat.dividends()
        &&& post.ledger == (Ledger {
            paid_into_isa_since_start: CashValue {
                minor: (pre.ledger.paid_into_isa_since_start@ + to_isa) as i64,
            },
            paid_into_gia_since_start: CashValue {
                minor: (pre.ledger.paid_into_gia_since_start@ + to_gia) as i64,
            },
            ..pre.ledger
        })
        &&& (pre.excess_over(minimum) <= 0 ==> post.isa == pre.isa && post.gia == pre.gia)
        &&& post.same_setup(pre)
        &&& post.sipp == pre.sipp
        &&& post.tax_config == pre.tax_config
        &&& post.sim_state == pre.sim_state
        &&& post.tracker == pre.tracker
    }

    /// The state with the income of the tick at zero.
    pub open spec fn income_cleared(self) -> Self {
        UKSimulationState {
            ledger: Ledger { income_paid_in_curr_loop: CashValue { minor: 0 }, ..self.ledger },
            ..self
        }
    }

    /// Whether nothing but the accounts' strategies differs between two
    /// states.
    pub open spec fn only_strategies_differ(pre: &Self, post: &Self) -> bool {
        &&& post.same_setup(pre)
        &&& post.bank == pre.bank
        &&& post.tax_config == pre.tax_config
        &&& post.sim_state == pre.sim_state
        &&& post.ledger == pre.ledger
        &&& post.tracker == pre.tracker
        &&& post.isa.current_tax_year_deposits == pre.isa.current_tax_year_deposits
        &&& post.sipp.current_tax_year_contributions == pre.sipp.current_tax_year_contributions
        &&& post.sipp.lifetime_contributions == pre.sipp.lifetime_contributions
    }

    /// What any hook leaves as it is: everything but the strategies; an
    /// account that holds nothing still holds nothing, and the history of a
    /// GIA that holds nothing stays as it is.
    pub open spec fn accounts_hooked(pre: &Self, post: &Self) -> bool {
        &&& Self::only_strategies_differ(pre, post)
        &&& pre.isa.strat.value() == 0 ==> post.isa.strat.value() == 0
        &&& pre.sipp.strat.value() == 0 ==> post.sipp.strat.value() == 0
        &&& pre.gia.strat.value() == 0 ==> post.gia.strat.value() == 0 && post.gia.strat.trades()
            == pre.gia.strat.trades() && post.gia.strat.dividends() == pre.gia.strat.dividends()
    }

    /// What the hooks before a tick do: the strategy of each investment
    /// account has run its hook, and nothing else has changed.
    pub open spec fn accounts_checked(pre: &Self, post: &Self) -> bool {
        &&& Self::accounts_hooked(pre, post)
        &&& pre.isa.strat.checked(&post.isa.strat)
        &&& pre.gia.strat.checked(&post.gia.strat)
        &&& pre.sipp.strat.checked(&post.sipp.strat)
    }

    /// What the hooks after a tick do: the strategy of each investment
    /// account has run its closing hook, and nothing else has changed.
    pub open spec fn accounts_finished(pre: &Self, post: &Self) -> bool {
        &&& Self::accounts_hooked(pre, post)
        &&& pre.isa.strat.finished(&post.isa.strat)
        &&& pre.gia.strat.finished(&post.gia.strat)
        &&& pre.sipp.strat.finished(&post.sipp.strat)
    }

    /// What trading does: the strategy of each investment account that
    /// holds something has traded towards its targets, the strategies of
    /// the others are as they were, and nothing else has changed.
    pub open spec fn accounts_traded(pre: &Self, post: &Self) -> bool {
        &&& Self::only_strategies_differ(pre, post)
        &&& if pre.isa.strat.value() > 0 {
            pre.isa.strat.traded(&post.isa.strat)
        } else {
            post.isa.strat == pre.isa.strat
        }
        &&& if pre.gia.strat.value() > 0 {
            pre.gia.strat.traded(&post.gia.strat)
        } else {
            post.gia.strat == pre.gia.strat
        }
        &&& if pre.sipp.strat.value() > 0 {
            pre.sipp.strat.traded(&post.sipp.strat)
        } else {
            post.sipp.strat == pre.sipp.strat
        }
    }

    /// What the recording of the performance at a time does: on a day of
    /// the performance schedule each investment account gets a snapshot of
    /// its value and of what was paid into it, and the cash is recorded; on
    /// any other day nothing is.
    pub open spec fn performance_recorded(pre: &Self, post: &Self, curr: int) -> bool {
        &&& post.same_setup(pre)
        &&& post.bank == pre.bank
        &&& post.isa == pre.isa
        &&& post.gia == pre.gia
        &&& post.sipp == pre.sipp
        &&& post.tax_config == pre.tax_config
        &&& post.sim_state == pre.sim_state
        &&& post.ledger == pre.ledger
        &&& post.tracker.same_years(&pre.tracker)
        &&& if pre.perf_schedule.hits(curr) {
            &&& post.tracker.isa_snapshot@ == pre.tracker.isa_snapshot@.push(
                StrategySnapshot {
                    date: curr as DateTime,
                    portfolio_value: CashValue { minor: pre.isa.strat.value() as i64 },
                    net_cash_flow: pre.ledger.paid_into_isa_since_start,
                },
            )
            &&& post.tracker.gia_snapshot@ == pre.tracker.gia_snapshot@.push(
                StrategySnapshot {
                    date: curr as DateTime,
                    portfolio_value: CashValue { minor: pre.gia.strat.value() as i64 },
                    net_cash_flow: pre.ledger.paid_into_gia_since_start,
                },
            )
            &&& post.tracker.sipp_snapshot@ == pre.tracker.sipp_snapshot@.push(
                StrategySnapshot {
                    date: curr as DateTime,
                    portfolio_value: CashValue { minor: pre.sipp.strat.value() as i64 },
                    net_cash_flow: pre.ledger.paid_into_sipp_since_start,
                },
            )
            &&& post.tracker.cash@ == pre.tracker.cash@.push(pre.bank.balance)
        } else {
            post.tracker.same_snapshots(&pre.tracker)
        }
    }

    /// Sets the income of the tick to zero.
    pub fn clear_loop(&mut self)
        ensures
            old(self).sound() ==> final(self).sound(),
            *final(self) == old(self).income_cleared(),
            final(self).ledger == (Ledger {
                income_paid_in_curr_loop: CashValue { minor: 0 },
                ..old(self).ledger
            }),
            final(self).same_setup(old(self)),
            final(self).bank == old(self).bank,
            final(self).isa == old(self).isa,
            final(self).gia == old(self).gia,
            final(self).sipp == old(self).sipp,
            final(self).tax_config == old(self).tax_config,
            final(self).sim_state == old(self).sim_state,
            final(self).tracker == old(self).tracker,
    {
        self.ledger.income_paid_in_curr_loop = CashValue::zero();
    }

    ///Only used for integration testing logic for simulation runs that are less than one year long and which,
    ///as a result, will not have any tracking data to return
    pub fn get_total_value(&self) -> (total: CashValue)
        requires
            self.sound(),
        ensures
            total@ == self.isa.strat.value() + self.gia.strat.value() + self.sipp.strat.value()
                + self.bank.balance@,
    {
        let isa = self.isa.liquidation_value();
        let gia = self.gia.liquidation_value();
        let sipp = self.sipp.liquidation_value();
        CashValue { minor: isa.minor + gia.minor + sipp.minor + self.bank.balance.minor }
    }

    /// Records a snapshot of each investment account and of the cash, if the
    /// performance schedule triggers.
    // Tracker is only updated monthly on the performance schedule
    pub fn update_tracker(&mut self, curr_date: DateTime)
        requires
            old(self).sound(),
            old(self).ledger.within(TAX_LIMIT as int),
        ensures
            final(self).sound(),
            Self::performance_recorded(old(self), final(self), curr_date as int),
    {
        if self.perf_schedule.check(curr_date) {
            let isa_snapshot = StrategySnapshot {
                date: curr_date,
                portfolio_value: self.isa.liquidation_value(),
                net_cash_flow: self.ledger.paid_into_isa_since_start,
            };
            let gia_snapshot = StrategySnapshot {
                date: curr_date,
                portfolio_value: self.gia.liquidation_value(),
                net_cash_flow: self.ledger.paid_into_gia_since_start,
            };
            let sipp_snapshot = StrategySnapshot {
                date: curr_date,
                portfolio_value: self.sipp.liquidation_value(),
                net_cash_flow: self.ledger.paid_into_sipp_since_start,
            };
            self.tracker.isa_snapshot.push(isa_snapshot);
            self.tracker.gia_snapshot.push(gia_snapshot);
            self.tracker.sipp_snapshot.push(sipp_snapshot);
            self.tracker.cash.push(self.bank.balance);
        }
    }

    /// Closes the tax year: records the totals of the year and sets them to
    /// zero.
    // Updates on the same frequency as taxes, and should only be called by code
    // that runs taxes. There are some nasty and obscure cycles that can be triggered
    // if the taxation payment, the annual perf update, and the monthly perf update
    // aren't ordered properly because it can lead to erroneous perf numbers if the
    // taxation payments trigger orders (i.e. if the tax payment is greater than the cash
    // balance which happens for non-paye income).
    // We don't check the date here because this should only be called by taxation paying
    // code that has already performed this check.
    pub fn clear_annual(&mut self)
        ensures
            old(self).sound() ==> final(self).sound(),
            final(self).ledger == old(self).ledger.year_cleared(),
            final(self).tracker.year_added(&old(self).tracker, old(self).ledger),
            final(self).tracker.same_snapshots(&old(self).tracker),
            final(self).same_setup(old(self)),
            final(self).bank == old(self).bank,
            final(self).isa == old(self).isa,
            final(self).gia == old(self).gia,
            final(self).sipp == old(self).sipp,
            final(self).tax_config == old(self).tax_config,
            final(self).sim_state == old(self).sim_state,
    {
        self.tracker.gross_income.push(self.ledger.gross_income_annual);
        self.tracker.net_income.push(self.ledger.net_income_annual);
        self.tracker.expense.push(self.ledger.expense_annual);
        self.tracker.tax_paid.push(self.ledger.tax_paid_annual);
        self.tracker.sipp_contributions.push(self.ledger.sipp_contributions_annual);

        //Reset the annual trackers to zero
        self.ledger.gross_income_annual = CashValue::zero();
        self.ledger.net_income_annual = CashValue::zero();
        self.ledger.expense_annual = CashValue::zero();
        self.ledger.tax_paid_annual = CashValue::zero();
        self.ledger.non_paye_income_annual = CashValue::zero();
        self.ledger.paye_income_annual = CashValue::zero();
        self.ledger.savings_income_annual = CashValue::zero();
        self.ledger.rental_income_annual = CashValue::zero();
        self.ledger.self_employment_income_annual = CashValue::zero();
        self.ledger.sipp_contributions_annual = CashValue::zero();
        self.ledger.tax_paid_paye_annual = CashValue::zero();
    }

    /// A sweep moves money between the bank, the ISA and the GIA and neither
    /// makes nor loses any.
    pub proof fn lemma_sweep_conserves(pre: &Self, post: &Self, minimum: int)
        requires
            Self::swept(pre, post, minimum),
        ensures
            post.bank.balance@ + post.isa.strat.value() + post.gia.strat.value()
                == pre.bank.balance@ + pre.isa.strat.value() + pre.gia.strat.value(),
            post.sipp.strat.value() == pre.sipp.strat.value(),
    {
    }

    /// Sweeps what the bank holds over a minimum into the ISA, as far as the
    /// annual threshold lets it, and the rest into the GIA. What neither
    /// takes stays in the bank.
    pub fn sweep_cash(&mut self, minimum: CashValue)
        requires
            old(self).sound(),
            old(self).ledger.within(TAX_LIMIT as int),
            0 <= minimum@ <= CASH_LIMIT,
        ensures
            final(self).sound(),
            Self::swept(old(self), final(self), minimum@),
            final(self).ledger.within(TAX_LIMIT + CASH_LIMIT),
    {
        //All flows credit the bank account only, the only place that we make deposits into
        //non-pension investment accounts is here, and this is where we track those flows.
        //Only exception to this is when we need to liquidate for tax payments.
        let bank_bal = self.bank.balance;
        let excess_cash = CashValue { minor: bank_bal.minor - minimum.minor };
        if excess_cash.minor > 0 {
            self.bank.withdraw(excess_cash);
            //If we are over ISA deposit limit, invest what is possible then return the remainder
            //which can go into GIA
            let (deposited, remainder) = self.isa.deposit_wrapper(excess_cash);
            self.ledger.paid_into_isa_since_start = CashValue {
                minor: self.ledger.paid_into_isa_since_start.minor + deposited.minor,
            };
            if remainder.minor > 0 {
                match self.gia.deposit(remainder) {
                    TransferResult::Success => {
                        self.ledger.paid_into_gia_since_start = CashValue {
                            minor: self.ledger.paid_into_gia_since_start.minor + remainder.minor,
                        };
                    },
                    TransferResult::Failure => {
                        self.bank.deposit(remainder);
                    },
                }
            }
        }
    }

    /// Sweeps what the bank holds over the emergency fund into the ISA and
    /// the GIA.
    pub fn rebalance_cash(&mut self)
        requires
            old(self).sound(),
            old(self).ledger.within(TAX_LIMIT as int),
        ensures
            final(self).sound(),
            Self::swept(old(self), final(self), old(self).emergency_fund_minimum@),
            final(self).ledger.within(TAX_LIMIT + CASH_LIMIT),
    {
        let minimum = self.emergency_fund_minimum;
        self.sweep_cash(minimum);
    }

    /// What settling a tax bill does to the accounts, the ledger and the
    /// record of the years.
    ///
    /// Where the bill cannot be paid, the simulation becomes unrecoverable,
    /// the four balances are zero, and the year is closed with the totals as
    /// they stood. Otherwise the bill counts as tax paid, what was sold
    /// counts against what was paid into the account, and the year is closed.
    pub open spec fn settled(pre: &Self, post: &Self, tax_due: int, plan: Settlement) -> bool {
        let isa_value = pre.isa.strat.value();
        let gia_value = pre.gia.strat.value();
        let paid = Ledger {
            tax_paid_annual: CashValue { minor: (pre.ledger.tax_paid_annual@ + tax_due) as i64 },
            paid_into_isa_since_start: CashValue {
                minor: (pre.ledger.paid_into_isa_since_start@ - match plan {
                    Settlement::FromIsa => tax_due,
                    Settlement::FromIsaAndGia => isa_value,
                    _ => 0,
                }) as i64,
            },
            paid_into_gia_since_start: CashValue {
                minor: (pre.ledger.paid_into_gia_since_start@ - match plan {
                    Settlement::FromIsaAndGia => tax_due - isa_value,
                    _ => 0,
                }) as i64,
            },
            ..pre.ledger
        };
        &&& post.same_setup(pre)
        &&& post.tracker.same_snapshots(&pre.tracker)
        &&& post.sipp.lifetime_contributions == pre.sipp.lifetime_contributions
        &&& match plan {
            Settlement::Unrecoverable => {
                &&& post.sim_state == SimState::Unrecoverable
                &&& post.emptied()
                &&& post.ledger == pre.ledger.year_cleared()
                &&& post.tracker.year_added(&pre.tracker, pre.ledger)
            },
            Settlement::FromBank => {
                &&& post.sim_state == pre.sim_state
                &&& post.ledger == paid.year_cleared()
                &&& post.tracker.year_added(&pre.tracker, paid)
                &&& post.bank.balance@ == pre.bank.balance@ - tax_due
                &&& post.isa.strat == pre.isa.strat
                &&& post.gia == pre.gia
                &&& post.sipp.strat == pre.sipp.strat
            },
            Settlement::FromIsa => {
                &&& post.sim_state == pre.sim_state
                &&& post.ledger == paid.year_cleared()
                &&& post.tracker.year_added(&pre.tracker, paid)
                &&& post.bank == pre.bank
                &&& post.isa.strat.value() == isa_value - if tax_due >= 0 {
                    tax_due
                } else {
                    0
                }
                &&& post.gia == pre.gia
                &&& post.sipp.strat == pre.sipp.strat
            },
            Settlement::FromIsaAndGia => {
                &&& post.sim_state == pre.sim_state
                &&& post.ledger == paid.year_cleared()
                &&& post.tracker.year_added(&pre.tracker, paid)
                &&& post.bank == pre.bank
                &&& post.isa.strat.value() == 0
                &&& post.gia.strat.value() == gia_value - (tax_due - isa_value)
                &&& post.sipp.strat == pre.sipp.strat
            },
        }
    }

    /// Where the bank cannot pay a bill that is not negative and the ISA is
    /// worth more than the bill, the ISA alone pays: it falls by the bill,
    /// and the bank, the GIA and the pension are as they were.
    pub proof fn lemma_isa_pays_alone(pre: &Self, post: &Self, tax_due: int)
        requires
            !pre.bank.can_withdraw(tax_due),
            0 <= tax_due < pre.isa.strat.value(),
            0 <= pre.gia.strat.value(),
            Self::settled(
                pre,
                post,
                tax_due,
                settlement(
                    tax_due,
                    pre.bank.can_withdraw(tax_due),
                    pre.isa.strat.value(),
                    pre.gia.strat.value(),
                ),
            ),
        ensures
            post.isa.strat.value() == pre.isa.strat.value() - tax_due,
            post.gia == pre.gia,
            post.bank == pre.bank,
            post.sipp.strat == pre.sipp.strat,
            post.sim_state == pre.sim_state,
    {
    }

    /// Where the bank cannot pay a bill and the ISA and the GIA together are
    /// worth less than the bill, the simulation becomes unrecoverable and
    /// the bank, the ISA, the pension and the GIA hold nothing.
    pub proof fn lemma_unpayable_bill_empties(pre: &Self, post: &Self, tax_due: int)
        requires
            !pre.bank.can_withdraw(tax_due),
            pre.isa.strat.value() + pre.gia.strat.value() < tax_due,
            Self::settled(
                pre,
                post,
                tax_due,
                settlement(
                    tax_due,
                    pre.bank.can_withdraw(tax_due),
                    pre.isa.strat.value(),
                    pre.gia.strat.value(),
                ),
            ),
        ensures
            post.sim_state == SimState::Unrecoverable,
            post.bank.balance@ == 0,
            post.isa.strat.value() == 0,
            post.sipp.strat.value() == 0,
            post.gia.strat.value() == 0,
    {
    }

    /// Where the bank holds no debt and the bill is more than the bank, the
    /// ISA and the GIA hold together, the bill cannot be paid: the
    /// simulation becomes unrecoverable and the bank, the ISA, the pension
    /// and the GIA hold nothing.
    pub proof fn lemma_bill_over_all_wealth(pre: &Self, post: &Self, tax_due: int)
        requires
            pre.sound(),
            0 <= pre.bank.balance@,
            tax_due > pre.bank.balance@ + pre.isa.strat.value() + pre.gia.strat.value(),
            Self::settled(
                pre,
                post,
                tax_due,
                settlement(
                    tax_due,
                    pre.bank.can_withdraw(tax_due),
                    pre.isa.strat.value(),
                    pre.gia.strat.value(),
                ),
            ),
        ensures
            post.sim_state == SimState::Unrecoverable,
            post.emptied(),
    {
        pre.isa.strat.lemma_inv();
        pre.gia.strat.lemma_inv();
    }

    /// Settles a tax bill and closes the tax year.
    ///
    /// The bank pays if it can. If it cannot, the ISA is sold down by the
    /// bill if it is worth more than the bill; else the ISA is sold whole and
    /// the GIA is sold down by the rest. Where the ISA and the GIA together
    /// are worth less than the bill, the simulation becomes unrecoverable and
    /// every account is emptied.
    pub fn settle_tax(&mut self, tax_due: CashValue) -> (plan: Settlement)
        requires
            old(self).wf(),
            tax_due.within(40 * TAX_LIMIT),
        ensures
            final(self).sound(),
            plan == settlement(
                tax_due@,
                old(self).bank.can_withdraw(tax_due@),
                old(self).isa.strat.value(),
                old(self).gia.strat.value(),
            ),
            Self::settled(old(self), final(self), tax_due@, plan),
            final(self).tax_config == old(self).tax_config,
            final(self).isa.current_tax_year_deposits == old(self).isa.current_tax_year_deposits,
            final(self).sipp.current_tax_year_contributions == old(self).sipp.current_tax_year_contributions,
    {
        let bank_pays = match self.bank.withdraw(tax_due) {
            TransferResult::Success => true,
            TransferResult::Failure => false,
        };
        let isa_value = self.isa.liquidation_value();
        let gia_value = self.gia.liquidation_value();
        let plan = plan_settlement(tax_due, bank_pays, isa_value, gia_value);
        match plan {
            Settlement::FromBank => {
                self.ledger.tax_paid_annual = CashValue {
                    minor: self.ledger.tax_paid_annual.minor + tax_due.minor,
                };
            },
            Settlement::Unrecoverable => {
                //Not enough cash in bank to pay taxes, liquidate cash accounts if there is still
                //not enough then enter unrecoverable state which pauses all forward progress with
                //simulation
                self.sim_state = SimState::Unrecoverable;
                //In unrecoverable state, zero all the accounts
                self.gia.zero();
                self.isa.zero();
                self.sipp.zero();
                self.bank.zero();
            },
            Settlement::FromIsa => {
                self.isa.liquidate(tax_due);
                self.ledger.paid_into_isa_since_start = CashValue {
                    minor: self.ledger.paid_into_isa_since_start.minor - tax_due.minor,
                };
                self.ledger.tax_paid_annual = CashValue {
                    minor: self.ledger.tax_paid_annual.minor + tax_due.minor,
                };
            },
            Settlement::FromIsaAndGia => {
                self.isa.liquidate(isa_value);
                self.ledger.paid_into_isa_since_start = CashValue {
                    minor: self.ledger.paid_into_isa_since_start.minor - isa_value.minor,
                };
                let remainder = CashValue { minor: tax_due.minor - isa_value.minor };
                self.gia.liquidate(remainder);
                self.ledger.paid_into_gia_since_start = CashValue {
                    minor: self.ledger.paid_into_gia_since_start.minor - remainder.minor,
                };
                self.ledger.tax_paid_annual = CashValue {
                    minor: self.ledger.tax_paid_annual.minor + tax_due.minor,
                };
            },
        }
        self.clear_annual();
        plan
    }

    /// The start of the tax year that ends at a time, if the annual schedule
    /// has one.
    pub open spec fn year_start(&self, now: int) -> Option<int> {
        self.annual_tax_schedule.previous(now)
    }

    /// The gains that the GIA has realised in the tax year that ends at a
    /// time, as far as they can be reported. Without a start of the year
    /// there are none.
    pub open spec fn year_gains(&self, now: int) -> Option<int> {
        match self.year_start(now) {
            Some(start) => self.gia.gains(now, start),
            None => Some(0),
        }
    }

    /// The dividends that the GIA has received in the tax year that ends at a
    /// time, as far as they can be reported. Without a start of the year
    /// there are none.
    pub open spec fn year_dividends(&self, now: int) -> Option<int> {
        match self.year_start(now) {
            Some(start) => self.gia.dividends(now, start),
            None => Some(0),
        }
    }

    /// The tax configuration of the year that starts at a time: the current
    /// one with its thresholds grown by the inflation of the day.
    pub open spec fn next_config(&self, now: int) -> UKTaxConfig {
        self.tax_config.inflated(self.source.inflation_at(now).unwrap()@)
    }

    /// What stops the settlement of a tax year at a time, if anything: no
    /// inflation is quoted, or the inflation, the inflated thresholds, the
    /// history of the GIA, its gains or its dividends lie outside what the
    /// arithmetic accepts.
    pub open spec fn tax_obstacle(&self, now: int) -> Option<SimError> {
        match self.source.inflation_at(now) {
            None => Some(SimError::MissingInflation),
            Some(rate) => if quotable(rate) && self.next_config(now).in_range()
                && self.year_gains(now).is_some() && self.year_dividends(now).is_some() {
                None
            } else {
                Some(SimError::OutOfRange)
            },
        }
    }

    /// The tax due for the tax year that ends at a time.
    pub open spec fn tax_due(&self, now: int) -> int {
        total_tax(
            self.ledger.tax_input(
                self.nic_group,
                CashValue { minor: self.year_gains(now).unwrap() as i64 },
                CashValue { minor: self.year_dividends(now).unwrap() as i64 },
            ),
            self.next_config(now),
        )
    }

    /// What the settlement step of a tick does at a time, and how it ends.
    ///
    /// On any day but a day of the annual schedule nothing changes. On such
    /// a day, where something stops the settlement, nothing changes either
    /// and the step ends in that error. Otherwise the tax configuration is
    /// the one of the next year, the tax due on the year's figures is
    /// settled as the cascade has it, and the counts of the year's deposits
    /// into the ISA and contributions to the pension are zero.
    pub open spec fn taxes_paid(
        pre: &Self,
        post: &Self,
        curr: int,
        outcome: Result<Option<Settlement>, SimError>,
    ) -> bool {
        if !pre.annual_tax_schedule.hits(curr) {
            outcome == Ok::<Option<Settlement>, SimError>(None) && *post == *pre
        } else {
            match pre.tax_obstacle(curr) {
                Some(error) => outcome == Err::<Option<Settlement>, SimError>(error) && *post
                    == *pre,
                None => {
                    let due = pre.tax_due(curr);
                    let plan = settlement(
                        due,
                        pre.bank.can_withdraw(due),
                        pre.isa.strat.value(),
                        pre.gia.strat.value(),
                    );
                    &&& outcome == Ok::<Option<Settlement>, SimError>(Some(plan))
                    &&& Self::settled(pre, post, due, plan)
                    &&& post.tax_config == pre.next_config(curr)
                    &&& post.isa.current_tax_year_deposits@ == 0
                    &&& post.sipp.current_tax_year_contributions@ == 0
                },
            }
        }
    }

    /// On a day of the annual schedule on which nothing stops the
    /// settlement, a household whose bank holds no debt and whose tax due is
    /// more than the bank, the ISA and the GIA hold together becomes
    /// unrecoverable: the step ends well, with that settlement, and the
    /// four balances are zero.
    pub proof fn lemma_unpayable_year_is_unrecoverable(
        pre: &Self,
        post: &Self,
        curr: int,
        outcome: Result<Option<Settlement>, SimError>,
    )
        requires
            pre.sound(),
            pre.annual_tax_schedule.hits(curr),
            pre.tax_obstacle(curr).is_none(),
            0 <= pre.bank.balance@,
            pre.tax_due(curr) > pre.bank.balance@ + pre.isa.strat.value() + pre.gia.strat.value(),
            Self::taxes_paid(pre, post, curr, outcome),
        ensures
            outcome == Ok::<Option<Settlement>, SimError>(Some(Settlement::Unrecoverable)),
            post.sim_state == SimState::Unrecoverable,
            post.emptied(),
    {
        pre.isa.strat.lemma_inv();
        pre.gia.strat.lemma_inv();
    }

    /// Settles the tax year if the annual schedule triggers.
    ///
    /// The thresholds of the tax configuration grow by the inflation of the
    /// day. The gains and dividends of the GIA over the year that ends join
    /// the totals of the ledger, the tax engine works out what is due on
    /// them, and the bill is settled. The counts of the year's deposits into
    /// the ISA and contributions to the pension start again at zero.
    ///
    /// Nothing changes on any other day, nor where something stops the
    /// settlement.
    pub fn pay_taxes(&mut self, curr_date: DateTime) -> (outcome: Result<Option<Settlement>, SimError>)
        requires
            old(self).wf(),
        ensures
            final(self).sound(),
            Self::taxes_paid(old(self), final(self), curr_date as int, outcome),
    {
        if !self.annual_tax_schedule.check(curr_date) {
            return Ok(None);
        }
        //Inflation is annualized but with daily frequency, so we should always have an annual
        //number
        let inflation = match self.source.get_current_inflation(curr_date) {
            Some(rate) => rate,
            None => {
                return Err(SimError::MissingInflation);
            },
        };
        if inflation.ppb < -crate::money::RATE_SCALE || inflation.ppb > crate::money::RATE_LIMIT {
            return Err(SimError::OutOfRange);
        }
        let new_config = self.tax_config.apply_inflation(inflation);
        if !new_config.check_range() {
            return Err(SimError::OutOfRange);
        }
        let mut capital_gains = CashValue::zero();
        let mut dividends_received = CashValue::zero();

        //Assumes that we are correctly calling this on the last day of the current tax year
        if let Some(period_start) = self.annual_tax_schedule.last_period(curr_date) {
            match self.gia.get_capital_gains(curr_date, period_start) {
                Some(gains) => {
                    capital_gains = gains;
                },
                None => {
                    return Err(SimError::OutOfRange);
                },
            }
            match self.gia.get_dividends(curr_date, period_start) {
                Some(dividends) => {
                    dividends_received = dividends;
                },
                None => {
                    return Err(SimError::OutOfRange);
                },
            }
        }
        self.tax_config = new_config;

        let input = UKTaxInput {
            non_paye_employment: self.ledger.non_paye_income_annual,
            paye_employment: self.ledger.paye_income_annual,
            rental: self.ledger.rental_income_annual,
            savings: self.ledger.savings_income_annual,
            self_employment: self.ledger.self_employment_income_annual,
            ni: self.nic_group,
            paye_tax_paid: self.ledger.tax_paid_paye_annual,
            contributions: self.ledger.sipp_contributions_annual,
            capital_gains,
            dividend: dividends_received,
        };

        let output = TaxPeriod::calc(&input, &self.tax_config);
        let tax_due = output.total();
        let plan = self.settle_tax(tax_due);
        self.isa.tax_year_end();
        self.sipp.tax_year_end();
        Ok(Some(plan))
    }

    /// Whether the parameters and the source are those of another state, and
    /// the flows are as many.
    pub open spec fn same_parameters(&self, other: &Self) -> bool {
        &&& self.nic_group == other.nic_group
        &&& self.annual_tax_schedule == other.annual_tax_schedule
        &&& self.perf_schedule == other.perf_schedule
        &&& self.contribution_pct == other.contribution_pct
        &&& self.emergency_fund_minimum == other.emergency_fund_minimum
        &&& self.source == other.source
        &&& self.flows@.len() == other.flows@.len()
    }

    /// Whether the totals and the tax configuration lie within what the tax
    /// engine accepts.
    pub fn check_limits(&self) -> (ok: bool)
        ensures
            ok == self.in_limits(),
    {
        self.ledger.check_range() && self.tax_config.check_range()
    }

    /// Runs the lifecycle hooks that come before a tick.
    fn check_accounts(&mut self)
        requires
            old(self).sound(),
        ensures
            final(self).sound(),
            Self::accounts_checked(old(self), final(self)),
    {
        self.isa.check();
        self.gia.check();
        self.sipp.check();
    }

    /// Lets each investment account that holds anything trade towards its
    /// targets.
    fn rebalance_accounts(&mut self)
        requires
            old(self).sound(),
        ensures
            final(self).sound(),
            Self::accounts_traded(old(self), final(self)),
    {
        self.isa.rebalance();
        self.gia.rebalance();
        self.sipp.rebalance();
    }

    /// Runs the lifecycle hooks that come after a tick.
    fn finish_accounts(&mut self)
        requires
            old(self).sound(),
        ensures
            final(self).sound(),
            Self::accounts_finished(old(self), final(self)),
    {
        self.isa.finish();
        self.gia.finish();
        self.sipp.finish();
    }

    /// How far the flows of the state get at a time.
    pub open spec fn flows_result(&self, curr: int) -> FlowsRun {
        flows_run(
            self.flows@,
            self.flows@.len() as int,
            curr,
            self.pay_terms(),
            self.source,
            self.books(),
        )
    }

    /// What the flows of a tick do: they leave the books as the turns
    /// taken, one after the other, have them; each flow that has had its
    /// turn has grown as its growth has it, and the others are as they
    /// were; and nothing else has changed but the strategy of the pension.
    pub open spec fn flows_paid(pre: &Self, post: &Self, curr: int, run: FlowsRun) -> bool {
        &&& post.same_parameters(pre)
        &&& post.tax_config == pre.tax_config
        &&& post.sim_state == pre.sim_state
        &&& post.isa == pre.isa
        &&& post.gia == pre.gia
        &&& post.tracker == pre.tracker
        &&& post.books() == run.books
        &&& forall|k: int|
            0 <= k < pre.flows@.len() ==> #[trigger] post.flows@[k] == if k < run.turns {
                pre.flows@[k].grown(curr, pre.source)
            } else {
                pre.flows@[k]
            }
    }

    /// Lets every flow have its turn, in the order of the list: act if it
    /// is due, and grow. Stops before the first flow that something stops,
    /// or whose figures, or the ledger before it, lie outside what the
    /// arithmetic accepts; the flows before it have had their turn then.
    pub fn run_flows(&mut self, curr_date: DateTime) -> (outcome: Result<(), SimError>)
        requires
            old(self).sound(),
            old(self).tax_config.in_range(),
        ensures
            final(self).sound(),
            old(self).flows@.len() == 0 ==> *final(self) == *old(self),
            Self::flows_paid(
                old(self),
                final(self),
                curr_date as int,
                old(self).flows_result(curr_date as int),
            ),
            outcome == match old(self).flows_result(curr_date as int).stopped {
                None => Ok::<(), SimError>(()),
                Some(error) => Err::<(), SimError>(error),
            },
    {
        let mut i: usize = 0;
        while i < self.flows.len()
            invariant
                i <= self.flows.len(),
                self.sound(),
                self.tax_config.in_range(),
                i == 0 ==> *self == *old(self),
                flows_run(
                    old(self).flows@,
                    i as int,
                    curr_date as int,
                    old(self).pay_terms(),
                    old(self).source,
                    old(self).books(),
                ).stopped.is_none(),
                Self::flows_paid(
                    old(self),
                    self,
                    curr_date as int,
                    flows_run(
                        old(self).flows@,
                        i as int,
                        curr_date as int,
                        old(self).pay_terms(),
                        old(self).source,
                        old(self).books(),
                    ),
                ),
            decreases self.flows.len() - i,
        {
            let mut flow = self.flows[i];
            proof {
                lemma_flows_run_stays_stopped(
                    old(self).flows@,
                    i as int,
                    i as int,
                    curr_date as int,
                    old(self).pay_terms(),
                    old(self).source,
                    old(self).books(),
                );
                lemma_flows_run_stays_stopped(
                    old(self).flows@,
                    i + 1,
                    old(self).flows@.len() as int,
                    curr_date as int,
                    old(self).pay_terms(),
                    old(self).source,
                    old(self).books(),
                );
            }
            if !self.ledger.check_range() {
                return Err(SimError::OutOfRange);
            }
            if !flow.check_range() {
                return Err(SimError::OutOfRange);
            }
            if let Some(error) = flow.find_obstacle(curr_date, self) {
                return Err(error);
            }
            flow.check(curr_date, self);
            //The amount of the flow may have grown, so the flow is written back.
            self.flows.set(i, flow);
            i = i + 1;
        }
        proof {
            lemma_flows_run_stays_stopped(
                old(self).flows@,
                i as int,
                i as int,
                curr_date as int,
                old(self).pay_terms(),
                old(self).source,
                old(self).books(),
            );
        }
        Ok(())
    }

    /// What a tick of a simulation that is ready does, and how it ends,
    /// given the states that it passes through.
    ///
    /// The income of the tick starts at zero and the accounts run their
    /// hooks (`checked`); the performance is recorded (`recorded`); spare
    /// cash is swept (`swept`); the tax year is settled (`taxed`); the
    /// accounts trade (`traded`); the flows have their turns (`paid`); spare
    /// cash is swept once more (`swept_again`); the accounts run their
    /// closing hooks. The tick ends early, in the state that it has reached,
    /// where the ledger has left what the arithmetic accepts, where the
    /// settlement is stopped, and where the settlement leaves the
    /// simulation unrecoverable. It ends in the error of the flow that was
    /// stopped where one was, after the turns of the flows before it.
    pub open spec fn ticked(
        pre: &Self,
        checked: &Self,
        recorded: &Self,
        swept: &Self,
        taxed: &Self,
        traded: &Self,
        paid: &Self,
        swept_again: &Self,
        post: &Self,
        curr: int,
        outcome: Result<(), SimError>,
    ) -> bool {
        &&& Self::accounts_checked(&pre.income_cleared(), checked)
        &&& Self::performance_recorded(checked, recorded, curr)
        &&& Self::swept(recorded, swept, recorded.emergency_fund_minimum@)
        &&& if !swept.ledger.within(TAX_LIMIT as int) {
            outcome == Err::<(), SimError>(SimError::OutOfRange) && *post == *swept
        } else if swept.annual_tax_schedule.hits(curr) && swept.tax_obstacle(curr).is_some() {
            outcome == Err::<(), SimError>(swept.tax_obstacle(curr).unwrap()) && *post == *swept
        } else {
            &&& exists|settled: Option<Settlement>| #[trigger]
                Self::taxes_paid(swept, taxed, curr, Ok::<Option<Settlement>, SimError>(settled))
            &&& if taxed.sim_state == SimState::Unrecoverable {
                outcome.is_ok() && *post == *taxed
            } else {
                &&& Self::accounts_traded(taxed, traded)
                &&& Self::flows_paid(traded, paid, curr, traded.flows_result(curr))
                &&& match traded.flows_result(curr).stopped {
                    Some(error) => outcome == Err::<(), SimError>(error) && *post == *paid,
                    None => if !paid.ledger.within(TAX_LIMIT as int) {
                        outcome == Err::<(), SimError>(SimError::OutOfRange) && *post == *paid
                    } else {
                        &&& Self::swept(paid, swept_again, paid.emergency_fund_minimum@)
                        &&& Self::accounts_finished(swept_again, post)
                        &&& outcome.is_ok()
                    },
                }
            }
        }
    }

    /// A tick whose settlement finds a tax due of more than the bank, the
    /// ISA and the GIA hold together, with a bank that holds no debt, ends
    /// well and at once: the simulation is unrecoverable, the four balances
    /// are zero, and no flow has its turn. The state at the settlement is
    /// the one after the first sweep, since the hooks of the strategies may
    /// change what the accounts are worth before it.
    pub proof fn lemma_tick_with_unpayable_bill(
        pre: &Self,
        checked: &Self,
        recorded: &Self,
        swept: &Self,
        taxed: &Self,
        traded: &Self,
        paid: &Self,
        swept_again: &Self,
        post: &Self,
        curr: int,
        outcome: Result<(), SimError>,
    )
        requires
            Self::ticked(
                pre,
                checked,
                recorded,
                swept,
                taxed,
                traded,
                paid,
                swept_again,
                post,
                curr,
                outcome,
            ),
            swept.sound(),
            swept.ledger.within(TAX_LIMIT as int),
            swept.annual_tax_schedule.hits(curr),
            swept.tax_obstacle(curr).is_none(),
            0 <= swept.bank.balance@,
            swept.tax_due(curr) > swept.bank.balance@ + swept.isa.strat.value()
                + swept.gia.strat.value(),
        ensures
            outcome.is_ok(),
            post.sim_state == SimState::Unrecoverable,
            post.emptied(),
            post.ledger == swept.ledger.year_cleared(),
    {
        swept.isa.strat.lemma_inv();
        swept.gia.strat.lemma_inv();
    }

    /// A tick that gets past the settlement, with a wage outside PAYE and
    /// then an expense of a share of income as its flows, both due, a bank
    /// that holds no debt and has room for the wage, and totals that stay
    /// within what the arithmetic accepts: the tick ends well, the share is
    /// taken of what the wage has paid, and the bank, the ISA and the GIA
    /// together end the last sweep higher than they were before the flows
    /// by what the wage paid less the share of it. The closing hooks leave
    /// the bank as the sweep left it.
    pub proof fn lemma_tick_nets_wage_and_share(
        pre: &Self,
        checked: &Self,
        recorded: &Self,
        swept: &Self,
        taxed: &Self,
        traded: &Self,
        paid: &Self,
        swept_again: &Self,
        post: &Self,
        curr: int,
        outcome: Result<(), SimError>,
        growth: StaticGrowth,
        wage: Employment,
        share: PctOfIncomeExpense,
    )
        requires
            Self::ticked(
                pre,
                checked,
                recorded,
                swept,
                taxed,
                traded,
                paid,
                swept_again,
                post,
                curr,
                outcome,
            ),
            swept.ledger.within(TAX_LIMIT as int),
            swept.annual_tax_schedule.hits(curr) ==> swept.tax_obstacle(curr).is_none(),
            taxed.sim_state == SimState::Ready,
            pre.flows@ == wage_then_share(growth, wage, share),
            Flow::EmploymentStaticGrowth(growth, wage).wf(),
            Flow::PctOfIncomeExpense(share).wf(),
            wage.schedule.hits(curr),
            share.schedule.hits(curr),
            traded.ledger.within(TAX_LIMIT as int),
            wage.books_after(traded.pay_terms(), traded.books()).ledger.within(TAX_LIMIT as int),
            paid.ledger.within(TAX_LIMIT as int),
            net_wage(wage, traded.pay_terms(), traded.books()) > 0,
            0 <= traded.bank.balance@,
            bank_accepts(traded.bank.balance@, net_wage(wage, traded.pay_terms(), traded.books())),
        ensures
            outcome.is_ok(),
            ({
                let net = net_wage(wage, traded.pay_terms(), traded.books());
                &&& paid.ledger.income_paid_in_curr_loop@ == net
                &&& paid.bank.balance@ == traded.bank.balance@ + net - mul_rate(net, share.pct@)
                &&& swept_again.bank.balance@ + swept_again.isa.strat.value()
                    + swept_again.gia.strat.value() == traded.bank.balance@
                    + traded.isa.strat.value() + traded.gia.strat.value() + net - mul_rate(
                    net,
                    share.pct@,
                )
                &&& post.bank == swept_again.bank
            }),
    {
        assert(traded.flows == pre.flows);
        assert(traded.ledger.income_paid_in_curr_loop@ == 0);
        lemma_wage_before_share_of_income(
            growth,
            wage,
            share,
            curr,
            traded.pay_terms(),
            traded.source,
            traded.books(),
        );
        Self::lemma_sweep_conserves(paid, swept_again, paid.emergency_fund_minimum@);
    }

    /// Advances the simulation by one tick, at the given time.
    ///
    /// An unrecoverable simulation stays as it is. Otherwise, in this order:
    /// the income of the tick starts at zero; the accounts run their hooks;
    /// the performance is recorded if its schedule triggers; cash over the
    /// emergency fund is swept into the ISA and the GIA; the tax year is
    /// settled if the annual schedule triggers; the accounts trade; the
    /// flows act in their order; cash is swept once more; the accounts run
    /// their closing hooks.
    ///
    /// A settlement that cannot be paid ends the tick at once: the
    /// simulation is unrecoverable and every balance is zero. An error ends
    /// the tick where it arises; the run cannot go on after it.
    ///
    /// A household without flows, emergency fund, money and history has none
    /// after the tick either.
    pub fn update(&mut self, curr_date: DateTime) -> (outcome: Result<(), SimError>)
        requires
            old(self).wf(),
        ensures
            final(self).sound(),
            final(self).same_parameters(old(self)),
            old(self).sim_state == SimState::Unrecoverable ==> outcome.is_ok() && *final(self)
                == *old(self),
            old(self).sim_state == SimState::Ready ==> exists|
                checked: Self,
                recorded: Self,
                swept: Self,
                taxed: Self,
                traded: Self,
                paid: Self,
                swept_again: Self,
            |
                Self::ticked(
                    old(self),
                    &checked,
                    &recorded,
                    &swept,
                    &taxed,
                    &traded,
                    &paid,
                    &swept_again,
                    final(self),
                    curr_date as int,
                    outcome,
                ),
            old(self).sim_state == SimState::Ready && final(self).sim_state
                == SimState::Unrecoverable ==> outcome.is_ok() && final(self).emptied(),
            old(self).dormant() ==> final(self).dormant(),
            old(self).dormant() && (old(self).annual_tax_schedule.hits(curr_date as int)
                ==> old(self).tax_obstacle(curr_date as int).is_none()) ==> outcome.is_ok(),
    {
        match self.sim_state {
            SimState::Ready => {},
            SimState::Unrecoverable => {
                return Ok(());
            },
        }
        self.clear_loop();
        self.check_accounts();
        let ghost checked = *self;

        //Must be triggered early because if the strategy needs to generate cash to pay
        //taxes then we record the cash flow out but the trades don't get executed until
        //the day after. This is a loophole in the trade flow but it is easier to just
        //record the state before this happens.
        self.update_tracker(curr_date);
        let ghost recorded = *self;

        self.rebalance_cash();
        let ghost swept = *self;
        if !self.ledger.check_range() {
            proof {
                assert(Self::ticked(
                    old(self),
                    &checked,
                    &recorded,
                    &swept,
                    &swept,
                    &swept,
                    &swept,
                    &swept,
                    self,
                    curr_date as int,
                    Err(SimError::OutOfRange),
                ));
            }
            return Err(SimError::OutOfRange);
        }
        //Only triggers when schedule is met
        let settled = match self.pay_taxes(curr_date) {
            Err(error) => {
                proof {
                    assert(Self::ticked(
                        old(self),
                        &checked,
                        &recorded,
                        &swept,
                        &swept,
                        &swept,
                        &swept,
                        &swept,
                        self,
                        curr_date as int,
                        Err(error),
                    ));
                }
                return Err(error);
            },
            Ok(settled) => settled,
        };
        let ghost taxed = *self;
        proof {
            assert(Self::taxes_paid(
                &swept,
                &taxed,
                curr_date as int,
                Ok::<Option<Settlement>, SimError>(settled),
            ));
            if old(self).dormant() {
                crate::gains::lemma_no_history_no_gains(
                    swept.gia.strat.trades(),
                    swept.gia.strat.dividends(),
                );
                if swept.annual_tax_schedule.hits(curr_date as int) {
                    crate::tax::uk::laws::lemma_no_income_no_tax(
                        swept.nic_group,
                        swept.next_config(curr_date as int),
                    );
                }
            }
        }
        if let Some(Settlement::Unrecoverable) = settled {
            proof {
                assert(Self::ticked(
                    old(self),
                    &checked,
                    &recorded,
                    &swept,
                    &taxed,
                    &taxed,
                    &taxed,
                    &taxed,
                    self,
                    curr_date as int,
                    Ok(()),
                ));
            }
            return Ok(());
        }
        self.rebalance_accounts();
        let ghost traded = *self;
        let flows_outcome = self.run_flows(curr_date);
        let ghost paid = *self;
        if let Err(error) = flows_outcome {
            proof {
                assert(Self::ticked(
                    old(self),
                    &checked,
                    &recorded,
                    &swept,
                    &taxed,
                    &traded,
                    &paid,
                    &paid,
                    self,
                    curr_date as int,
                    Err(error),
                ));
            }
            return Err(error);
        }
        if !self.ledger.check_range() {
            proof {
                assert(Self::ticked(
                    old(self),
                    &checked,
                    &recorded,
                    &swept,
                    &taxed,
                    &traded,
                    &paid,
                    &paid,
                    self,
                    curr_date as int,
                    Err(SimError::OutOfRange),
                ));
            }
            return Err(SimError::OutOfRange);
        }
        self.rebalance_cash();
        let ghost swept_again = *self;
        self.finish_accounts();
        proof {
            assert(Self::ticked(
                old(self),
                &checked,
                &recorded,
                &swept,
                &taxed,
                &traded,
                &paid,
                &swept_again,
                self,
                curr_date as int,
                Ok(()),
            ));
        }
        Ok(())
    }
}

/// The income that the current tick has paid.
#[derive(Clone, Copy, Debug, PartialEq, Eq, Structural)]
pub struct SimLoopState {
    pub income_paid: CashValue,
}

impl SimLoopState {
    /// Sets the income of the tick to zero.
    pub fn clear(&mut self)
        ensures
            final(self).income_paid@ == 0,
    {
        self.income_paid = CashValue::zero();
    }

    /// Adds to the income of the tick.
    pub fn paid_income(&mut self, income: CashValue)
        requires
            -CASH_LIMIT <= old(self).income_paid@ + income@ <= CASH_LIMIT,
        ensures
            final(self).income_paid@ == old(self).income_paid@ + income@,
    {
        self.income_paid = CashValue { minor: self.income_paid.minor + income.minor };
    }

    /// The state of a tick that has paid nothing.
    pub fn init() -> (state: Self)
        ensures
            state.income_paid@ == 0,
    {
        Self { income_paid: CashValue::zero() }
    }
}

/// The four balances of a household.
#[derive(Clone, Copy, Debug, PartialEq, Eq, Structural)]
pub struct UKSimulationResult {
    pub cash: CashValue,
    pub isa: CashValue,
    pub gia: CashValue,
    pub sipp: CashValue,
}

impl UKSimulationResult {
    /// Each balance lies within the limit.
    pub open spec fn in_range(self) -> bool {
        self.cash.in_range() && self.isa.in_range() && self.gia.in_range() && self.sipp.in_range()
    }

    /// The four balances together.
    pub fn get_total_value(&self) -> (total: CashValue)
        requires
            self.in_range(),
        ensures
            total@ == self.cash@ + self.isa@ + self.gia@ + self.sipp@,
    {
        CashValue { minor: self.cash.minor + self.isa.minor + self.gia.minor + self.sipp.minor }
    }
}

impl<S: InvestmentStrategy> UKSimulationState<S> {
    /// The four balances as they stand.
    pub fn get_perf(&self) -> (result: UKSimulationResult)
        requires
            self.sound(),
        ensures
            result.in_range(),
            result.cash == self.bank.balance,
            result.isa@ == self.isa.strat.value(),
            result.gia@ == self.gia.strat.value(),
            result.sipp@ == self.sipp.strat.value(),
    {
        UKSimulationResult {
            cash: self.bank.balance,
            isa: self.isa.liquidation_value(),
            gia: self.gia.liquidation_value(),
            sipp: self.sipp.liquidation_value(),
        }
    }
}

} // verus!
