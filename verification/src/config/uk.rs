//! The description of a household and the simulation that it gives.
use vstd::prelude::*;
use crate::acc::CanTransfer;
use crate::flow::{Employment, EmploymentPAYE, Expense, Flow, PctOfIncomeExpense, Rental};
use crate::input::HashMapSourceSim;
use crate::money::{CashValue, Rate, CASH_LIMIT};
use crate::schedule::Schedule;
use crate::sim::uk::{Ledger, SimState, Tracker, UKSimulationState};
use crate::stack::{BankAcc, Gia, Isa, Sipp};
use crate::strat::InvestmentStrategy;
use crate::tax::uk::ni::NIC;
use crate::tax::uk::UKTaxConfig;

verus! {

/// The day of the month that stands for the end of the month.
pub const END_OF_MONTH_DAY: i32 = 27;

/// The day and the month on which the tax year is settled.
pub const TAX_DAY: i32 = 1;

pub const TAX_MONTH: i32 = 4;

/// The schedules that a description can name.
#[derive(Copy, Clone, Debug, PartialEq, Eq, Structural)]
pub enum SupportedSchedules {
    EveryDay,
    EndOfMonth,
    StartOfMonth,
}

/// The description of a schedule.
#[derive(Copy, Clone, Debug, PartialEq, Eq, Structural)]
pub struct ScheduleUKSimConfig {
    pub schedule_type: SupportedSchedules,
    pub day: Option<u8>,
    pub month: Option<u8>,
}

impl ScheduleUKSimConfig {
    /// The schedule that the description stands for.
    pub open spec fn schedule(self) -> Schedule {
        match self.schedule_type {
            SupportedSchedules::EveryDay => Schedule::EveryDay,
            SupportedSchedules::EndOfMonth => Schedule::EveryMonth(END_OF_MONTH_DAY),
            SupportedSchedules::StartOfMonth => Schedule::StartOfMonth,
        }
    }

    /// The schedule that the description stands for.
    pub fn to_schedule(&self) -> (schedule: Schedule)
        ensures
            schedule == self.schedule(),
    {
        match self.schedule_type {
            SupportedSchedules::EveryDay => Schedule::EveryDay,
            SupportedSchedules::EndOfMonth => Schedule::EveryMonth(END_OF_MONTH_DAY),
            SupportedSchedules::StartOfMonth => Schedule::StartOfMonth,
        }
    }
}

/// The kinds of flow that a description can name.
#[derive(Copy, Clone, Debug, PartialEq, Eq, Structural)]
pub enum SupportedFlowTypes {
    Employment,
    EmploymentStaticGrowth,
    EmploymentPAYE,
    EmploymentPAYEStaticGrowth,
    Rental,
    Expense,
    PctOfIncomeExpense,
    InflationLinkedExpense,
}

/// The description of a flow.
#[derive(Copy, Clone, Debug, PartialEq, Eq, Structural)]
pub struct FlowUKSimConfig {
    pub flow_type: SupportedFlowTypes,
    pub person: Option<u8>,
    pub value: Option<CashValue>,  //PctOfIncomeExpense has no value
    pub schedule: ScheduleUKSimConfig,  //All flows need schedule
    pub static_growth: Option<Rate>,  //Only for growth types
    pub pct: Option<Rate>,  //Only for pct types
}

impl FlowUKSimConfig {
    /// The flow that the description stands for, if it names what its kind
    /// of flow needs: a share for a share of income, an amount for every
    /// other kind, and a rate for fixed growth.
    pub open spec fn flow(self) -> Option<Flow> {
        let schedule = self.schedule.schedule();
        match self.flow_type {
            SupportedFlowTypes::PctOfIncomeExpense => match self.pct {
                Some(pct) => Some(Flow::PctOfIncomeExpense(PctOfIncomeExpense { pct, schedule })),
                None => None,
            },
            _ => match self.value {
                None => None,
                Some(value) => match self.flow_type {
                    SupportedFlowTypes::Employment => Some(
                        Flow::Employment(
                            crate::flow::InflationLinkedGrowth { schedule },
                            Employment { value, schedule },
                        ),
                    ),
                    SupportedFlowTypes::EmploymentPAYE => Some(
                        Flow::EmploymentPAYE(
                            crate::flow::InflationLinkedGrowth { schedule },
                            EmploymentPAYE { value, schedule },
                        ),
                    ),
                    SupportedFlowTypes::Expense => Some(Flow::Expense(Expense { value, schedule })),
                    SupportedFlowTypes::Rental => Some(Flow::Rental(Rental { value, schedule })),
                    SupportedFlowTypes::InflationLinkedExpense => Some(
                        Flow::InflationLinkedExpense(
                            crate::flow::InflationLinkedGrowth { schedule },
                            Expense { value, schedule },
                        ),
                    ),
                    SupportedFlowTypes::EmploymentStaticGrowth => match self.static_growth {
                        Some(growth_rate) => Some(
                            Flow::EmploymentStaticGrowth(
                                crate::flow::StaticGrowth { growth_rate },
                                Employment { value, schedule },
                            ),
                        ),
                        None => None,
                    },
                    SupportedFlowTypes::EmploymentPAYEStaticGrowth => match self.static_growth {
                        Some(growth_rate) => Some(
                            Flow::EmploymentPAYEStaticGrowth(
                                crate::flow::StaticGrowth { growth_rate },
                                EmploymentPAYE { value, schedule },
                            ),
                        ),
                        None => None,
                    },
                    SupportedFlowTypes::PctOfIncomeExpense => None,
                },
            },
        }
    }

    /// The flow that the description stands for, if it is complete.
    pub fn build(&self) -> (flow: Option<Flow>)
        ensures
            flow == self.flow(),
    {
        let schedule: Schedule = self.schedule.to_schedule();
        match self.flow_type {
            SupportedFlowTypes::PctOfIncomeExpense => match self.pct {
                Some(pct) => Some(PctOfIncomeExpense::flow(pct, schedule)),
                None => None,
            },
            _ => match self.value {
                None => None,
                Some(value) => match self.flow_type {
                    SupportedFlowTypes::Employment => Some(Employment::flow(value, schedule)),
                    SupportedFlowTypes::EmploymentPAYE => Some(
                        EmploymentPAYE::flow(value, schedule),
                    ),
                    SupportedFlowTypes::Expense => Some(Expense::flow(value, schedule)),
                    SupportedFlowTypes::Rental => Some(Rental::flow(value, schedule)),
                    SupportedFlowTypes::InflationLinkedExpense => Some(
                        Expense::inflation_linked(value, schedule),
                    ),
                    SupportedFlowTypes::EmploymentStaticGrowth => match self.static_growth {
                        Some(growth) => Some(Employment::static_growth(value, schedule, growth)),
                        None => None,
                    },
                    SupportedFlowTypes::EmploymentPAYEStaticGrowth => match self.static_growth {
                        Some(growth) => Some(
                            EmploymentPAYE::static_growth(value, schedule, growth),
                        ),
                        None => None,
                    },
                    SupportedFlowTypes::PctOfIncomeExpense => None,
                },
            },
        }
    }
}

/// The kinds of stack that a description can name.
#[derive(Copy, Clone, Debug, PartialEq, Eq, Structural)]
pub enum SupportedStackTypes {
    Isa,
    Sipp,
    Gia,
    Mortgage,
}

/// The description of a stack.
#[derive(Copy, Clone, Debug, PartialEq, Eq, Structural)]
pub struct StackUKSimConfig {
    pub stack_type: SupportedStackTypes,
    pub person: Option<u8>,
    pub value: CashValue,  //All stacks should have a value
    pub rate: Option<Rate>,  //Only for Mortgage
    pub term: Option<u8>,  //Only for Mortgage
    pub fix_length: Option<u8>,  //Only for Mortgage
}

impl StackUKSimConfig {
    /// Whether the description names what its kind of stack needs: a rate
    /// and the length of the fix for a mortgage.
    pub open spec fn complete(self) -> bool {
        self.stack_type == SupportedStackTypes::Mortgage ==> self.fix_length.is_some()
            && self.rate.is_some()
    }

    /// Whether the starting value is one that an account can start with.
    pub open spec fn fundable(self) -> bool {
        self.stack_type != SupportedStackTypes::Mortgage ==> 0 <= self.value@ <= CASH_LIMIT
    }
}

/// Why a description gives no simulation.
#[derive(Copy, Clone, Debug, PartialEq, Eq, Structural)]
pub enum ConfigError {
    /// The description has no list of stacks.
    MissingStacks,
    /// The stacks lack an ISA, a SIPP or a GIA.
    MissingAccount,
    /// The description has no list of flows.
    MissingFlows,
    /// A flow or a mortgage lacks a figure that its kind needs.
    MissingValue,
    /// A figure lies outside what the simulation accepts.
    OutOfRange,
}

/// The flows of a list that take money out, or those that do not, in their
/// order.
pub open spec fn flows_of_kind(flows: Seq<Flow>, expense: bool) -> Seq<Flow> {
    flows.filter(|f: Flow| f.expense() == expense)
}

/// The flows in the order in which a tick lets them act: every flow that
/// brings money in, in the order given, then every flow that takes money
/// out, in the order given.
pub open spec fn income_first(flows: Seq<Flow>) -> Seq<Flow> {
    flows_of_kind(flows, false) + flows_of_kind(flows, true)
}

/// The flows of a list that take money out, or those that do not.
fn select_flows(flows: &Vec<Flow>, expense: bool) -> (selected: Vec<Flow>)
    ensures
        selected@ == flows_of_kind(flows@, expense),
{
    let mut selected: Vec<Flow> = Vec::new();
    let mut i: usize = 0;
    while i < flows.len()
        invariant
            i <= flows.len(),
            selected@ == flows_of_kind(flows@.take(i as int), expense),
        decreases flows.len() - i,
    {
        let flow = flows[i];
        proof {
            assert(flows@.take(i + 1).drop_last() == flows@.take(i as int));
            reveal(Seq::filter);
        }
        if flow.is_expense() == expense {
            selected.push(flow);
        }
        i = i + 1;
    }
    proof {
        assert(flows@.take(i as int) == flows@);
    }
    selected
}

/// Puts flows into the order in which a tick lets them act: income before
/// expense.
pub fn order_flows(flows: &Vec<Flow>) -> (ordered: Vec<Flow>)
    ensures
        ordered@ == income_first(flows@),
{
    let mut ordered = select_flows(flows, false);
    let mut expense_flows = select_flows(flows, true);
    ordered.append(&mut expense_flows);
    ordered
}

/// The flows that a list of descriptions stands for, if each description is
/// complete.
pub open spec fn flows_built(configs: Seq<FlowUKSimConfig>) -> Option<Seq<Flow>>
    decreases configs.len(),
{
    if configs.len() == 0 {
        Some(Seq::empty())
    } else {
        match (flows_built(configs.drop_last()), configs.last().flow()) {
            (Some(built), Some(flow)) => Some(built.push(flow)),
            _ => None,
        }
    }
}

fn build_flows(configs: &Vec<FlowUKSimConfig>) -> (flows: Option<Vec<Flow>>)
    ensures
        flows.is_some() == flows_built(configs@).is_some(),
        flows matches Some(built) ==> Some(built@) == flows_built(configs@),
{
    let mut flows: Vec<Flow> = Vec::new();
    let mut i: usize = 0;
    while i < configs.len()
        invariant
            i <= configs.len(),
            flows_built(configs@.take(i as int)) == Some(flows@),
        decreases configs.len() - i,
    {
        proof {
            assert(configs@.take(i + 1).drop_last() == configs@.take(i as int));
        }
        match configs[i].build() {
            Some(flow) => {
                flows.push(flow);
            },
            None => {
                proof {
                    lemma_flows_built_prefix(configs@, i + 1);
                }
                return None;
            },
        }
        i = i + 1;
    }
    proof {
        assert(configs@.take(i as int) == configs@);
    }
    Some(flows)
}

/// Where the first descriptions of a list do not all stand for a flow, the
/// whole list does not.
proof fn lemma_flows_built_prefix(configs: Seq<FlowUKSimConfig>, n: int)
    requires
        0 <= n <= configs.len(),
        flows_built(configs.take(n)).is_none(),
    ensures
        flows_built(configs).is_none(),
    decreases configs.len() - n,
{
    if n < configs.len() {
        assert(configs.take(n + 1).drop_last() == configs.take(n));
        lemma_flows_built_prefix(configs, n + 1);
    } else {
        assert(configs.take(n) == configs);
    }
}

/// The starting value of the last stack of a kind in a list, if there is one.
pub open spec fn start_value(stacks: Seq<StackUKSimConfig>, kind: SupportedStackTypes) -> Option<
    CashValue,
>
    decreases stacks.len(),
{
    if stacks.len() == 0 {
        None
    } else if stacks.last().stack_type == kind {
        Some(stacks.last().value)
    } else {
        start_value(stacks.drop_last(), kind)
    }
}

/// What is wrong with a stack, if anything: a mortgage without its terms
/// lacks a value, an account with a starting value that cannot be funded is
/// out of range.
pub open spec fn stack_fault(stack: StackUKSimConfig) -> Option<ConfigError> {
    if !stack.complete() {
        Some(ConfigError::MissingValue)
    } else if !stack.fundable() {
        Some(ConfigError::OutOfRange)
    } else {
        None
    }
}

/// What is wrong with the first stack of a list that has a fault, if any has.
pub open spec fn stacks_fault(stacks: Seq<StackUKSimConfig>) -> Option<ConfigError>
    decreases stacks.len(),
{
    if stacks.len() == 0 {
        None
    } else {
        match stacks_fault(stacks.drop_last()) {
            Some(error) => Some(error),
            None => stack_fault(stacks.last()),
        }
    }
}

/// A fault among the first stacks of a list is the fault of the list.
proof fn lemma_stacks_fault_prefix(stacks: Seq<StackUKSimConfig>, n: int)
    requires
        0 <= n <= stacks.len(),
        stacks_fault(stacks.take(n)).is_some(),
    ensures
        stacks_fault(stacks) == stacks_fault(stacks.take(n)),
    decreases stacks.len() - n,
{
    if n < stacks.len() {
        assert(stacks.take(n + 1).drop_last() == stacks.take(n));
        lemma_stacks_fault_prefix(stacks, n + 1);
    } else {
        assert(stacks.take(n) == stacks);
    }
}

/// The starting values of the ISA, the SIPP and the GIA of a list of stacks.
struct StartValues {
    isa: Option<CashValue>,
    sipp: Option<CashValue>,
    gia: Option<CashValue>,
}

fn read_stacks(stacks: &Vec<StackUKSimConfig>) -> (read: Result<StartValues, ConfigError>)
    ensures
        match read {
            Ok(values) => {
                &&& stacks_fault(stacks@).is_none()
                &&& values.isa == start_value(stacks@, SupportedStackTypes::Isa)
                &&& values.sipp == start_value(stacks@, SupportedStackTypes::Sipp)
                &&& values.gia == start_value(stacks@, SupportedStackTypes::Gia)
            },
            Err(error) => stacks_fault(stacks@) == Some(error),
        },
{
    let mut values = StartValues { isa: None, sipp: None, gia: None };
    let mut i: usize = 0;
    while i < stacks.len()
        invariant
            i <= stacks.len(),
            stacks_fault(stacks@.take(i as int)).is_none(),
            values.isa == start_value(stacks@.take(i as int), SupportedStackTypes::Isa),
            values.sipp == start_value(stacks@.take(i as int), SupportedStackTypes::Sipp),
            values.gia == start_value(stacks@.take(i as int), SupportedStackTypes::Gia),
        decreases stacks.len() - i,
    {
        let stack = stacks[i];
        proof {
            assert(stacks@.take(i + 1).drop_last() == stacks@.take(i as int));
            assert(stacks@.take(i + 1).last() == stacks@[i as int]);
        }
        match stack.stack_type {
            SupportedStackTypes::Mortgage => {
                //A mortgage takes no part in the simulation, but its terms have to be there.
                if stack.fix_length.is_none() || stack.rate.is_none() {
                    proof {
                        lemma_stacks_fault_prefix(stacks@, i + 1);
                    }
                    return Err(ConfigError::MissingValue);
                }
            },
            _ => {
                if stack.value.minor < 0 || stack.value.minor > CASH_LIMIT {
                    proof {
                        lemma_stacks_fault_prefix(stacks@, i + 1);
                    }
                    return Err(ConfigError::OutOfRange);
                }
                match stack.stack_type {
                    SupportedStackTypes::Isa => {
                        values.isa = Some(stack.value);
                    },
                    SupportedStackTypes::Sipp => {
                        values.sipp = Some(stack.value);
                    },
                    _ => {
                        values.gia = Some(stack.value);
                    },
                }
            },
        }
        i = i + 1;
    }
    proof {
        assert(stacks@.take(i as int) == stacks@);
    }
    Ok(values)
}

/// The description of a household: its cash, its accounts and its flows.
#[derive(Clone, Debug)]
pub struct UKSimConfig {
    pub starting_cash: CashValue,
    pub emergency_cash_min: CashValue,
    pub nic: NIC,
    pub lifetime_pension_contributions: CashValue,
    pub contribution_pct: Rate,
    pub flows: Option<Vec<FlowUKSimConfig>>,
    pub stacks: Option<Vec<StackUKSimConfig>>,
}

/// The description of a household, under its short name.
pub type Config = UKSimConfig;

impl UKSimConfig {
    /// Whether the figures of the household are ones that a simulation can
    /// start from.
    pub open spec fn figures_valid(&self) -> bool {
        &&& -CASH_LIMIT <= self.starting_cash@ <= CASH_LIMIT
        &&& 0 <= self.emergency_cash_min@ <= CASH_LIMIT
        &&& self.lifetime_pension_contributions.in_range()
        &&& self.contribution_pct.is_fraction()
    }

    /// Whether an account that starts with a value, on a strategy that
    /// holds something already, stays within what an account can hold.
    pub open spec fn fits(start: Option<CashValue>, held: int) -> bool {
        start matches Some(value) && held + value@ <= CASH_LIMIT
    }

    /// Why the description gives no simulation, if it gives none, given
    /// what the strategies of the ISA, the SIPP and the GIA hold already.
    ///
    /// The faults are looked for in this order: no list of stacks; the
    /// first stack with a fault; an account without a stack; no list of
    /// flows; a flow that lacks a figure; a figure of the household, or an
    /// account with its starting value, outside what the simulation accepts.
    pub open spec fn fault(&self, isa_held: int, sipp_held: int, gia_held: int) -> Option<
        ConfigError,
    > {
        match self.stacks {
            None => Some(ConfigError::MissingStacks),
            Some(stacks) => if stacks_fault(stacks@).is_some() {
                stacks_fault(stacks@)
            } else if start_value(stacks@, SupportedStackTypes::Isa).is_none() || start_value(
                stacks@,
                SupportedStackTypes::Sipp,
            ).is_none() || start_value(stacks@, SupportedStackTypes::Gia).is_none() {
                Some(ConfigError::MissingAccount)
            } else {
                match self.flows {
                    None => Some(ConfigError::MissingFlows),
                    Some(flows) => if flows_built(flows@).is_none() {
                        Some(ConfigError::MissingValue)
                    } else if !self.figures_valid() || !Self::fits(
                        start_value(stacks@, SupportedStackTypes::Isa),
                        isa_held,
                    ) || !Self::fits(start_value(stacks@, SupportedStackTypes::Sipp), sipp_held)
                        || !Self::fits(start_value(stacks@, SupportedStackTypes::Gia), gia_held) {
                        Some(ConfigError::OutOfRange)
                    } else {
                        None
                    },
                }
            },
        }
    }

    /// The simulation of the household at its start.
    ///
    /// Each account starts with the value of the last stack of its kind,
    /// paid into a strategy of its own; the bank starts with the starting
    /// cash; the flows act income before expense; the tax year is settled
    /// every 1 April, the performance recorded at the start of every month.
    /// A mortgage among the stacks has to be complete but takes no part in
    /// the simulation.
    pub fn create<S: InvestmentStrategy>(
        &self,
        isa_strat: S,
        sipp_strat: S,
        gia_strat: S,
        src: HashMapSourceSim,
    ) -> (built: Result<UKSimulationState<S>, ConfigError>)
        requires
            isa_strat.inv(),
            sipp_strat.inv(),
            gia_strat.inv(),
        ensures
            built.is_err() == self.fault(
                isa_strat.value(),
                sipp_strat.value(),
                gia_strat.value(),
            ).is_some(),
            built matches Err(error) ==> self.fault(
                isa_strat.value(),
                sipp_strat.value(),
                gia_strat.value(),
            ) == Some(error),
            built matches Ok(sim) ==> {
                let stacks = self.stacks.unwrap()@;
                &&& sim.wf()
                &&& sim.nic_group == self.nic
                &&& sim.annual_tax_schedule == Schedule::EveryYear(TAX_DAY, TAX_MONTH)
                &&& sim.perf_schedule == Schedule::StartOfMonth
                &&& sim.contribution_pct == self.contribution_pct
                &&& sim.emergency_fund_minimum == self.emergency_cash_min
                &&& sim.source == src
                &&& Some(sim.flows@) == match flows_built(self.flows.unwrap()@) {
                    Some(flows) => Some(income_first(flows)),
                    None => None,
                }
                &&& sim.bank.balance == self.starting_cash
                &&& sim.isa.strat.value() == isa_strat.value() + start_value(
                    stacks,
                    SupportedStackTypes::Isa,
                ).unwrap()@
                &&& sim.isa.current_tax_year_deposits@ == 0
                &&& sim.sipp.strat.value() == sipp_strat.value() + start_value(
                    stacks,
                    SupportedStackTypes::Sipp,
                ).unwrap()@
                &&& sim.sipp.lifetime_contributions == self.lifetime_pension_contributions
                &&& sim.sipp.current_tax_year_contributions@ == 0
                &&& sim.gia.strat.value() == gia_strat.value() + start_value(
                    stacks,
                    SupportedStackTypes::Gia,
                ).unwrap()@
                &&& sim.gia.strat.trades() == gia_strat.trades()
                &&& sim.gia.strat.dividends() == gia_strat.dividends()
                &&& sim.tax_config == UKTaxConfig::standard()
                &&& sim.sim_state == SimState::Ready
                &&& sim.ledger == Ledger::blank()
                &&& sim.tracker.blank()
            },
    {
        //This loop is just used to initialise the accounts
        let values = match &self.stacks {
            Some(stacks) => match read_stacks(stacks) {
                Ok(values) => values,
                Err(error) => {
                    return Err(error);
                },
            },
            None => {
                return Err(ConfigError::MissingStacks);
            },
        };
        let (isa_value, sipp_value, gia_value) = match (values.isa, values.sipp, values.gia) {
            (Some(isa), Some(sipp), Some(gia)) => (isa, sipp, gia),
            _ => {
                return Err(ConfigError::MissingAccount);
            },
        };
        //Have to make sure that expenses are ordered after income
        let flows = match &self.flows {
            Some(configs) => match build_flows(configs) {
                Some(flows) => order_flows(&flows),
                None => {
                    return Err(ConfigError::MissingValue);
                },
            },
            None => {
                return Err(ConfigError::MissingFlows);
            },
        };
        proof {
            let stacks = self.stacks.unwrap()@;
            lemma_start_value_valid(stacks, SupportedStackTypes::Isa);
            lemma_start_value_valid(stacks, SupportedStackTypes::Sipp);
            lemma_start_value_valid(stacks, SupportedStackTypes::Gia);
        }
        if self.starting_cash.minor < -CASH_LIMIT || self.starting_cash.minor > CASH_LIMIT
            || self.emergency_cash_min.minor < 0 || self.emergency_cash_min.minor > CASH_LIMIT
            || self.lifetime_pension_contributions.minor < -CASH_LIMIT
            || self.lifetime_pension_contributions.minor > CASH_LIMIT || self.contribution_pct.ppb
            < 0 || self.contribution_pct.ppb > crate::money::RATE_SCALE {
            return Err(ConfigError::OutOfRange);
        }
        proof {
            isa_strat.lemma_inv();
            sipp_strat.lemma_inv();
            gia_strat.lemma_inv();
        }
        if isa_strat.get_liquidation_value().minor > CASH_LIMIT - isa_value.minor
            || sipp_strat.get_liquidation_value().minor > CASH_LIMIT - sipp_value.minor
            || gia_strat.get_liquidation_value().minor > CASH_LIMIT - gia_value.minor {
            return Err(ConfigError::OutOfRange);
        }
        let mut bank = BankAcc::new();
        bank.deposit(self.starting_cash);
        let isa = Isa::<S>::new_with_cash(isa_strat, isa_value);
        let gia = Gia::<S>::new_with_cash(gia_strat, gia_value);
        let sipp = Sipp::<S>::new_with_cash(
            sipp_strat,
            self.lifetime_pension_contributions,
            sipp_value,
        );
        Ok(
            UKSimulationState {
                nic_group: self.nic,
                annual_tax_schedule: Schedule::EveryYear(TAX_DAY, TAX_MONTH),
                perf_schedule: Schedule::StartOfMonth,
                contribution_pct: self.contribution_pct,
                emergency_fund_minimum: self.emergency_cash_min,
                source: src,
                flows,
                bank,
                gia,
                sipp,
                isa,
                tax_config: UKTaxConfig::default(),
                sim_state: SimState::Ready,
                ledger: Ledger::new(),
                tracker: Tracker::new(),
            },
        )
    }
}

/// The starting value of an account among stacks without a fault can be
/// funded.
proof fn lemma_start_value_valid(stacks: Seq<StackUKSimConfig>, kind: SupportedStackTypes)
    requires
        stacks_fault(stacks).is_none(),
        kind != SupportedStackTypes::Mortgage,
    ensures
        start_value(stacks, kind) matches Some(value) ==> 0 <= value@ <= CASH_LIMIT,
    decreases stacks.len(),
{
    if stacks.len() > 0 {
        lemma_start_value_valid(stacks.drop_last(), kind);
    }
}

} // verus!
