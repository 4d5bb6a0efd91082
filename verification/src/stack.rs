//! The account stacks: bank, ISA, SIPP and GIA.
use vstd::prelude::*;
use crate::acc::{CanTransfer, TransferResult};
use crate::gains::{calculate_capital_gains, dividends_reported, gains_reported, sum_dividends};
use crate::loan::Mortgage;
use crate::input::SimDataSource;
use crate::money::{CashValue, CASH_LIMIT};
use crate::schedule::DateTime;
use crate::strat::{
    dividends_within, trades_within, InvestmentStrategy, StrategyEvent,
};

verus! {

/// Any of the stacks that a household can hold.
pub enum Stack<S: InvestmentStrategy, D: SimDataSource> {
    Isa(Isa<S>),
    Sipp(Sipp<S>),
    Gia(Gia<S>),
    BankAcc(BankAcc),
    Mortgage(Mortgage<D>),
}

/// What of an amount fits under a headroom: nothing where there is no
/// headroom, the amount where it is smaller than the headroom, else the headroom.
pub open spec fn allocated(amount: int, headroom: int) -> int {
    if headroom <= 0 {
        0
    } else if amount < headroom {
        amount
    } else {
        headroom
    }
}

/// The smaller of two headrooms.
pub open spec fn binding(first: int, second: int) -> int {
    if first > second {
        second
    } else {
        first
    }
}

/// Of an amount that is not negative, what fits under a threshold, given
/// what was paid in already, and the rest add up to the amount; neither is
/// negative; and nothing fits once the threshold is reached.
pub proof fn lemma_allocation_laws(amount: int, threshold: int, contributed: int)
    requires
        0 <= amount,
    ensures
        0 <= allocated(amount, threshold - contributed) <= amount,
        0 <= amount - allocated(amount, threshold - contributed),
        contributed >= threshold ==> allocated(amount, threshold - contributed) == 0,
        contributed <= threshold ==> contributed + allocated(amount, threshold - contributed)
            <= threshold,
{
}

/// Of an amount that is not negative, what fits under two thresholds at
/// once, given what was paid in already against each, and the rest add up to
/// the amount; neither is negative; and nothing fits once either threshold
/// is reached.
pub proof fn lemma_joint_allocation_laws(
    amount: int,
    first_threshold: int,
    first_contributed: int,
    second_threshold: int,
    second_contributed: int,
)
    requires
        0 <= amount,
    ensures
        ({
            let applied = allocated(
                amount,
                binding(
                    first_threshold - first_contributed,
                    second_threshold - second_contributed,
                ),
            );
            &&& 0 <= applied <= amount
            &&& first_contributed >= first_threshold || second_contributed >= second_threshold
                ==> applied == 0
            &&& first_contributed <= first_threshold ==> first_contributed + applied
                <= first_threshold
            &&& second_contributed <= second_threshold ==> second_contributed + applied
                <= second_threshold
        }),
{
}

/// Splits an amount into what may still be paid in under the annual
/// threshold, given what was paid in already, and what has to go elsewhere.
pub fn isa_deposit_logic(
    amount: CashValue,
    threshold: CashValue,
    current_year_deposits: CashValue,
) -> (split: (CashValue, CashValue))
    requires
        amount.in_range(),
        threshold.in_range(),
        current_year_deposits.in_range(),
    ensures
        split.0@ == allocated(amount@, threshold@ - current_year_deposits@),
        split.0@ + split.1@ == amount@,
        amount@ >= 0 ==> split.0@ >= 0 && split.1@ >= 0,
        current_year_deposits@ >= threshold@ ==> split.0@ == 0,
        amount@ >= 0 && current_year_deposits@ <= threshold@ ==> current_year_deposits@ + split.0@
            <= threshold@,
{
    let can_deposit = threshold.minor - current_year_deposits.minor;
    if can_deposit <= 0 {
        (CashValue::zero(), amount)
    } else if amount.minor < can_deposit {
        (amount, CashValue::zero())
    } else {
        (CashValue { minor: can_deposit }, CashValue { minor: amount.minor - can_deposit })
    }
}

/// Splits an amount into what may still be contributed under both the annual
/// and the lifetime threshold, given what was contributed already, and what
/// has to go back. The smaller headroom binds.
pub fn sipp_deposit_logic(
    amount: CashValue,
    current_year_contribution_threshold: CashValue,
    lifetime_contribution_threshold: CashValue,
    current_year_contributions: CashValue,
    lifetime_contributions: CashValue,
) -> (split: (CashValue, CashValue))
    requires
        amount.in_range(),
        current_year_contribution_threshold.in_range(),
        lifetime_contribution_threshold.in_range(),
        current_year_contributions.in_range(),
        lifetime_contributions.in_range(),
    ensures
        split.0@ == allocated(
            amount@,
            binding(
                current_year_contribution_threshold@ - current_year_contributions@,
                lifetime_contribution_threshold@ - lifetime_contributions@,
            ),
        ),
        split.0@ + split.1@ == amount@,
        amount@ >= 0 ==> split.0@ >= 0 && split.1@ >= 0,
        current_year_contributions@ >= current_year_contribution_threshold@ ==> split.0@ == 0,
        lifetime_contributions@ >= lifetime_contribution_threshold@ ==> split.0@ == 0,
{
    let can_deposit_year = current_year_contribution_threshold.minor
        - current_year_contributions.minor;
    let can_deposit_life = lifetime_contribution_threshold.minor - lifetime_contributions.minor;
    if can_deposit_year <= 0 || can_deposit_life <= 0 {
        (CashValue::zero(), amount)
    } else if amount.minor < can_deposit_year && amount.minor < can_deposit_life {
        (amount, CashValue::zero())
    } else {
        if can_deposit_year > can_deposit_life {
            (
                CashValue { minor: can_deposit_life },
                CashValue { minor: amount.minor - can_deposit_life },
            )
        } else {
            (
                CashValue { minor: can_deposit_year },
                CashValue { minor: amount.minor - can_deposit_year },
            )
        }
    }
}

/// The contribution limits of the tax wrappers.
#[derive(Clone, Copy, Debug, PartialEq, Eq, Structural)]
pub enum UKAccount {
    IsaAnnualDepositThreshold,
    SippAnnualContributionThreshold,
    SippLifetimeContributionThreshold,
}

impl UKAccount {
    /// The limit in hundredths.
    pub open spec fn limit(self) -> int {
        match self {
            UKAccount::IsaAnnualDepositThreshold => 2_000_000,
            UKAccount::SippAnnualContributionThreshold => 4_000_000,
            UKAccount::SippLifetimeContributionThreshold => 107_310_000,
        }
    }

    /// The limit.
    pub fn val(&self) -> (limit: CashValue)
        ensures
            limit@ == self.limit(),
    {
        match self {
            UKAccount::IsaAnnualDepositThreshold => CashValue { minor: 2_000_000 },
            UKAccount::SippAnnualContributionThreshold => CashValue { minor: 4_000_000 },
            UKAccount::SippLifetimeContributionThreshold => CashValue { minor: 107_310_000 },
        }
    }
}

/// Pays an amount into a strategy if the amount is not negative and the
/// strategy has room for it.
fn pay_in<S: InvestmentStrategy>(strat: &mut S, amount: CashValue) -> (result: TransferResult)
    requires
        old(strat).inv(),
    ensures
        final(strat).inv(),
        (result == TransferResult::Success) == (0 <= amount@ && old(strat).value() + amount@
            <= CASH_LIMIT),
        result == TransferResult::Success ==> final(strat).value() == old(strat).value() + amount@
            && final(strat).trades() == old(strat).trades() && final(strat).dividends() == old(strat).dividends(),
        result == TransferResult::Failure ==> *final(strat) == *old(strat),
{
    if amount.minor < 0 {
        return TransferResult::Failure;
    }
    let value = strat.get_liquidation_value();
    proof {
        strat.lemma_inv();
    }
    if amount.minor > CASH_LIMIT - value.minor {
        return TransferResult::Failure;
    }
    if let StrategyEvent::DepositSuccess(_amount) = strat.deposit_cash(amount) {
        TransferResult::Success
    } else {
        TransferResult::Failure
    }
}

/// Takes an amount out of a strategy's cash if the amount is not negative.
fn pay_out<S: InvestmentStrategy>(strat: &mut S, amount: CashValue) -> (result: TransferResult)
    requires
        old(strat).inv(),
    ensures
        final(strat).inv(),
        (result == TransferResult::Success) == (0 <= amount@ <= old(strat).cash()),
        final(strat).value() == old(strat).value() - if result == TransferResult::Success {
            amount@
        } else {
            0
        },
        final(strat).trades() == old(strat).trades(),
        final(strat).dividends() == old(strat).dividends(),
{
    if amount.minor < 0 {
        return TransferResult::Failure;
    }
    if let StrategyEvent::WithdrawSuccess(_amount) = strat.withdraw_cash(amount) {
        TransferResult::Success
    } else {
        TransferResult::Failure
    }
}

/// Takes an amount out of a strategy, by sale if need be, if the amount is
/// not negative.
fn sell_out<S: InvestmentStrategy>(strat: &mut S, amount: CashValue) -> (result: TransferResult)
    requires
        old(strat).inv(),
    ensures
        final(strat).inv(),
        (result == TransferResult::Success) == (0 <= amount@ <= old(strat).value()),
        final(strat).value() == old(strat).value() - if result == TransferResult::Success {
            amount@
        } else {
            0
        },
{
    if amount.minor < 0 {
        return TransferResult::Failure;
    }
    if let StrategyEvent::WithdrawSuccess(_amount) = strat.withdraw_cash_with_liquidation(amount) {
        TransferResult::Success
    } else {
        TransferResult::Failure
    }
}

/// Lets a strategy trade towards its targets if it holds anything.
fn trade<S: InvestmentStrategy>(strat: &mut S)
    requires
        old(strat).inv(),
    ensures
        final(strat).inv(),
        old(strat).value() <= 0 ==> *final(strat) == *old(strat),
        old(strat).value() > 0 ==> old(strat).traded(final(strat)),
{
    if strat.get_liquidation_value().minor > 0 {
        strat.update();
    }
}

/// A tax-free savings account with a cap on each tax year's deposits.
#[derive(Clone, Debug)]
pub struct Isa<S: InvestmentStrategy> {
    pub strat: S,
    pub current_tax_year_deposits: CashValue,
}

impl<S: InvestmentStrategy> Isa<S> {
    /// The strategy is sound and the year's deposits lie between nothing and
    /// the annual threshold.
    pub open spec fn wf(&self) -> bool {
        &&& self.strat.inv()
        &&& 0 <= self.current_tax_year_deposits@ <= UKAccount::IsaAnnualDepositThreshold.limit()
    }

    /// What of an amount this account takes in now: what fits under the
    /// annual threshold, if the amount is not negative and the strategy has
    /// room for that much.
    pub open spec fn takes(&self, amount: int) -> int {
        let fits = allocated(
            amount,
            UKAccount::IsaAnnualDepositThreshold.limit() - self.current_tax_year_deposits@,
        );
        if 0 <= fits && self.strat.value() + fits <= CASH_LIMIT {
            fits
        } else {
            0
        }
    }

    /// Gives up everything that the account holds.
    pub fn zero(&mut self)
        requires
            old(self).wf(),
        ensures
            final(self).wf(),
            final(self).strat.value() == 0,
            final(self).current_tax_year_deposits == old(self).current_tax_year_deposits,
    {
        self.strat.zero();
    }

    /// Lets the strategy trade towards its targets if the account holds
    /// anything; else nothing changes.
    pub fn rebalance(&mut self)
        requires
            old(self).wf(),
        ensures
            final(self).wf(),
            old(self).strat.value() > 0 ==> old(self).strat.traded(&final(self).strat),
            final(self).current_tax_year_deposits == old(self).current_tax_year_deposits,
            old(self).strat.value() <= 0 ==> final(self).strat == old(self).strat,
    {
        trade(&mut self.strat);
    }

    /// Runs the strategy's hook before a tick.
    pub fn check(&mut self)
        requires
            old(self).wf(),
        ensures
            final(self).wf(),
            old(self).strat.checked(&final(self).strat),
            final(self).current_tax_year_deposits == old(self).current_tax_year_deposits,
            old(self).strat.value() == 0 ==> final(self).strat.value() == 0,
    {
        self.strat.check();
    }

    /// Runs the strategy's hook after a tick.
    pub fn finish(&mut self)
        requires
            old(self).wf(),
        ensures
            final(self).wf(),
            old(self).strat.finished(&final(self).strat),
            final(self).current_tax_year_deposits == old(self).current_tax_year_deposits,
            old(self).strat.value() == 0 ==> final(self).strat.value() == 0,
    {
        self.strat.finish();
    }

    /// Starts the count of the year's deposits again at zero.
    pub fn tax_year_end(&mut self)
        ensures
            final(self).strat == old(self).strat,
            final(self).current_tax_year_deposits@ == 0,
    {
        self.current_tax_year_deposits = CashValue::zero();
    }

    /// What the account would fetch if sold now.
    pub fn liquidation_value(&self) -> (value: CashValue)
        requires
            self.wf(),
        ensures
            value@ == self.strat.value(),
            0 <= value@ <= CASH_LIMIT,
    {
        proof {
            self.strat.lemma_inv();
        }
        self.strat.get_liquidation_value()
    }

    /// Pays in what of an amount fits under the annual threshold and returns
    /// the part paid in and the part that has to go elsewhere.
    pub fn deposit_wrapper(&mut self, amount: CashValue) -> (split: (CashValue, CashValue))
        requires
            old(self).wf(),
            amount.in_range(),
        ensures
            final(self).wf(),
            split.0@ == old(self).takes(amount@),
            split.0@ + split.1@ == amount@,
            split.0@ >= 0,
            amount@ >= 0 ==> split.1@ >= 0,
            final(self).strat.value() == old(self).strat.value() + split.0@,
            final(self).current_tax_year_deposits@ == old(self).current_tax_year_deposits@
                + split.0@,
    {
        let (deposit, returned) = isa_deposit_logic(
            amount,
            UKAccount::IsaAnnualDepositThreshold.val(),
            self.current_tax_year_deposits,
        );
        match pay_in(&mut self.strat, deposit) {
            TransferResult::Success => {
                self.current_tax_year_deposits = CashValue {
                    minor: self.current_tax_year_deposits.minor + deposit.minor,
                };
                (deposit, returned)
            },
            TransferResult::Failure => (CashValue::zero(), amount),
        }
    }

    /// An account on a strategy, started with cash. The starting cash does not
    /// count against the annual threshold.
    pub fn new_with_cash(strat: S, start_cash: CashValue) -> (isa: Self)
        requires
            strat.inv(),
            0 <= start_cash@,
            strat.value() + start_cash@ <= CASH_LIMIT,
        ensures
            isa.wf(),
            isa.strat.value() == strat.value() + start_cash@,
            isa.current_tax_year_deposits@ == 0,
    {
        let mut s = Self::new(strat);
        s.strat.init(start_cash);
        s
    }

    /// An account on a strategy, with no deposit made this year.
    pub fn new(strat: S) -> (isa: Self)
        ensures
            isa.strat == strat,
            isa.current_tax_year_deposits@ == 0,
    {
        Self { strat, current_tax_year_deposits: CashValue::zero() }
    }
}

impl<S: InvestmentStrategy> CanTransfer for Isa<S> {
    open spec fn inv(&self) -> bool {
        self.wf()
    }

    open spec fn balance(&self) -> int {
        self.strat.value()
    }

    open spec fn can_deposit(&self, amount: int) -> bool {
        0 <= amount && self.strat.value() + amount <= CASH_LIMIT
    }

    open spec fn can_withdraw(&self, amount: int) -> bool {
        0 <= amount <= self.strat.cash()
    }

    open spec fn can_liquidate(&self, amount: int) -> bool {
        0 <= amount <= self.strat.value()
    }

    fn deposit(&mut self, amount: CashValue) -> (result: TransferResult)
        ensures
            final(self).current_tax_year_deposits == old(self).current_tax_year_deposits,
    {
        pay_in(&mut self.strat, amount)
    }

    fn withdraw(&mut self, amount: CashValue) -> (result: TransferResult)
        ensures
            final(self).current_tax_year_deposits == old(self).current_tax_year_deposits,
    {
        pay_out(&mut self.strat, amount)
    }

    fn liquidate(&mut self, amount: CashValue) -> (result: TransferResult)
        ensures
            final(self).current_tax_year_deposits == old(self).current_tax_year_deposits,
    {
        sell_out(&mut self.strat, amount)
    }
}

/// A general investment account: no cap, and taxable gains and dividends.
#[derive(Clone, Debug)]
pub struct Gia<S: InvestmentStrategy> {
    pub strat: S,
}

impl<S: InvestmentStrategy> Gia<S> {
    /// The strategy is sound.
    pub open spec fn wf(&self) -> bool {
        self.strat.inv()
    }

    /// The gains realised after the start of the tax year by the sales up to
    /// a date, worked out over every trade up to that date, as far as they
    /// can be reported.
    pub open spec fn gains(&self, date: int, tax_year_start: int) -> Option<int> {
        gains_reported(trades_within(self.strat.trades(), 0, date), tax_year_start)
    }

    /// The dividends received from the start of the tax year up to a date,
    /// as far as they can be reported.
    pub open spec fn dividends(&self, date: int, tax_year_start: int) -> Option<int> {
        dividends_reported(dividends_within(self.strat.dividends(), tax_year_start, date))
    }

    /// Gives up everything that the account holds.
    pub fn zero(&mut self)
        requires
            old(self).wf(),
        ensures
            final(self).wf(),
            final(self).strat.value() == 0,
    {
        self.strat.zero();
    }

    /// The year's realised gains, or nothing where the history or the gains
    /// lie outside what the arithmetic accepts.
    pub fn get_capital_gains(&self, date: DateTime, tax_year_start: DateTime) -> (gains: Option<
        CashValue,
    >)
        requires
            self.wf(),
        ensures
            gains.is_some() == self.gains(date as int, tax_year_start as int).is_some(),
            gains matches Some(g) ==> self.gains(date as int, tax_year_start as int) == Some(g@),
    {
        let all_trades = self.strat.trades_between(0, date);
        calculate_capital_gains(all_trades.as_slice(), tax_year_start)
    }

    /// Runs the strategy's hook before a tick.
    pub fn check(&mut self)
        requires
            old(self).wf(),
        ensures
            final(self).wf(),
            old(self).strat.checked(&final(self).strat),
            old(self).strat.value() == 0 ==> final(self).strat.value() == 0 && final(self).strat.trades() == old(self).strat.trades() && final(self).strat.dividends() == old(self).strat.dividends(),
    {
        self.strat.check();
    }

    /// Runs the strategy's hook after a tick.
    pub fn finish(&mut self)
        requires
            old(self).wf(),
        ensures
            final(self).wf(),
            old(self).strat.finished(&final(self).strat),
            old(self).strat.value() == 0 ==> final(self).strat.value() == 0 && final(self).strat.trades() == old(self).strat.trades() && final(self).strat.dividends() == old(self).strat.dividends(),
    {
        self.strat.finish();
    }

    /// The year's dividends, or nothing where the history or the sum lie
    /// outside what the arithmetic accepts.
    pub fn get_dividends(&self, date: DateTime, tax_year_start: DateTime) -> (sum: Option<
        CashValue,
    >)
        requires
            self.wf(),
        ensures
            sum.is_some() == self.dividends(date as int, tax_year_start as int).is_some(),
            sum matches Some(s) ==> self.dividends(date as int, tax_year_start as int) == Some(s@)
                && 0 <= s@,
    {
        let all_dividends = self.strat.dividends_between(tax_year_start, date);
        sum_dividends(all_dividends.as_slice())
    }

    /// What the account would fetch if sold now.
    pub fn liquidation_value(&self) -> (value: CashValue)
        requires
            self.wf(),
        ensures
            value@ == self.strat.value(),
            0 <= value@ <= CASH_LIMIT,
    {
        proof {
            self.strat.lemma_inv();
        }
        self.strat.get_liquidation_value()
    }

    /// Lets the strategy trade towards its targets if the account holds
    /// anything; else nothing changes.
    pub fn rebalance(&mut self)
        requires
            old(self).wf(),
        ensures
            final(self).wf(),
            old(self).strat.value() > 0 ==> old(self).strat.traded(&final(self).strat),
            old(self).strat.value() <= 0 ==> final(self).strat == old(self).strat,
    {
        trade(&mut self.strat);
    }

    /// An account on a strategy, started with cash.
    pub fn new_with_cash(strat: S, start_cash: CashValue) -> (gia: Self)
        requires
            strat.inv(),
            0 <= start_cash@,
            strat.value() + start_cash@ <= CASH_LIMIT,
        ensures
            gia.wf(),
            gia.strat.value() == strat.value() + start_cash@,
            gia.strat.trades() == strat.trades(),
            gia.strat.dividends() == strat.dividends(),
    {
        let mut s = Self::new(strat);
        s.strat.init(start_cash);
        s
    }

    /// An account on a strategy.
    pub fn new(strat: S) -> (gia: Self)
        ensures
            gia.strat == strat,
    {
        Self { strat }
    }
}

impl<S: InvestmentStrategy> CanTransfer for Gia<S> {
    open spec fn inv(&self) -> bool {
        self.wf()
    }

    open spec fn balance(&self) -> int {
        self.strat.value()
    }

    open spec fn can_deposit(&self, amount: int) -> bool {
        0 <= amount && self.strat.value() + amount <= CASH_LIMIT
    }

    open spec fn can_withdraw(&self, amount: int) -> bool {
        0 <= amount <= self.strat.cash()
    }

    open spec fn can_liquidate(&self, amount: int) -> bool {
        0 <= amount <= self.strat.value()
    }

    fn deposit(&mut self, amount: CashValue) -> (result: TransferResult)
        ensures
            final(self).strat.trades() == old(self).strat.trades(),
            final(self).strat.dividends() == old(self).strat.dividends(),
    {
        pay_in(&mut self.strat, amount)
    }

    fn withdraw(&mut self, amount: CashValue) -> (result: TransferResult)
        ensures
            final(self).strat.trades() == old(self).strat.trades(),
            final(self).strat.dividends() == old(self).strat.dividends(),
    {
        pay_out(&mut self.strat, amount)
    }

    fn liquidate(&mut self, amount: CashValue) -> (result: TransferResult) {
        sell_out(&mut self.strat, amount)
    }
}

/// What of an amount a pension takes in, given what was contributed in the
/// year and in the lifetime and what the pension is worth: what fits under
/// both thresholds, if the amount is not negative and the strategy has room
/// for that much.
pub open spec fn pension_takes(year: int, lifetime: int, value: int, amount: int) -> int {
    let fits = allocated(
        amount,
        binding(
            UKAccount::SippAnnualContributionThreshold.limit() - year,
            UKAccount::SippLifetimeContributionThreshold.limit() - lifetime,
        ),
    );
    if 0 <= fits && value + fits <= CASH_LIMIT {
        fits
    } else {
        0
    }
}

/// A pension account with a cap on each tax year's and on the lifetime's
/// contributions. Nothing can be taken out of it.
#[derive(Clone, Debug)]
pub struct Sipp<S: InvestmentStrategy> {
    pub strat: S,
    pub lifetime_contributions: CashValue,
    pub current_tax_year_contributions: CashValue,
}

impl<S: InvestmentStrategy> Sipp<S> {
    /// The strategy is sound, the year's contributions lie between nothing
    /// and the annual threshold, and the lifetime's lie within the limit.
    pub open spec fn wf(&self) -> bool {
        &&& self.strat.inv()
        &&& 0 <= self.current_tax_year_contributions@
            <= UKAccount::SippAnnualContributionThreshold.limit()
        &&& self.lifetime_contributions.in_range()
    }

    /// What of an amount this account takes in now.
    pub open spec fn takes(&self, amount: int) -> int {
        pension_takes(
            self.current_tax_year_contributions@,
            self.lifetime_contributions@,
            self.strat.value(),
            amount,
        )
    }

    /// Gives up everything that the account holds.
    pub fn zero(&mut self)
        requires
            old(self).wf(),
        ensures
            final(self).wf(),
            final(self).strat.value() == 0,
            final(self).lifetime_contributions == old(self).lifetime_contributions,
            final(self).current_tax_year_contributions == old(self).current_tax_year_contributions,
    {
        self.strat.zero();
    }

    /// What the account would fetch if sold now.
    pub fn liquidation_value(&self) -> (value: CashValue)
        requires
            self.wf(),
        ensures
            value@ == self.strat.value(),
            0 <= value@ <= CASH_LIMIT,
    {
        proof {
            self.strat.lemma_inv();
        }
        self.strat.get_liquidation_value()
    }

    /// Lets the strategy trade towards its targets if the account holds
    /// anything; else nothing changes.
    pub fn rebalance(&mut self)
        requires
            old(self).wf(),
        ensures
            final(self).wf(),
            old(self).strat.value() > 0 ==> old(self).strat.traded(&final(self).strat),
            final(self).lifetime_contributions == old(self).lifetime_contributions,
            final(self).current_tax_year_contributions == old(self).current_tax_year_contributions,
            old(self).strat.value() <= 0 ==> final(self).strat == old(self).strat,
    {
        trade(&mut self.strat);
    }

    /// Runs the strategy's hook before a tick.
    pub fn check(&mut self)
        requires
            old(self).wf(),
        ensures
            final(self).wf(),
            old(self).strat.checked(&final(self).strat),
            final(self).lifetime_contributions == old(self).lifetime_contributions,
            final(self).current_tax_year_contributions == old(self).current_tax_year_contributions,
            old(self).strat.value() == 0 ==> final(self).strat.value() == 0,
    {
        self.strat.check();
    }

    /// Runs the strategy's hook after a tick.
    pub fn finish(&mut self)
        requires
            old(self).wf(),
        ensures
            final(self).wf(),
            old(self).strat.finished(&final(self).strat),
            final(self).lifetime_contributions == old(self).lifetime_contributions,
            final(self).current_tax_year_contributions == old(self).current_tax_year_contributions,
            old(self).strat.value() == 0 ==> final(self).strat.value() == 0,
    {
        self.strat.finish();
    }

    /// Starts the count of the year's contributions again at zero.
    pub fn tax_year_end(&mut self)
        ensures
            final(self).strat == old(self).strat,
            final(self).lifetime_contributions == old(self).lifetime_contributions,
            final(self).current_tax_year_contributions@ == 0,
    {
        self.current_tax_year_contributions = CashValue::zero();
    }

    /// Pays in what of an amount fits under both thresholds and returns the
    /// part paid in and the part that has to go back.
    pub fn deposit_wrapper(&mut self, amount: CashValue) -> (split: (CashValue, CashValue))
        requires
            old(self).wf(),
            amount.in_range(),
        ensures
            final(self).wf(),
            split.0@ == old(self).takes(amount@),
            split.0@ + split.1@ == amount@,
            split.0@ >= 0,
            amount@ >= 0 ==> split.1@ >= 0,
            final(self).strat.value() == old(self).strat.value() + split.0@,
            final(self).current_tax_year_contributions@ == old(self).current_tax_year_contributions@ + split.0@,
            final(self).lifetime_contributions@ == old(self).lifetime_contributions@ + split.0@,
    {
        let (deposit, returned) = sipp_deposit_logic(
            amount,
            UKAccount::SippAnnualContributionThreshold.val(),
            UKAccount::SippLifetimeContributionThreshold.val(),
            self.current_tax_year_contributions,
            self.lifetime_contributions,
        );
        match pay_in(&mut self.strat, deposit) {
            TransferResult::Success => {
                self.current_tax_year_contributions = CashValue {
                    minor: self.current_tax_year_contributions.minor + deposit.minor,
                };
                self.lifetime_contributions = CashValue {
                    minor: self.lifetime_contributions.minor + deposit.minor,
                };
                (deposit, returned)
            },
            TransferResult::Failure => (CashValue::zero(), amount),
        }
    }

    /// An account on a strategy, started with cash and with the contributions
    /// of the lifetime so far. The starting cash counts against neither threshold.
    pub fn new_with_cash(strat: S, lifetime_contributions: CashValue, start_cash: CashValue) -> (sipp:
        Self)
        requires
            strat.inv(),
            lifetime_contributions.in_range(),
            0 <= start_cash@,
            strat.value() + start_cash@ <= CASH_LIMIT,
        ensures
            sipp.wf(),
            sipp.strat.value() == strat.value() + start_cash@,
            sipp.lifetime_contributions == lifetime_contributions,
            sipp.current_tax_year_contributions@ == 0,
    {
        let mut s = Self::new(strat, lifetime_contributions);
        s.strat.init(start_cash);
        s
    }

    /// An account on a strategy, with the contributions of the lifetime so far
    /// and none made this year.
    pub fn new(strat: S, lifetime_contributions: CashValue) -> (sipp: Self)
        ensures
            sipp.strat == strat,
            sipp.lifetime_contributions == lifetime_contributions,
            sipp.current_tax_year_contributions@ == 0,
    {
        Self { strat, lifetime_contributions, current_tax_year_contributions: CashValue::zero() }
    }
}

impl<S: InvestmentStrategy> CanTransfer for Sipp<S> {
    open spec fn inv(&self) -> bool {
        self.wf()
    }

    open spec fn balance(&self) -> int {
        self.strat.value()
    }

    open spec fn can_deposit(&self, amount: int) -> bool {
        0 <= amount && self.strat.value() + amount <= CASH_LIMIT
    }

    open spec fn can_withdraw(&self, amount: int) -> bool {
        false
    }

    open spec fn can_liquidate(&self, amount: int) -> bool {
        false
    }

    /// A deposit moves money only: the counts of the contributions are for
    /// the caller to keep.
    fn deposit(&mut self, amount: CashValue) -> (result: TransferResult)
        ensures
            final(self).lifetime_contributions == old(self).lifetime_contributions,
            final(self).current_tax_year_contributions == old(self).current_tax_year_contributions,
            result == TransferResult::Failure ==> final(self).strat == old(self).strat,
            final(self).strat.trades() == old(self).strat.trades(),
            final(self).strat.dividends() == old(self).strat.dividends(),
    {
        pay_in(&mut self.strat, amount)
    }

    /// Nothing can be taken out of a pension: the account stays as it is.
    fn withdraw(&mut self, _amount: CashValue) -> (result: TransferResult)
        ensures
            *final(self) == *old(self),
    {
        TransferResult::Failure
    }

    /// Nothing can be taken out of a pension by force either: the account
    /// stays as it is.
    fn liquidate(&mut self, _amount: CashValue) -> (result: TransferResult)
        ensures
            *final(self) == *old(self),
    {
        TransferResult::Failure
    }
}

/// Whether a bank with a balance accepts a deposit: the new balance has to
/// lie within the limit.
pub open spec fn bank_accepts(balance: int, amount: int) -> bool {
    -CASH_LIMIT <= balance + amount <= CASH_LIMIT
}

/// Whether a bank with a balance gives up an amount: it has to hold that
/// much, and the new balance has to lie within the limit.
pub open spec fn bank_gives(balance: int, amount: int) -> bool {
    amount <= balance && balance - amount <= CASH_LIMIT
}

/// A bank account: a plain balance.
#[derive(Clone, Copy, Debug, PartialEq, Eq, Structural)]
pub struct BankAcc {
    pub balance: CashValue,
}

impl BankAcc {
    /// Takes out whatever the account holds.
    pub fn zero(&mut self)
        requires
            old(self).inv(),
        ensures
            final(self).balance@ == 0,
    {
        let all = self.balance;
        self.withdraw(all);
    }

    /// An account without money.
    pub fn new() -> (bank: Self)
        ensures
            bank.balance@ == 0,
    {
        Self { balance: CashValue::zero() }
    }
}

impl CanTransfer for BankAcc {
    open spec fn inv(&self) -> bool {
        self.balance.in_range()
    }

    open spec fn balance(&self) -> int {
        self.balance@
    }

    open spec fn can_deposit(&self, amount: int) -> bool {
        bank_accepts(self.balance@, amount)
    }

    open spec fn can_withdraw(&self, amount: int) -> bool {
        bank_gives(self.balance@, amount)
    }

    open spec fn can_liquidate(&self, amount: int) -> bool {
        bank_gives(self.balance@, amount)
    }

    fn withdraw(&mut self, amount: CashValue) -> (result: TransferResult) {
        if amount.minor > self.balance.minor {
            TransferResult::Failure
        } else {
            let left: i128 = (self.balance.minor as i128) - (amount.minor as i128);
            if left > CASH_LIMIT as i128 {
                TransferResult::Failure
            } else {
                self.balance = CashValue { minor: left as i64 };
                TransferResult::Success
            }
        }
    }

    fn liquidate(&mut self, amount: CashValue) -> (result: TransferResult) {
        self.withdraw(amount)
    }

    fn deposit(&mut self, amount: CashValue) -> (result: TransferResult) {
        let sum: i128 = (self.balance.minor as i128) + (amount.minor as i128);
        if sum > CASH_LIMIT as i128 || sum < -(CASH_LIMIT as i128) {
            TransferResult::Failure
        } else {
            self.balance = CashValue { minor: sum as i64 };
            TransferResult::Success
        }
    }
}

impl Default for BankAcc {
    fn default() -> (bank: Self)
        ensures
            bank.balance@ == 0,
    {
        Self::new()
    }
}

} // verus!
