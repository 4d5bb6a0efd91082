//! The investment strategy behind an account: what the simulation asks of a
//! broker, and a strategy that holds cash only.
use vstd::prelude::*;
use crate::money::{CashValue, CASH_LIMIT};
use crate::schedule::DateTime;
use crate::tax::uk::TAX_LIMIT;

verus! {

/// Largest count of units in one trade.
pub const QUANTITY_LIMIT: u64 = 1_000_000_000;

/// Largest count of entries in a trade or dividend history.
pub const HISTORY_LIMIT: usize = 1_000_000;

/// The side of a trade.
#[derive(Clone, Copy, Debug, PartialEq, Eq, Structural)]
pub enum TradeType {
    Buy,
    Sell,
}

/// One executed order: the symbol, the total paid or received, the count of
/// units, the time and the side.
#[derive(Clone, Debug)]
pub struct Trade {
    pub symbol: String,
    pub value: CashValue,
    pub quantity: u64,
    pub date: DateTime,
    pub typ: TradeType,
}

impl Trade {
    /// The total is not negative, and total and count lie within the limits.
    pub open spec fn in_range(self) -> bool {
        &&& 0 <= self.value@ <= TAX_LIMIT
        &&& self.quantity <= QUANTITY_LIMIT
    }

    /// A trade.
    pub fn new(symbol: &str, value: CashValue, quantity: u64, date: DateTime, typ: TradeType) -> (trade:
        Trade)
        ensures
            trade.symbol@ == symbol@,
            trade.value == value,
            trade.quantity == quantity,
            trade.date == date,
            trade.typ == typ,
    {
        Trade { symbol: symbol.to_string(), value, quantity, date, typ }
    }

    /// A copy of the trade.
    pub fn copy(&self) -> (trade: Trade)
        ensures
            trade == *self,
    {
        Trade {
            symbol: self.symbol.clone(),
            value: self.value,
            quantity: self.quantity,
            date: self.date,
            typ: self.typ,
        }
    }
}

/// One dividend received.
#[derive(Clone, Debug)]
pub struct DividendPayment {
    pub value: CashValue,
    pub symbol: String,
    pub date: DateTime,
}

impl DividendPayment {
    /// The payment is not negative and lies within the limit.
    pub open spec fn in_range(self) -> bool {
        0 <= self.value@ <= TAX_LIMIT
    }

    /// A dividend payment.
    pub fn new(value: CashValue, symbol: &str, date: DateTime) -> (payment: DividendPayment)
        ensures
            payment.symbol@ == symbol@,
            payment.value == value,
            payment.date == date,
    {
        DividendPayment { value, symbol: symbol.to_string(), date }
    }

    /// A copy of the payment.
    pub fn copy(&self) -> (payment: DividendPayment)
        ensures
            payment == *self,
    {
        DividendPayment { value: self.value, symbol: self.symbol.clone(), date: self.date }
    }
}

/// Whether a history is one that the library's arithmetic accepts.
pub open spec fn trades_in_range(trades: Seq<Trade>) -> bool {
    &&& trades.len() <= HISTORY_LIMIT
    &&& forall|i: int| 0 <= i < trades.len() ==> (#[trigger] trades[i]).in_range()
}

/// Whether a history is one that the library's arithmetic accepts.
pub open spec fn dividends_in_range(dividends: Seq<DividendPayment>) -> bool {
    &&& dividends.len() <= HISTORY_LIMIT
    &&& forall|i: int| 0 <= i < dividends.len() ==> (#[trigger] dividends[i]).in_range()
}

/// The trades of a history that fall between two times, both included, in
/// their order.
pub open spec fn trades_within(trades: Seq<Trade>, start: int, end: int) -> Seq<Trade> {
    trades.filter(|t: Trade| start <= t.date <= end)
}

/// The dividends of a history that fall between two times, both included, in
/// their order.
pub open spec fn dividends_within(dividends: Seq<DividendPayment>, start: int, end: int) -> Seq<
    DividendPayment,
> {
    dividends.filter(|d: DividendPayment| start <= d.date <= end)
}

/// The trades of a log that fall between two times, both included.
pub fn select_trades(log: &Vec<Trade>, start: DateTime, end: DateTime) -> (found: Vec<Trade>)
    ensures
        found@ == trades_within(log@, start as int, end as int),
{
    let mut found: Vec<Trade> = Vec::new();
    let mut i: usize = 0;
    while i < log.len()
        invariant
            i <= log.len(),
            found@ == trades_within(log@.take(i as int), start as int, end as int),
        decreases log.len() - i,
    {
        let trade = &log[i];
        proof {
            assert(log@.take(i + 1).drop_last() == log@.take(i as int));
            reveal(Seq::filter);
        }
        if start <= trade.date && trade.date <= end {
            found.push(trade.copy());
        }
        i = i + 1;
    }
    proof {
        assert(log@.take(i as int) == log@);
    }
    found
}

/// The dividends of a log that fall between two times, both included.
pub fn select_dividends(log: &Vec<DividendPayment>, start: DateTime, end: DateTime) -> (found:
    Vec<DividendPayment>)
    ensures
        found@ == dividends_within(log@, start as int, end as int),
{
    let mut found: Vec<DividendPayment> = Vec::new();
    let mut i: usize = 0;
    while i < log.len()
        invariant
            i <= log.len(),
            found@ == dividends_within(log@.take(i as int), start as int, end as int),
        decreases log.len() - i,
    {
        let payment = &log[i];
        proof {
            assert(log@.take(i + 1).drop_last() == log@.take(i as int));
            reveal(Seq::filter);
        }
        if start <= payment.date && payment.date <= end {
            found.push(payment.copy());
        }
        i = i + 1;
    }
    proof {
        assert(log@.take(i as int) == log@);
    }
    found
}

/// What a strategy answers to a transfer of cash.
#[derive(Clone, Copy, Debug, PartialEq, Eq, Structural)]
pub enum StrategyEvent {
    WithdrawSuccess(CashValue),
    WithdrawFailure(CashValue),
    DepositSuccess(CashValue),
}

/// What the simulation asks of the strategy that invests an account's money.
///
/// The simulation never looks at what the strategy holds. It moves cash in
/// and out, asks what the holdings would fetch, reads the history of trades
/// and dividends, and calls the lifecycle hooks around each tick. An
/// implementation owes the simulation the protocol stated here: a transfer
/// either happens in full or not at all, a deposit always happens, a
/// withdrawal happens exactly when the cash covers it, a withdrawal with
/// liquidation exactly when the liquidation value covers it, and an account
/// that holds nothing still holds nothing after a hook.
pub trait InvestmentStrategy: Sized {
    /// What the strategy's bookkeeping keeps true.
    spec fn inv(&self) -> bool;

    /// What the holdings would fetch if sold now, cash included.
    spec fn value(&self) -> int;

    /// The cash that can leave without a sale.
    spec fn cash(&self) -> int;

    /// Every trade made so far, oldest first.
    spec fn trades(&self) -> Seq<Trade>;

    /// Every dividend received so far, oldest first.
    spec fn dividends(&self) -> Seq<DividendPayment>;

    /// The cash is part of the value, and neither is negative or over the limit.
    proof fn lemma_inv(&self)
        requires
            self.inv(),
        ensures
            0 <= self.cash() <= self.value() <= CASH_LIMIT,
    ;

    fn get_liquidation_value(&self) -> (value: CashValue)
        requires
            self.inv(),
        ensures
            value@ == self.value(),
    ;

    fn trades_between(&self, start: DateTime, end: DateTime) -> (found: Vec<Trade>)
        requires
            self.inv(),
        ensures
            found@ == trades_within(self.trades(), start as int, end as int),
    ;

    fn dividends_between(&self, start: DateTime, end: DateTime) -> (found: Vec<DividendPayment>)
        requires
            self.inv(),
        ensures
            found@ == dividends_within(self.dividends(), start as int, end as int),
    ;

    fn deposit_cash(&mut self, cash: CashValue) -> (event: StrategyEvent)
        requires
            old(self).inv(),
            0 <= cash@,
            old(self).value() + cash@ <= CASH_LIMIT,
        ensures
            final(self).inv(),
            event == StrategyEvent::DepositSuccess(cash),
            final(self).value() == old(self).value() + cash@,
            final(self).cash() == old(self).cash() + cash@,
            final(self).trades() == old(self).trades(),
            final(self).dividends() == old(self).dividends(),
    ;

    fn withdraw_cash(&mut self, cash: CashValue) -> (event: StrategyEvent)
        requires
            old(self).inv(),
            0 <= cash@,
        ensures
            final(self).inv(),
            final(self).trades() == old(self).trades(),
            final(self).dividends() == old(self).dividends(),
            cash@ <= old(self).cash() ==> event == StrategyEvent::WithdrawSuccess(cash)
                && final(self).value() == old(self).value() - cash@ && final(self).cash() == old(self).cash() - cash@,
            cash@ > old(self).cash() ==> event == StrategyEvent::WithdrawFailure(cash)
                && final(self).value() == old(self).value() && final(self).cash() == old(self).cash(),
    ;

    fn withdraw_cash_with_liquidation(&mut self, cash: CashValue) -> (event: StrategyEvent)
        requires
            old(self).inv(),
            0 <= cash@,
        ensures
            final(self).inv(),
            cash@ <= old(self).value() ==> event == StrategyEvent::WithdrawSuccess(cash)
                && final(self).value() == old(self).value() - cash@,
            cash@ > old(self).value() ==> event == StrategyEvent::WithdrawFailure(cash)
                && final(self).value() == old(self).value() && final(self).cash() == old(self).cash() && final(self).trades() == old(self).trades() && final(self).dividends()
                == old(self).dividends(),
    ;

    /// What the hook before a tick makes of the strategy: whether `after`
    /// is the strategy once the hook has run on this one.
    spec fn checked(&self, after: &Self) -> bool;

    /// What the hook after a tick makes of the strategy.
    spec fn finished(&self, after: &Self) -> bool;

    /// What trading towards the targets makes of the strategy.
    spec fn traded(&self, after: &Self) -> bool;

    /// Bookkeeping before a tick.
    fn check(&mut self)
        requires
            old(self).inv(),
        ensures
            final(self).inv(),
            old(self).checked(final(self)),
            old(self).value() == 0 ==> final(self).value() == 0 && final(self).trades() == old(self).trades() && final(self).dividends() == old(self).dividends(),
    ;

    /// Settlement after a tick.
    fn finish(&mut self)
        requires
            old(self).inv(),
        ensures
            final(self).inv(),
            old(self).finished(final(self)),
            old(self).value() == 0 ==> final(self).value() == 0 && final(self).trades() == old(self).trades() && final(self).dividends() == old(self).dividends(),
    ;

    /// Trades the holdings towards the target allocation and returns what
    /// they would fetch.
    fn update(&mut self) -> (value: CashValue)
        requires
            old(self).inv(),
        ensures
            final(self).inv(),
            old(self).traded(final(self)),
            value@ == final(self).value(),
    ;

    /// Pays the starting cash in and settles.
    fn init(&mut self, initial_cash: CashValue)
        requires
            old(self).inv(),
            0 <= initial_cash@,
            old(self).value() + initial_cash@ <= CASH_LIMIT,
        ensures
            final(self).inv(),
            final(self).value() == old(self).value() + initial_cash@,
            final(self).trades() == old(self).trades(),
            final(self).dividends() == old(self).dividends(),
    ;

    /// Gives up everything that the strategy holds.
    fn zero(&mut self)
        requires
            old(self).inv(),
        ensures
            final(self).inv(),
            final(self).value() == 0,
    ;
}

/// A strategy that keeps everything in cash.
///
/// Its liquidation value is its cash, so a withdrawal with liquidation is a
/// plain withdrawal and the hooks change nothing. It carries a history of
/// trades and dividends that its owner records, and reports from it.
#[derive(Clone, Debug)]
pub struct CashStrategy {
    pub balance: CashValue,
    pub trade_log: Vec<Trade>,
    pub dividend_log: Vec<DividendPayment>,
}

impl CashStrategy {
    /// A strategy that holds nothing and has no history.
    pub fn new() -> (strat: CashStrategy)
        ensures
            strat.inv(),
            strat.value() == 0,
            strat.trades() == Seq::<Trade>::empty(),
            strat.dividends() == Seq::<DividendPayment>::empty(),
    {
        CashStrategy {
            balance: CashValue::zero(),
            trade_log: Vec::new(),
            dividend_log: Vec::new(),
        }
    }

    /// Records a trade.
    pub fn record_trade(&mut self, trade: Trade)
        requires
            old(self).inv(),
        ensures
            final(self).inv(),
            final(self).value() == old(self).value(),
            final(self).dividends() == old(self).dividends(),
            final(self).trades() == old(self).trades().push(trade),
    {
        self.trade_log.push(trade);
    }

    /// Records a dividend payment.
    pub fn record_dividend(&mut self, payment: DividendPayment)
        requires
            old(self).inv(),
        ensures
            final(self).inv(),
            final(self).value() == old(self).value(),
            final(self).trades() == old(self).trades(),
            final(self).dividends() == old(self).dividends().push(payment),
    {
        self.dividend_log.push(payment);
    }
}

impl InvestmentStrategy for CashStrategy {
    open spec fn inv(&self) -> bool {
        0 <= self.balance@ <= CASH_LIMIT
    }

    open spec fn value(&self) -> int {
        self.balance@
    }

    open spec fn cash(&self) -> int {
        self.balance@
    }

    open spec fn trades(&self) -> Seq<Trade> {
        self.trade_log@
    }

    open spec fn dividends(&self) -> Seq<DividendPayment> {
        self.dividend_log@
    }

    proof fn lemma_inv(&self) {
    }

    fn get_liquidation_value(&self) -> (value: CashValue) {
        self.balance
    }

    fn trades_between(&self, start: DateTime, end: DateTime) -> (found: Vec<Trade>) {
        select_trades(&self.trade_log, start, end)
    }

    fn dividends_between(&self, start: DateTime, end: DateTime) -> (found: Vec<DividendPayment>) {
        select_dividends(&self.dividend_log, start, end)
    }

    fn deposit_cash(&mut self, cash: CashValue) -> (event: StrategyEvent) {
        self.balance = CashValue { minor: self.balance.minor + cash.minor };
        StrategyEvent::DepositSuccess(cash)
    }

    fn withdraw_cash(&mut self, cash: CashValue) -> (event: StrategyEvent) {
        if cash.minor > self.balance.minor {
            StrategyEvent::WithdrawFailure(cash)
        } else {
            self.balance = CashValue { minor: self.balance.minor - cash.minor };
            StrategyEvent::WithdrawSuccess(cash)
        }
    }

    fn withdraw_cash_with_liquidation(&mut self, cash: CashValue) -> (event: StrategyEvent) {
        self.withdraw_cash(cash)
    }

    /// The hook before a tick changes nothing.
    open spec fn checked(&self, after: &Self) -> bool {
        *after == *self
    }

    /// The hook after a tick changes nothing.
    open spec fn finished(&self, after: &Self) -> bool {
        *after == *self
    }

    /// Cash has nothing to trade.
    open spec fn traded(&self, after: &Self) -> bool {
        *after == *self
    }

    fn check(&mut self) {
    }

    fn finish(&mut self) {
    }

    fn update(&mut self) -> (value: CashValue) {
        self.balance
    }

    fn init(&mut self, initial_cash: CashValue) {
        self.balance = CashValue { minor: self.balance.minor + initial_cash.minor };
    }

    fn zero(&mut self) {
        self.balance = CashValue::zero();
    }
}

} // verus!
