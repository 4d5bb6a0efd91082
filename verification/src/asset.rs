//! A strategy that holds one asset, at prices that follow a fixed path.
use vstd::prelude::*;
use crate::calendar::{LAST_TIMESTAMP, SECONDS_PER_DAY};
use crate::input::quotable;
use crate::money::{grow, CashValue, Rate, CASH_LIMIT};
use crate::schedule::DateTime;
use crate::strat::{
    select_dividends, select_trades, DividendPayment, InvestmentStrategy, StrategyEvent, Trade,
    TradeType,
};

verus! {

/// A strategy that puts all its cash into one asset.
///
/// Each day the price of a unit grows by a fixed rate, and each unit pays a
/// fixed dividend. Trading buys as many whole units as the cash affords. A
/// withdrawal with liquidation sells as many whole units as the shortfall
/// takes and keeps the change in cash. Every purchase, sale and dividend is
/// recorded with the day on which it happens.
#[derive(Clone, Debug)]
pub struct SingleAssetStrategy {
    pub symbol: String,
    pub price: CashValue,
    pub daily_return: Rate,
    pub dividend_per_unit: CashValue,
    pub units: u64,
    pub free_cash: CashValue,
    pub today: DateTime,
    pub trade_log: Vec<Trade>,
    pub dividend_log: Vec<DividendPayment>,
}

impl SingleAssetStrategy {
    /// What the units are worth at the price.
    pub open spec fn holding(&self) -> int {
        self.units * self.price@
    }

    /// A strategy without money, on a day, with a price, a daily return and
    /// a daily dividend per unit. Nothing where the price is not positive,
    /// the return is under minus one, the dividend is negative, or a figure
    /// lies outside what the arithmetic accepts.
    pub fn new(
        symbol: &str,
        price: CashValue,
        daily_return: Rate,
        dividend_per_unit: CashValue,
        today: DateTime,
    ) -> (strat: Option<SingleAssetStrategy>)
        ensures
            strat.is_some() == (1 <= price@ <= CASH_LIMIT && quotable(daily_return) && 0
                <= dividend_per_unit@ <= CASH_LIMIT && -LAST_TIMESTAMP <= today <= LAST_TIMESTAMP),
            strat matches Some(s) ==> {
                &&& s.inv()
                &&& s.value() == 0
                &&& s.symbol@ == symbol@
                &&& s.price == price
                &&& s.daily_return == daily_return
                &&& s.dividend_per_unit == dividend_per_unit
                &&& s.today == today
                &&& s.trades().len() == 0
                &&& s.dividends().len() == 0
            },
    {
        if price.minor < 1 || price.minor > CASH_LIMIT || daily_return.ppb < -crate::money::RATE_SCALE
            || daily_return.ppb > crate::money::RATE_LIMIT || dividend_per_unit.minor < 0
            || dividend_per_unit.minor > CASH_LIMIT || today < -LAST_TIMESTAMP || today
            > LAST_TIMESTAMP {
            return None;
        }
        let strat = SingleAssetStrategy {
            symbol: symbol.to_string(),
            price,
            daily_return,
            dividend_per_unit,
            units: 0,
            free_cash: CashValue::zero(),
            today,
            trade_log: Vec::new(),
            dividend_log: Vec::new(),
        };
        assert(strat.units * strat.price@ == 0) by (nonlinear_arith)
            requires
                strat.units == 0,
        ;
        Some(strat)
    }

    /// Whether the symbol and the terms of the asset are those of another
    /// strategy.
    pub open spec fn same_account(&self, other: &Self) -> bool {
        &&& self.symbol == other.symbol
        &&& self.daily_return == other.daily_return
        &&& self.dividend_per_unit == other.dividend_per_unit
    }

    /// The price of the next day: the price grown by the daily return,
    /// unless that is less than one hundredth or more than an account can
    /// hold, or the units would then be worth more than the account can
    /// hold beside its cash; then the price stays.
    pub open spec fn next_price(&self) -> int {
        let grown = grow(self.price@, self.daily_return@);
        if 1 <= grown <= CASH_LIMIT && self.units * grown <= CASH_LIMIT - self.free_cash@ {
            grown
        } else {
            self.price@
        }
    }

    /// The dividend of a day on all units.
    pub open spec fn payout(&self) -> int {
        self.units * self.dividend_per_unit@
    }

    /// Whether the dividend of a day is paid: there is one, and the account
    /// has room for it.
    pub open spec fn pays_dividend(&self) -> bool {
        0 < self.payout() <= CASH_LIMIT - self.free_cash@ - self.holding()
    }

    /// The whole units that the cash affords at the price.
    pub open spec fn affordable(&self) -> int {
        self.free_cash@ / self.price@
    }

    /// Whether trading buys anything: the cash affords a unit, and the
    /// units can still be counted.
    pub open spec fn buys(&self) -> bool {
        0 < self.affordable() <= u64::MAX - self.units
    }

    /// What the units are worth, in hundredths.
    fn holding_value(&self) -> (worth: i64)
        requires
            self.inv(),
        ensures
            worth == self.holding(),
            0 <= worth <= CASH_LIMIT,
    {
        proof {
            assert(0 <= self.units * self.price@) by (nonlinear_arith)
                requires
                    0 <= self.units,
                    0 <= self.price@,
            ;
        }
        let worth: i128 = (self.units as i128) * (self.price.minor as i128);
        worth as i64
    }
}

/// The worth of any count of units at any price that an account can hold
/// fits the wide integers that it is worked out in.
proof fn lemma_worth_fits(units: u64, price: int)
    requires
        0 <= price <= CASH_LIMIT,
    ensures
        0 <= units * price <= i128::MAX,
{
    assert(0 <= units * price <= 18_446_744_073_709_551_615 * 1_000_000_000_000_000_000)
        by (nonlinear_arith)
        requires
            0 <= units <= 18_446_744_073_709_551_615,
            0 <= price <= 1_000_000_000_000_000_000,
    ;
}

/// Units that cost nothing to hold are no units.
proof fn lemma_no_worth_no_units(units: int, price: int)
    requires
        0 <= units,
        1 <= price,
        units * price == 0,
    ensures
        units == 0,
{
    assert(units * price >= units) by (nonlinear_arith)
        requires
            0 <= units,
            1 <= price,
    ;
}

/// The units that a shortfall takes at a price, rounded up, are no more than
/// the units whose worth covers the shortfall, and fetch the shortfall and
/// less than a price more.
proof fn lemma_units_to_sell(shortfall: int, price: int, units: int)
    requires
        1 <= price,
        1 <= shortfall <= units * price,
    ensures
        1 <= (shortfall + price - 1) / price <= units,
        shortfall <= ((shortfall + price - 1) / price) * price < shortfall + price,
        (units - (shortfall + price - 1) / price) * price == units * price - ((shortfall + price
            - 1) / price) * price,
{
    let sold = (shortfall + price - 1) / price;
    assert(1 <= sold && shortfall <= sold * price < shortfall + price) by (nonlinear_arith)
        requires
            1 <= price,
            1 <= shortfall,
            sold == (shortfall + price - 1) / price,
    ;
    assert(sold <= units) by (nonlinear_arith)
        requires
            1 <= price,
            sold * price < shortfall + price,
            shortfall <= units * price,
    ;
    assert((units - sold) * price == units * price - sold * price) by (nonlinear_arith);
}

/// The units that cash affords at a price cost no more than the cash.
proof fn lemma_units_to_buy(cash: int, price: int, units: int)
    requires
        1 <= price,
        0 <= cash,
        0 <= units,
    ensures
        0 <= (cash / price) * price <= cash,
        (units + cash / price) * price == units * price + (cash / price) * price,
{
    let bought = cash / price;
    assert(0 <= bought * price <= cash) by (nonlinear_arith)
        requires
            1 <= price,
            0 <= cash,
            bought == cash / price,
    ;
    assert((units + bought) * price == units * price + bought * price) by (nonlinear_arith);
}

impl InvestmentStrategy for SingleAssetStrategy {
    open spec fn inv(&self) -> bool {
        &&& 1 <= self.price@ <= CASH_LIMIT
        &&& quotable(self.daily_return)
        &&& 0 <= self.dividend_per_unit@ <= CASH_LIMIT
        &&& 0 <= self.free_cash@
        &&& self.free_cash@ + self.holding() <= CASH_LIMIT
        &&& -LAST_TIMESTAMP <= self.today <= LAST_TIMESTAMP
    }

    open spec fn value(&self) -> int {
        self.free_cash@ + self.holding()
    }

    open spec fn cash(&self) -> int {
        self.free_cash@
    }

    open spec fn trades(&self) -> Seq<Trade> {
        self.trade_log@
    }

    open spec fn dividends(&self) -> Seq<DividendPayment> {
        self.dividend_log@
    }

    proof fn lemma_inv(&self) {
        assert(0 <= self.units * self.price@) by (nonlinear_arith)
            requires
                0 <= self.units,
                0 <= self.price@,
        ;
    }

    fn get_liquidation_value(&self) -> (value: CashValue) {
        let holding = self.holding_value();
        CashValue { minor: self.free_cash.minor + holding }
    }

    fn trades_between(&self, start: DateTime, end: DateTime) -> (found: Vec<Trade>) {
        select_trades(&self.trade_log, start, end)
    }

    fn dividends_between(&self, start: DateTime, end: DateTime) -> (found: Vec<DividendPayment>) {
        select_dividends(&self.dividend_log, start, end)
    }

    fn deposit_cash(&mut self, cash: CashValue) -> (event: StrategyEvent) {
        proof {
            self.lemma_inv();
        }
        self.free_cash = CashValue { minor: self.free_cash.minor + cash.minor };
        StrategyEvent::DepositSuccess(cash)
    }

    fn withdraw_cash(&mut self, cash: CashValue) -> (event: StrategyEvent) {
        if cash.minor > self.free_cash.minor {
            StrategyEvent::WithdrawFailure(cash)
        } else {
            self.free_cash = CashValue { minor: self.free_cash.minor - cash.minor };
            StrategyEvent::WithdrawSuccess(cash)
        }
    }

    /// Pays out of the cash what the cash covers. Else sells the units that
    /// the shortfall takes, rounded up to whole units, records the sale,
    /// and keeps the change in cash.
    fn withdraw_cash_with_liquidation(&mut self, cash: CashValue) -> (event: StrategyEvent)
        ensures
            final(self).price == old(self).price,
            final(self).today == old(self).today,
            final(self).dividends() == old(self).dividends(),
            cash@ <= old(self).free_cash@ || cash@ > old(self).value() ==> final(self).trades()
                == old(self).trades(),
    {
        let holding = self.holding_value();
        if cash.minor > self.free_cash.minor + holding {
            return StrategyEvent::WithdrawFailure(cash);
        }
        if cash.minor <= self.free_cash.minor {
            self.free_cash = CashValue { minor: self.free_cash.minor - cash.minor };
            return StrategyEvent::WithdrawSuccess(cash);
        }
        let shortfall: i64 = cash.minor - self.free_cash.minor;
        proof {
            lemma_units_to_sell(shortfall as int, self.price@, self.units as int);
        }
        let sold: i64 = (shortfall + self.price.minor - 1) / self.price.minor;
        let proceeds: i64 = sold * self.price.minor;
        self.units = self.units - sold as u64;
        self.free_cash = CashValue { minor: proceeds - shortfall };
        self.trade_log.push(
            Trade {
                symbol: self.symbol.clone(),
                value: CashValue { minor: proceeds },
                quantity: sold as u64,
                date: self.today,
                typ: TradeType::Sell,
            },
        );
        StrategyEvent::WithdrawSuccess(cash)
    }

    /// A day passes: the date moves on by a day, unless it is the last
    /// that has a calendar date, and the price becomes the next of its path.
    /// Nothing else changes.
    open spec fn checked(&self, after: &Self) -> bool {
        &&& after.same_account(self)
        &&& after.units == self.units
        &&& after.free_cash == self.free_cash
        &&& after.trade_log@ == self.trade_log@
        &&& after.dividend_log@ == self.dividend_log@
        &&& after.today == if self.today + SECONDS_PER_DAY <= LAST_TIMESTAMP {
            self.today + SECONDS_PER_DAY
        } else {
            self.today as int
        }
        &&& after.price@ == self.next_price()
    }

    /// The day's dividend is paid on every unit into the cash and recorded
    /// with the day, unless there is none or the account has no room for it.
    /// Nothing else changes.
    open spec fn finished(&self, after: &Self) -> bool {
        &&& after.same_account(self)
        &&& after.price == self.price
        &&& after.units == self.units
        &&& after.today == self.today
        &&& after.trade_log@ == self.trade_log@
        &&& if self.pays_dividend() {
            &&& after.free_cash@ == self.free_cash@ + self.payout()
            &&& after.dividend_log@ == self.dividend_log@.push(
                DividendPayment {
                    value: CashValue { minor: self.payout() as i64 },
                    symbol: self.symbol,
                    date: self.today,
                },
            )
        } else {
            &&& after.free_cash == self.free_cash
            &&& after.dividend_log@ == self.dividend_log@
        }
    }

    /// As many whole units as the cash affords are bought at the price and
    /// the purchase is recorded with the day, unless the cash affords none
    /// or the count of units would leave what can be counted. Nothing else
    /// changes.
    open spec fn traded(&self, after: &Self) -> bool {
        &&& after.same_account(self)
        &&& after.price == self.price
        &&& after.today == self.today
        &&& after.dividend_log@ == self.dividend_log@
        &&& if self.buys() {
            &&& after.units == self.units + self.affordable()
            &&& after.free_cash@ == self.free_cash@ - self.affordable() * self.price@
            &&& after.trade_log@ == self.trade_log@.push(
                Trade {
                    symbol: self.symbol,
                    value: CashValue { minor: (self.affordable() * self.price@) as i64 },
                    quantity: self.affordable() as u64,
                    date: self.today,
                    typ: TradeType::Buy,
                },
            )
        } else {
            &&& after.units == self.units
            &&& after.free_cash == self.free_cash
            &&& after.trade_log@ == self.trade_log@
        }
    }

    fn check(&mut self)
    {
        if self.today <= LAST_TIMESTAMP - SECONDS_PER_DAY {
            self.today = self.today + SECONDS_PER_DAY;
        }
        proof {
            crate::flow::lemma_growth_keeps_sign(self.price@, self.daily_return@);
            if self.holding() == 0 {
                lemma_no_worth_no_units(self.units as int, self.price@);
            }
        }
        let share = self.daily_return.of(self.price);
        let grown: i128 = (self.price.minor as i128) + (share.minor as i128);
        if grown >= 1 && grown <= CASH_LIMIT as i128 {
            proof {
                lemma_worth_fits(self.units, grown as int);
            }
            let worth: i128 = (self.units as i128) * grown;
            if worth <= (CASH_LIMIT - self.free_cash.minor) as i128 {
                proof {
                    assert(self.units == 0 ==> self.units * grown == 0) by (nonlinear_arith);
                }
                self.price = CashValue { minor: grown as i64 };
            }
        }
    }

    fn finish(&mut self)
    {
        proof {
            self.lemma_inv();
            if self.holding() == 0 {
                lemma_no_worth_no_units(self.units as int, self.price@);
            }
        }
        let holding = self.holding_value();
        proof {
            lemma_worth_fits(self.units, self.dividend_per_unit@);
        }
        let payout: i128 = (self.units as i128) * (self.dividend_per_unit.minor as i128);
        if payout > 0 && payout <= (CASH_LIMIT - self.free_cash.minor - holding) as i128 {
            self.free_cash = CashValue { minor: self.free_cash.minor + payout as i64 };
            self.dividend_log.push(
                DividendPayment {
                    value: CashValue { minor: payout as i64 },
                    symbol: self.symbol.clone(),
                    date: self.today,
                },
            );
        }
    }

    fn update(&mut self) -> (value: CashValue)
    {
        proof {
            self.lemma_inv();
            lemma_units_to_buy(self.free_cash@, self.price@, self.units as int);
        }
        let bought: i64 = self.free_cash.minor / self.price.minor;
        if bought > 0 && (bought as u64) <= u64::MAX - self.units {
            let cost: i64 = bought * self.price.minor;
            self.units = self.units + bought as u64;
            self.free_cash = CashValue { minor: self.free_cash.minor - cost };
            self.trade_log.push(
                Trade {
                    symbol: self.symbol.clone(),
                    value: CashValue { minor: cost },
                    quantity: bought as u64,
                    date: self.today,
                    typ: TradeType::Buy,
                },
            );
        }
        self.get_liquidation_value()
    }

    fn init(&mut self, initial_cash: CashValue) {
        proof {
            self.lemma_inv();
        }
        self.free_cash = CashValue { minor: self.free_cash.minor + initial_cash.minor };
    }

    fn zero(&mut self) {
        self.units = 0;
        self.free_cash = CashValue::zero();
        assert(self.units * self.price@ == 0) by (nonlinear_arith)
            requires
                self.units == 0,
        ;
    }
}

} // verus!
