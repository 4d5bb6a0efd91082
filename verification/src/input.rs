//! Market and economic data by date.
use vstd::prelude::*;
use std::collections::HashMap;
use crate::clock::Clock;
use crate::money::{Rate, RATE_LIMIT, RATE_SCALE};
use crate::schedule::DateTime;

verus! {

/// A rate of growth that the library applies: no less than minus one, which
/// takes everything, and no more than the arithmetic accepts.
pub open spec fn quotable(rate: Rate) -> bool {
    -RATE_SCALE <= rate@ <= RATE_LIMIT
}

/// What the simulation reads of the economy on a date. Each figure may be
/// missing.
pub trait SimDataSource: Sized {
    /// The inflation rate quoted for a date.
    spec fn inflation_at(&self, date: int) -> Option<Rate>;

    /// The reference interest rate quoted for a date.
    spec fn interest_rate_at(&self, date: int) -> Option<Rate>;

    /// The return on house prices quoted for a date.
    spec fn house_price_return_at(&self, date: int) -> Option<Rate>;

    fn get_current_inflation(&self, now: DateTime) -> (rate: Option<Rate>)
        ensures
            rate == self.inflation_at(now as int),
    ;

    fn get_current_interest_rate(&self, now: DateTime) -> (rate: Option<Rate>)
        ensures
            rate == self.interest_rate_at(now as int),
    ;

    fn get_current_house_price_return(&self, now: DateTime) -> (rate: Option<Rate>)
        ensures
            rate == self.house_price_return_at(now as int),
    ;
}

/// A series of rates by date.
#[derive(Clone, Debug)]
pub struct SimDataRep {
    pub entries: HashMap<DateTime, Rate>,
}

impl SimDataRep {
    /// The value of the series on a date.
    pub open spec fn at(&self, date: int) -> Option<Rate> {
        if i64::MIN <= date <= i64::MAX && self.entries@.contains_key(date as DateTime) {
            Some(self.entries@[date as DateTime])
        } else {
            None
        }
    }

    /// The series without any value.
    pub fn new() -> (series: Self)
        ensures
            forall|date: int| series.at(date).is_none(),
    {
        SimDataRep { entries: HashMap::new() }
    }

    /// Sets the value for a date, in place of any value that the date had.
    pub fn insert(&mut self, date: DateTime, value: Rate)
        ensures
            final(self).at(date as int) == Some(value),
            forall|other: int| other != date ==> final(self).at(other) == old(self).at(other),
    {
        broadcast use vstd::std_specs::hash::group_hash_axioms;

        self.entries.insert(date, value);
    }

    /// The value of the series on a date, if it has one.
    pub fn get(&self, date: DateTime) -> (value: Option<Rate>)
        ensures
            value == self.at(date as int),
    {
        broadcast use vstd::std_specs::hash::group_hash_axioms;

        match self.entries.get(&date) {
            Some(rate) => Some(*rate),
            None => None,
        }
    }
}

/// The series that holds one value on every day of a clock.
pub fn constant_series(value: Rate, clock: &Clock) -> (series: SimDataRep)
    requires
        clock.wf(),
    ensures
        forall|i: int| 0 <= i <= clock.length_in_days ==> series.at(clock.day(i)) == Some(value),
        forall|date: int| series.at(date) == Some(value) || series.at(date).is_none(),
{
    let days = clock.peek();
    let mut series = SimDataRep::new();
    let mut i: usize = 0;
    proof {
        assert forall|k: int| 0 <= k <= clock.length_in_days implies #[trigger] days@[k]
            == clock.day(k) by {
            assert(days@[k] == clock.days()[k]);
        }
    }
    while i < days.len()
        invariant
            i <= days.len(),
            days@.len() == clock.length_in_days + 1,
            forall|k: int| 0 <= k <= clock.length_in_days ==> #[trigger] days@[k] == clock.day(k),
            forall|k: int| 0 <= k < i ==> series.at(days@[k] as int) == Some(value),
            forall|date: int| series.at(date) == Some(value) || series.at(date).is_none(),
        decreases days.len() - i,
    {
        series.insert(days[i], value);
        i = i + 1;
    }
    proof {
        assert forall|k: int| 0 <= k <= clock.length_in_days implies series.at(clock.day(k))
            == Some(value) by {
            assert(days@[k] == clock.day(k));
        }
    }
    series
}

/// A data source made of three series.
#[derive(Clone, Debug)]
pub struct HashMapSourceSim {
    pub inflation: SimDataRep,
    pub rates: SimDataRep,
    pub house_price_rets: SimDataRep,
}

impl HashMapSourceSim {
    /// The source made of the three series.
    pub fn new(inflation: SimDataRep, rates: SimDataRep, house_price_rets: SimDataRep) -> (source:
        Self)
        ensures
            source.inflation == inflation,
            source.rates == rates,
            source.house_price_rets == house_price_rets,
    {
        HashMapSourceSim { inflation, rates, house_price_rets }
    }
}

impl SimDataSource for HashMapSourceSim {
    open spec fn inflation_at(&self, date: int) -> Option<Rate> {
        self.inflation.at(date)
    }

    open spec fn interest_rate_at(&self, date: int) -> Option<Rate> {
        self.rates.at(date)
    }

    open spec fn house_price_return_at(&self, date: int) -> Option<Rate> {
        self.house_price_rets.at(date)
    }

    fn get_current_inflation(&self, now: DateTime) -> (rate: Option<Rate>) {
        self.inflation.get(now)
    }

    fn get_current_interest_rate(&self, now: DateTime) -> (rate: Option<Rate>) {
        self.rates.get(now)
    }

    fn get_current_house_price_return(&self, now: DateTime) -> (rate: Option<Rate>) {
        self.house_price_rets.get(now)
    }
}

/// Builds a data source series by series. A series that is not given is empty.
pub struct HashMapSourceSimBuilder {
    pub inflation: SimDataRep,
    pub rates: SimDataRep,
    pub house_price_rets: SimDataRep,
}

impl HashMapSourceSimBuilder {
    /// The builder with the series of reference interest rates.
    pub fn with_rates(self, rates: SimDataRep) -> (builder: Self)
        ensures
            builder.rates == rates,
            builder.inflation == self.inflation,
            builder.house_price_rets == self.house_price_rets,
    {
        HashMapSourceSimBuilder {
            inflation: self.inflation,
            rates,
            house_price_rets: self.house_price_rets,
        }
    }

    /// The builder with the series of inflation rates.
    pub fn with_inflation(self, inflation: SimDataRep) -> (builder: Self)
        ensures
            builder.inflation == inflation,
            builder.rates == self.rates,
            builder.house_price_rets == self.house_price_rets,
    {
        HashMapSourceSimBuilder {
            inflation,
            rates: self.rates,
            house_price_rets: self.house_price_rets,
        }
    }

    /// The builder with the series of returns on house prices.
    pub fn with_house_prices(self, house_prices: SimDataRep) -> (builder: Self)
        ensures
            builder.house_price_rets == house_prices,
            builder.inflation == self.inflation,
            builder.rates == self.rates,
    {
        HashMapSourceSimBuilder {
            inflation: self.inflation,
            rates: self.rates,
            house_price_rets: house_prices,
        }
    }

    /// The source made of the series given so far.
    pub fn build(self) -> (source: HashMapSourceSim)
        ensures
            source.inflation == self.inflation,
            source.rates == self.rates,
            source.house_price_rets == self.house_price_rets,
    {
        HashMapSourceSim::new(self.inflation, self.rates, self.house_price_rets)
    }

    /// The builder without any series.
    pub fn start() -> (builder: Self)
        ensures
            forall|date: int| builder.inflation.at(date).is_none(),
            forall|date: int| builder.rates.at(date).is_none(),
            forall|date: int| builder.house_price_rets.at(date).is_none(),
    {
        HashMapSourceSimBuilder {
            inflation: SimDataRep::new(),
            rates: SimDataRep::new(),
            house_price_rets: SimDataRep::new(),
        }
    }
}

} // verus!
