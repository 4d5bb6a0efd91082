//! The simulation clock: a fixed run of evenly spaced points in time.
use vstd::prelude::*;
use crate::calendar::{LAST_TIMESTAMP, SECONDS_PER_DAY};
use crate::schedule::DateTime;

verus! {

/// Largest count of steps that a clock can take.
pub const CLOCK_LIMIT: u32 = 1_000_000;

/// A clock over the days from a start, both ends included. It starts on its
/// first day and stops on its last.
#[derive(Clone, Copy, Debug, PartialEq, Eq, Structural)]
pub struct Clock {
    pub start: DateTime,
    pub length_in_days: u32,
    pub pos: u32,
}

impl Clock {
    /// The clock has not passed its last day, and each of its days is a
    /// timestamp that fits.
    pub open spec fn wf(self) -> bool {
        &&& self.pos <= self.length_in_days <= CLOCK_LIMIT
        &&& -LAST_TIMESTAMP <= self.start <= LAST_TIMESTAMP
    }

    /// The day at a position.
    pub open spec fn day(self, pos: int) -> int {
        self.start + pos * SECONDS_PER_DAY
    }

    /// The days of the clock, in their order.
    pub open spec fn days(self) -> Seq<DateTime> {
        Seq::new((self.length_in_days + 1) as nat, |i: int| self.day(i) as DateTime)
    }

    /// A clock on its first day, or nothing where the start or the length
    /// lies outside what a clock can hold.
    pub fn with_length_in_days(start: DateTime, length_in_days: u32) -> (clock: Option<Clock>)
        ensures
            clock.is_some() == (length_in_days <= CLOCK_LIMIT && -LAST_TIMESTAMP <= start
                <= LAST_TIMESTAMP),
            clock matches Some(c) ==> c.wf() && c.start == start && c.length_in_days
                == length_in_days && c.pos == 0,
    {
        if length_in_days <= CLOCK_LIMIT && -LAST_TIMESTAMP <= start && start <= LAST_TIMESTAMP {
            Some(Clock { start, length_in_days, pos: 0 })
        } else {
            None
        }
    }

    /// The day that the clock is on.
    pub fn now(&self) -> (now: DateTime)
        requires
            self.wf(),
        ensures
            now == self.day(self.pos as int),
    {
        self.start + (self.pos as i64) * SECONDS_PER_DAY
    }

    /// Whether a day is left after the one that the clock is on.
    pub fn has_next(&self) -> (more: bool)
        ensures
            more == (self.pos < self.length_in_days),
    {
        self.pos < self.length_in_days
    }

    /// Moves to the next day. A clock on its last day stays there.
    pub fn tick(&mut self)
        requires
            old(self).wf(),
        ensures
            final(self).wf(),
            final(self).start == old(self).start,
            final(self).length_in_days == old(self).length_in_days,
            final(self).pos == if old(self).pos < old(self).length_in_days {
                old(self).pos + 1
            } else {
                old(self).pos as int
            },
    {
        if self.pos < self.length_in_days {
            self.pos = self.pos + 1;
        }
    }

    /// Every day of the clock, whatever day it is on.
    pub fn peek(&self) -> (days: Vec<DateTime>)
        requires
            self.wf(),
        ensures
            days@ == self.days(),
    {
        let mut days: Vec<DateTime> = Vec::new();
        let mut i: u32 = 0;
        while i <= self.length_in_days
            invariant
                self.wf(),
                i <= self.length_in_days + 1,
                days@.len() == i,
                forall|k: int| 0 <= k < i ==> days@[k] == self.day(k),
            decreases self.length_in_days + 1 - i,
        {
            days.push(self.start + (i as i64) * SECONDS_PER_DAY);
            i = i + 1;
        }
        proof {
            assert(days@ =~= self.days());
        }
        days
    }
}

} // verus!
