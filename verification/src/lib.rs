//! A day-by-day simulation of the finances of one household in the United
//! Kingdom.
//!
//! Income and expenses flow through a bank account. What the bank holds over
//! an emergency fund is swept into a tax-free savings account and, past its
//! annual threshold, into a general investment account; a share of each wage
//! goes to a pension. Once a year the tax due on the year's income, gains and
//! dividends is worked out and settled, from the bank or by selling
//! investments.
//!
//! Money is counted in hundredths and rates in billionths, both as integers;
//! products are rounded down. Every function states what it computes, and
//! Verus proves that it does. The one exception is the reading of dates,
//! which is taken from the `time` crate and stated, unproved, in the calendar
//! module.
pub mod acc;
pub mod asset;
pub mod calendar;
pub mod clock;
pub mod config;
pub mod eod;
pub mod flow;
pub mod gains;
pub mod input;
pub mod loan;
pub mod money;
pub mod mutation;
pub mod output;
pub mod report;
pub mod schedule;
pub mod sim;
pub mod stack;
pub mod strat;
pub mod tax;
