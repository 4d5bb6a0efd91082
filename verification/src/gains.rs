//! Realised capital gains and dividends, worked out from a history of trades.
use vstd::prelude::*;
use crate::money::{floor_div, CashValue};
use crate::schedule::DateTime;
use crate::strat::{
    dividends_in_range, dividends_within, trades_in_range, trades_within, DividendPayment, Trade,
    TradeType, HISTORY_LIMIT, QUANTITY_LIMIT,
};
use crate::tax::uk::TAX_LIMIT;

verus! {

/// Parts into which a price per unit divides one hundredth.
pub const PRICE_SCALE: i64 = 1_000_000;

/// The units held and what they cost, as the trades of a symbol before a
/// time leave them: a purchase adds its units and its total, a sale takes its
/// units and its total away.
pub open spec fn position(trades: Seq<Trade>, symbol: Seq<char>, before: int) -> (int, int)
    decreases trades.len(),
{
    if trades.len() == 0 {
        (0, 0)
    } else {
        let rest = position(trades.drop_last(), symbol, before);
        let t = trades.last();
        if t.symbol@ == symbol && t.date < before {
            match t.typ {
                TradeType::Buy => (rest.0 + t.quantity, rest.1 + t.value@),
                TradeType::Sell => (rest.0 - t.quantity, rest.1 - t.value@),
            }
        } else {
            rest
        }
    }
}

/// The price of one unit, in millionths of a hundredth, rounded down.
pub open spec fn unit_price(value: int, quantity: int) -> int {
    (value * PRICE_SCALE) / quantity
}

/// The average cost of one unit of a position, in millionths of a
/// hundredth: the cost divided by the units, rounded down. A position of
/// negative units, which sales beyond the holding leave, is costed by the
/// same quotient.
pub open spec fn average_cost(cost: int, units: int) -> int {
    if units < 0 {
        unit_price(-cost, -units)
    } else {
        unit_price(cost, units)
    }
}

/// The gain that a sale realises: the price of a unit sold less the average
/// cost of a unit of the position before the sale, times the units sold,
/// rounded down to the hundredth. A sale of nothing realises nothing, and so
/// does a sale that finds a position of no units, which has no average cost.
pub open spec fn gain_of_sale(trades: Seq<Trade>, sale: Trade) -> int {
    let held = position(trades, sale.symbol@, sale.date as int);
    if held.0 == 0 || sale.quantity == 0 {
        0
    } else {
        ((unit_price(sale.value@, sale.quantity as int) - average_cost(held.1, held.0))
            * sale.quantity) / (PRICE_SCALE as int)
    }
}

/// Whether a trade is a sale after the start of the tax year.
pub open spec fn qualifies(trade: Trade, tax_year_start: int) -> bool {
    trade.typ == TradeType::Sell && trade.date > tax_year_start
}

/// The gains that the qualifying sales among the first `n` trades realise.
pub open spec fn gains_among(trades: Seq<Trade>, n: int, tax_year_start: int) -> int
    decreases n,
{
    if n <= 0 {
        0
    } else {
        gains_among(trades, n - 1, tax_year_start) + if qualifies(trades[n - 1], tax_year_start) {
            gain_of_sale(trades, trades[n - 1])
        } else {
            0
        }
    }
}

/// The gains that the qualifying sales of a history realise.
pub open spec fn realised_gains(trades: Seq<Trade>, tax_year_start: int) -> int {
    gains_among(trades, trades.len() as int, tax_year_start)
}

/// The sum of the payments of a history.
pub open spec fn total_dividends(dividends: Seq<DividendPayment>) -> int
    decreases dividends.len(),
{
    if dividends.len() == 0 {
        0
    } else {
        total_dividends(dividends.drop_last()) + dividends.last().value@
    }
}

/// The gains of a history as they are reported: the realised gains, if the
/// history is one that the arithmetic accepts and the gains lie within what
/// the tax engine accepts.
pub open spec fn gains_reported(trades: Seq<Trade>, tax_year_start: int) -> Option<int> {
    if trades_in_range(trades) && -TAX_LIMIT <= realised_gains(trades, tax_year_start)
        <= TAX_LIMIT {
        Some(realised_gains(trades, tax_year_start))
    } else {
        None
    }
}

/// The dividends of a history as they are reported: their sum, if the
/// history is one that the arithmetic accepts and the sum lies within what
/// the tax engine accepts.
pub open spec fn dividends_reported(dividends: Seq<DividendPayment>) -> Option<int> {
    if dividends_in_range(dividends) && total_dividends(dividends) <= TAX_LIMIT {
        Some(total_dividends(dividends))
    } else {
        None
    }
}

/// Whether a history of trades is one that the arithmetic accepts.
fn trades_acceptable(all_trades: &[Trade]) -> (ok: bool)
    ensures
        ok == trades_in_range(all_trades@),
{
    if all_trades.len() > HISTORY_LIMIT {
        return false;
    }
    let mut i: usize = 0;
    while i < all_trades.len()
        invariant
            i <= all_trades.len(),
            forall|k: int| 0 <= k < i ==> (#[trigger] all_trades@[k]).in_range(),
        decreases all_trades.len() - i,
    {
        let trade = &all_trades[i];
        if trade.value.minor < 0 || trade.value.minor > TAX_LIMIT || trade.quantity
            > QUANTITY_LIMIT {
            assert(!all_trades@[i as int].in_range());
            return false;
        }
        i = i + 1;
    }
    true
}

/// Whether a history of dividends is one that the arithmetic accepts.
fn dividends_acceptable(dividends: &[DividendPayment]) -> (ok: bool)
    ensures
        ok == dividends_in_range(dividends@),
{
    if dividends.len() > HISTORY_LIMIT {
        return false;
    }
    let mut i: usize = 0;
    while i < dividends.len()
        invariant
            i <= dividends.len(),
            forall|k: int| 0 <= k < i ==> (#[trigger] dividends@[k]).in_range(),
        decreases dividends.len() - i,
    {
        let payment = &dividends[i];
        if payment.value.minor < 0 || payment.value.minor > TAX_LIMIT {
            assert(!dividends@[i as int].in_range());
            return false;
        }
        i = i + 1;
    }
    true
}

/// The units of a symbol held before a time and what they cost.
fn position_before(all_trades: &[Trade], sale: &Trade) -> (held: (i128, i128))
    requires
        trades_in_range(all_trades@),
    ensures
        held.0 == position(all_trades@, sale.symbol@, sale.date as int).0,
        held.1 == position(all_trades@, sale.symbol@, sale.date as int).1,
        -HISTORY_LIMIT * QUANTITY_LIMIT <= held.0 <= HISTORY_LIMIT * QUANTITY_LIMIT,
        -HISTORY_LIMIT * TAX_LIMIT <= held.1 <= HISTORY_LIMIT * TAX_LIMIT,
{
    let mut cum_qty: i128 = 0;
    let mut cum_val: i128 = 0;
    let mut j: usize = 0;
    while j < all_trades.len()
        invariant
            j <= all_trades.len(),
            trades_in_range(all_trades@),
            cum_qty == position(all_trades@.take(j as int), sale.symbol@, sale.date as int).0,
            cum_val == position(all_trades@.take(j as int), sale.symbol@, sale.date as int).1,
            -j * QUANTITY_LIMIT <= cum_qty <= j * QUANTITY_LIMIT,
            -j * TAX_LIMIT <= cum_val <= j * TAX_LIMIT,
        decreases all_trades.len() - j,
    {
        let symbol_trade = &all_trades[j];
        proof {
            assert(all_trades@.take(j + 1).drop_last() == all_trades@.take(j as int));
            assert(all_trades@.take(j + 1).last() == all_trades@[j as int]);
            assert(all_trades@[j as int].in_range());
            assert(j * QUANTITY_LIMIT + QUANTITY_LIMIT == (j + 1) * QUANTITY_LIMIT)
                by (nonlinear_arith);
            assert(j * TAX_LIMIT + TAX_LIMIT == (j + 1) * TAX_LIMIT) by (nonlinear_arith);
            assert(j * QUANTITY_LIMIT <= HISTORY_LIMIT * QUANTITY_LIMIT) by (nonlinear_arith)
                requires
                    j <= HISTORY_LIMIT,
            ;
            assert(j * TAX_LIMIT <= HISTORY_LIMIT * TAX_LIMIT) by (nonlinear_arith)
                requires
                    j <= HISTORY_LIMIT,
            ;
        }
        if symbol_trade.symbol == sale.symbol && symbol_trade.date < sale.date {
            match symbol_trade.typ {
                TradeType::Buy => {
                    cum_qty = cum_qty + symbol_trade.quantity as i128;
                    cum_val = cum_val + symbol_trade.value.minor as i128;
                },
                TradeType::Sell => {
                    cum_qty = cum_qty - symbol_trade.quantity as i128;
                    cum_val = cum_val - symbol_trade.value.minor as i128;
                },
            }
        }
        j = j + 1;
    }
    proof {
        assert(all_trades@.take(j as int) == all_trades@);
        assert(j * QUANTITY_LIMIT <= HISTORY_LIMIT * QUANTITY_LIMIT) by (nonlinear_arith)
            requires
                j <= HISTORY_LIMIT,
        ;
        assert(j * TAX_LIMIT <= HISTORY_LIMIT * TAX_LIMIT) by (nonlinear_arith)
            requires
                j <= HISTORY_LIMIT,
        ;
    }
    (cum_qty, cum_val)
}

/// Largest magnitude of the gain of one sale.
pub open spec fn sale_gain_limit() -> int {
    20_000_000_000_000_000_000_000_000_000_000
}

/// The gain that one sale realises.
fn sale_gain(all_trades: &[Trade], sale: &Trade) -> (gain: i128)
    requires
        trades_in_range(all_trades@),
        sale.in_range(),
    ensures
        gain == gain_of_sale(all_trades@, *sale),
        -sale_gain_limit() <= gain <= sale_gain_limit(),
{
    let (held_qty, held_val) = position_before(all_trades, sale);
    if held_qty == 0 || sale.quantity == 0 {
        return 0;
    }
    //A position of negative units is costed by the same quotient, with both signs turned.
    let (cum_qty, cum_val) = if held_qty < 0 {
        (-held_qty, -held_val)
    } else {
        (held_qty, held_val)
    };
    let scale: i128 = PRICE_SCALE as i128;
    let quantity: i128 = sale.quantity as i128;
    proof {
        assert(HISTORY_LIMIT * TAX_LIMIT == 10_000_000_000_000_000_000_000int);
        assert(cum_qty >= 1);
        assert(-10_000_000_000_000_000_000_000 <= cum_val <= 10_000_000_000_000_000_000_000);
        assert(cum_val as int == if held_qty < 0 {
            -(held_val as int)
        } else {
            held_val as int
        });
        assert(-10_000_000_000_000_000_000_000_000_000 <= cum_val * scale
            <= 10_000_000_000_000_000_000_000_000_000) by (nonlinear_arith)
            requires
                scale == 1_000_000,
                -10_000_000_000_000_000_000_000 <= cum_val <= 10_000_000_000_000_000_000_000,
        ;
        assert(-10_000_000_000_000_000_000_000_000_000 <= (cum_val as int * scale as int) / (cum_qty as int)
            <= 10_000_000_000_000_000_000_000_000_000) by (nonlinear_arith)
            requires
                cum_qty >= 1,
                scale == 1_000_000,
                -10_000_000_000_000_000_000_000 <= cum_val <= 10_000_000_000_000_000_000_000,
        ;
        assert(0 <= (sale.value.minor as int * scale as int) / (quantity as int)
            <= 10_000_000_000_000_000_000_000)
            by (nonlinear_arith)
            requires
                quantity >= 1,
                scale == 1_000_000,
                0 <= sale.value.minor <= 10_000_000_000_000_000,
        ;
    }
    let avg_price = floor_div(cum_val * scale, cum_qty);
    let sale_price = floor_div((sale.value.minor as i128) * scale, quantity);
    let spread = sale_price - avg_price;
    proof {
        assert(-10_000_010_000_000_000_000_000_000_000_000_000_000 <= spread * quantity
            <= 10_000_010_000_000_000_000_000_000_000_000_000_000) by (nonlinear_arith)
            requires
                0 <= quantity <= 1_000_000_000,
                -10_000_010_000_000_000_000_000_000_000 <= spread
                    <= 10_000_010_000_000_000_000_000_000_000,
        ;
        assert(-20_000_000_000_000_000_000_000_000_000_000 <= (spread as int * quantity as int) / (scale as int)
            <= 20_000_000_000_000_000_000_000_000_000_000) by (nonlinear_arith)
            requires
                scale == 1_000_000,
                -10_000_010_000_000_000_000_000_000_000_000_000_000 <= spread * quantity
                    <= 10_000_010_000_000_000_000_000_000_000_000_000_000,
        ;
    }
    floor_div(spread * quantity, scale)
}

/// The capital gains that the sales after the start of the tax year realise,
/// given the whole history of trades. Nothing where the history is not one
/// that the arithmetic accepts, or the gains exceed what the tax engine
/// accepts.
///
/// For each such sale the position in its symbol is rebuilt from every
/// earlier trade of the history.
pub fn calculate_capital_gains(all_trades: &[Trade], tax_year_start: DateTime) -> (gains: Option<
    CashValue,
>)
    ensures
        gains.is_some() == gains_reported(all_trades@, tax_year_start as int).is_some(),
        gains matches Some(g) ==> gains_reported(all_trades@, tax_year_start as int) == Some(g@),
{
    if !trades_acceptable(all_trades) {
        return None;
    }
    let mut capital_gain: i128 = 0;
    let mut i: usize = 0;
    while i < all_trades.len()
        invariant
            i <= all_trades.len(),
            trades_in_range(all_trades@),
            capital_gain == gains_among(all_trades@, i as int, tax_year_start as int),
            -i * sale_gain_limit() <= capital_gain <= i * sale_gain_limit(),
        decreases all_trades.len() - i,
    {
        let sale = &all_trades[i];
        proof {
            assert(all_trades@[i as int].in_range());
            assert(i * sale_gain_limit() + sale_gain_limit() == (i + 1) * sale_gain_limit())
                by (nonlinear_arith);
            assert((i + 1) * sale_gain_limit() <= 1_000_000 * sale_gain_limit())
                by (nonlinear_arith)
                requires
                    i + 1 <= 1_000_000,
            ;
        }
        if sale.date > tax_year_start && matches!(sale.typ, TradeType::Sell) {
            let sale_capital_gain = sale_gain(all_trades, sale);
            capital_gain = capital_gain + sale_capital_gain;
        }
        i = i + 1;
    }
    if -(TAX_LIMIT as i128) <= capital_gain && capital_gain <= TAX_LIMIT as i128 {
        Some(CashValue { minor: capital_gain as i64 })
    } else {
        None
    }
}

/// The sum of the payments. Nothing where the history is not one that the
/// arithmetic accepts, or the sum exceeds what the tax engine accepts.
pub fn sum_dividends(dividends: &[DividendPayment]) -> (sum: Option<CashValue>)
    ensures
        sum.is_some() == dividends_reported(dividends@).is_some(),
        sum matches Some(s) ==> dividends_reported(dividends@) == Some(s@) && 0 <= s@,
{
    if !dividends_acceptable(dividends) {
        return None;
    }
    let mut total: i128 = 0;
    let mut i: usize = 0;
    while i < dividends.len()
        invariant
            i <= dividends.len(),
            dividends_in_range(dividends@),
            total == total_dividends(dividends@.take(i as int)),
            0 <= total <= i * TAX_LIMIT,
        decreases dividends.len() - i,
    {
        let divi = &dividends[i];
        proof {
            assert(dividends@.take(i + 1).drop_last() == dividends@.take(i as int));
            assert(dividends@.take(i + 1).last() == dividends@[i as int]);
            assert(dividends@[i as int].in_range());
            assert(i * TAX_LIMIT + TAX_LIMIT == (i + 1) * TAX_LIMIT) by (nonlinear_arith);
            assert((i + 1) * TAX_LIMIT <= 1_000_000 * TAX_LIMIT) by (nonlinear_arith)
                requires
                    i + 1 <= 1_000_000,
            ;
        }
        total = total + divi.value.minor as i128;
        i = i + 1;
    }
    proof {
        assert(dividends@.take(i as int) == dividends@);
    }
    if total <= TAX_LIMIT as i128 {
        Some(CashValue { minor: total as i64 })
    } else {
        None
    }
}

/// A history without trades reports no gains, and one without dividends
/// none, whatever the dates.
pub proof fn lemma_no_history_no_gains(trades: Seq<Trade>, dividends: Seq<DividendPayment>)
    requires
        trades.len() == 0,
        dividends.len() == 0,
    ensures
        forall|start: int, end: int, tax_year_start: int|
            #[trigger] gains_reported(trades_within(trades, start, end), tax_year_start) == Some(
                0int,
            ),
        forall|start: int, end: int| #[trigger]
            dividends_reported(dividends_within(dividends, start, end)) == Some(0int),
{
    reveal(Seq::filter);
    assert forall|start: int, end: int, tax_year_start: int|
        #[trigger] gains_reported(trades_within(trades, start, end), tax_year_start) == Some(
            0int,
        ) by {
        assert(trades_within(trades, start, end).len() == 0);
    }
    assert forall|start: int, end: int| #[trigger]
        dividends_reported(dividends_within(dividends, start, end)) == Some(0int) by {
        assert(dividends_within(dividends, start, end).len() == 0);
    }
}

} // verus!
