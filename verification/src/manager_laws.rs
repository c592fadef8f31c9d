//! What each step of the manager does, field by field.

use crate::balance::{balance_of, mentions_balance};
use crate::bus::Side;
use crate::fixed::{
    nearest, nearest_is_close, nearest_is_monotone, nearest_of_multiple, PRICE_CEILING, PRICE_FLOOR,
    UNIT,
};
use crate::manager::{
    hit_rate_of, mean_price_of, min_size_of, stop_loss_of, take_profit_of, ManagerView,
};
use crate::orders::{KellyParams, OrderKind, OrderResult, PlaceResult};
use crate::position::{EffectView, PhaseView, PositionView, StateView};
use crate::position_laws::mean_price_lies_between;
use vstd::arithmetic::div_mod::lemma_fundamental_div_mod;
use vstd::prelude::*;

verus! {

/// How a side is written in the journal.
pub open spec fn word_of(side: Side, word: Seq<char>) -> bool {
    &&& side == Side::Up ==> word == "up"@
    &&& side == Side::Down ==> word == "down"@
}

/// What an answer says was filled is there and positive.
pub open spec fn has_fill(filled_size: Option<i64>) -> bool {
    filled_size is Some && filled_size->0 > 0
}

/// `t` is the price of a gain of `cents` over `entry`: exactly, where that is a price at the grid; and
/// never further from it than the rounding to the tick, between one cent and ninety-nine.
pub open spec fn is_exit_above(t: int, entry: int, cents: int, tick: int) -> bool {
    &&& PRICE_FLOOR <= t <= PRICE_CEILING
    &&& 100 * t <= 100 * entry + cents + 50 * tick + 50 || t == PRICE_FLOOR
    &&& 100 * t >= 100 * entry + cents - 50 * tick - 50 || 2 * t >= 2 * PRICE_CEILING - tick
}

/// `t` is the price of a loss of `cents` under `entry`, in the same way.
pub open spec fn is_exit_below(t: int, entry: int, cents: int, tick: int) -> bool {
    &&& PRICE_FLOOR <= t <= PRICE_CEILING
    &&& 100 * t >= 100 * entry - cents - 50 * tick - 50 || t == PRICE_CEILING
    &&& 100 * t <= 100 * entry - cents + 50 * tick + 50 || 2 * t <= 2 * PRICE_FLOOR + tick
}

/// A quantity that no sum of a few of them takes out of the range.
pub open spec fn is_moderate(x: int) -> bool {
    -0x1000_0000_0000_0000 <= x <= 0x1000_0000_0000_0000
}

/// The position is left for a profit at its entry and the gain, up to the tick.
pub proof fn profit_is_taken_at_the_gain(entry: int, params: KellyParams, tick: int)
    requires
        tick > 0,
        is_moderate(entry),
        is_moderate(params.tp_cents as int),
    ensures
        is_exit_above(take_profit_of(entry, params, tick), entry, params.tp_cents as int, tick),
{
    let c = params.tp_cents as int;
    nearest_is_close(c, 100);
    let a = entry + nearest(c, 100);
    let x = if a < PRICE_CEILING {
        a
    } else {
        PRICE_CEILING as int
    };
    nearest_is_close(x, tick);
}

/// The position is left for a loss at its entry less the loss, up to the tick.
pub proof fn loss_is_stopped_at_the_loss(entry: int, params: KellyParams, tick: int)
    requires
        tick > 0,
        is_moderate(entry),
        is_moderate(params.sl_cents as int),
    ensures
        is_exit_below(stop_loss_of(entry, params, tick), entry, params.sl_cents as int, tick),
{
    let c = params.sl_cents as int;
    nearest_is_close(c, 100);
    let a = entry - nearest(c, 100);
    let x = if a > PRICE_FLOOR {
        a
    } else {
        PRICE_FLOOR as int
    };
    nearest_is_close(x, tick);
}

/// Where entry and exit lie at the grid and within a cent of the ends, the exits are exact.
pub proof fn exits_at_the_grid_are_exact(params: KellyParams, tick: int, up: int, down: int, k: int)
    requires
        tick > 0,
        params.tp_cents == 100 * (up * tick),
        params.sl_cents == 100 * (down * tick),
        is_moderate(k * tick),
        is_moderate(up * tick),
        is_moderate(down * tick),
        PRICE_FLOOR <= k * tick + up * tick <= PRICE_CEILING,
        PRICE_FLOOR <= k * tick - down * tick <= PRICE_CEILING,
    ensures
        take_profit_of(k * tick, params, tick) == k * tick + up * tick,
        stop_loss_of(k * tick, params, tick) == k * tick - down * tick,
{
    nearest_of_multiple(up * tick, 100);
    nearest_of_multiple(down * tick, 100);
    assert((up * tick) * 100 == 100 * (up * tick));
    assert((down * tick) * 100 == 100 * (down * tick));
    assert((k + up) * tick == k * tick + up * tick) by (nonlinear_arith);
    assert((k - down) * tick == k * tick - down * tick) by (nonlinear_arith);
    nearest_of_multiple(k + up, tick);
    nearest_of_multiple(k - down, tick);
}

/// `n` is `m` after a position of `filled` tokens of `token_id`, bought at `entry` by the order
/// `order_id`, was opened.
pub open spec fn is_opening(
    m: ManagerView,
    n: ManagerView,
    side: Side,
    token_id: Seq<char>,
    neg_risk: bool,
    entry: int,
    filled: int,
    tick: int,
    order_id: Seq<char>,
    now_ms: int,
) -> bool {
    let at = m.outbox.len() as int;
    &&& n.phase is Open
    &&& n.phase->Open_0.side == side
    &&& n.phase->Open_0.token_id == token_id
    &&& n.phase->Open_0.neg_risk == neg_risk
    &&& n.phase->Open_0.entry_price == entry
    &&& n.phase->Open_0.size == filled
    &&& n.phase->Open_0.bought == filled
    &&& n.phase->Open_0.sold == 0
    &&& n.phase->Open_0.opened_ms == now_ms
    &&& n.phase->Open_0.buy_order_id == order_id
    &&& n.phase->Open_0.tick == tick
    &&& !n.phase->Open_0.hold_to_resolution
    &&& !n.phase->Open_0.catastrophe_armed
    &&& n.phase->Open_0.tp_price == take_profit_of(entry, m.params, tick)
    &&& n.phase->Open_0.sl_price == stop_loss_of(entry, m.params, tick)
    &&& n.state.shots == m.state.shots + 1
    &&& n.state.wins == m.state.wins
    &&& n.state.losses == m.state.losses
    &&& n.state.failed_closes == m.state.failed_closes
    &&& n.state.realized_pnl == m.state.realized_pnl
    &&& n.consec_close_fails == 0
    &&& n.zero_balance_refusals == 0
    &&& n.last_sell_ms == m.last_sell_ms
    &&& n.params == m.params
    &&& n.outbox.len() == at + 2
    &&& m.outbox.is_prefix_of(n.outbox)
    &&& is_line(n.outbox[at], "open"@, side, entry, filled, 0, order_id, m.state.realized_pnl)
    &&& n.outbox[at + 1] == EffectView::Persist
}

/// `e` is a line of the journal that holds these values.
pub open spec fn is_line(
    e: EffectView,
    kind: Seq<char>,
    side: Side,
    price: int,
    size: int,
    pnl: int,
    order_id: Seq<char>,
    realized_pnl_after: int,
) -> bool {
    &&& e is Append
    &&& e->Append_0.kind == kind
    &&& word_of(side, e->Append_0.side)
    &&& e->Append_0.price == price
    &&& e->Append_0.size == size
    &&& e->Append_0.pnl == pnl
    &&& e->Append_0.order_id == order_id
    &&& e->Append_0.realized_pnl_after == realized_pnl_after
}

/// The kind under which a close is written down goes by its reason.
pub open spec fn is_kind_of(kind: Seq<char>, reason: Seq<char>) -> bool {
    &&& reason == "take_profit"@ ==> kind == "close_tp"@
    &&& reason == "stop_loss"@ ==> kind == "close_sl"@
    &&& reason == "expired"@ ==> kind == "close_expired"@
    &&& reason == "window_close"@ ==> kind == "close_window"@
    &&& reason != "take_profit"@ && reason != "stop_loss"@ && reason != "expired"@ && reason
        != "window_close"@ ==> kind == "close_max_hold"@
}

/// The reasons of a close are told apart.
proof fn reasons_differ()
    ensures
        "take_profit"@ != "stop_loss"@,
        "take_profit"@ != "expired"@,
        "take_profit"@ != "window_close"@,
        "stop_loss"@ != "expired"@,
        "stop_loss"@ != "window_close"@,
        "expired"@ != "window_close"@,
{
    reveal_strlit("take_profit");
    reveal_strlit("stop_loss");
    reveal_strlit("expired");
    reveal_strlit("window_close");
    assert("take_profit"@.len() == 11 && "stop_loss"@.len() == 9);
    assert("expired"@.len() == 7 && "window_close"@.len() == 12);
}

/// `n` is `m` after its position was closed: `sold` tokens bought at `entry` brought `got` each.
pub open spec fn is_closing(
    m: ManagerView,
    n: ManagerView,
    order_id: Seq<char>,
    sold: int,
    got: int,
    entry: int,
    reason: Seq<char>,
) -> bool {
    let at = m.outbox.len() as int;
    let pnl = (got - entry) * sold;
    &&& n.phase is Idle
    &&& i128::MIN <= m.state.realized_pnl + pnl <= i128::MAX ==> n.state.realized_pnl
        == m.state.realized_pnl + pnl
    &&& n.state.shots == m.state.shots
    &&& n.state.failed_closes == m.state.failed_closes
    &&& pnl >= 0 ==> n.state.wins == m.state.wins + 1 && n.state.losses == m.state.losses
    &&& pnl < 0 ==> n.state.wins == m.state.wins && n.state.losses == m.state.losses + 1
    &&& n.consec_close_fails == 0
    &&& n.zero_balance_refusals == 0
    &&& n.http_filled_buy_id is None
    &&& n.last_buy_ms == m.last_buy_ms
    &&& n.params == m.params
    &&& n.outbox.len() == at + 2
    &&& m.outbox.is_prefix_of(n.outbox)
    &&& n.outbox[at] is Append
    &&& is_kind_of(n.outbox[at]->Append_0.kind, reason)
    &&& n.outbox[at]->Append_0.price == got
    &&& n.outbox[at]->Append_0.size == sold
    &&& n.outbox[at]->Append_0.pnl == pnl
    &&& n.outbox[at]->Append_0.order_id == order_id
    &&& n.outbox[at]->Append_0.realized_pnl_after == n.state.realized_pnl
    &&& n.outbox[at + 1] == EffectView::Persist
}

/// `n` is `m` after `sold` tokens of its position `p` brought `got` each; the rest stays open.
pub open spec fn is_partial_sale(
    m: ManagerView,
    n: ManagerView,
    p: PositionView,
    order_id: Seq<char>,
    sold: int,
    got: int,
) -> bool {
    let at = m.outbox.len() as int;
    let pnl = (got - p.entry_price) * sold;
    &&& n.phase is Open
    &&& n.phase->Open_0 == (PositionView { sold: p.sold + sold, size: p.size - sold, ..p })
    &&& i128::MIN <= m.state.realized_pnl + pnl <= i128::MAX ==> n.state.realized_pnl
        == m.state.realized_pnl + pnl
    &&& n.state == (StateView { realized_pnl: n.state.realized_pnl, ..m.state })
    &&& n.consec_close_fails == 0
    &&& n.zero_balance_refusals == 0
    &&& n.http_filled_buy_id == m.http_filled_buy_id
    &&& n.last_buy_ms == m.last_buy_ms
    &&& n.params == m.params
    &&& n.outbox.len() == at + 2
    &&& m.outbox.is_prefix_of(n.outbox)
    &&& is_line(
        n.outbox[at],
        "close_partial"@,
        p.side,
        got,
        sold,
        pnl,
        order_id,
        n.state.realized_pnl,
    )
    &&& n.outbox[at + 1] == EffectView::Persist
}

/// A buy that is answered without a fill waits as the very buy that was sent, and a later fill or
/// poll of its order opens a position with its side, token, risk and tick. Nothing else changes
/// while it waits.
pub proof fn waiting_buy_is_the_buy_that_was_sent(
    m: ManagerView,
    res: OrderResult,
    side: Side,
    token_id: Seq<char>,
    neg_risk: bool,
    order_price: int,
    size: int,
    tick: int,
    now_ms: int,
    filled: int,
    price: int,
    later_ms: int,
)
    requires
        res is Placed,
        !has_fill(res->filled_size),
        filled > 0,
    ensures
        ({
            let id = res->Placed_order_id@;
            let w = m.after_buy(res, side, token_id, neg_risk, order_price, size, tick, now_ms);
            let polled = w.after_poll(id, filled, price, later_ms);
            let fed = w.after_fill(id, filled, price, later_ms);
            &&& w.phase is PendingBuy
            &&& w.phase->PendingBuy_order_id == id
            &&& w.phase->PendingBuy_side == side
            &&& w.phase->PendingBuy_token_id == token_id
            &&& w.phase->PendingBuy_neg_risk == neg_risk
            &&& w.phase->PendingBuy_requested_size == size
            &&& w.phase->PendingBuy_tick == tick
            &&& w.phase->PendingBuy_since_ms == now_ms
            &&& w.phase->PendingBuy_cancel_since_ms is None
            &&& w == (ManagerView {
                phase: w.phase,
                last_buy_ms: Some(res->Placed_post_ms as int),
                ..m
            })
            &&& is_opening(w, polled, side, token_id, neg_risk, price, filled, tick, id, later_ms)
            &&& polled.last_buy_ms == w.last_buy_ms
            &&& polled.http_filled_buy_id == w.http_filled_buy_id
            &&& m.http_filled_buy_id != Some(id) ==> fed == polled
        }),
{
}

/// A buy that is answered with a fill opens the position that was bought, at its mean price, or at
/// the price of the order where the answer has none.
pub proof fn filled_buy_opens_what_was_bought(
    m: ManagerView,
    res: OrderResult,
    side: Side,
    token_id: Seq<char>,
    neg_risk: bool,
    order_price: int,
    size: int,
    tick: int,
    now_ms: int,
)
    requires
        res is Placed,
        has_fill(res->filled_size),
    ensures
        ({
            let id = res->Placed_order_id@;
            let n = m.after_buy(res, side, token_id, neg_risk, order_price, size, tick, now_ms);
            let entry = if res->avg_price is Some {
                res->avg_price->0 as int
            } else {
                order_price
            };
            let filled = res->filled_size->0 as int;
            &&& is_opening(m, n, side, token_id, neg_risk, entry, filled, tick, id, now_ms)
            &&& n.last_buy_ms == Some(res->Placed_post_ms as int)
            &&& n.http_filled_buy_id == Some(id)
        }),
{
}

/// A buy that was not placed changes nothing.
pub proof fn unplaced_buy_changes_nothing(
    m: ManagerView,
    res: OrderResult,
    result: Result<PlaceResult, String>,
    side: Side,
    token_id: Seq<char>,
    neg_risk: bool,
    order_price: int,
    size: int,
    tick: int,
    now_ms: int,
)
    ensures
        !(res is Placed) ==> m.after_buy(
            res,
            side,
            token_id,
            neg_risk,
            order_price,
            size,
            tick,
            now_ms,
        ) == m,
        !(result is Ok && result->Ok_0 is Placed) ==> m.after_open_order(
            result,
            side,
            token_id,
            neg_risk,
            order_price,
            size,
            tick,
            now_ms,
        ) == m,
{
}

/// A buy that the exchange itself answers opens or waits in the same way; only, its fill is not noted
/// as one that the feed may report again.
pub proof fn posted_buy_opens_or_waits(
    m: ManagerView,
    order: PlaceResult,
    side: Side,
    token_id: Seq<char>,
    neg_risk: bool,
    order_price: int,
    size: int,
    tick: int,
    now_ms: int,
)
    requires
        order is Placed,
    ensures
        ({
            let id = order->order_id@;
            let n = m.after_open_order(
                Ok(order),
                side,
                token_id,
                neg_risk,
                order_price,
                size,
                tick,
                now_ms,
            );
            let entry = if order->avg_price is Some {
                order->avg_price->0 as int
            } else {
                order_price
            };
            &&& n.last_buy_ms == Some(order->post_ms as int)
            &&& n.http_filled_buy_id == m.http_filled_buy_id
            &&& has_fill(order->filled_size) ==> is_opening(
                m,
                n,
                side,
                token_id,
                neg_risk,
                entry,
                order->filled_size->0 as int,
                tick,
                id,
                now_ms,
            )
            &&& !has_fill(order->filled_size) ==> {
                &&& n.phase is PendingBuy
                &&& n.phase->PendingBuy_order_id == id
                &&& n.phase->PendingBuy_side == side
                &&& n.phase->PendingBuy_token_id == token_id
                &&& n.phase->PendingBuy_neg_risk == neg_risk
                &&& n.phase->PendingBuy_requested_size == size
                &&& n.phase->PendingBuy_tick == tick
                &&& n.phase->PendingBuy_since_ms == now_ms
                &&& n.phase->PendingBuy_cancel_since_ms is None
                &&& n == (ManagerView { phase: n.phase, last_buy_ms: n.last_buy_ms, ..m })
            }
        }),
{
}

/// A fill or a poll of a waiting buy opens the position that waits, with what was filled and at the
/// price that is told; a fill of nothing does nothing.
pub proof fn fill_opens_what_waits(
    m: ManagerView,
    order_id: Seq<char>,
    filled: int,
    price: int,
    now_ms: int,
)
    requires
        m.phase is PendingBuy,
        m.phase->PendingBuy_order_id == order_id || m.phase->PendingBuy_order_id.len() == 0,
    ensures
        ({
            let polled = m.after_poll(order_id, filled, price, now_ms);
            let fed = m.after_fill(order_id, filled, price, now_ms);
            &&& filled > 0 ==> is_opening(
                m,
                polled,
                m.phase->PendingBuy_side,
                m.phase->PendingBuy_token_id,
                m.phase->PendingBuy_neg_risk,
                price,
                filled,
                m.phase->PendingBuy_tick,
                order_id,
                now_ms,
            )
            &&& polled.last_buy_ms == m.last_buy_ms
            &&& polled.http_filled_buy_id == m.http_filled_buy_id
            &&& filled <= 0 ==> polled == m && fed == m
            &&& m.http_filled_buy_id != Some(order_id) ==> fed == polled
            &&& m.http_filled_buy_id == Some(order_id) ==> fed == m
        }),
{
}

/// The mean price is the one at which all tokens together cost what they cost apart, up to the
/// rounding.
pub proof fn mean_price_costs_the_same(entry: int, bought: int, price: int, added: int)
    requires
        bought > 0,
        added >= 0,
        i64::MIN <= entry <= i64::MAX,
        i64::MIN <= price <= i64::MAX,
    ensures
        ({
            let total = bought + added;
            let mean = mean_price_of(entry, bought, price, added, total);
            -total <= 2 * (mean * total - (entry * bought + price * added)) <= total
        }),
{
    let total = bought + added;
    let sum = entry * bought + price * added;
    mean_price_lies_between(entry, bought, price, added);
    nearest_is_close(sum, total);
    let lo = if entry < price {
        entry
    } else {
        price
    };
    let hi = if entry < price {
        price
    } else {
        entry
    };
    assert(lo * total <= sum <= hi * total) by (nonlinear_arith)
        requires
            lo <= entry <= hi,
            lo <= price <= hi,
            bought > 0,
            added >= 0,
            total == bought + added,
            sum == entry * bought + price * added,
    ;
    nearest_is_monotone(lo * total, sum, total);
    nearest_is_monotone(sum, hi * total, total);
    nearest_of_multiple(lo, total);
    nearest_of_multiple(hi, total);
}

/// A poll that counts more than was bought grows the open position by what is new: the purchase is
/// the count, what was sold stays sold, the entry is the mean price, the exits follow the entry, and
/// everything else stays. A poll that counts no more changes nothing.
pub proof fn poll_grows_by_what_is_new(m: ManagerView, filled: int, price: int, now_ms: int)
    requires
        m.wf(),
        m.phase is Open,
        filled <= i64::MAX,
    ensures
        ({
            let p = m.phase->Open_0;
            let id = p.buy_order_id;
            let n = m.after_poll(id, filled, price, now_ms);
            let q = n.phase->Open_0;
            let at = m.outbox.len() as int;
            &&& filled <= p.bought + 1000 ==> n == m
            &&& filled > p.bought + 1000 ==> {
                &&& n.phase is Open
                &&& q == (PositionView {
                    entry_price: q.entry_price,
                    tp_price: q.tp_price,
                    sl_price: q.sl_price,
                    bought: filled,
                    size: filled - p.sold,
                    ..p
                })
                &&& q.entry_price == mean_price_of(
                    p.entry_price,
                    p.bought,
                    price,
                    filled - p.bought,
                    filled,
                )
                &&& p.tick > 0 ==> q.tp_price == take_profit_of(q.entry_price, m.params, p.tick)
                    && q.sl_price == stop_loss_of(q.entry_price, m.params, p.tick)
                &&& p.tick <= 0 ==> q.tp_price == take_profit_of(
                    q.entry_price,
                    m.params,
                    10_000_000,
                ) && q.sl_price == stop_loss_of(q.entry_price, m.params, 10_000_000)
                &&& n == (ManagerView { phase: n.phase, outbox: n.outbox, ..m })
                &&& n.outbox.len() == at + 2
                &&& m.outbox.is_prefix_of(n.outbox)
                &&& is_line(
                    n.outbox[at],
                    "reconcile_grow"@,
                    p.side,
                    price,
                    filled - p.bought,
                    0,
                    id,
                    m.state.realized_pnl,
                )
                &&& n.outbox[at + 1] == EffectView::Persist
            }
        }),
{
}

/// A filled sale of the open position is booked on that position: where what is left can still be
/// sold it stays open with that, otherwise it is closed. A filled sale of no open position is booked
/// with no entry, under an unknown side.
pub proof fn filled_sale_is_booked(
    m: ManagerView,
    res: OrderResult,
    reason: Seq<char>,
    now_ms: int,
    min_order_size: int,
)
    requires
        m.wf(),
        min_order_size >= 0,
        res is Placed,
        has_fill(res->filled_size),
        res->avg_price is Some,
    ensures
        ({
            let id = res->Placed_order_id@;
            let sold = res->filled_size->0 as int;
            let got = res->avg_price->0 as int;
            let at = m.outbox.len() as int;
            let (n, refresh) = m.after_sell(res, reason, now_ms, min_order_size);
            &&& !refresh
            &&& n.last_sell_ms == Some(res->Placed_post_ms as int)
            &&& m.phase is Open && m.phase->Open_0.size - sold >= min_order_size
                ==> is_partial_sale(m, n, m.phase->Open_0, id, sold, got)
            &&& m.phase is Open && m.phase->Open_0.size - sold < min_order_size ==> is_closing(
                m,
                n,
                id,
                sold,
                got,
                m.phase->Open_0.entry_price,
                reason,
            ) && word_of(m.phase->Open_0.side, n.outbox[at]->Append_0.side)
            &&& !(m.phase is Open) ==> is_closing(m, n, id, sold, got, 0, reason)
                && n.outbox[at]->Append_0.side == "?"@
        }),
{
    reasons_differ();
}

/// A sale that is answered without a fill waits with the position it was to sell; a sale that was not
/// placed changes nothing.
pub proof fn unfilled_sale_waits(
    m: ManagerView,
    res: OrderResult,
    reason: Seq<char>,
    now_ms: int,
    min_order_size: int,
)
    requires
        !(res is Failed),
        res is Placed ==> !has_fill(res->filled_size),
    ensures
        ({
            let (n, refresh) = m.after_sell(res, reason, now_ms, min_order_size);
            &&& !refresh
            &&& !(res is Placed) ==> n == m
            &&& res is Placed ==> n == (ManagerView {
                phase: n.phase,
                last_sell_ms: Some(res->Placed_post_ms as int),
                ..m
            })
            &&& res is Placed && m.phase is Open ==> n.phase is PendingSell
                && n.phase->position == m.phase->Open_0 && n.phase->reason == reason
                && n.phase->PendingSell_since_ms == now_ms
            &&& !(m.phase is Open) ==> n.phase == m.phase
        }),
{
}

/// A refused sale is counted and written down, and realises nothing. The size of the position follows
/// a balance that the server states, where ours is larger by more than a billionth.
pub proof fn refused_sale_is_counted(
    m: ManagerView,
    res: OrderResult,
    reason: Seq<char>,
    now_ms: int,
    min_order_size: int,
)
    requires
        m.wf(),
        res is Failed,
    ensures
        ({
            let error = res->error@;
            let (n, refresh) = m.after_sell(res, reason, now_ms, min_order_size);
            let at = m.outbox.len() as int;
            &&& n.state.failed_closes == m.state.failed_closes + 1
            &&& n.state.shots == m.state.shots
            &&& n.state.wins == m.state.wins
            &&& n.state.realized_pnl == m.state.realized_pnl
            &&& n.state.losses == m.state.losses || n.phase is Idle
            &&& n.last_buy_ms == m.last_buy_ms
            &&& n.last_sell_ms == m.last_sell_ms
            &&& n.params == m.params
            &&& n.outbox == m.outbox.push(EffectView::Persist)
            &&& m.phase is Open && balance_of(error) is Some && balance_of(error)->0 > 0
                && balance_of(error)->0 <= i64::MAX - 1 ==> {
                let p = m.phase->Open_0;
                let held = balance_of(error)->0;
                &&& !refresh
                &&& n.phase is Open
                &&& n.http_filled_buy_id == m.http_filled_buy_id
                &&& n.zero_balance_refusals == m.zero_balance_refusals
                &&& n.consec_close_fails == m.consec_close_fails + 1
                &&& p.size > held + 1 ==> n.phase->Open_0 == (PositionView {
                    size: held,
                    sold: p.bought - held,
                    ..p
                })
                &&& p.size <= held + 1 ==> n.phase->Open_0 == p
            }
        }),
{
}

/// A sale that the feed confirms is booked like one that is answered: on the position that is held,
/// open or waiting for its sale. Without a fill it counts as failed and changes nothing else, and
/// without a position it is passed over.
pub proof fn confirmed_sale_is_booked(
    m: ManagerView,
    order_id: Seq<char>,
    filled_size: Option<i64>,
    avg_price: Option<i64>,
    reason: Seq<char>,
    min_order_size: int,
)
    requires
        m.wf(),
        min_order_size >= 0,
    ensures
        ({
            let n = m.after_close(order_id, filled_size, avg_price, reason, min_order_size);
            let got = if avg_price is Some {
                avg_price->0 as int
            } else {
                0
            };
            let sold = filled_size->0 as int;
            let at = m.outbox.len() as int;
            let held = m.phase is Open || m.phase is PendingSell;
            let p = if m.phase is Open {
                m.phase->Open_0
            } else {
                m.phase->position
            };
            &&& !held ==> n == m
            &&& n.last_sell_ms == m.last_sell_ms
            &&& held && !has_fill(filled_size) ==> n == (ManagerView {
                state: StateView { failed_closes: m.state.failed_closes + 1, ..m.state },
                outbox: m.outbox.push(EffectView::Persist),
                ..m
            })
            &&& held && has_fill(filled_size) && p.size - sold >= min_order_size
                ==> is_partial_sale(m, n, p, order_id, sold, got)
            &&& held && has_fill(filled_size) && p.size - sold < min_order_size ==> is_closing(
                m,
                n,
                order_id,
                sold,
                got,
                p.entry_price,
                reason,
            ) && word_of(p.side, n.outbox[at]->Append_0.side)
        }),
{
    reasons_differ();
}

/// A position whose market expired is closed whole at the mark, which is held between nothing and one
/// dollar; any other phase stays.
pub proof fn expired_position_is_closed_whole(m: ManagerView, mark: int)
    ensures
        ({
            let n = m.after_expiry(mark);
            let p = m.phase->Open_0;
            let at = m.outbox.len() as int;
            let got = if mark < 0 {
                0
            } else if mark > 1_000_000_000 {
                1_000_000_000
            } else {
                mark
            };
            &&& !(m.phase is Open) ==> n == m
            &&& m.phase is Open ==> is_closing(
                m,
                n,
                p.buy_order_id,
                p.size,
                got,
                p.entry_price,
                "expired"@,
            ) && word_of(p.side, n.outbox[at]->Append_0.side) && n.last_sell_ms == m.last_sell_ms
        }),
{
    reasons_differ();
}

/// The answer to a sale that was posted by hand: a fill closes the position, no fill leaves it waiting
/// from the time of the sale on, a refusal counts as failed, a dry run changes nothing.
pub proof fn posted_sale_is_booked(
    m: ManagerView,
    result: Result<PlaceResult, String>,
    reason: Seq<char>,
    now_ms: int,
)
    requires
        m.phase is Open,
        result matches Ok(order) ==> order is Placed && has_fill(order->filled_size)
            ==> order->avg_price is Some,
    ensures
        ({
            let n = m.after_close_order(result, reason, now_ms);
            let p = m.phase->Open_0;
            let at = m.outbox.len() as int;
            &&& result is Err ==> n == (ManagerView {
                state: StateView { failed_closes: m.state.failed_closes + 1, ..m.state },
                outbox: m.outbox.push(EffectView::Persist),
                ..m
            })
            &&& result is Ok && result->Ok_0 is DryRun ==> n == m
            &&& result is Ok && result->Ok_0 is Placed ==> {
                let order = result->Ok_0;
                &&& n.last_sell_ms == Some(order->post_ms as int)
                &&& has_fill(order->filled_size) ==> is_closing(
                    m,
                    n,
                    order->order_id@,
                    order->filled_size->0 as int,
                    order->avg_price->0 as int,
                    p.entry_price,
                    reason,
                ) && word_of(p.side, n.outbox[at]->Append_0.side)
                &&& !has_fill(order->filled_size) ==> n == (ManagerView {
                    phase: PhaseView::PendingSell { position: p, reason, since_ms: now_ms },
                    last_sell_ms: n.last_sell_ms,
                    ..m
                })
            }
        }),
{
    reasons_differ();
}

/// Marking a position changes its mark alone, and is written down; so do the steps of a waiting buy
/// and of a waiting sale. Each leaves every phase but its own as it is.
pub proof fn marks_change_nothing_else(m: ManagerView, now_ms: int, timeout_ms: int)
    ensures
        m.phase is Open ==> {
            let p = m.phase->Open_0;
            let noted = m.outbox.push(EffectView::Persist);
            &&& m.held_to_resolution() == (ManagerView {
                phase: PhaseView::Open(PositionView { hold_to_resolution: true, ..p }),
                outbox: noted,
                ..m
            })
            &&& !p.catastrophe_armed ==> m.catastrophe() == (ManagerView {
                phase: PhaseView::Open(PositionView { catastrophe_armed: true, ..p }),
                outbox: noted,
                ..m
            })
            &&& p.catastrophe_armed ==> m.catastrophe() == m
        },
        !(m.phase is Open) ==> m.held_to_resolution() == m && m.catastrophe() == m,
        m.phase is PendingBuy ==> {
            let noted = m.outbox.push(EffectView::Persist);
            let c = m.cancelling(now_ms);
            &&& m.phase->PendingBuy_cancel_since_ms is Some ==> c == m
            &&& m.phase->PendingBuy_cancel_since_ms is None ==> {
                &&& c.phase is PendingBuy
                &&& c.phase->PendingBuy_cancel_since_ms == Some(now_ms)
                &&& c.phase->PendingBuy_order_id == m.phase->PendingBuy_order_id
                &&& c.phase->PendingBuy_side == m.phase->PendingBuy_side
                &&& c.phase->PendingBuy_token_id == m.phase->PendingBuy_token_id
                &&& c.phase->PendingBuy_neg_risk == m.phase->PendingBuy_neg_risk
                &&& c.phase->PendingBuy_requested_size == m.phase->PendingBuy_requested_size
                &&& c.phase->PendingBuy_tick == m.phase->PendingBuy_tick
                &&& c.phase->PendingBuy_since_ms == m.phase->PendingBuy_since_ms
                &&& c == (ManagerView { phase: c.phase, outbox: noted, ..m })
            }
            &&& m.buy_cancelled() == (ManagerView { phase: PhaseView::Idle, outbox: noted, ..m })
        },
        !(m.phase is PendingBuy) ==> m.cancelling(now_ms) == m && m.buy_cancelled() == m,
        m.phase is PendingSell ==> m.sale_retried() == (ManagerView {
            phase: PhaseView::Open(m.phase->position),
            outbox: m.outbox.push(EffectView::Persist),
            ..m
        }),
        !(m.phase is PendingSell) ==> m.sale_retried() == m,
        m.sale_is_stuck(now_ms, timeout_ms) <==> m.phase is PendingSell && (now_ms
            - m.phase->PendingSell_since_ms >= timeout_ms || timeout_ms <= 0),
        m.tracked_buy() == if m.phase is PendingBuy {
            Some(m.phase->PendingBuy_order_id)
        } else if m.phase is Open {
            Some(m.phase->Open_0.buy_order_id)
        } else {
            None
        },
{
}

/// Why the open position is sold by hand: armed before anything else; then, unless it is held, its
/// profit, its loss, and its age or the end of the window. Without a bid, or without an open
/// position, nothing is sold.
pub proof fn sale_is_due_for_the_first_reason(
    m: ManagerView,
    mark_bid: Option<i64>,
    now_ms: int,
    remaining_s: int,
)
    ensures
        ({
            let due = m.due(mark_bid, now_ms, remaining_s);
            let p = m.phase->Open_0;
            let bid = mark_bid->0;
            let held = m.phase is Open && mark_bid is Some;
            let free = held && !p.catastrophe_armed && !p.hold_to_resolution;
            let old_enough = now_ms - p.opened_ms >= 1000 * m.params.max_hold_secs
                || m.params.max_hold_secs <= 0;
            match due {
                None => !held || (p.hold_to_resolution && !p.catastrophe_armed) || (p.sl_price < bid
                    < p.tp_price && !old_enough && remaining_s > 30 && !p.catastrophe_armed),
                Some((q, mark, why)) => {
                    &&& held && q == p && mark == bid
                    &&& p.catastrophe_armed || !p.hold_to_resolution
                    &&& p.catastrophe_armed ==> why == "catastrophe"@
                    &&& free && bid >= p.tp_price ==> why == "take_profit"@
                    &&& free && bid < p.tp_price && bid <= p.sl_price ==> why == "stop_loss"@
                    &&& free && p.sl_price < bid < p.tp_price ==> why == "max_hold"@ && (old_enough
                        || remaining_s <= 30)
                },
            }
        }),
{
}

/// The price at which a position is sold by hand: its profit or its loss where the bid has reached
/// them, the bid otherwise and once its catastrophe is armed, at the grid.
pub proof fn sale_is_priced_at_what_it_is_for(m: ManagerView, p: PositionView, bid: int, tick: int)
    requires
        tick > 0,
    ensures
        ({
            let price = m.exit_price(p, bid, tick);
            let target = if !p.catastrophe_armed && bid >= p.tp_price {
                p.tp_price
            } else if !p.catastrophe_armed && bid <= p.sl_price {
                p.sl_price
            } else {
                bid
            };
            &&& 10_000_000 <= price <= 990_000_000
            &&& 10_000_000 <= target <= 990_000_000 ==> -tick <= 2 * (price - target) <= tick
                || price == 10_000_000 || price == 990_000_000
            &&& 10_000_000 <= target <= 990_000_000 && target % tick == 0 ==> price == target
            &&& target > 990_000_000 ==> price == m.exit_price(
                PositionView { catastrophe_armed: true, ..p },
                990_000_000,
                tick,
            )
            &&& target < 10_000_000 ==> price == m.exit_price(
                PositionView { catastrophe_armed: true, ..p },
                10_000_000,
                tick,
            )
        }),
{
    let target = if !p.catastrophe_armed && bid >= p.tp_price {
        p.tp_price
    } else if !p.catastrophe_armed && bid <= p.sl_price {
        p.sl_price
    } else {
        bid
    };
    nearest_is_close(target, tick);
    if target % tick == 0 {
        lemma_fundamental_div_mod(target, tick);
        let k = target / tick;
        assert(target == k * tick) by (nonlinear_arith)
            requires
                target == tick * k + target % tick,
                target % tick == 0,
        ;
        nearest_of_multiple(k, tick);
    }
}

/// The smallest size that is traded at a price is no larger than it has to be: it is what the exchange
/// trades, or whole tokens of which one less would be worth less than a dollar.
pub proof fn smallest_size_is_smallest(min_order_size: int, price: int)
    ensures
        ({
            let s = min_size_of(min_order_size, price);
            &&& price <= 0 ==> s == min_order_size
            &&& price > 0 && s != min_order_size ==> s > min_order_size && s % 1_000_000_000 == 0
                && (s - 1_000_000_000) * price < 1_000_000_000_000_000_000
        }),
{
    if price > 0 {
        let one = UNIT as int;
        let q = -one / price;
        let r = -one % price;
        lemma_fundamental_div_mod(-one, price);
        let s = -q * one;
        assert(0 < -q <= one) by (nonlinear_arith)
            requires
                -one == price * q + r,
                0 <= r < price,
                price > 0,
                one > 0,
        ;
        assert(s <= i64::MAX && s >= 0) by (nonlinear_arith)
            requires
                s == -q * one,
                0 < -q <= one,
                one == 1_000_000_000,
        ;
        assert((s - one) * price < one * one) by (nonlinear_arith)
            requires
                s == -q * one,
                -one == price * q + r,
                0 <= r < price,
                one == 1_000_000_000,
        ;
        assert(one * one == 1_000_000_000_000_000_000) by (nonlinear_arith)
            requires
                one == 1_000_000_000,
        ;
        assert(s % one == 0) by {
            vstd::arithmetic::div_mod::lemma_mod_multiples_basic(-q, one);
        }
    }
}

/// The hit rate is the share of the closes that were won, up to the rounding.
pub proof fn hit_rate_is_the_share_of_wins(wins: int, losses: int)
    requires
        wins >= 0,
        losses >= 0,
    ensures
        wins + losses == 0 ==> hit_rate_of(wins, losses) == 0,
        wins + losses > 0 ==> -(wins + losses) <= 2 * (hit_rate_of(wins, losses) * (wins + losses)
            - wins * 1_000_000_000) <= wins + losses,
        losses == 0 && wins > 0 ==> hit_rate_of(wins, losses) == 1_000_000_000,
{
    if wins + losses > 0 {
        nearest_is_close(wins * UNIT, wins + losses);
        if losses == 0 {
            nearest_of_multiple(UNIT as int, wins);
            assert(wins * UNIT == UNIT * wins) by (nonlinear_arith);
        }
    }
}

/// A buy by hand is the buy that was asked for, of the side and at the price, large enough for the
/// exchange and no larger than that or than asked; and there is none unless the manager is idle.
pub proof fn buy_by_hand_is_what_was_asked(
    m: ManagerView,
    live_armed: bool,
    side: Side,
    price: i64,
    size: i64,
    min_order_size: i64,
)
    requires
        min_size_of(min_order_size as int, price as int) <= i64::MAX,
    ensures
        ({
            let got = m.buy_order(live_armed, side, price, size, min_order_size);
            let d = got->0;
            let least = min_size_of(min_order_size as int, price as int);
            &&& got is Some <==> m.phase is Idle
            &&& got is Some ==> {
                &&& d.post == live_armed
                &&& d.kind == OrderKind::Fak
                &&& !d.args.is_sell
                &&& d.args.side == side
                &&& d.args.price == price
                &&& d.args.size >= size && d.args.size >= least
                &&& d.args.size == size || d.args.size == least
            }
        }),
{
}

/// A sale by hand is of the whole open position, on its side, at the price of what it is sold for and
/// for that reason. One that would bring less than a dollar is not made and counted as failed, and
/// nothing else changes.
pub proof fn sale_by_hand_is_of_the_position(
    m: ManagerView,
    live_armed: bool,
    mark_bid: Option<i64>,
    tick: int,
    now_ms: int,
    remaining_s: int,
)
    requires
        m.phase is Open ==> 0 <= m.phase->Open_0.size <= i64::MAX,
        tick > 0,
    ensures
        ({
            let (after, sale) = m.sale_order(live_armed, mark_bid, tick, now_ms, remaining_s);
            let p = m.phase->Open_0;
            let due = m.due(mark_bid, now_ms, remaining_s);
            let price = m.exit_price(p, mark_bid->0 as int, tick);
            &&& due is None ==> sale is None && after == m
            &&& due is Some ==> m.phase is Open && mark_bid is Some
            &&& due is Some && p.size * price >= 1_000_000_000_000_000_000 ==> {
                &&& after == m
                &&& sale matches Some((d, why))
                &&& d.post == live_armed
                &&& d.kind == OrderKind::Fak
                &&& d.args.is_sell
                &&& d.args.side == p.side
                &&& d.args.price == price
                &&& d.args.size == p.size
                &&& due matches Some((_, _, reason)) && why == reason
            }
            &&& due is Some && p.size * price < 1_000_000_000_000_000_000 ==> {
                &&& sale is None
                &&& after.state.failed_closes == m.state.failed_closes + 1
                &&& after == (ManagerView {
                    state: StateView {
                        failed_closes: after.state.failed_closes,
                        ..m.state
                    },
                    outbox: m.outbox.push(EffectView::Persist),
                    ..m
                })
            }
        }),
{
    if m.phase is Open && mark_bid is Some {
        sale_is_priced_at_what_it_is_for(m, m.phase->Open_0, mark_bid->0 as int, tick);
    }
}

/// A refusal that speaks of the balance and states none counts as one of zero. The position is given
/// up, as a loss, at the third of these, once it was open for five seconds; until then its allowance
/// is to be refreshed. A refusal that does not speak of the balance is counted, and that is all.
pub proof fn zero_balance_gives_up_at_the_third(
    m: ManagerView,
    res: OrderResult,
    reason: Seq<char>,
    now_ms: int,
    min_order_size: int,
)
    requires
        res is Failed,
        balance_of(res->error@) is Some ==> balance_of(res->error@)->0 <= 0,
    ensures
        ({
            let (n, refresh) = m.after_sell(res, reason, now_ms, min_order_size);
            let speaks = mentions_balance(res->error@);
            let settling = m.phase is Open && now_ms - m.phase->Open_0.opened_ms < 5000;
            let last = speaks && !settling && m.zero_balance_refusals >= 2;
            let failed = m.state.failed_closes + 1;
            &&& refresh <==> speaks && !last
            &&& last ==> n == (ManagerView {
                phase: PhaseView::Idle,
                state: StateView {
                    failed_closes: failed,
                    losses: m.state.losses + 1,
                    ..m.state
                },
                consec_close_fails: 0,
                zero_balance_refusals: 0,
                http_filled_buy_id: None,
                outbox: m.outbox.push(EffectView::Persist),
                ..m
            })
            &&& !last ==> n == (ManagerView {
                state: StateView { failed_closes: failed, ..m.state },
                consec_close_fails: m.consec_close_fails + 1,
                zero_balance_refusals: m.zero_balance_refusals + if speaks {
                    1int
                } else {
                    0
                },
                outbox: m.outbox.push(EffectView::Persist),
                ..m
            })
        }),
{
}

/// A fill is that of the buy that waits or it is none: one of another order, or one that comes while
/// nothing waits, changes nothing. A poll counts for the buy of the open position too, and for no
/// other.
pub proof fn only_the_followed_buy_is_booked(
    m: ManagerView,
    order_id: Seq<char>,
    filled: int,
    price: int,
    now_ms: int,
)
    ensures
        ({
            let fed = m.after_fill(order_id, filled, price, now_ms);
            let polled = m.after_poll(order_id, filled, price, now_ms);
            let waits = m.phase is PendingBuy && (m.phase->PendingBuy_order_id == order_id
                || m.phase->PendingBuy_order_id.len() == 0);
            let open = m.phase is Open && m.phase->Open_0.buy_order_id == order_id;
            &&& !waits ==> fed == m
            &&& !waits && !open ==> polled == m
        }),
{
}

/// There is room for one more of everything where no counter has reached its end.
pub proof fn room_is_below_the_ends(m: ManagerView)
    ensures
        m.has_room() <==> m.state.shots < u64::MAX && m.state.wins < u64::MAX && m.state.losses
            < u64::MAX && m.state.failed_closes < u64::MAX && m.consec_close_fails < u32::MAX
            && m.zero_balance_refusals < u32::MAX,
        m.room_to_open() <==> m.state.shots < u64::MAX,
        m.room_to_close() <==> m.state.wins < u64::MAX && m.state.losses < u64::MAX,
        m.room_to_fail() <==> m.state.failed_closes < u64::MAX,
        m.room_to_refuse() <==> m.state.failed_closes < u64::MAX && m.state.losses < u64::MAX
            && m.consec_close_fails < u32::MAX && m.zero_balance_refusals < u32::MAX,
{
}

/// Before the first trade nothing is counted.
pub proof fn counters_start_at_zero()
    ensures
        StateView::start().realized_pnl == 0,
        StateView::start().shots == 0,
        StateView::start().wins == 0,
        StateView::start().losses == 0,
        StateView::start().failed_closes == 0,
{
}

} // verus!
