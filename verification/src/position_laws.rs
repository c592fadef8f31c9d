//! Laws of the live position.

use crate::balance::{balance_of, mentions_balance, states_balance};
use crate::bus::Side;
use crate::fixed::{
    nearest_is_monotone, nearest_of_multiple, profit_of, sat_wide, DOLLAR_NOTIONAL, PRICE_CEILING,
    PRICE_FLOOR, UNIT,
};
use crate::manager::{
    mean_price_of, min_size_of, stop_loss_of, take_profit_of, ManagerView, DUST, SETTLE_GRACE_MS,
};
use crate::orders::{filled_of, KellyParams, OrderResult, PlaceResult};
use crate::position::{EffectView, PhaseView, PositionView};
use vstd::arithmetic::div_mod::lemma_fundamental_div_mod;
use vstd::math::{max, min};
use vstd::prelude::*;

verus! {

/// What is held after the step is well formed, and is the same position as before, if any was held.
pub open spec fn continues(before: ManagerView, after: ManagerView) -> bool {
    &&& after.wf()
    &&& before.phase.held() matches Some(p) ==> after.phase.held() matches Some(q) ==> p.becomes(q)
}

/// Nothing that was to be written is lost, and a change of the counters or of the profit is followed
/// by a snapshot.
pub open spec fn recorded(before: ManagerView, after: ManagerView) -> bool {
    &&& before.outbox.is_prefix_of(after.outbox)
    &&& after.state != before.state ==> after.outbox.len() > 0 && after.outbox.last()
        == EffectView::Persist
}

/// What the order engine answers to a buy leaves the net size at what was bought less what was sold,
/// and is written down.
pub proof fn buy_answer_is_sound(
    m: ManagerView,
    res: OrderResult,
    side: Side,
    token_id: Seq<char>,
    neg_risk: bool,
    order_price: int,
    size: int,
    tick: int,
    now_ms: int,
)
    requires
        m.wf(),
    ensures
        m.after_buy(res, side, token_id, neg_risk, order_price, size, tick, now_ms).wf(),
        recorded(
            m,
            m.after_buy(res, side, token_id, neg_risk, order_price, size, tick, now_ms),
        ),
{
}

/// What the exchange answers to a buy posted by hand leaves the net size at what was bought less what
/// was sold, and is written down.
pub proof fn open_order_is_sound(
    m: ManagerView,
    result: Result<PlaceResult, String>,
    side: Side,
    token_id: Seq<char>,
    neg_risk: bool,
    order_price: int,
    size: int,
    tick: int,
    now_ms: int,
)
    requires
        m.wf(),
    ensures
        m.after_open_order(
            result,
            side,
            token_id,
            neg_risk,
            order_price,
            size,
            tick,
            now_ms,
        ).wf(),
        recorded(
            m,
            m.after_open_order(
                result,
                side,
                token_id,
                neg_risk,
                order_price,
                size,
                tick,
                now_ms,
            ),
        ),
{
}

/// A fill of the feed and a poll of the server keep the position and are written down; an open
/// position stays open.
pub proof fn fill_is_sound(m: ManagerView, order_id: Seq<char>, filled: int, price: int, now_ms: int)
    requires
        m.wf(),
        filled <= i64::MAX,
    ensures
        continues(m, m.after_fill(order_id, filled, price, now_ms)),
        continues(m, m.after_poll(order_id, filled, price, now_ms)),
        recorded(m, m.after_fill(order_id, filled, price, now_ms)),
        recorded(m, m.after_poll(order_id, filled, price, now_ms)),
        m.phase is Open ==> m.after_poll(order_id, filled, price, now_ms).phase is Open,
{
}

/// Whatever is answered to a sale keeps what is left of the position, where the least size that is
/// sold is not negative, and is written down.
pub proof fn sale_answer_is_sound(
    m: ManagerView,
    res: OrderResult,
    reason: Seq<char>,
    now_ms: int,
    min_order_size: int,
)
    requires
        m.wf(),
    ensures
        min_order_size >= 0 ==> continues(m, m.after_sell(res, reason, now_ms, min_order_size).0),
        recorded(m, m.after_sell(res, reason, now_ms, min_order_size).0),
{
}

/// A sale that the feed confirms keeps what is left of the position, where the least size that is
/// sold is not negative, and is written down.
pub proof fn confirmed_sale_is_sound(
    m: ManagerView,
    order_id: Seq<char>,
    filled_size: Option<i64>,
    avg_price: Option<i64>,
    reason: Seq<char>,
    min_order_size: int,
)
    requires
        m.wf(),
    ensures
        min_order_size >= 0 ==> continues(
            m,
            m.after_close(order_id, filled_size, avg_price, reason, min_order_size),
        ),
        recorded(m, m.after_close(order_id, filled_size, avg_price, reason, min_order_size)),
{
}

/// The remaining steps keep the position and are written down.
pub proof fn other_steps_are_sound(
    m: ManagerView,
    result: Result<PlaceResult, String>,
    reason: Seq<char>,
    mark: int,
    now_ms: int,
)
    requires
        m.wf(),
    ensures
        continues(m, m.after_close_order(result, reason, now_ms)),
        recorded(m, m.after_close_order(result, reason, now_ms)),
        continues(m, m.after_expiry(mark)),
        recorded(m, m.after_expiry(mark)),
        continues(m, m.held_to_resolution()),
        recorded(m, m.held_to_resolution()),
        continues(m, m.catastrophe()),
        recorded(m, m.catastrophe()),
        continues(m, m.sale_retried()),
        recorded(m, m.sale_retried()),
        continues(m, m.cancelling(now_ms)),
        recorded(m, m.cancelling(now_ms)),
        continues(m, m.buy_cancelled()),
        recorded(m, m.buy_cancelled()),
{
}

/// A poll is idempotent: the same count, polled again at whatever price and time, changes nothing.
pub proof fn poll_is_idempotent(
    m: ManagerView,
    order_id: Seq<char>,
    filled: int,
    price: int,
    now_ms: int,
    later_price: int,
    later_ms: int,
)
    requires
        filled <= i64::MAX,
    ensures
        m.after_poll(order_id, filled, price, now_ms).after_poll(
            order_id,
            filled,
            later_price,
            later_ms,
        ) == m.after_poll(order_id, filled, price, now_ms),
{
}

/// A poll that counts no more than was bought brings back none of the tokens sold since.
pub proof fn poll_brings_no_sold_token_back(
    m: ManagerView,
    p: PositionView,
    sale_id: Seq<char>,
    n: int,
    got: int,
    filled: int,
    price: int,
    now_ms: int,
)
    requires
        p.wf(),
        filled <= p.bought,
    ensures
        m.sold_part(p, sale_id, n, got).after_poll(p.buy_order_id, filled, price, now_ms)
            == m.sold_part(p, sale_id, n, got),
{
}

/// A purchase that grows leaves what was sold as it is: the net size is the count less the sales.
pub proof fn growth_keeps_the_sales(m: ManagerView, filled: int, price: int, now_ms: int)
    requires
        m.wf(),
        m.phase is Open,
        m.phase->Open_0.bought + DUST < filled <= i64::MAX,
    ensures
        m.after_poll(m.phase->Open_0.buy_order_id, filled, price, now_ms).phase matches PhaseView::Open(
            q,
        ) && q.bought == filled && q.sold == m.phase->Open_0.sold && q.size == filled
            - m.phase->Open_0.sold,
{
}

/// A fill wins over the cancellation of its order: the buy whose cancellation was sent opens the
/// same position, through the feed and through the server.
pub proof fn fill_wins_over_cancellation(
    m: ManagerView,
    order_id: Seq<char>,
    filled: int,
    price: int,
    cancel_ms: int,
    now_ms: int,
)
    requires
        m.phase is PendingBuy,
        m.phase->PendingBuy_order_id == order_id,
        m.http_filled_buy_id != Some(order_id),
        filled > 0,
    ensures
        ({
            let c = m.cancelling(cancel_ms);
            let fed = m.after_fill(order_id, filled, price, now_ms);
            let polled = m.after_poll(order_id, filled, price, now_ms);
            &&& c.after_fill(order_id, filled, price, now_ms).phase == fed.phase
            &&& c.after_fill(order_id, filled, price, now_ms).state == fed.state
            &&& c.after_poll(order_id, filled, price, now_ms).phase == polled.phase
            &&& c.after_poll(order_id, filled, price, now_ms).state == polled.state
            &&& fed.phase == polled.phase
            &&& fed.phase is Open
            &&& fed.phase->Open_0.size == filled
        }),
{
}

/// A fill that the order engine already reported is not counted again when the feed reports it.
pub proof fn fill_counts_once(
    m: ManagerView,
    res: OrderResult,
    side: Side,
    token_id: Seq<char>,
    neg_risk: bool,
    order_price: int,
    size: int,
    tick: int,
    now_ms: int,
    filled: int,
    price: int,
    later_ms: int,
)
    requires
        res is Placed,
        filled_of(res->filled_size) is Some,
    ensures
        m.after_buy(res, side, token_id, neg_risk, order_price, size, tick, now_ms).after_fill(
            res->Placed_order_id@,
            filled,
            price,
            later_ms,
        ) == m.after_buy(res, side, token_id, neg_risk, order_price, size, tick, now_ms),
{
}

/// A fill or a poll of an order that is not followed changes nothing.
pub proof fn other_orders_are_ignored(
    m: ManagerView,
    order_id: Seq<char>,
    filled: int,
    price: int,
    now_ms: int,
)
    requires
        m.tracked_buy() matches Some(id) ==> id != order_id && id.len() > 0,
    ensures
        m.after_fill(order_id, filled, price, now_ms) == m,
        m.after_poll(order_id, filled, price, now_ms) == m,
{
}

/// While the server states a balance, a refused sale never costs the position: it stays open, with
/// no more than what the server states.
pub proof fn stated_balance_keeps_the_position(m: ManagerView, error: Seq<char>, now_ms: int)
    requires
        m.wf(),
        m.phase is Open,
        states_balance(error),
    ensures
        m.sale_refused(error, now_ms).0.phase is Open,
        m.sale_refused(error, now_ms).0.phase->Open_0.size <= min(
            m.phase->Open_0.size,
            balance_of(error)->0 + 1,
        ),
        !m.sale_refused(error, now_ms).1,
{
}

/// A refused sale costs the position in one case alone: the server states no balance, the purchase
/// had the time to settle, and it is the third such refusal. A first one never does, whatever other
/// refusals came before it: it asks for a refresh and keeps the position whole.
pub proof fn position_is_given_up_last(m: ManagerView, error: Seq<char>, now_ms: int)
    requires
        m.phase is Open,
    ensures
        m.sale_refused(error, now_ms).0.phase is Open || m.sale_refused(error, now_ms).0.phase
            is Idle,
        m.sale_refused(error, now_ms).0.phase is Idle <==> !states_balance(error)
            && mentions_balance(error) && now_ms - m.phase->Open_0.opened_ms >= SETTLE_GRACE_MS
            && m.zero_balance_refusals >= 2,
        !states_balance(error) && mentions_balance(error) && m.zero_balance_refusals == 0 ==> {
            &&& m.sale_refused(error, now_ms).1
            &&& m.sale_refused(error, now_ms).0.phase == m.phase
            &&& m.sale_refused(error, now_ms).0.zero_balance_refusals == 1
        },
        !mentions_balance(error) && !states_balance(error) ==> {
            &&& !m.sale_refused(error, now_ms).1
            &&& m.sale_refused(error, now_ms).0.phase == m.phase
            &&& m.sale_refused(error, now_ms).0.zero_balance_refusals == m.zero_balance_refusals
        },
        m.sale_refused(error, now_ms).0.phase is Idle ==> m.sale_refused(
            error,
            now_ms,
        ).0.state.losses == m.state.losses + 1,
{
}

/// A refresh is asked for only by a refusal that speaks of the balance and states none; and such a
/// refusal always asks for one and keeps the phase while it is not the third refusal in a row, of
/// whatever kind, or the position has not had the time to settle. Every refusal counts as one in a
/// row, but for the one that gives the position up.
pub proof fn refresh_comes_before_giving_up(
    m: ManagerView,
    res: OrderResult,
    reason: Seq<char>,
    now_ms: int,
    min_order_size: int,
)
    requires
        m.wf(),
    ensures
        ({
            let (after, refresh) = m.after_sell(res, reason, now_ms, min_order_size);
            &&& refresh ==> res is Failed && mentions_balance(res->error@) && !states_balance(
                res->error@,
            )
            &&& res is Failed && mentions_balance(res->error@) && !states_balance(res->error@) && (
            m.consec_close_fails + 1 < 3 || (m.phase matches PhaseView::Open(p) && now_ms
                - p.opened_ms < SETTLE_GRACE_MS)) ==> refresh && after.phase == m.phase
            &&& res is Failed ==> after.consec_close_fails == m.consec_close_fails + 1 || (
            after.phase is Idle && after.consec_close_fails == 0)
        }),
{
}

/// Both counts of refusals start anew with an opening, a sale in part and a close.
pub proof fn refusals_start_anew(
    m: ManagerView,
    p: PositionView,
    side: Side,
    token_id: Seq<char>,
    neg_risk: bool,
    price: int,
    n: int,
    tick: int,
    order_id: Seq<char>,
    now_ms: int,
    reason: Seq<char>,
)
    ensures
        ({
            let opened = m.opened(side, token_id, neg_risk, price, n, tick, order_id, now_ms);
            let part = m.sold_part(p, order_id, n, price);
            let closed = m.closed(order_id, token_id, n, price, price, reason);
            &&& opened.consec_close_fails == 0 && opened.zero_balance_refusals == 0
            &&& part.consec_close_fails == 0 && part.zero_balance_refusals == 0
            &&& closed.consec_close_fails == 0 && closed.zero_balance_refusals == 0
        }),
{
}

/// Without a fill nothing that is held is lost: an answer to a sale that places it without a fill, a
/// dry run or a cancellation leaves the same position, open or waiting for its sale, and leaves
/// every phase but the open one as it is.
pub proof fn no_fill_loses_no_position(
    m: ManagerView,
    res: OrderResult,
    result: Result<PlaceResult, String>,
    order_id: Seq<char>,
    filled_size: Option<i64>,
    avg_price: Option<i64>,
    reason: Seq<char>,
    now_ms: int,
    min_order_size: int,
)
    ensures
        !(res is Failed) && !(res is Placed && filled_of(res->filled_size) is Some) ==> {
            let n = m.after_sell(res, reason, now_ms, min_order_size).0;
            &&& n.phase.held() == m.phase.held()
            &&& !(m.phase is Open) ==> n.phase == m.phase
        },
        !(result matches Ok(PlaceResult::Placed { filled_size: f, .. }) && filled_of(f) is Some)
            ==> {
            let n = m.after_close_order(result, reason, now_ms);
            &&& n.phase.held() == m.phase.held()
            &&& !(m.phase is Open) ==> n.phase == m.phase
        },
        filled_of(filled_size) is None ==> m.after_close(
            order_id,
            filled_size,
            avg_price,
            reason,
            min_order_size,
        ).phase == m.phase,
{
}

/// What is held goes for a reason: an answer to a sale leaves nothing held only where it has a fill,
/// or where it is the third refusal for a balance of zero of a position that had the time to settle.
pub proof fn position_goes_for_a_reason(
    m: ManagerView,
    res: OrderResult,
    reason: Seq<char>,
    now_ms: int,
    min_order_size: int,
)
    requires
        m.phase.held() is Some,
        m.after_sell(res, reason, now_ms, min_order_size).0.phase.held() is None,
    ensures
        match res {
            OrderResult::Placed { filled_size, .. } => filled_of(filled_size) is Some,
            OrderResult::Failed { error } => {
                &&& mentions_balance(error@)
                &&& !states_balance(error@)
                &&& m.zero_balance_refusals >= 2
                &&& m.open_for(now_ms) >= SETTLE_GRACE_MS
            },
            _ => false,
        },
{
}

/// An answer to a sale only ever takes tokens out of the open position: what stays held was bought
/// as before, has no more left, and is otherwise the same.
pub proof fn sale_only_shrinks(
    m: ManagerView,
    res: OrderResult,
    reason: Seq<char>,
    now_ms: int,
    min_order_size: int,
)
    requires
        m.wf(),
        m.phase is Open,
        min_order_size >= 0,
        m.after_sell(res, reason, now_ms, min_order_size).0.phase.held() is Some,
    ensures
        ({
            let p = m.phase->Open_0;
            let q = m.after_sell(res, reason, now_ms, min_order_size).0.phase.held()->0;
            &&& 0 <= p.sold <= q.sold
            &&& 0 <= q.size <= p.size
            &&& q.size == q.bought - q.sold
            &&& q == (PositionView { sold: q.sold, size: q.size, ..p })
        }),
{
}

/// A sale that waited too long is tried again with the position it was to sell, whole.
pub proof fn stuck_sale_keeps_the_position(m: ManagerView, reason: Seq<char>, since_ms: int)
    requires
        m.phase is Open,
    ensures
        m.sale_waiting(reason, since_ms).sale_retried().phase == m.phase,
        m.sale_waiting(reason, since_ms).sale_retried().state == m.state,
{
}

/// A sale in part takes its tokens out of the position and none other.
pub proof fn partial_sale_keeps_the_rest(
    m: ManagerView,
    p: PositionView,
    order_id: Seq<char>,
    n: int,
    got: int,
)
    requires
        p.wf(),
        0 < n <= p.size,
    ensures
        m.sold_part(p, order_id, n, got).phase matches PhaseView::Open(q) && q.size == p.size - n
            && q.sold == p.sold + n && q.bought == p.bought && q.entry_price == p.entry_price,
{
}

/// Tokens sold in two parts at one price earn what they earn sold at once.
pub proof fn parts_earn_the_whole(got: int, entry: int, n: int, k: int)
    ensures
        profit_of(got, entry, n) + profit_of(got, entry, k) == profit_of(got, entry, n + k),
{
    assert((got - entry) * n + (got - entry) * k == (got - entry) * (n + k)) by (nonlinear_arith);
}

/// A close is counted once, as won or as lost by the sign of its profit, and its profit is realised.
pub proof fn close_is_counted_once(
    m: ManagerView,
    order_id: Seq<char>,
    side: Seq<char>,
    sold: int,
    got: int,
    entry: int,
    reason: Seq<char>,
)
    ensures
        ({
            let pnl = profit_of(got, entry, sold);
            let s = m.closed(order_id, side, sold, got, entry, reason).state;
            &&& s.wins + s.losses == m.state.wins + m.state.losses + 1
            &&& s.wins == m.state.wins + 1 <==> pnl >= 0
            &&& s.shots == m.state.shots
            &&& s.realized_pnl == sat_wide(m.state.realized_pnl + pnl)
        }),
{
}

/// A buy without a fill is not a shot: it counts when it opens, and once.
pub proof fn shots_count_openings(
    m: ManagerView,
    res: OrderResult,
    side: Side,
    token_id: Seq<char>,
    neg_risk: bool,
    order_price: int,
    size: int,
    tick: int,
    now_ms: int,
    filled: int,
    price: int,
    later_ms: int,
)
    requires
        res is Placed,
        filled_of(res->filled_size) is None,
        m.http_filled_buy_id != Some(res->Placed_order_id@),
        filled > 0,
    ensures
        ({
            let w = m.after_buy(res, side, token_id, neg_risk, order_price, size, tick, now_ms);
            let o = w.after_fill(res->Placed_order_id@, filled, price, later_ms);
            &&& w.state == m.state
            &&& w.outbox == m.outbox
            &&& o.state.shots == m.state.shots + 1
            &&& o.phase is Open
            &&& o.after_fill(res->Placed_order_id@, filled, price, later_ms) == o
        }),
{
}

/// A position that is held until its market resolves is sold for its catastrophe alone, and an armed
/// catastrophe is always due.
pub proof fn held_position_sells_for_catastrophe_alone(
    m: ManagerView,
    mark_bid: i64,
    now_ms: int,
    remaining_s: int,
)
    requires
        m.phase is Open,
    ensures
        m.phase->Open_0.catastrophe_armed ==> m.due(Some(mark_bid), now_ms, remaining_s) is Some,
        m.phase->Open_0.hold_to_resolution && !m.phase->Open_0.catastrophe_armed ==> m.due(
            Some(mark_bid),
            now_ms,
            remaining_s,
        ) is None,
{
}

/// The prices at which a position is left lie within a cent of the ends of the price range.
pub proof fn exit_prices_are_prices(
    m: ManagerView,
    p: PositionView,
    params: KellyParams,
    entry: int,
    bid: int,
    tick: int,
)
    requires
        tick > 0,
    ensures
        PRICE_FLOOR <= take_profit_of(entry, params, tick) <= PRICE_CEILING,
        PRICE_FLOOR <= stop_loss_of(entry, params, tick) <= PRICE_CEILING,
        PRICE_FLOOR <= m.exit_price(p, bid, tick) <= PRICE_CEILING,
{
}

/// The mean entry price lies between the price of what was held and that of what was added.
pub proof fn mean_price_lies_between(entry: int, bought: int, price: int, added: int)
    requires
        bought > 0,
        added >= 0,
        i64::MIN <= entry <= i64::MAX,
        i64::MIN <= price <= i64::MAX,
    ensures
        min(entry, price) <= mean_price_of(entry, bought, price, added, bought + added) <= max(
            entry,
            price,
        ),
{
    let lo = min(entry, price);
    let hi = max(entry, price);
    let total = bought + added;
    let sum = entry * bought + price * added;
    assert(lo * total <= sum <= hi * total) by (nonlinear_arith)
        requires
            lo <= entry <= hi,
            lo <= price <= hi,
            bought > 0,
            added >= 0,
            total == bought + added,
            sum == entry * bought + price * added,
    ;
    nearest_is_monotone(lo * total, sum, total);
    nearest_is_monotone(sum, hi * total, total);
    nearest_of_multiple(lo, total);
    nearest_of_multiple(hi, total);
}

/// The smallest size that is traded at a price is worth a dollar at least, and no less than what the
/// exchange trades; so is every size that is raised to it.
pub proof fn smallest_size_is_worth_a_dollar(min_order_size: int, price: int, size: int)
    requires
        price > 0,
    ensures
        min_size_of(min_order_size, price) * price >= DOLLAR_NOTIONAL,
        min_size_of(min_order_size, price) >= min_order_size,
        max(size, min_size_of(min_order_size, price)) * price >= DOLLAR_NOTIONAL,
{
    let one = UNIT as int;
    let q = -one / price;
    let r = -one % price;
    lemma_fundamental_div_mod(-one, price);
    assert(-q * price >= one && 0 < -q <= one) by (nonlinear_arith)
        requires
            -one == price * q + r,
            0 <= r < price,
            price > 0,
            one > 0,
    ;
    assert(-q * one <= i64::MAX && (-q * one) * price >= one * one) by (nonlinear_arith)
        requires
            -q * price >= one,
            0 < -q <= one,
            one == 1_000_000_000,
            price > 0,
    ;
    assert(one * one == DOLLAR_NOTIONAL) by (nonlinear_arith)
        requires
            one == 1_000_000_000,
    ;
    let least = min_size_of(min_order_size, price);
    let raised = max(size, least);
    assert(least * price >= (-q * one) * price && raised * price >= (-q * one) * price)
        by (nonlinear_arith)
        requires
            least >= -q * one,
            raised >= -q * one,
            price > 0,
    ;
}

} // verus!
