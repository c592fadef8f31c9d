//! Laws of the live node.

use crate::bus::Side;
use crate::fixed::{sat, PRICE_CEILING, PRICE_FLOOR, UNIT};
use crate::live::{passed, BuyStepView, NodeView, QuotedView};
use crate::manager::EXIT_REMAINING_S;
use crate::orders::{OrderKind, OrderResult, PlaceResult};
use crate::position::{PhaseView, PositionView};
use crate::position_laws::{
    buy_answer_is_sound, fill_is_sound, other_steps_are_sound, sale_answer_is_sound,
};
use crate::price_laws::maker_buy_never_crosses;
use crate::pricing::gap_of;
use crate::user_feed::FillView;
use vstd::math::max;
use vstd::prelude::*;

verus! {

/// There is one position at most: what is held is well formed, at most one buy is with the order
/// engine, and that only while nothing is held or followed; and no fill is noted as reported while
/// nothing is bought yet.
pub open spec fn one_at_most(n: NodeView) -> bool {
    &&& n.mgr.wf()
    &&& n.mgr.phase is Idle || n.mgr.phase is PendingBuy ==> n.mgr.http_filled_buy_id is None
    &&& n.pending_opens.len() <= 1
    &&& n.pending_opens.len() == 1 ==> n.mgr.phase is Idle
}

/// A node starts with nothing held, followed or with the order engine.
pub proof fn node_starts_with_nothing(n: NodeView)
    requires
        n.mgr.phase is Idle,
        n.mgr.http_filled_buy_id is None,
        n.mgr.consec_close_fails == 0,
        n.mgr.zero_balance_refusals == 0,
        n.pending_opens.len() == 0,
    ensures
        one_at_most(n),
{
}

/// A signal is priced only where it may be followed: the breaker and the switch allow it, there is a
/// market with enough time left, its price lies within the band, the last shot is long enough ago,
/// the edge suffices, and nothing is held, followed or with the order engine.
pub proof fn buy_needs_a_free_node(
    n: NodeView,
    side: Side,
    fair: int,
    breaker_tripped: bool,
    live_active: bool,
    has_engine: bool,
)
    requires
        n.verdict(side, fair, breaker_tripped, live_active, has_engine) is Priced,
    ensures
        !breaker_tripped && live_active && has_engine,
        n.market is Some && n.bankroll is Some,
        n.remaining_s > EXIT_REMAINING_S,
        n.remaining_s > n.cfg.end_window_block_secs,
        n.cfg.price_min <= n.real_up <= n.cfg.price_max,
        passed(n.now_ms, n.last_fire_ms, n.cfg.cooldown_ms as int),
        gap_of(side, fair, n.real_up) >= n.required_gap(),
        n.mgr.phase is Idle && n.pending_opens.len() == 0,
{
}

/// A buy that follows a priced signal is the only one.
pub proof fn buy_keeps_one_at_most(
    n: NodeView,
    side: Side,
    fair: int,
    breaker_tripped: bool,
    live_active: bool,
    has_engine: bool,
    q: QuotedView,
    size: int,
    transport_ms: int,
    decide_ms: int,
)
    requires
        one_at_most(n),
        n.verdict(side, fair, breaker_tripped, live_active, has_engine) is Priced,
    ensures
        one_at_most(n.submitted(q, size, transport_ms, decide_ms)),
{
}

/// Whatever the order engine answers, there is one position at most; of a sale, where the least size
/// that is sold is not negative.
pub proof fn answers_keep_one_at_most(n: NodeView, i: int, res: Option<OrderResult>)
    requires
        one_at_most(n),
    ensures
        0 <= i < n.pending_opens.len() ==> one_at_most(n.after_open_reply(i, res)),
        n.min_sale() >= 0 ==> one_at_most(n.after_close_reply(res).0),
{
    if let Some(r) = res {
        if 0 <= i < n.pending_opens.len() {
            let p = n.pending_opens[i];
            buy_answer_is_sound(
                n.mgr,
                r,
                p.side,
                p.token_id,
                p.neg_risk,
                p.order_price,
                p.size,
                p.tick,
                p.now_ms,
            );
        }
        sale_answer_is_sound(n.mgr, r, n.pending_close->0, n.now_ms, n.min_sale());
    }
}

/// Whatever the feeds tell, there is one position at most.
pub proof fn feeds_keep_one_at_most(
    n: NodeView,
    fill: FillView,
    order_id: Seq<char>,
    filled: int,
    price: int,
    terminal: bool,
)
    requires
        one_at_most(n),
        fill.filled_size <= i64::MAX,
        filled <= i64::MAX,
    ensures
        one_at_most(n.after_fill(fill)),
        one_at_most(n.after_poll(order_id, filled, price, terminal)),
{
    fill_is_sound(n.mgr, order_id, filled, price, n.now_ms);
    if let Some(id) = n.mgr.tracked_buy() {
        fill_is_sound(n.mgr, id, fill.filled_size, fill.avg_price, n.now_ms);
    }
}

/// The steps of a tick keep one position at most.
pub proof fn ticks_keep_one_at_most(n: NodeView, has_engine: bool)
    requires
        one_at_most(n),
    ensures
        one_at_most(n.noted()),
        one_at_most(n.after_buy_step().0),
        one_at_most(n.after_exit_step(has_engine).0),
        one_at_most((NodeView { mgr: n.mgr.sale_retried(), ..n })),
        one_at_most((NodeView { mgr: n.mgr.buy_cancelled(), ..n })),
        one_at_most((NodeView { mgr: n.mgr.held_to_resolution(), ..n })),
        one_at_most((NodeView { mgr: n.mgr.catastrophe(), ..n })),
{
    if let Some(p) = n.mgr.phase.held() {
        other_steps_are_sound(
            n.mgr,
            Ok(PlaceResult::DryRun),
            Seq::empty(),
            n.bid_seen(p.side, p.token_id),
            n.now_ms,
        );
    }
}

/// A sale leaves the node only for the open position of the current market, whole, and only while no
/// other sale is with the order engine.
pub proof fn sale_is_single(n: NodeView, has_engine: bool)
    requires
        n.after_exit_step(has_engine).1 is Some,
    ensures
        n.pending_close is None,
        n.mgr.phase is Open,
        n.market is Some,
        n.mgr.phase->Open_0.token_id == n.token(n.mgr.phase->Open_0.side),
        n.after_exit_step(has_engine).1->0.token_id == n.mgr.phase->Open_0.token_id,
        n.after_exit_step(has_engine).1->0.size == n.mgr.phase->Open_0.size,
        n.after_exit_step(has_engine).1->0.price >= PRICE_FLOOR,
{
}

/// A position of an older market is never sold into the book of the current one: it is settled as
/// expired, at the last bid that was seen of its own token, at zero where none was.
pub proof fn older_market_is_settled(n: NodeView)
    requires
        n.mgr.phase is Open,
        n.market is Some,
        n.mgr.phase->Open_0.token_id != n.token(n.mgr.phase->Open_0.side),
        n.pending_close is None,
    ensures
        n.after_exit_step(true).1 is None,
        n.after_exit_step(true).0.mgr.phase is Idle,
        n.after_exit_step(true).0.mgr == n.mgr.after_expiry(
            n.bid_seen(n.mgr.phase->Open_0.side, n.mgr.phase->Open_0.token_id),
        ),
{
}

/// The bid that is remembered of a side is the last one that was looked at, and it is that of the
/// token of the position: another token of the side has none, and the other side keeps its own.
pub proof fn bid_belongs_to_its_token(n: NodeView, other: Seq<char>)
    requires
        n.mgr.phase is Open,
        n.market is Some,
        n.mgr.phase->Open_0.token_id == n.token(n.mgr.phase->Open_0.side),
        n.pending_close is None,
        n.quote(n.mgr.phase->Open_0.side).bid is Some,
        other != n.mgr.phase->Open_0.token_id,
    ensures
        ({
            let p = n.mgr.phase->Open_0;
            let after = n.after_exit_step(true).0;
            &&& after.bid_seen(p.side, p.token_id) == n.quote(p.side).bid->0
            &&& after.bid_seen(p.side, other) == 0
            &&& forall|side: Side| side != p.side ==> after.last_bid(side) == n.last_bid(side)
        }),
{
}

/// No step but the look at an exit changes the bids that are remembered: opening, filling, closing
/// and waiting leave them with their tokens.
pub proof fn bid_stays_with_its_token(
    n: NodeView,
    side: Side,
    q: QuotedView,
    size: int,
    i: int,
    res: Option<OrderResult>,
    fill: FillView,
    order_id: Seq<char>,
    filled: int,
    price: int,
    terminal: bool,
)
    ensures
        n.submitted(q, size, price, price).last_bid(side) == n.last_bid(side),
        n.after_open_reply(i, res).last_bid(side) == n.last_bid(side),
        n.after_close_reply(res).0.last_bid(side) == n.last_bid(side),
        n.after_fill(fill).last_bid(side) == n.last_bid(side),
        n.after_poll(order_id, filled, price, terminal).last_bid(side) == n.last_bid(side),
        n.noted().last_bid(side) == n.last_bid(side),
        n.after_buy_step().0.last_bid(side) == n.last_bid(side),
{
}

/// Under the last seconds of a window the node opens nothing, and everything that is not held until
/// its market resolves has a reason to go.
pub proof fn window_end_opens_nothing(
    n: NodeView,
    p: PositionView,
    bid: int,
    side: Side,
    fair: int,
    breaker_tripped: bool,
    live_active: bool,
    has_engine: bool,
)
    requires
        n.remaining_s <= EXIT_REMAINING_S,
    ensures
        !(n.verdict(side, fair, breaker_tripped, live_active, has_engine) is Priced),
        !p.hold_to_resolution || p.catastrophe_armed ==> n.exit_reason(p, bid) is Some,
{
}

/// A position that is held until its market resolves goes for its catastrophe alone.
pub proof fn held_position_goes_for_catastrophe_alone(n: NodeView, p: PositionView, bid: int)
    ensures
        p.catastrophe_armed ==> n.exit_reason(p, bid) == Some("catastrophe"@),
        p.hold_to_resolution && !p.catastrophe_armed ==> n.exit_reason(p, bid) is None,
{
}

/// A profit is taken at once; a loss is not stopped before the position was held for its least time.
pub proof fn profit_at_once_loss_later(n: NodeView, p: PositionView, bid: int)
    requires
        !p.hold_to_resolution,
        !p.catastrophe_armed,
    ensures
        bid >= p.tp_price ==> n.exit_reason(p, bid) == Some("take_profit"@),
        n.exit_reason(p, bid) == Some("stop_loss"@) ==> bid <= p.sl_price && max(
            n.now_ms - p.opened_ms,
            0,
        ) >= n.cfg.min_hold_sl_ms,
{
    reveal_strlit("take_profit");
    reveal_strlit("stop_loss");
    reveal_strlit("window_close");
    reveal_strlit("max_hold");
    assert("take_profit"@.len() != "stop_loss"@.len());
    assert("window_close"@.len() != "stop_loss"@.len());
    assert("max_hold"@.len() != "stop_loss"@.len());
}

/// A resting buy is given up only after its cancellation was sent and the grace went by without a
/// fill; before that the step leaves it in place.
pub proof fn buy_is_given_up_after_its_grace(n: NodeView)
    requires
        n.mgr.phase is PendingBuy,
    ensures
        ({
            let (after, step) = n.after_buy_step();
            &&& after.mgr.phase is Idle <==> step == BuyStepView::GivenUp
            &&& step == BuyStepView::GivenUp <==> n.cfg.maker_mode
                && n.mgr.phase->PendingBuy_cancel_since_ms is Some && passed(
                n.now_ms,
                n.mgr.phase->PendingBuy_cancel_since_ms->0,
                n.cfg.cancel_grace_ms as int,
            )
            &&& step is SendCancel ==> after.mgr.phase is PendingBuy
                && after.mgr.phase->PendingBuy_cancel_since_ms == Some(n.now_ms)
                && step->SendCancel_0 == n.mgr.phase->PendingBuy_order_id
        }),
{
}

/// No buy rests into the last seconds of a window: where its cancellation was not sent yet, it is
/// sent now.
pub proof fn window_end_cancels_the_buy(n: NodeView)
    requires
        n.cfg.maker_mode,
        n.mgr.phase is PendingBuy,
        n.remaining_s <= EXIT_REMAINING_S,
    ensures
        n.mgr.phase->PendingBuy_cancel_since_ms is Some || n.after_buy_step().1 is SendCancel,
{
}

/// The time that a buy may rest stays within its bounds and never grows as the window runs out.
pub proof fn buy_timeout_is_bounded(n: NodeView, later: NodeView)
    requires
        n.cfg.buy_grace_floor_ms <= n.cfg.buy_timeout_ms,
        n.cfg.grace_frac_of_remaining >= 0,
        later.cfg == n.cfg,
        later.remaining_s <= n.remaining_s,
    ensures
        n.cfg.buy_grace_floor_ms <= later.buy_timeout() <= n.buy_timeout() <= n.cfg.buy_timeout_ms,
{
    let one = UNIT as int;
    let f = n.cfg.grace_frac_of_remaining as int;
    let a = sat(max(later.remaining_s, 0) * 1000);
    let b = sat(max(n.remaining_s, 0) * 1000);
    assert(a * f <= b * f) by (nonlinear_arith)
        requires
            a <= b,
            f >= 0,
    ;
    vstd::arithmetic::div_mod::lemma_div_is_ordered(a * f, b * f, one);
}

/// The sweep never runs while anything is held, followed or with the order engine.
pub proof fn sweep_spares_what_is_followed(n: NodeView)
    requires
        n.sweep_due(),
    ensures
        n.mgr.tracked_buy() is None,
        n.mgr.phase.held() is None,
        n.pending_opens.len() == 0,
        n.pending_close is None,
        n.cfg.live_armed,
{
}

/// The allowance is refreshed once for a position, and the pause between two sales starts anew once:
/// after the first look, every later look at a node that still holds the token changes nothing,
/// whether the position is open or waits for its sale.
pub proof fn allowance_is_refreshed_once(n: NodeView, later: NodeView)
    requires
        n.mgr.phase.held() is Some,
        later.mgr.phase.held() is Some,
        later.mgr.phase.held()->0.token_id == n.mgr.phase.held()->0.token_id,
        later.synced_token == n.noted().synced_token,
    ensures
        n.noted().synced_token == Some(n.mgr.phase.held()->0.token_id),
        later.noted() == later,
{
}

/// A sale that waits and is tried again is a sale of the same position: looked at while it waits and
/// when it is open again, its token stays noted and its last sale stays the last one.
pub proof fn waiting_sale_keeps_the_pause(n: NodeView, reason: Seq<char>, since_ms: int)
    requires
        n.mgr.phase is Open,
        n.noted() == n,
    ensures
        ({
            let waits = (NodeView { mgr: n.mgr.sale_waiting(reason, since_ms), ..n }).noted();
            let again = (NodeView { mgr: waits.mgr.sale_retried(), ..waits }).noted();
            &&& again.mgr.phase == n.mgr.phase
            &&& again.synced_token == n.synced_token
            &&& again.last_sell_attempt_ms == n.last_sell_attempt_ms
        }),
{
}

/// A sale leaves only after the pause since the last one, and is itself the last one from then on.
pub proof fn sales_keep_their_pause(n: NodeView, has_engine: bool)
    requires
        n.after_exit_step(has_engine).1 is Some,
    ensures
        passed(n.now_ms, n.last_sell_attempt_ms, n.cfg.exit_retry_ms as int),
        n.after_exit_step(has_engine).0.last_sell_attempt_ms == n.now_ms,
        n.after_exit_step(has_engine).1->0.kind == OrderKind::Fak,
{
}

/// A buy that is filled to its end is not asked about again.
pub proof fn filled_buy_is_not_polled(n: NodeView, order_id: Seq<char>, filled: int, price: int)
    requires
        n.after_poll(order_id, filled, price, true).mgr.tracked_buy() == Some(order_id),
    ensures
        n.after_poll(order_id, filled, price, true).poll_due() is None,
{
}

/// A fill of the followed buy opens the position, whichever party to the trade the buy was.
pub proof fn own_fill_opens(n: NodeView, fill: FillView)
    requires
        one_at_most(n),
        n.mgr.phase is PendingBuy,
        fill.involves(n.mgr.phase->PendingBuy_order_id),
        fill.filled_size > 0,
    ensures
        n.after_fill(fill).mgr.phase matches PhaseView::Open(p) && p.size == fill.filled_size
            && p.entry_price == fill.avg_price && p.side == n.mgr.phase->PendingBuy_side,
{
}

/// A fill always wins: until the grace of its cancellation is over, a step of the resting buy leaves
/// it waiting, and a fill that comes after the step opens the position, whether the cancellation was
/// sent or not.
pub proof fn fill_always_wins(n: NodeView, fill: FillView)
    requires
        one_at_most(n),
        n.mgr.phase is PendingBuy,
        fill.involves(n.mgr.phase->PendingBuy_order_id),
        fill.filled_size > 0,
        n.mgr.phase->PendingBuy_cancel_since_ms matches Some(t) ==> !n.cfg.maker_mode || !passed(
            n.now_ms,
            t,
            n.cfg.cancel_grace_ms as int,
        ),
    ensures
        n.after_buy_step().0.mgr.phase is PendingBuy,
        n.after_buy_step().0.after_fill(fill).mgr.phase matches PhaseView::Open(p) && p.size
            == fill.filled_size && p.entry_price == fill.avg_price && p.buy_order_id
            == n.mgr.phase->PendingBuy_order_id,
{
}

/// The cancellation of a resting buy is asked for exactly when it has rested for its time or the
/// window is about to close, and once.
pub proof fn buy_is_cancelled_in_time(n: NodeView)
    requires
        n.cfg.maker_mode,
        n.mgr.phase is PendingBuy,
    ensures
        n.after_buy_step().1 is SendCancel <==> n.mgr.phase->PendingBuy_cancel_since_ms is None && (
        passed(n.now_ms, n.mgr.phase->PendingBuy_since_ms, n.buy_timeout()) || n.remaining_s
            <= EXIT_REMAINING_S),
{
}

/// A resting buy that leaves the node is priced strictly below the ask, and not below a cent.
pub proof fn maker_entry_rests(n: NodeView, side: Side, tick: int)
    requires
        n.cfg.maker_mode,
        n.cfg.maker_price_eps_ticks >= UNIT,
        0 < tick <= i64::MAX,
        n.quote(side).ask matches Some(ask) ==> i64::MIN < ask <= i64::MAX,
    ensures
        n.entry(side, tick) matches Ok((price, kind)) ==> {
            &&& n.quote(side).ask is Some
            &&& PRICE_FLOOR <= price < n.quote(side).ask->0
            &&& kind == OrderKind::Gtc
        },
{
    if n.quote(side).bid is Some && n.quote(side).ask is Some {
        maker_buy_never_crosses(
            n.quote(side).bid->0,
            n.quote(side).ask->0,
            tick,
            n.cfg.maker_price_k_spread as int,
            n.cfg.maker_price_eps_ticks as int,
        );
    }
}

/// A buy that takes the book is never priced above ninety-nine cents.
pub proof fn taker_price_is_capped(n: NodeView, side: Side, tick: int)
    requires
        !n.cfg.maker_mode,
    ensures
        n.entry(side, tick) matches Ok((price, kind)) && price <= PRICE_CEILING && kind
            == OrderKind::Fak,
{
}

} // verus!
