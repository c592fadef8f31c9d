//! Laws of the executor node.

use crate::bus::Side;
use crate::executor::{
    bid_of, drawdown_of, shown_of, shown_pnl_of, ExecutorNode, RouteView, Switches,
};
use crate::feed_laws::{is_best_ask, is_best_bid};
use crate::live::{Ignore, QuotedView, Reject};
use crate::market_feed::SharedView;
use crate::orders::OrderKind;
use crate::position::PositionView;
use vstd::prelude::*;

verus! {

/// Each reason to turn a signal down holds of the signal, and no reason that comes before it does.
pub proof fn signal_is_turned_down_for_a_reason(
    n: ExecutorNode,
    g: SharedView,
    side: Side,
    fair: int,
    now_ms: int,
    s: Switches,
)
    requires
        i64::MIN <= fair - g.real_up <= i64::MAX,
        i64::MIN <= g.real_up - fair <= i64::MAX,
    ensures
        ({
            let r = n.route(g, side, fair, now_ms, s);
            let no_market = g.market is None;
            let late = g.remaining_s <= n.cfg.end_window_block_secs;
            let too_soon = now_ms < n.last_fire_ms + n.cfg.cooldown_ms && n.cfg.cooldown_ms > 0;
            let edge = if side == Side::Up {
                fair - g.real_up
            } else {
                g.real_up - fair
            };
            let runs = !s.breaker_tripped;
            &&& r == RouteView::Rejected(Reject::Breaker) <==> s.breaker_tripped
            &&& r == RouteView::Rejected(Reject::NoMarket) <==> runs && no_market
            &&& r == RouteView::Rejected(Reject::WindowEnding) <==> runs && !no_market && late
            &&& r == RouteView::Rejected(Reject::Cooldown) <==> runs && !no_market && !late
                && too_soon
            &&& r == RouteView::Rejected(Reject::Gap) <==> runs && !no_market && !late && !too_soon
                && edge < n.cfg.gap_min
            &&& r is Rejected <==> s.breaker_tripped || no_market || late || too_soon || edge
                < n.cfg.gap_min
        }),
{
}

/// A signal that is not turned down goes to live trading exactly while that is active. There it buys
/// the token of its side at the lowest ask of that token, or at the price of the market where nobody
/// asks; on paper it names the same token, unless paper is paused.
pub proof fn signal_goes_where_the_switches_say(
    n: ExecutorNode,
    g: SharedView,
    side: Side,
    fair: int,
    now_ms: int,
    s: Switches,
)
    requires
        i64::MIN <= fair - g.real_up <= i64::MAX,
        i64::MIN <= g.real_up - fair <= i64::MAX,
        !(n.route(g, side, fair, now_ms, s) is Rejected),
    ensures
        ({
            let r = n.route(g, side, fair, now_ms, s);
            let m = g.market->0;
            let token_id = if side == Side::Up {
                m.up_token_id
            } else {
                m.down_token_id
            };
            let edge = if side == Side::Up {
                fair - g.real_up
            } else {
                g.real_up - fair
            };
            let asks = if side == Side::Up {
                g.up_book.asks
            } else {
                g.down_book.asks
            };
            let q = r->Live_0;
            let shot = r->Paper_0;
            &&& r is PaperPaused <==> !s.live_active && s.paper_paused
            &&& r is Paper <==> !s.live_active && !s.paper_paused
            &&& r == RouteView::Ignored(Ignore::Busy) <==> s.live_active && s.position_open
            &&& r == RouteView::Ignored(Ignore::NoBankroll) <==> s.live_active && !s.position_open
                && s.bankroll is None
            &&& r == RouteView::Ignored(Ignore::NoCredentials) <==> s.live_active
                && !s.position_open && s.bankroll is Some && !s.has_credentials
            &&& r is Live <==> s.live_active && !s.position_open && s.bankroll is Some
                && s.has_credentials
            &&& r is Paper ==> shot.side == side && shot.token_id == token_id && shot.edge == edge
                && shot.tick == m.tick_size && shot.min_order_size == m.min_order_size
            &&& r is Live ==> {
                &&& q.side == side
                &&& q.token_id == token_id
                &&& q.neg_risk == m.neg_risk
                &&& asks.len() > 0 ==> is_best_ask(q.price, asks)
                &&& asks.len() == 0 ==> q.price == g.real_up
                &&& q.kind == OrderKind::Fak
                &&& q.edge == edge
                &&& q.bankroll == s.bankroll->0
                &&& q.tick == m.tick_size
                &&& q.min_order_size == m.min_order_size
            }
        }),
{
    crate::book::lowest_is_best(g.up_book.asks);
    crate::book::lowest_is_best(g.down_book.asks);
}

/// Where a signal of a side goes is a matter of the book of its own token.
pub proof fn route_looks_at_its_own_token(
    n: ExecutorNode,
    g: SharedView,
    h: SharedView,
    fair: int,
    now_ms: int,
    s: Switches,
)
    ensures
        h == (SharedView { down_book: h.down_book, ..g }) ==> n.route(g, Side::Up, fair, now_ms, s)
            == n.route(h, Side::Up, fair, now_ms, s),
        h == (SharedView { up_book: h.up_book, ..g }) ==> n.route(g, Side::Down, fair, now_ms, s)
            == n.route(h, Side::Down, fair, now_ms, s),
{
}

/// A live buy has the smallest size where that is forced, the size of `kelly` otherwise, and is let go
/// only where its bankroll can pay it.
pub proof fn live_buy_is_sized_and_paid(n: ExecutorNode, q: QuotedView, kelly: Option<i64>)
    ensures
        ({
            let forced = n.cfg.live_force_min_size;
            let size = if forced {
                q.min_order_size
            } else {
                kelly->0 as int
            };
            let known = forced || kelly is Some;
            let got = n.sized(q, kelly);
            &&& got is Ok <==> known && size * q.price <= q.bankroll * 1_000_000_000
            &&& got is Ok ==> got->Ok_0 == size
            &&& !known ==> got->Err_0 == Ignore::SizeBelowMinimum
            &&& known && got is Err ==> got->Err_0 == Ignore::BankrollTooSmall
        }),
{
}

/// A position is marked at the highest bid of its own token.
pub proof fn position_is_marked_at_its_own_bid(g: SharedView, side: Side)
    ensures
        ({
            let bids = if side == Side::Up {
                g.up_book.bids
            } else {
                g.down_book.bids
            };
            &&& bid_of(g, side) is Some <==> bids.len() > 0
            &&& bid_of(g, side) is Some ==> is_best_bid(bid_of(g, side)->0, bids)
        }),
{
    crate::book::highest_is_best(g.up_book.bids);
    crate::book::highest_is_best(g.down_book.bids);
}

/// While live trading is active the paper account does not count, and an unknown bankroll has no
/// drawdown; while it is not, the live one does not count.
pub proof fn drawdown_is_of_the_active_account(live: Option<bool>, other: Option<bool>, paper: bool)
    ensures
        drawdown_of(true, live, paper) == drawdown_of(true, live, !paper),
        drawdown_of(false, live, paper) == drawdown_of(false, other, paper),
        !drawdown_of(true, None, paper),
        drawdown_of(true, Some(true), paper),
        !drawdown_of(true, Some(false), paper),
        drawdown_of(false, live, true),
        !drawdown_of(false, live, false),
{
}

/// The profit that is shown is the realised one once there was a shot, the change of the bankroll
/// before that, and none while live trading is off.
pub proof fn shown_profit_is_of_live_trading(
    shots: u64,
    realized_pnl: i128,
    session_pnl: Option<i128>,
)
    ensures
        shown_pnl_of(false, shots, realized_pnl, session_pnl) is None,
        shots >= 1 ==> shown_pnl_of(true, shots, realized_pnl, session_pnl) == Some(realized_pnl),
        shots == 0 ==> shown_pnl_of(true, shots, realized_pnl, session_pnl) == session_pnl,
{
}

/// The levels that are shown of a position are its own.
pub proof fn shown_levels_are_its_own(p: PositionView)
    requires
        i64::MIN <= p.entry_price <= i64::MAX,
        i64::MIN <= p.tp_price <= i64::MAX,
        i64::MIN <= p.sl_price <= i64::MAX,
    ensures
        shown_of(p).side == p.side,
        shown_of(p).entry == p.entry_price,
        shown_of(p).tp == p.tp_price,
        shown_of(p).sl == p.sl_price,
{
}

} // verus!
