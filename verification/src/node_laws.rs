//! What each step of the live node does, field by field.

use crate::book::BookView;
use crate::bus::Side;
use crate::feed_laws::{is_best_ask, is_best_bid};
use crate::live::{
    names_maker, passed, poll_outcome_of, quote_of, Ignore, NodeView, QuoteView, QuotedView, Reject,
    VerdictView,
};
use crate::manager::ManagerView;
use crate::manager_laws::{is_opening, waiting_buy_is_the_buy_that_was_sent};
use crate::market_feed::SharedView;
use crate::orders::{OrderKind, OrderResult};
use crate::position::{PhaseView, PositionView};
use crate::pricing::{maker_buy_price_of, order_size_of, required_gap_of};
use crate::text::lowered;
use crate::user_feed::FillView;
use vstd::arithmetic::div_mod::lemma_fundamental_div_mod;
use vstd::prelude::*;

verus! {

/// A pause went by where the clock moved on by it; a pause of nothing always has.
pub proof fn pause_is_over_once_the_time_went_by(now_ms: int, then_ms: int, pause_ms: int)
    ensures
        passed(now_ms, then_ms, pause_ms) <==> now_ms >= then_ms + pause_ms || pause_ms <= 0,
{
}

/// A buy that takes the book costs the ask of its own token and the buffer, up to ninety-nine cents;
/// without an ask, the price of the market and the buffer.
pub proof fn taker_pays_the_ask_of_its_token(n: NodeView, side: Side, tick: int)
    requires
        !n.cfg.maker_mode,
    ensures
        ({
            let ask = if side == Side::Up {
                n.up.ask
            } else {
                n.down.ask
            };
            let base = if ask is Some {
                ask->0
            } else {
                n.real_up
            };
            let buffer = n.cfg.entry_buffer;
            let price = n.entry(side, tick)->Ok_0.0;
            &&& n.entry(side, tick) is Ok
            &&& n.entry(side, tick)->Ok_0.1 == OrderKind::Fak
            &&& i64::MIN <= base + buffer <= 990_000_000 ==> price == base + buffer
            &&& base + buffer >= 990_000_000 ==> price == 990_000_000
        }),
{
}

/// What a buy costs is a matter of its own token: whatever is quoted of the other, and, where its own
/// ask is known or orders rest, whatever the price of the market is, the price stays.
pub proof fn entry_looks_at_its_own_token(n: NodeView, other: QuoteView, real_up: int, tick: int)
    ensures
        n.entry(Side::Up, tick) == (NodeView { down: other, ..n }).entry(Side::Up, tick),
        n.entry(Side::Down, tick) == (NodeView { up: other, ..n }).entry(Side::Down, tick),
        n.cfg.maker_mode || n.up.ask is Some ==> n.entry(Side::Up, tick) == (NodeView {
            real_up,
            ..n
        }).entry(Side::Up, tick),
        n.cfg.maker_mode || n.down.ask is Some ==> n.entry(Side::Down, tick) == (NodeView {
            real_up,
            ..n
        }).entry(Side::Down, tick),
{
}

/// The two sides are treated alike: with the quotes exchanged, each side costs what the other did.
pub proof fn entry_is_even_handed(n: NodeView, tick: int)
    ensures
        ({
            let turned = NodeView { up: n.down, down: n.up, ..n };
            &&& turned.entry(Side::Up, tick) == n.entry(Side::Down, tick)
            &&& turned.entry(Side::Down, tick) == n.entry(Side::Up, tick)
        }),
{
}

/// A buy that rests is priced between the bid and the ask of its own token. Without one of them there
/// is no price, and below a cent there is no room.
pub proof fn maker_rests_in_the_book_of_its_token(n: NodeView, side: Side, tick: int)
    requires
        n.cfg.maker_mode,
    ensures
        ({
            let bid = if side == Side::Up {
                n.up.bid
            } else {
                n.down.bid
            };
            let ask = if side == Side::Up {
                n.up.ask
            } else {
                n.down.ask
            };
            let price = maker_buy_price_of(
                bid->0,
                ask->0,
                tick,
                n.cfg.maker_price_k_spread as int,
                n.cfg.maker_price_eps_ticks as int,
            );
            let both = bid is Some && ask is Some;
            let entry = n.entry(side, tick);
            &&& entry is Ok <==> both && price >= 10_000_000
            &&& entry is Ok ==> entry->Ok_0.0 == price && entry->Ok_0.1 == OrderKind::Gtc
            &&& !both ==> entry->Err_0 == Ignore::IncompleteBook
            &&& both && price < 10_000_000 ==> entry->Err_0 == Ignore::NoRoomUnderAsk
        }),
{
}

/// The edge that a signal needs goes by the settings, the price of the market and the time.
pub proof fn needed_edge_goes_by_the_settings(n: NodeView)
    ensures
        n.required_gap() == required_gap_of(
            n.cfg.gap_min as int,
            n.cfg.gap_dynamic_k as int,
            n.cfg.taker_fee_coeff as int,
            n.real_up,
            n.remaining_s,
        ),
{
}

/// Each reason to turn a signal down holds of the signal, and no reason that comes before it does.
pub proof fn signal_is_turned_down_for_a_reason(
    n: NodeView,
    side: Side,
    fair: int,
    breaker_tripped: bool,
    live_active: bool,
    has_engine: bool,
)
    requires
        i64::MIN <= fair - n.real_up <= i64::MAX,
        i64::MIN <= n.real_up - fair <= i64::MAX,
    ensures
        ({
            let v = n.verdict(side, fair, breaker_tripped, live_active, has_engine);
            let no_market = n.market is None;
            let late = n.remaining_s <= 30 || n.remaining_s <= n.cfg.end_window_block_secs;
            let off_band = !(n.cfg.price_min <= n.real_up <= n.cfg.price_max);
            let too_soon = n.now_ms < n.last_fire_ms + n.cfg.cooldown_ms && n.cfg.cooldown_ms > 0;
            let edge = if side == Side::Up {
                fair - n.real_up
            } else {
                n.real_up - fair
            };
            let too_little = edge < n.required_gap();
            let in_order = !breaker_tripped && live_active;
            &&& v == VerdictView::Rejected(Reject::Breaker) <==> breaker_tripped
            &&& v == VerdictView::Rejected(Reject::Paused) <==> !breaker_tripped && !live_active
            &&& v == VerdictView::Rejected(Reject::NoMarket) <==> in_order && no_market
            &&& v == VerdictView::Rejected(Reject::WindowEnding) <==> in_order && !no_market && late
            &&& v == VerdictView::Rejected(Reject::PriceBand) <==> in_order && !no_market && !late
                && off_band
            &&& v == VerdictView::Rejected(Reject::Cooldown) <==> in_order && !no_market && !late
                && !off_band && too_soon
            &&& v == VerdictView::Rejected(Reject::Gap) <==> in_order && !no_market && !late
                && !off_band && !too_soon && too_little
        }),
{
}

/// A signal that is not turned down is followed: by a buy of the token of its side, at the price of
/// that token, with the tick, the least size and the risk of the market, its own edge and the whole
/// bankroll; unless the node is busy, poor or without an engine.
pub proof fn signal_buys_the_token_of_its_side(
    n: NodeView,
    side: Side,
    fair: int,
    breaker_tripped: bool,
    live_active: bool,
    has_engine: bool,
)
    requires
        i64::MIN <= fair - n.real_up <= i64::MAX,
        i64::MIN <= n.real_up - fair <= i64::MAX,
        !(n.verdict(side, fair, breaker_tripped, live_active, has_engine) is Rejected),
    ensures
        ({
            let v = n.verdict(side, fair, breaker_tripped, live_active, has_engine);
            let m = n.market->0;
            let q = v->Priced_0;
            let entry = n.entry(side, m.tick_size);
            let busy = !(n.mgr.phase is Idle) || n.pending_opens.len() != 0;
            let ready = !busy && n.bankroll is Some && has_engine;
            &&& busy <==> v == VerdictView::Ignored(Ignore::Busy)
            &&& v == VerdictView::Ignored(Ignore::NoBankroll) <==> !busy && n.bankroll is None
            &&& v == VerdictView::Ignored(Ignore::NoEngine) <==> !busy && n.bankroll is Some
                && !has_engine
            &&& ready && entry is Err ==> v == VerdictView::Ignored(entry->Err_0)
            &&& v is Priced <==> ready && entry is Ok
            &&& v is Priced ==> {
                &&& q.side == side
                &&& side == Side::Up ==> q.token_id == m.up_token_id && q.edge == fair - n.real_up
                &&& side == Side::Down ==> q.token_id == m.down_token_id && q.edge == n.real_up
                    - fair
                &&& q.neg_risk == m.neg_risk
                &&& q.price == entry->Ok_0.0
                &&& q.kind == entry->Ok_0.1
                &&& q.bankroll == n.bankroll->0
                &&& q.tick == m.tick_size
                &&& q.min_order_size == m.min_order_size
            }
        }),
{
    let tick = n.market->0.tick_size;
    if n.cfg.maker_mode {
        maker_rests_in_the_book_of_its_token(n, side, tick);
    }
}

/// What the node sees at a tick is what the feeds know: of each token the best bid and the best ask of
/// its own book, and the market, its price, its time and the bankroll. Everything else stays.
pub proof fn node_sees_what_the_feeds_know(
    n: NodeView,
    g: SharedView,
    now_ms: int,
    bankroll: Option<int>,
)
    ensures
        ({
            let after = n.observed(g, now_ms, bankroll);
            &&& is_quote(after.up, g.up_book)
            &&& is_quote(after.down, g.down_book)
            &&& after.market == g.market
            &&& after.real_up == g.real_up
            &&& after.remaining_s == g.remaining_s
            &&& after.now_ms == now_ms
            &&& after.bankroll == bankroll
            &&& after == (NodeView {
                up: after.up,
                down: after.down,
                market: after.market,
                real_up: after.real_up,
                remaining_s: after.remaining_s,
                now_ms: after.now_ms,
                bankroll: after.bankroll,
                ..n
            })
        }),
{
    quote_is_of_its_book(g.up_book);
    quote_is_of_its_book(g.down_book);
}

/// `q` holds the highest bid and the lowest ask of `book`, where it has them.
pub open spec fn is_quote(q: QuoteView, book: BookView) -> bool {
    &&& q.bid is Some <==> book.bids.len() > 0
    &&& q.ask is Some <==> book.asks.len() > 0
    &&& q.bid is Some ==> is_best_bid(q.bid->0, book.bids)
    &&& q.ask is Some ==> is_best_ask(q.ask->0, book.asks)
}

/// The quote of a book is its best bid and its best ask.
proof fn quote_is_of_its_book(book: BookView)
    ensures
        is_quote(quote_of(book), book),
{
    crate::book::highest_is_best(book.bids);
    crate::book::lowest_is_best(book.asks);
}

/// A quoted buy is sized by the settings, at its own price and the least size of its market, and is
/// let go only where its bankroll can pay it.
pub proof fn buy_is_sized_and_paid(n: NodeView, q: QuotedView, kelly: Option<i64>)
    ensures
        ({
            let size = order_size_of(
                n.cfg.fixed_order_usd as int,
                n.cfg.live_force_min_size,
                kelly,
                n.cfg.notional_target_usd as int,
                q.min_order_size,
                q.price,
            );
            let got = n.sized(q, kelly);
            &&& got is Ok ==> size == Some(got->Ok_0) && got->Ok_0 * q.price <= q.bankroll
                * 1_000_000_000
            &&& size is None <==> got == Err::<int, Ignore>(Ignore::SizeBelowMinimum)
            &&& got == Err::<int, Ignore>(Ignore::BankrollTooSmall) <==> size is Some && size->0
                * q.price > q.bankroll * 1_000_000_000
        }),
{
}

/// A buy that was handed to the order engine is noted as the last of those that wait for an answer,
/// as it was quoted; the pause between two buys starts, and nothing else changes.
pub proof fn submitted_buy_is_the_quoted_one(
    n: NodeView,
    q: QuotedView,
    size: int,
    transport_ms: int,
    decide_ms: int,
)
    ensures
        ({
            let after = n.submitted(q, size, transport_ms, decide_ms);
            let at = n.pending_opens.len() as int;
            let p = after.pending_opens[at];
            &&& after.pending_opens.len() == at + 1
            &&& n.pending_opens.is_prefix_of(after.pending_opens)
            &&& p.side == q.side
            &&& p.token_id == q.token_id
            &&& p.neg_risk == q.neg_risk
            &&& p.order_price == q.price
            &&& p.size == size
            &&& p.tick == q.tick
            &&& p.now_ms == n.now_ms
            &&& after.last_fire_ms == n.now_ms
            &&& after.last_transport_ms == Some(transport_ms)
            &&& after.last_decide_ms == Some(decide_ms)
            &&& !after.buy_poll_done
            &&& after == (NodeView {
                pending_opens: after.pending_opens,
                last_fire_ms: after.last_fire_ms,
                last_transport_ms: after.last_transport_ms,
                last_decide_ms: after.last_decide_ms,
                buy_poll_done: after.buy_poll_done,
                ..n
            })
        }),
{
}

/// An answer to a buy takes that buy from those that wait, keeps the others in their order, and is
/// booked with what was sent; without an answer nothing is booked.
pub proof fn answer_books_the_buy_that_was_sent(n: NodeView, i: int, res: Option<OrderResult>)
    requires
        0 <= i < n.pending_opens.len(),
    ensures
        ({
            let after = n.after_open_reply(i, res);
            let p = n.pending_opens[i];
            &&& after.pending_opens.len() == n.pending_opens.len() - 1
            &&& forall|j: int| 0 <= j < i ==> after.pending_opens[j] == n.pending_opens[j]
            &&& forall|j: int|
                i <= j < after.pending_opens.len() ==> #[trigger] after.pending_opens[j]
                    == n.pending_opens[j + 1]
            &&& res is Some ==> after.mgr == n.mgr.after_buy(
                res->0,
                p.side,
                p.token_id,
                p.neg_risk,
                p.order_price,
                p.size,
                p.tick,
                p.now_ms,
            )
            &&& res is None ==> after.mgr == n.mgr
            &&& after == (NodeView { mgr: after.mgr, pending_opens: after.pending_opens, ..n })
        }),
{
}

/// From a signal to its position: the buy of a priced signal that is answered without a fill waits as
/// that buy, and a fill of its order opens the token of the side of the signal.
pub proof fn signal_opens_the_token_of_its_side(
    n: NodeView,
    side: Side,
    fair: int,
    size: int,
    res: OrderResult,
    filled: int,
    price: int,
    later_ms: int,
)
    requires
        n.verdict(side, fair, false, true, true) is Priced,
        res is Placed,
        !(res->filled_size is Some && res->filled_size->0 > 0),
        n.mgr.http_filled_buy_id is None,
        filled > 0,
    ensures
        ({
            let q = n.verdict(side, fair, false, true, true)->Priced_0;
            let sent = n.submitted(q, size, 0, 0);
            let waits = sent.after_open_reply(0, Some(res)).mgr;
            let id = res->Placed_order_id@;
            let token_id = if side == Side::Up {
                n.market->0.up_token_id
            } else {
                n.market->0.down_token_id
            };
            is_opening(
                waits,
                waits.after_fill(id, filled, price, later_ms),
                side,
                token_id,
                n.market->0.neg_risk,
                price,
                filled,
                n.market->0.tick_size,
                id,
                later_ms,
            )
        }),
{
    let q = n.verdict(side, fair, false, true, true)->Priced_0;
    waiting_buy_is_the_buy_that_was_sent(
        n.mgr,
        res,
        q.side,
        q.token_id,
        q.neg_risk,
        q.price,
        size,
        q.tick,
        n.now_ms,
        filled,
        price,
        later_ms,
    );
}

/// A market is new to the user feed where it has an id that the feed does not follow yet.
pub proof fn new_market_has_another_id(n: NodeView)
    ensures
        n.market is None ==> !n.market_is_new(),
        n.market is Some ==> (n.market_is_new() <==> n.market->0.condition_id.len() != 0
            && n.market->0.condition_id != n.feed_market),
        (NodeView { feed_market: n.market->0.condition_id, ..n }).market_is_new() ==> n.market is None,
{
}

/// A fill is booked where one of its orders is the buy that waits or the buy of the open position, at
/// its own size and price; any other fill changes nothing.
pub proof fn fill_is_booked_by_its_order(n: NodeView, fill: FillView)
    ensures
        ({
            let id = if n.mgr.phase is PendingBuy {
                n.mgr.phase->PendingBuy_order_id
            } else {
                n.mgr.phase->Open_0.buy_order_id
            };
            let own = (n.mgr.phase is PendingBuy || n.mgr.phase is Open) && (fill.taker_order_id
                == Some(id) || fill.maker_order_id == Some(id));
            let after = n.after_fill(fill);
            &&& own ==> after.mgr == n.mgr.after_fill(
                id,
                fill.filled_size,
                fill.avg_price,
                n.now_ms,
            )
            &&& !own ==> after.mgr == n.mgr
            &&& after == (NodeView { mgr: after.mgr, ..n })
        }),
{
}

/// What a poll tells is booked; a poll that tells that the followed buy is filled to its end is the
/// last one, and no other poll is.
pub proof fn poll_is_booked(
    n: NodeView,
    order_id: Seq<char>,
    filled: int,
    price: int,
    terminal: bool,
)
    ensures
        ({
            let after = n.after_poll(order_id, filled, price, terminal);
            let followed = (after.mgr.phase is PendingBuy && after.mgr.phase->PendingBuy_order_id
                == order_id) || (after.mgr.phase is Open && after.mgr.phase->Open_0.buy_order_id
                == order_id);
            &&& after.mgr == n.mgr.after_poll(order_id, filled, price, n.now_ms)
            &&& after.buy_poll_done <==> n.buy_poll_done || (terminal && followed)
            &&& after == (NodeView {
                mgr: after.mgr,
                buy_poll_done: after.buy_poll_done,
                ..n
            })
        }),
{
}

/// The answer to a sale is booked against the least size of the market, or five tokens where there is
/// none, and ends the wait. The allowance of the position is refreshed where the refusal asks for it,
/// it is still open, orders may leave, and the settings do not skip it.
pub proof fn answered_sale_is_booked(n: NodeView, res: Option<OrderResult>)
    ensures
        ({
            let (after, refresh) = n.after_close_reply(res);
            let least = if n.market is Some {
                n.market->0.min_order_size
            } else {
                5_000_000_000
            };
            let booked = n.mgr.after_sell(res->0, n.pending_close->0, n.now_ms, least);
            let asked = res is Some && booked.1 && booked.0.phase is Open;
            &&& after.pending_close is None
            &&& res is Some ==> after.mgr == booked.0
            &&& res is None ==> after.mgr == n.mgr
            &&& after == (NodeView { mgr: after.mgr, pending_close: None, ..n })
            &&& refresh is Some <==> asked && n.cfg.live_armed && !n.cfg.sell_skip_balance_refresh
            &&& refresh is Some ==> refresh->0 == after.mgr.phase->Open_0.token_id
        }),
{
}

/// The token of the position that is held is noted, and that of none where none is; a token that was
/// not noted before starts the pause between two sales anew. Nothing else changes.
pub proof fn token_of_the_position_is_noted(n: NodeView)
    ensures
        ({
            let after = n.noted();
            let token_id = if n.mgr.phase is Open {
                n.mgr.phase->Open_0.token_id
            } else {
                n.mgr.phase->position.token_id
            };
            let held = n.mgr.phase is Open || n.mgr.phase is PendingSell;
            &&& held ==> after.synced_token == Some(token_id)
            &&& !held ==> after.synced_token is None
            &&& after.last_sell_attempt_ms == if held && n.synced_token != Some(token_id) {
                0
            } else {
                n.last_sell_attempt_ms
            }
            &&& after == (NodeView {
                synced_token: after.synced_token,
                last_sell_attempt_ms: after.last_sell_attempt_ms,
                ..n
            })
        }),
{
}

/// A buy is asked about where orders rest and may leave, it is not filled to its end, and a second and
/// a half went by since the last question: the buy that waits, or that of the open position.
pub proof fn poll_asks_for_the_followed_buy(n: NodeView)
    ensures
        ({
            let due = n.poll_due();
            let time = n.now_ms >= n.last_status_poll_ms + 1500;
            &&& due is Some <==> n.cfg.maker_mode && n.cfg.live_armed && !n.buy_poll_done && time && (
            n.mgr.phase is PendingBuy || n.mgr.phase is Open)
            &&& due is Some && n.mgr.phase is PendingBuy ==> due->0
                == n.mgr.phase->PendingBuy_order_id
            &&& due is Some && n.mgr.phase is Open ==> due->0 == n.mgr.phase->Open_0.buy_order_id
        }),
{
}

/// The time that a buy may rest is the share of what remains of the window, in whole milliseconds,
/// where that lies within its bounds, and the nearer bound where it does not.
pub proof fn buy_rests_for_a_share_of_the_window(n: NodeView)
    requires
        n.cfg.buy_grace_floor_ms <= n.cfg.buy_timeout_ms,
        0 <= n.remaining_s <= 1_000_000_000,
        n.cfg.grace_frac_of_remaining >= 0,
    ensures
        ({
            let t = n.buy_timeout();
            let lo = n.cfg.buy_grace_floor_ms;
            let hi = n.cfg.buy_timeout_ms;
            let share = (1000 * n.remaining_s) * n.cfg.grace_frac_of_remaining;
            &&& lo <= t <= hi
            &&& lo < t ==> 1_000_000_000 * t <= share
            &&& t < hi ==> share < 1_000_000_000 * (t + 1)
        }),
{
    let one = 1_000_000_000int;
    let share = (n.remaining_s * 1000) * n.cfg.grace_frac_of_remaining;
    assert(n.remaining_s * 1000 == 1000 * n.remaining_s);
    lemma_fundamental_div_mod(share, one);
}

/// What a tick does with a buy that rests: nothing where orders take the book or none rests. Its
/// cancellation is sent once it has rested for its time or thirty seconds of the window are left, and
/// it is marked with the time; a grace after that it is given up.
pub proof fn resting_buy_is_cancelled_then_given_up(n: NodeView)
    ensures
        ({
            let (after, step) = n.after_buy_step();
            let rests = n.cfg.maker_mode && n.mgr.phase is PendingBuy;
            let fresh = rests && n.mgr.phase->PendingBuy_cancel_since_ms is None;
            let since = n.mgr.phase->PendingBuy_since_ms;
            let sent = n.mgr.phase->PendingBuy_cancel_since_ms->0;
            let rested = n.now_ms >= since + n.buy_timeout() || n.buy_timeout() <= 0;
            let out_of_grace = n.now_ms >= sent + n.cfg.cancel_grace_ms || n.cfg.cancel_grace_ms
                == 0;
            &&& step is SendCancel <==> fresh && (rested || n.remaining_s <= 30)
            &&& step is GivenUp <==> rests && !fresh && out_of_grace
            &&& step is Nothing ==> after == n
            &&& step is SendCancel ==> step->SendCancel_0 == n.mgr.phase->PendingBuy_order_id
                && after.mgr == n.mgr.cancelling(n.now_ms)
            &&& step is GivenUp ==> after.mgr == n.mgr.buy_cancelled()
            &&& after == (NodeView { mgr: after.mgr, ..n })
        }),
{
}

/// Orders that nobody follows are swept once a minute, where orders rest and may leave, nothing is
/// held or followed, and no answer is owed.
pub proof fn sweep_runs_once_a_minute(n: NodeView)
    ensures
        n.sweep_due() <==> n.cfg.maker_mode && n.cfg.live_armed && n.mgr.phase is Idle
            && n.pending_opens.len() == 0 && n.pending_close is None && n.now_ms >= n.last_sweep_ms
            + 60_000,
{
}

/// Why the open position is sold: armed before anything else; then, unless it is held, its profit,
/// its loss once it was held for a while, the end of the window, and its age.
pub proof fn position_is_sold_for_the_first_reason(n: NodeView, p: PositionView, bid: int)
    ensures
        ({
            let why = n.exit_reason(p, bid);
            let age = n.now_ms - p.opened_ms;
            let may_stop = age >= n.cfg.min_hold_sl_ms || n.cfg.min_hold_sl_ms == 0;
            let old_enough = age >= 1000 * n.cfg.max_hold_secs || n.cfg.max_hold_secs <= 0;
            let free = !p.catastrophe_armed && !p.hold_to_resolution;
            let gain = free && bid >= p.tp_price;
            let loss = free && !gain && may_stop && bid <= p.sl_price;
            let late = free && !gain && !loss && n.remaining_s <= 30;
            let stale = free && !gain && !loss && !late && old_enough;
            &&& why is Some <==> p.catastrophe_armed || gain || loss || late || stale
            &&& p.catastrophe_armed ==> why == Some("catastrophe"@)
            &&& gain ==> why == Some("take_profit"@)
            &&& loss ==> why == Some("stop_loss"@)
            &&& late ==> why == Some("window_close"@)
            &&& stale ==> why == Some("max_hold"@)
        }),
{
}

/// What a tick does with the open position. Without one, without a market or an engine, or while a
/// sale is out, nothing. A position of another market is settled at the last bid of its token. Where
/// its token has a bid, that bid is remembered; and where there is a reason and the pause since the
/// last sale is over, the whole position is offered at that bid less the buffer, not below a cent.
pub proof fn position_is_offered_under_the_bid(n: NodeView, has_engine: bool)
    ensures
        ({
            let (after, sale) = n.after_exit_step(has_engine);
            let p = n.mgr.phase->Open_0;
            let m = n.market->0;
            let looked = n.mgr.phase is Open && n.market is Some && n.pending_close is None
                && has_engine;
            let current = looked && (if p.side == Side::Up {
                p.token_id == m.up_token_id
            } else {
                p.token_id == m.down_token_id
            });
            let bid = if p.side == Side::Up {
                n.up.bid
            } else {
                n.down.bid
            };
            let remembered = if p.side == Side::Up {
                n.last_up_bid
            } else {
                n.last_down_bid
            };
            let rested = n.now_ms >= n.last_sell_attempt_ms + n.cfg.exit_retry_ms
                || n.cfg.exit_retry_ms == 0;
            let why = n.exit_reason(p, bid->0);
            let told = if looked && !current {
                None
            } else if current && bid is Some {
                Some((p.token_id, bid->0))
            } else {
                remembered
            };
            &&& sale is Some <==> current && bid is Some && why is Some && rested
            &&& sale is Some ==> {
                &&& sale->0.token_id == p.token_id
                &&& sale->0.side == p.side
                &&& sale->0.neg_risk == p.neg_risk
                &&& sale->0.size == p.size
                &&& sale->0.tick == m.tick_size
                &&& sale->0.kind == OrderKind::Fak
                &&& sale->0.reason == why->0
                &&& 10_000_000 <= bid->0 - n.cfg.exit_buffer <= i64::MAX ==> sale->0.price == bid->0
                    - n.cfg.exit_buffer
                &&& bid->0 - n.cfg.exit_buffer < 10_000_000 ==> sale->0.price == 10_000_000
            }
            &&& after.last_sell_attempt_ms == if sale is Some {
                n.now_ms
            } else {
                n.last_sell_attempt_ms
            }
            &&& looked && !current ==> after.mgr == n.mgr.after_expiry(
                match remembered {
                    Some((t, x)) if t == p.token_id => x,
                    _ => 0,
                },
            )
            &&& !looked || current ==> after.mgr == n.mgr
            &&& looked && p.side == Side::Up ==> after.last_up_bid == told && after.last_down_bid
                == n.last_down_bid
            &&& looked && p.side == Side::Down ==> after.last_down_bid == told && after.last_up_bid
                == n.last_up_bid
            &&& !looked ==> after == n
            &&& after == (NodeView {
                mgr: after.mgr,
                last_sell_attempt_ms: after.last_sell_attempt_ms,
                last_up_bid: after.last_up_bid,
                last_down_bid: after.last_down_bid,
                ..n
            })
        }),
{
}

/// The price that is drawn is that of the up token, or of the down token while that is open: what is
/// left of a dollar.
pub proof fn drawn_price_is_of_the_position(n: NodeView)
    requires
        0 <= n.real_up <= 1_000_000_000,
    ensures
        n.mgr.phase is Open && n.mgr.phase->Open_0.side == Side::Down ==> n.mark() + n.real_up
            == 1_000_000_000,
        !(n.mgr.phase is Open && n.mgr.phase->Open_0.side == Side::Down) ==> n.mark() == n.real_up,
{
}

/// Where the user feed is to follow a market, it is the current one, and its two tokens are warmed up,
/// the up token first, exactly where orders may leave.
pub proof fn feed_follows_the_new_market(n: NodeView)
    ensures
        n.rollover() is Some <==> n.market is Some && n.market->0.condition_id.len() != 0
            && n.market->0.condition_id != n.feed_market,
        n.rollover() matches Some((id, warm)) ==> {
            &&& id == n.market->0.condition_id
            &&& warm is Some <==> n.cfg.live_armed
            &&& warm matches Some((up, down)) ==> up == n.market->0.up_token_id && down
                == n.market->0.down_token_id
        },
{
}

/// The price is drawn once a second, with the levels of the position while one is open.
pub proof fn history_is_drawn_once_a_second(n: NodeView)
    requires
        0 <= n.now_ms,
        0 <= n.real_up <= 1_000_000_000,
    ensures
        n.history() is Some <==> n.now_ms >= n.last_hist_ms + 1000,
        n.history() matches Some((t, price, levels)) ==> {
            &&& 1000 * t <= n.now_ms < 1000 * (t + 1)
            &&& levels is Some <==> n.mgr.phase is Open
            &&& levels matches Some((entry, tp, sl)) ==> {
                let p = n.mgr.phase->Open_0;
                &&& entry == p.entry_price
                &&& tp == p.tp_price
                &&& sl == p.sl_price
                &&& p.side == Side::Up ==> price == n.real_up
                &&& p.side == Side::Down ==> price == 1_000_000_000 - n.real_up
            }
            &&& levels is None ==> price == n.real_up
        },
{
}

/// A sale that has waited for its time without a fill is put back on sale, with its position as it
/// was, unless the order engine still owes an answer; nothing else changes.
pub proof fn stuck_sale_is_put_back(n: NodeView)
    ensures
        ({
            let (after, put_back) = n.after_retry();
            let waited = n.now_ms - n.mgr.phase->PendingSell_since_ms >= n.cfg.sell_timeout_ms
                || n.cfg.sell_timeout_ms == 0;
            &&& put_back <==> n.pending_close is None && n.mgr.phase is PendingSell && waited
            &&& put_back ==> after.mgr.phase == PhaseView::Open(n.mgr.phase->position)
            &&& !put_back ==> after == n
            &&& after == (NodeView {
                mgr: ManagerView {
                    phase: after.mgr.phase,
                    outbox: after.mgr.outbox,
                    ..n.mgr
                },
                ..n
            })
        }),
{
}

/// A buy without a fill is given up at once where orders take the book, and never where they rest.
pub proof fn unfilled_taker_is_dropped(n: NodeView)
    ensures
        n.cfg.maker_mode ==> n.after_drop() == n,
        !n.cfg.maker_mode && n.mgr.phase is PendingBuy ==> n.after_drop().mgr.phase is Idle,
        !(n.mgr.phase is PendingBuy) ==> n.after_drop() == n,
        n.after_drop() == (NodeView {
            mgr: ManagerView {
                phase: n.after_drop().mgr.phase,
                outbox: n.after_drop().mgr.outbox,
                ..n.mgr
            },
            ..n
        }),
{
}

/// A status tells something where some of the buy is filled, and that it is filled to its end where it
/// says so, whatever its case; the mode is named whatever its case.
pub proof fn words_are_read_in_any_case(size_matched: int, status: Seq<char>)
    ensures
        poll_outcome_of(size_matched, status) is Some <==> size_matched > 0,
        size_matched > 0 ==> (poll_outcome_of(size_matched, status)->0 <==> lowered(status)
            == "matched"@),
        names_maker(status) <==> lowered(status) == "maker"@,
{
    reveal_strlit("matched");
    reveal_strlit("MATCHED");
    reveal_strlit("maker");
    assert(lowered("maker"@) =~= "maker"@);
    assert(lowered("MATCHED"@) =~= "matched"@);
}

} // verus!
