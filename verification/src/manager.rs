//! The manager of the single live position.
//!
//! Transitions:
//!   a buy that comes back filled opens the position, one without a fill waits;
//!   a waiting buy is opened by a fill of the feed or by a poll of the server;
//!   a sale that comes back filled closes the position or shrinks it, one without a fill waits;
//!   a sale that waits too long is tried again.
//!
//! The manager writes nothing itself: what has to reach the disk is put in its outbox, which the
//! caller empties after each call.

use crate::balance::{
    balance_of, mentions_balance, parse_balance_base_units, speaks_of_balance, states_balance,
};
use crate::bus::Side;
use crate::fixed::{
    add_profit, divide_nearest, greater, hold_within, lesser, minus, minus_of, nearest,
    nearest_is_monotone, nearest_of_multiple, plus, plus_of, product, profit, profit_of, round_tick,
    round_tick_of, sat, sat_wide, saturate, whole_ceil, whole_ceil_of, within, DOLLAR_NOTIONAL,
    PRICE_CEILING, PRICE_FLOOR, UNIT,
};
use crate::orders::{filled_of, KellyParams, OrderArgs, OrderKind, OrderResult, PlaceResult};
use crate::position::{
    text_of, time_of, Effect, EffectView, LivePhase, LivePosition, LiveState, LiveTradeRec,
    PhaseView, PositionView, StateView, TradeView,
};
use crate::text::same;
use vstd::math::{max, min};
use vstd::prelude::*;

verus! {

/// How long after the opening a balance of zero may still be a settlement under way.
pub const SETTLE_GRACE_MS: u64 = 5000;

/// The purchase that the server may count beyond ours without it being a new fill.
pub const DUST: i64 = 1000;

/// Seconds before the end of the window under which a position is sold whatever its price.
pub const EXIT_REMAINING_S: i64 = 30;

/// An order, how long it stays in the book, and whether it may leave the node: without `post` it is
/// a dry run.
#[derive(Debug, Clone, Copy, PartialEq, Eq, Structural)]
pub struct Dispatch {
    pub args: OrderArgs,
    pub kind: OrderKind,
    pub post: bool,
}

/// The smallest size that the exchange takes at `price`: the least that it trades, and as many whole
/// tokens as are worth one dollar.
pub open spec fn min_size_of(min_order_size: int, price: int) -> int {
    if price > 0 {
        max(min_order_size, whole_ceil_of(UNIT as int, price))
    } else {
        min_order_size
    }
}

/// The manager of the live position.
pub struct LivePositionManager {
    pub phase: LivePhase,
    pub state: LiveState,
    pub last_buy_ms: Option<u64>,
    pub last_sell_ms: Option<u64>,
    /// Refused sales in a row.
    pub consec_close_fails: u32,
    /// Sales of the position that were refused for a balance of zero.
    pub zero_balance_refusals: u32,
    /// The buy that the answer of the engine already counted as filled.
    pub http_filled_buy_id: Option<String>,
    pub params: KellyParams,
    pub outbox: Vec<Effect>,
}

/// View of `LivePositionManager`.
pub struct ManagerView {
    pub phase: PhaseView,
    pub state: StateView,
    pub last_buy_ms: Option<int>,
    pub last_sell_ms: Option<int>,
    pub consec_close_fails: int,
    pub zero_balance_refusals: int,
    pub http_filled_buy_id: Option<Seq<char>>,
    pub params: KellyParams,
    pub outbox: Seq<EffectView>,
}

impl View for LivePositionManager {
    type V = ManagerView;

    open spec fn view(&self) -> ManagerView {
        ManagerView {
            phase: self.phase@,
            state: self.state@,
            last_buy_ms: time_of(self.last_buy_ms),
            last_sell_ms: time_of(self.last_sell_ms),
            consec_close_fails: self.consec_close_fails as int,
            zero_balance_refusals: self.zero_balance_refusals as int,
            http_filled_buy_id: text_of(self.http_filled_buy_id),
            params: self.params,
            outbox: self.outbox@.map_values(|e: Effect| e@),
        }
    }
}

/// The price at which a position bought at `entry` takes its profit.
pub open spec fn take_profit_of(entry: int, params: KellyParams, tick: int) -> int {
    round_tick_of(
        min(plus_of(entry, nearest(params.tp_cents as int, 100)), PRICE_CEILING as int),
        tick,
    )
}

/// The price at which a position bought at `entry` stops its loss.
pub open spec fn stop_loss_of(entry: int, params: KellyParams, tick: int) -> int {
    round_tick_of(
        max(minus_of(entry, nearest(params.sl_cents as int, 100)), PRICE_FLOOR as int),
        tick,
    )
}

/// The mean price of `bought` tokens at `entry` and `added` tokens at `price`.
pub open spec fn mean_price_of(entry: int, bought: int, price: int, added: int, total: int) -> int {
    sat(nearest(entry * bought + price * added, total))
}

/// The kind under which a close for `reason` is written down.
pub open spec fn close_kind_of(reason: Seq<char>) -> Seq<char> {
    if reason == "take_profit"@ {
        "close_tp"@
    } else if reason == "stop_loss"@ {
        "close_sl"@
    } else if reason == "expired"@ {
        "close_expired"@
    } else if reason == "window_close"@ {
        "close_window"@
    } else {
        "close_max_hold"@
    }
}

/// The share of closes that were won; zero before the first.
pub open spec fn hit_rate_of(wins: int, losses: int) -> int {
    if wins + losses == 0 {
        0
    } else {
        nearest(wins * UNIT, wins + losses)
    }
}

/// A price that may be missing, or `other`.
pub open spec fn price_or(price: Option<i64>, other: int) -> int {
    match price {
        Some(x) => x as int,
        None => other,
    }
}

impl PositionView {
    /// The position after `n` of its tokens were sold.
    pub open spec fn less(self, n: int) -> PositionView {
        let sold = plus_of(self.sold, n);
        PositionView { sold, size: max(minus_of(self.bought, sold), 0), ..self }
    }

    /// The position after the server counted a purchase of `total` tokens, the new ones at `price`.
    pub open spec fn grown(self, total: int, price: int, params: KellyParams) -> PositionView {
        let added = minus_of(total, self.bought);
        let tick = if self.tick > 0 {
            self.tick
        } else {
            PRICE_FLOOR as int
        };
        let entry = mean_price_of(self.entry_price, self.bought, price, added, total);
        PositionView {
            entry_price: entry,
            bought: total,
            size: max(minus_of(total, self.sold), 0),
            tp_price: take_profit_of(entry, params, tick),
            sl_price: stop_loss_of(entry, params, tick),
            ..self
        }
    }
}

impl ManagerView {
    /// The held position, if any, is well formed, and the refusals for a balance of zero are among
    /// the refusals in a row.
    pub open spec fn wf(self) -> bool {
        &&& self.phase.wf()
        &&& 0 <= self.zero_balance_refusals <= self.consec_close_fails
    }

    /// An opening can still be counted.
    pub open spec fn room_to_open(self) -> bool {
        self.state.shots < u64::MAX
    }

    /// A close can still be counted, won or lost.
    pub open spec fn room_to_close(self) -> bool {
        self.state.wins < u64::MAX && self.state.losses < u64::MAX
    }

    /// A sale that failed can still be counted.
    pub open spec fn room_to_fail(self) -> bool {
        self.state.failed_closes < u64::MAX
    }

    /// A refused sale can still be counted, and the position given up for it.
    pub open spec fn room_to_refuse(self) -> bool {
        &&& self.room_to_fail()
        &&& self.state.losses < u64::MAX
        &&& self.consec_close_fails < u32::MAX
        &&& self.zero_balance_refusals < u32::MAX
    }

    /// Every counter can still be raised.
    pub open spec fn has_room(self) -> bool {
        self.room_to_open() && self.room_to_close() && self.room_to_refuse()
    }

    /// State and phase are to be written.
    pub open spec fn persisted(self) -> ManagerView {
        ManagerView { outbox: self.outbox.push(EffectView::Persist), ..self }
    }

    /// A line of the journal is to be written.
    pub open spec fn appended(
        self,
        kind: Seq<char>,
        side: Seq<char>,
        price: int,
        size: int,
        pnl: int,
        order_id: Seq<char>,
    ) -> ManagerView {
        let rec = TradeView {
            kind,
            side,
            price,
            size,
            pnl,
            order_id,
            realized_pnl_after: self.state.realized_pnl,
        };
        ManagerView { outbox: self.outbox.push(EffectView::Append(rec)), ..self }
    }

    /// A position of `filled` tokens bought at `entry` is open.
    pub open spec fn opened(
        self,
        side: Side,
        token_id: Seq<char>,
        neg_risk: bool,
        entry: int,
        filled: int,
        tick: int,
        order_id: Seq<char>,
        now_ms: int,
    ) -> ManagerView {
        let p = PositionView {
            side,
            token_id,
            entry_price: entry,
            size: filled,
            tp_price: take_profit_of(entry, self.params, tick),
            sl_price: stop_loss_of(entry, self.params, tick),
            opened_ms: now_ms,
            neg_risk,
            buy_order_id: order_id,
            tick,
            bought: filled,
            sold: 0,
            hold_to_resolution: false,
            catastrophe_armed: false,
        };
        let m = self.appended("open"@, side.label(), entry, filled, 0, order_id);
        ManagerView {
            state: StateView { shots: self.state.shots + 1, ..self.state },
            phase: PhaseView::Open(p),
            consec_close_fails: 0,
            zero_balance_refusals: 0,
            ..m
        }.persisted()
    }

    /// `profit` is realised.
    pub open spec fn earned(self, pnl: int) -> ManagerView {
        ManagerView {
            state: StateView {
                realized_pnl: sat_wide(self.state.realized_pnl + pnl),
                ..self.state
            },
            ..self
        }
    }

    /// The position is gone: `sold` tokens of it, bought at `entry`, brought `got` each.
    pub open spec fn closed(
        self,
        order_id: Seq<char>,
        side: Seq<char>,
        sold: int,
        got: int,
        entry: int,
        reason: Seq<char>,
    ) -> ManagerView {
        let pnl = profit_of(got, entry, sold);
        let m = self.earned(pnl).appended(close_kind_of(reason), side, got, sold, pnl, order_id);
        ManagerView {
            state: if pnl >= 0 {
                StateView { wins: m.state.wins + 1, ..m.state }
            } else {
                StateView { losses: m.state.losses + 1, ..m.state }
            },
            phase: PhaseView::Idle,
            consec_close_fails: 0,
            zero_balance_refusals: 0,
            http_filled_buy_id: None,
            ..m
        }.persisted()
    }

    /// `n` tokens of the position `p` were sold at `got`; the rest stays open.
    pub open spec fn sold_part(
        self,
        p: PositionView,
        order_id: Seq<char>,
        n: int,
        got: int,
    ) -> ManagerView {
        let pnl = profit_of(got, p.entry_price, n);
        let m = self.earned(pnl).appended(
            "close_partial"@,
            p.side.label(),
            got,
            n,
            pnl,
            order_id,
        );
        ManagerView {
            phase: PhaseView::Open(p.less(n)),
            consec_close_fails: 0,
            zero_balance_refusals: 0,
            ..m
        }.persisted()
    }

    /// The buy that is followed: waiting, or behind the open position.
    pub open spec fn tracked_buy(self) -> Option<Seq<char>> {
        match self.phase {
            PhaseView::PendingBuy { order_id, .. } => Some(order_id),
            PhaseView::Open(p) => Some(p.buy_order_id),
            _ => None,
        }
    }

    /// After the order engine answered a buy.
    pub open spec fn after_buy(
        self,
        res: OrderResult,
        side: Side,
        token_id: Seq<char>,
        neg_risk: bool,
        order_price: int,
        size: int,
        tick: int,
        now_ms: int,
    ) -> ManagerView {
        match res {
            OrderResult::Placed { order_id, filled_size, avg_price, post_ms } => {
                let m = ManagerView { last_buy_ms: Some(post_ms as int), ..self };
                match filled_of(filled_size) {
                    Some(n) => ManagerView { http_filled_buy_id: Some(order_id@), ..m }.opened(
                        side,
                        token_id,
                        neg_risk,
                        price_or(avg_price, order_price),
                        n,
                        tick,
                        order_id@,
                        now_ms,
                    ),
                    None => m.waiting(order_id@, side, token_id, neg_risk, size, tick, now_ms),
                }
            },
            _ => self,
        }
    }

    /// A buy without a fill is waited for.
    pub open spec fn waiting(
        self,
        order_id: Seq<char>,
        side: Side,
        token_id: Seq<char>,
        neg_risk: bool,
        size: int,
        tick: int,
        now_ms: int,
    ) -> ManagerView {
        ManagerView {
            phase: PhaseView::PendingBuy {
                order_id,
                side,
                token_id,
                neg_risk,
                requested_size: size,
                tick,
                since_ms: now_ms,
                cancel_since_ms: None,
            },
            ..self
        }
    }

    /// After the feed reported a fill of the buy `order_id`.
    pub open spec fn after_fill(
        self,
        order_id: Seq<char>,
        filled: int,
        price: int,
        now_ms: int,
    ) -> ManagerView {
        if filled <= 0 || self.http_filled_buy_id == Some(order_id) {
            self
        } else {
            match self.phase {
                PhaseView::PendingBuy { order_id: id, side, token_id, neg_risk, tick, .. } => {
                    if id.len() > 0 && id != order_id {
                        self
                    } else {
                        self.opened(side, token_id, neg_risk, price, filled, tick, order_id, now_ms)
                    }
                },
                _ => self,
            }
        }
    }

    /// After the server counted `filled` tokens of the buy `order_id` as bought.
    pub open spec fn after_poll(
        self,
        order_id: Seq<char>,
        filled: int,
        price: int,
        now_ms: int,
    ) -> ManagerView {
        if filled <= 0 {
            self
        } else {
            match self.phase {
                PhaseView::PendingBuy { order_id: id, side, token_id, neg_risk, tick, .. } => {
                    if id.len() > 0 && id != order_id {
                        self
                    } else {
                        self.opened(side, token_id, neg_risk, price, filled, tick, order_id, now_ms)
                    }
                },
                PhaseView::Open(p) => {
                    if p.buy_order_id == order_id && filled > plus_of(p.bought, DUST as int) {
                        let m = self.appended(
                            "reconcile_grow"@,
                            p.side.label(),
                            price,
                            minus_of(filled, p.bought),
                            0,
                            order_id,
                        );
                        ManagerView {
                            phase: PhaseView::Open(p.grown(filled, price, self.params)),
                            ..m
                        }.persisted()
                    } else {
                        self
                    }
                },
                _ => self,
            }
        }
    }

    /// After the order engine answered a sale, and whether the allowance is to be refreshed.
    pub open spec fn after_sell(
        self,
        res: OrderResult,
        reason: Seq<char>,
        now_ms: int,
        min_order_size: int,
    ) -> (ManagerView, bool) {
        match res {
            OrderResult::Placed { order_id, filled_size, avg_price, post_ms } => {
                let m = ManagerView { last_sell_ms: Some(post_ms as int), ..self };
                (
                    match filled_of(filled_size) {
                        Some(n) => m.sold(order_id@, n, price_or(avg_price, 0), reason, min_order_size),
                        None => m.sale_waiting(reason, now_ms),
                    },
                    false,
                )
            },
            OrderResult::Failed { error } => self.sale_refused(error@, now_ms),
            _ => (self, false),
        }
    }

    /// After `n` tokens were sold at `got`: the position shrinks where what is left can be sold, and
    /// is closed otherwise. A sale of which no open position is known counts as all profit.
    pub open spec fn sold(
        self,
        order_id: Seq<char>,
        n: int,
        got: int,
        reason: Seq<char>,
        min_order_size: int,
    ) -> ManagerView {
        match self.phase {
            PhaseView::Open(p) => if p.size - n >= min_order_size {
                self.sold_part(p, order_id, n, got)
            } else {
                self.closed(order_id, p.side.label(), n, got, p.entry_price, reason)
            },
            _ => self.closed(order_id, "?"@, n, got, 0, reason),
        }
    }

    /// A sale of the open position that came back without a fill is waited for. Any other phase
    /// stays as it is: without a fill nothing is sold, and nothing that is held or waited for is
    /// lost.
    pub open spec fn sale_waiting(self, reason: Seq<char>, since_ms: int) -> ManagerView {
        ManagerView {
            phase: match self.phase {
                PhaseView::Open(p) => PhaseView::PendingSell { position: p, reason, since_ms },
                other => other,
            },
            ..self
        }
    }

    /// How long the position has been open; forever, where none is.
    pub open spec fn open_for(self, now_ms: int) -> int {
        match self.phase {
            PhaseView::Open(p) => max(now_ms - p.opened_ms, 0),
            _ => u64::MAX as int,
        }
    }

    /// A refused sale is counted.
    pub open spec fn refusal_counted(self) -> ManagerView {
        ManagerView {
            state: StateView { failed_closes: self.state.failed_closes + 1, ..self.state },
            consec_close_fails: self.consec_close_fails + 1,
            ..self
        }
    }

    /// The size follows the balance that the server states, where ours is larger.
    pub open spec fn resized(self, held: int) -> ManagerView {
        match self.phase {
            PhaseView::Open(p) => if p.size > plus_of(held, 1) {
                ManagerView {
                    phase: PhaseView::Open(
                        PositionView { sold: max(minus_of(p.bought, held), 0), size: held, ..p },
                    ),
                    ..self
                }
            } else {
                self
            },
            _ => self,
        }
    }

    /// A refusal for a balance of zero is counted.
    pub open spec fn zero_balance_counted(self) -> ManagerView {
        ManagerView { zero_balance_refusals: self.zero_balance_refusals + 1, ..self }
    }

    /// The position is given up.
    pub open spec fn abandoned(self) -> ManagerView {
        ManagerView {
            phase: PhaseView::Idle,
            state: StateView { losses: self.state.losses + 1, ..self.state },
            consec_close_fails: 0,
            zero_balance_refusals: 0,
            http_filled_buy_id: None,
            ..self
        }
    }

    /// After a sale was refused. While the server states a balance, the position is kept and its
    /// size follows. A refusal that speaks of the balance and states none asks for a refresh and is
    /// counted on its own: the position is given up at the third of these, once it had the time to
    /// settle. Any other refusal keeps the position and is none of the three.
    pub open spec fn sale_refused(self, error: Seq<char>, now_ms: int) -> (ManagerView, bool) {
        let m = self.refusal_counted();
        if states_balance(error) {
            (m.resized(balance_of(error)->0).persisted(), false)
        } else if mentions_balance(error) {
            let z = m.zero_balance_counted();
            if z.open_for(now_ms) < SETTLE_GRACE_MS || z.zero_balance_refusals < 3 {
                (z.persisted(), true)
            } else {
                (z.abandoned().persisted(), false)
            }
        } else {
            (m.persisted(), false)
        }
    }

    /// After the feed confirmed a sale.
    pub open spec fn after_close(
        self,
        order_id: Seq<char>,
        filled_size: Option<i64>,
        avg_price: Option<i64>,
        reason: Seq<char>,
        min_order_size: int,
    ) -> ManagerView {
        match self.phase.held() {
            Some(p) => match filled_of(filled_size) {
                Some(n) => {
                    let got = price_or(avg_price, 0);
                    if p.size - n >= min_order_size {
                        self.sold_part(p, order_id, n, got)
                    } else {
                        self.closed(order_id, p.side.label(), n, got, p.entry_price, reason)
                    }
                },
                None => self.close_failed(),
            },
            None => self,
        }
    }

    /// After the market of the position expired with its token marked at `mark`.
    pub open spec fn after_expiry(self, mark: int) -> ManagerView {
        match self.phase {
            PhaseView::Open(p) => self.closed(
                p.buy_order_id,
                p.side.label(),
                p.size,
                within(mark, 0, UNIT as int),
                p.entry_price,
                "expired"@,
            ),
            _ => self,
        }
    }

    /// Why a position marked at `bid` is to be sold, if it is: its catastrophe is armed, its profit or
    /// its loss is reached, it was held long enough, or the window is about to close. A position
    /// that is held until its market resolves is sold for its catastrophe alone.
    pub open spec fn exit_reason(
        self,
        p: PositionView,
        bid: int,
        now_ms: int,
        remaining_s: int,
    ) -> Option<Seq<char>> {
        if p.catastrophe_armed {
            Some("catastrophe"@)
        } else if p.hold_to_resolution {
            None
        } else if bid >= p.tp_price {
            Some("take_profit"@)
        } else if bid <= p.sl_price {
            Some("stop_loss"@)
        } else if max(now_ms - p.opened_ms, 0) / 1000 >= self.params.max_hold_secs || remaining_s
            <= EXIT_REMAINING_S {
            Some("max_hold"@)
        } else {
            None
        }
    }

    /// The price at which a position marked at `bid` is sold.
    pub open spec fn exit_price(self, p: PositionView, bid: int, tick: int) -> int {
        let target = if p.catastrophe_armed {
            bid
        } else if bid >= p.tp_price {
            p.tp_price
        } else if bid <= p.sl_price {
            p.sl_price
        } else {
            bid
        };
        round_tick_of(within(target, PRICE_FLOOR as int, PRICE_CEILING as int), tick)
    }

    /// The position that is to be sold now, the mark at which, and why.
    pub open spec fn due(
        self,
        mark_bid: Option<i64>,
        now_ms: int,
        remaining_s: int,
    ) -> Option<(PositionView, int, Seq<char>)> {
        match (self.phase, mark_bid) {
            (PhaseView::Open(p), Some(bid)) => match self.exit_reason(
                p,
                bid as int,
                now_ms,
                remaining_s,
            ) {
                Some(reason) => Some((p, bid as int, reason)),
                None => None,
            },
            _ => None,
        }
    }

    /// The buy that is posted by hand: nothing unless the manager is idle.
    pub open spec fn buy_order(
        self,
        live_armed: bool,
        side: Side,
        price: i64,
        size: i64,
        min_order_size: i64,
    ) -> Option<Dispatch> {
        if self.phase is Idle {
            let least = min_size_of(min_order_size as int, price as int);
            Some(
                Dispatch {
                    args: OrderArgs {
                        side,
                        price,
                        size: max(size as int, least) as i64,
                        is_sell: false,
                    },
                    kind: OrderKind::Fak,
                    post: live_armed,
                },
            )
        } else {
            None
        }
    }

    /// The sale that is posted by hand, and why. One that is worth less than a dollar is counted as
    /// failed.
    pub open spec fn sale_order(
        self,
        live_armed: bool,
        mark_bid: Option<i64>,
        tick: int,
        now_ms: int,
        remaining_s: int,
    ) -> (ManagerView, Option<(Dispatch, Seq<char>)>) {
        match self.due(mark_bid, now_ms, remaining_s) {
            Some((p, bid, reason)) => {
                let price = self.exit_price(p, bid, tick);
                if p.size * price < DOLLAR_NOTIONAL {
                    (self.close_failed(), None)
                } else {
                    (
                        self,
                        Some(
                            (
                                Dispatch {
                                    args: OrderArgs {
                                        side: p.side,
                                        price: price as i64,
                                        size: p.size as i64,
                                        is_sell: true,
                                    },
                                    kind: OrderKind::Fak,
                                    post: live_armed,
                                },
                                reason,
                            ),
                        ),
                    )
                }
            },
            None => (self, None),
        }
    }

    /// A sale that failed is counted and the position kept.
    pub open spec fn close_failed(self) -> ManagerView {
        ManagerView {
            state: StateView { failed_closes: self.state.failed_closes + 1, ..self.state },
            ..self
        }.persisted()
    }

    /// After the exchange answered a sale that was posted by hand.
    pub open spec fn after_close_order(
        self,
        result: Result<PlaceResult, String>,
        reason: Seq<char>,
        since_ms: int,
    ) -> ManagerView {
        match result {
            Ok(PlaceResult::Placed { order_id, filled_size, avg_price, post_ms }) => {
                let m = ManagerView { last_sell_ms: Some(post_ms as int), ..self };
                match (filled_of(filled_size), self.phase) {
                    (Some(n), PhaseView::Open(p)) => m.closed(
                        order_id@,
                        p.side.label(),
                        n,
                        price_or(avg_price, 0),
                        p.entry_price,
                        reason,
                    ),
                    _ => m.sale_waiting(reason, since_ms),
                }
            },
            Ok(PlaceResult::DryRun) => self,
            Err(_) => self.close_failed(),
        }
    }

    /// After the exchange answered a buy that was posted by hand.
    pub open spec fn after_open_order(
        self,
        result: Result<PlaceResult, String>,
        side: Side,
        token_id: Seq<char>,
        neg_risk: bool,
        order_price: int,
        size: int,
        tick: int,
        now_ms: int,
    ) -> ManagerView {
        match result {
            Ok(PlaceResult::Placed { order_id, filled_size, avg_price, post_ms }) => {
                let m = ManagerView { last_buy_ms: Some(post_ms as int), ..self };
                match filled_of(filled_size) {
                    Some(n) => m.opened(
                        side,
                        token_id,
                        neg_risk,
                        price_or(avg_price, order_price),
                        n,
                        tick,
                        order_id@,
                        now_ms,
                    ),
                    None => m.waiting(order_id@, side, token_id, neg_risk, size, tick, now_ms),
                }
            },
            _ => self,
        }
    }

    /// The open position is held until its market resolves.
    pub open spec fn held_to_resolution(self) -> ManagerView {
        match self.phase {
            PhaseView::Open(p) => ManagerView {
                phase: PhaseView::Open(PositionView { hold_to_resolution: true, ..p }),
                ..self
            }.persisted(),
            _ => self,
        }
    }

    /// The open position is to be sold at the market until it is gone.
    pub open spec fn catastrophe(self) -> ManagerView {
        match self.phase {
            PhaseView::Open(p) => if p.catastrophe_armed {
                self
            } else {
                ManagerView {
                    phase: PhaseView::Open(PositionView { catastrophe_armed: true, ..p }),
                    ..self
                }.persisted()
            },
            _ => self,
        }
    }

    /// Whether a sale has waited for its fill for `timeout_ms`.
    pub open spec fn sale_is_stuck(self, now_ms: int, timeout_ms: int) -> bool {
        self.phase matches PhaseView::PendingSell { since_ms, .. } && max(now_ms - since_ms, 0)
            >= timeout_ms
    }

    /// A sale that waits for its fill is to be tried again.
    pub open spec fn sale_retried(self) -> ManagerView {
        match self.phase {
            PhaseView::PendingSell { position, .. } => ManagerView {
                phase: PhaseView::Open(position),
                ..self
            }.persisted(),
            _ => self,
        }
    }

    /// The cancellation of the waiting buy was sent.
    pub open spec fn cancelling(self, now_ms: int) -> ManagerView {
        match self.phase {
            PhaseView::PendingBuy {
                order_id,
                side,
                token_id,
                neg_risk,
                requested_size,
                tick,
                since_ms,
                cancel_since_ms: None,
            } => ManagerView {
                phase: PhaseView::PendingBuy {
                    order_id,
                    side,
                    token_id,
                    neg_risk,
                    requested_size,
                    tick,
                    since_ms,
                    cancel_since_ms: Some(now_ms),
                },
                ..self
            }.persisted(),
            _ => self,
        }
    }

    /// The waiting buy is given up.
    pub open spec fn buy_cancelled(self) -> ManagerView {
        if self.phase is PendingBuy {
            ManagerView { phase: PhaseView::Idle, ..self }.persisted()
        } else {
            self
        }
    }
}

impl LivePositionManager {
    /// Starts idle, with the state that was read from the disk, or none.
    pub fn load_or_init(params: KellyParams, saved: Option<LiveState>) -> (r: Self)
        ensures
            r@ == (ManagerView {
                phase: PhaseView::Idle,
                state: match saved {
                    Some(s) => s@,
                    None => StateView::start(),
                },
                last_buy_ms: None,
                last_sell_ms: None,
                consec_close_fails: 0,
                zero_balance_refusals: 0,
                http_filled_buy_id: None,
                params,
                outbox: Seq::empty(),
            }),
    {
        let state: LiveState = match saved {
            Some(s) => s,
            None => LiveState::default(),
        };
        let r = LivePositionManager {
            phase: LivePhase::Idle,
            state,
            last_buy_ms: None,
            last_sell_ms: None,
            consec_close_fails: 0,
            zero_balance_refusals: 0,
            http_filled_buy_id: None,
            params,
            outbox: Vec::new(),
        };
        assert(r@.outbox =~= Seq::empty());
        r
    }

    /// Hands out what is to be written, in order, and empties the outbox.
    pub fn take_effects(&mut self) -> (r: Vec<Effect>)
        ensures
            r@.map_values(|e: Effect| e@) == old(self)@.outbox,
            final(self)@ == (ManagerView { outbox: Seq::empty(), ..old(self)@ }),
    {
        let mut out: Vec<Effect> = Vec::new();
        std::mem::swap(&mut out, &mut self.outbox);
        assert(self@.outbox =~= Seq::empty());
        out
    }

    /// Asks for the state and the phase to be written.
    fn persist(&mut self)
        ensures
            final(self)@ == old(self)@.persisted(),
    {
        self.outbox.push(Effect::Persist);
        assert(self@.outbox =~= old(self)@.persisted().outbox);
    }

    /// Asks for a line of the journal to be written.
    fn append(&mut self, kind: &str, side: &str, price: i64, size: i64, pnl: i128, order_id: &str)
        ensures
            final(self)@ == old(self)@.appended(
                kind@,
                side@,
                price as int,
                size as int,
                pnl as int,
                order_id@,
            ),
    {
        let rec = LiveTradeRec {
            kind: kind.to_string(),
            side: side.to_string(),
            price,
            size,
            pnl,
            order_id: order_id.to_string(),
            realized_pnl_after: self.state.realized_pnl,
        };
        self.outbox.push(Effect::Append(rec));
        assert(self@.outbox =~= old(self)@.appended(
            kind@,
            side@,
            price as int,
            size as int,
            pnl as int,
            order_id@,
        ).outbox);
    }

    /// The price at which a position bought at `entry` takes its profit.
    fn take_profit(&self, entry: i64, tick: i64) -> (r: i64)
        ensures
            r == take_profit_of(entry as int, self@.params, tick as int),
    {
        let gain: i64 = saturate(divide_nearest(self.params.tp_cents as i128, 100));
        proof {
            crate::fixed::nearest_is_close(self.params.tp_cents as int, 100);
        }
        round_tick(lesser(plus(entry, gain), PRICE_CEILING), tick)
    }

    /// The price at which a position bought at `entry` stops its loss.
    fn stop_loss(&self, entry: i64, tick: i64) -> (r: i64)
        ensures
            r == stop_loss_of(entry as int, self@.params, tick as int),
    {
        let loss: i64 = saturate(divide_nearest(self.params.sl_cents as i128, 100));
        proof {
            crate::fixed::nearest_is_close(self.params.sl_cents as int, 100);
        }
        round_tick(greater(minus(entry, loss), PRICE_FLOOR), tick)
    }

    /// Opens the position that a buy of `filled` tokens makes.
    fn open_position(
        &mut self,
        side: Side,
        token_id: &str,
        neg_risk: bool,
        entry: i64,
        filled: i64,
        tick: i64,
        order_id: &str,
        now_ms: u64,
    )
        requires
            old(self)@.room_to_open(),
        ensures
            final(self)@ == old(self)@.opened(
                side,
                token_id@,
                neg_risk,
                entry as int,
                filled as int,
                tick as int,
                order_id@,
                now_ms as int,
            ),
    {
        let tp: i64 = self.take_profit(entry, tick);
        let sl: i64 = self.stop_loss(entry, tick);
        self.append("open", side.as_str(), entry, filled, 0, order_id);
        self.state.shots = self.state.shots + 1;
        self.phase = LivePhase::Open(
            LivePosition {
                side,
                token_id: token_id.to_string(),
                entry_price: entry,
                size: filled,
                tp_price: tp,
                sl_price: sl,
                opened_ms: now_ms,
                neg_risk,
                buy_order_id: order_id.to_string(),
                tick,
                bought: filled,
                sold: 0,
                hold_to_resolution: false,
                catastrophe_armed: false,
            },
        );
        self.consec_close_fails = 0;
        self.zero_balance_refusals = 0;
        self.persist();
    }

    /// The kind under which a close for `reason` is written down.
    fn close_kind(reason: &str) -> (r: &'static str)
        ensures
            r@ == close_kind_of(reason@),
    {
        if same(reason, "take_profit") {
            "close_tp"
        } else if same(reason, "stop_loss") {
            "close_sl"
        } else if same(reason, "expired") {
            "close_expired"
        } else if same(reason, "window_close") {
            "close_window"
        } else {
            "close_max_hold"
        }
    }

    /// Writes down that the position is gone.
    fn record_close(
        &mut self,
        order_id: &str,
        side: &str,
        sold: i64,
        got: i64,
        entry: i64,
        reason: &str,
    )
        requires
            old(self)@.room_to_close(),
        ensures
            final(self)@ == old(self)@.closed(
                order_id@,
                side@,
                sold as int,
                got as int,
                entry as int,
                reason@,
            ),
    {
        let pnl: i128 = profit(got, entry, sold);
        self.state.realized_pnl = add_profit(self.state.realized_pnl, pnl);
        let kind: &'static str = Self::close_kind(reason);
        self.append(kind, side, got, sold, pnl, order_id);
        if pnl >= 0 {
            self.state.wins = self.state.wins + 1;
        } else {
            self.state.losses = self.state.losses + 1;
        }
        self.phase = LivePhase::Idle;
        self.consec_close_fails = 0;
        self.zero_balance_refusals = 0;
        self.http_filled_buy_id = None;
        self.persist();
    }

    /// Takes the answer of the order engine to a buy.
    pub fn on_buy_result(
        &mut self,
        res: OrderResult,
        side: Side,
        token_id: &str,
        neg_risk: bool,
        order_price: i64,
        size: i64,
        tick: i64,
        now_ms: u64,
    )
        requires
            old(self)@.room_to_open(),
        ensures
            final(self)@ == old(self)@.after_buy(
                res,
                side,
                token_id@,
                neg_risk,
                order_price as int,
                size as int,
                tick as int,
                now_ms as int,
            ),
    {
        match res {
            OrderResult::Placed { order_id, filled_size, avg_price, post_ms } => {
                self.last_buy_ms = Some(post_ms);
                match filled_size {
                    Some(n) if n > 0 => {
                        // The feed may report this fill again; it is counted here.
                        self.http_filled_buy_id = Some(order_id.clone());
                        let entry: i64 = avg_price.unwrap_or(order_price);
                        self.open_position(
                            side,
                            token_id,
                            neg_risk,
                            entry,
                            n,
                            tick,
                            order_id.as_str(),
                            now_ms,
                        );
                    },
                    _ => {
                        self.phase = LivePhase::PendingBuy {
                            order_id,
                            side,
                            token_id: token_id.to_string(),
                            neg_risk,
                            requested_size: size,
                            tick,
                            since_ms: now_ms,
                            cancel_since_ms: None,
                        };
                    },
                }
            },
            _ => {},
        }
    }

    /// Takes a fill of the buy `order_id` that the feed reports: a waiting buy is opened. The size
    /// of an open position is left to the polls of the server.
    pub fn on_fill_confirmed_buy(
        &mut self,
        order_id: &str,
        filled_size: i64,
        avg_price: i64,
        now_ms: u64,
    )
        requires
            old(self)@.room_to_open(),
        ensures
            final(self)@ == old(self)@.after_fill(
                order_id@,
                filled_size as int,
                avg_price as int,
                now_ms as int,
            ),
    {
        if filled_size <= 0 {
            return;
        }
        if let Some(counted) = &self.http_filled_buy_id {
            if same(counted.as_str(), order_id) {
                return;
            }
        }
        self.adopt(order_id, filled_size, avg_price, now_ms);
    }

    /// Opens the waiting buy `order_id`; leaves any other phase as it is.
    fn adopt(&mut self, order_id: &str, filled: i64, price: i64, now_ms: u64)
        requires
            old(self)@.room_to_open(),
        ensures
            final(self)@ == match old(self)@.phase {
                PhaseView::PendingBuy { order_id: id, side, token_id, neg_risk, tick, .. } => {
                    if id.len() > 0 && id != order_id@ {
                        old(self)@
                    } else {
                        old(self)@.opened(
                            side,
                            token_id,
                            neg_risk,
                            price as int,
                            filled as int,
                            tick as int,
                            order_id@,
                            now_ms as int,
                        )
                    }
                },
                _ => old(self)@,
            },
    {
        let (side, token, neg_risk, tick): (Side, String, bool, i64) = match &self.phase {
            LivePhase::PendingBuy { order_id: id, side, token_id, neg_risk, tick, .. } => {
                if !id.as_str().is_empty() && !same(id.as_str(), order_id) {
                    return;
                }
                (*side, token_id.clone(), *neg_risk, *tick)
            },
            _ => {
                return;
            },
        };
        self.open_position(side, token.as_str(), neg_risk, price, filled, tick, order_id, now_ms);
    }

    /// Takes the purchase that the server counts for the buy `order_id`, which is cumulated: a
    /// waiting buy is opened, an open position grows. The same count taken twice changes nothing.
    pub fn reconcile_buy_to_server(
        &mut self,
        order_id: &str,
        server_filled: i64,
        price: i64,
        now_ms: u64,
    )
        requires
            old(self)@.room_to_open(),
        ensures
            final(self)@ == old(self)@.after_poll(
                order_id@,
                server_filled as int,
                price as int,
                now_ms as int,
            ),
    {
        if server_filled <= 0 {
            return;
        }
        let mut p: LivePosition = match &self.phase {
            LivePhase::Open(p) => p.clone(),
            _ => {
                self.adopt(order_id, server_filled, price, now_ms);
                return;
            },
        };
        if !same(p.buy_order_id.as_str(), order_id) || server_filled <= plus(p.bought, DUST) {
            return;
        }
        let added: i64 = minus(server_filled, p.bought);
        let tick: i64 = if p.tick > 0 {
            p.tick
        } else {
            PRICE_FLOOR
        };
        p.entry_price = mean_price(p.entry_price, p.bought, price, added, server_filled);
        p.bought = server_filled;
        p.size = greater(minus(p.bought, p.sold), 0);
        p.tp_price = self.take_profit(p.entry_price, tick);
        p.sl_price = self.stop_loss(p.entry_price, tick);
        self.append("reconcile_grow", p.side.as_str(), price, added, 0, order_id);
        self.phase = LivePhase::Open(p);
        self.persist();
    }

    /// Takes the answer of the order engine to a sale. Returns whether the allowance of the token is
    /// to be refreshed: the sale was refused for want of a balance, which is most often stale.
    #[must_use]
    pub fn on_sell_result(
        &mut self,
        res: OrderResult,
        reason: &str,
        now_ms: u64,
        min_order_size: i64,
    ) -> (refresh: bool)
        requires
            old(self)@.room_to_close(),
            old(self)@.room_to_refuse(),
            res matches OrderResult::Placed { filled_size, avg_price, .. } ==> filled_of(
                filled_size,
            ) is Some ==> avg_price is Some,
        ensures
            (final(self)@, refresh) == old(self)@.after_sell(
                res,
                reason@,
                now_ms as int,
                min_order_size as int,
            ),
    {
        match res {
            OrderResult::Placed { order_id, filled_size, avg_price, post_ms } => {
                self.last_sell_ms = Some(post_ms);
                match filled_size {
                    Some(n) if n > 0 => {
                        let got: i64 = avg_price.unwrap_or(0);
                        let held: Option<LivePosition> = match &self.phase {
                            LivePhase::Open(p) => Some(p.clone()),
                            _ => None,
                        };
                        match held {
                            Some(p) => {
                                self.settle_sale(p, order_id.as_str(), n, got, reason, min_order_size);
                            },
                            None => {
                                self.record_close(order_id.as_str(), "?", n, got, 0, reason);
                            },
                        }
                    },
                    _ => {
                        self.await_sale(reason, now_ms);
                    },
                }
                false
            },
            OrderResult::Failed { error } => self.refuse_sale(error.as_str(), now_ms),
            _ => false,
        }
    }

    /// Books the sale of `n` tokens of `p` at `got`: what is left stays open where it can be sold.
    fn settle_sale(
        &mut self,
        p: LivePosition,
        order_id: &str,
        n: i64,
        got: i64,
        reason: &str,
        min_order_size: i64,
    )
        requires
            old(self)@.room_to_close(),
        ensures
            final(self)@ == if p@.size - n >= min_order_size {
                old(self)@.sold_part(p@, order_id@, n as int, got as int)
            } else {
                old(self)@.closed(
                    order_id@,
                    p@.side.label(),
                    n as int,
                    got as int,
                    p@.entry_price,
                    reason@,
                )
            },
    {
        if p.size as i128 - n as i128 >= min_order_size as i128 {
            let pnl: i128 = profit(got, p.entry_price, n);
            self.state.realized_pnl = add_profit(self.state.realized_pnl, pnl);
            self.append("close_partial", p.side.as_str(), got, n, pnl, order_id);
            let mut rest: LivePosition = p;
            rest.sold = plus(rest.sold, n);
            rest.size = greater(minus(rest.bought, rest.sold), 0);
            self.phase = LivePhase::Open(rest);
            self.consec_close_fails = 0;
            self.zero_balance_refusals = 0;
            self.persist();
        } else {
            self.record_close(order_id, p.side.as_str(), n, got, p.entry_price, reason);
        }
    }

    /// Waits for the fill of a sale of the open position.
    fn await_sale(&mut self, reason: &str, since_ms: u64)
        ensures
            final(self)@ == old(self)@.sale_waiting(reason@, since_ms as int),
    {
        let position: LivePosition = match &self.phase {
            LivePhase::Open(p) => p.clone(),
            _ => {
                return;
            },
        };
        self.phase = LivePhase::PendingSell { position, reason: reason.to_string(), since_ms };
    }

    /// Takes the refusal of a sale.
    fn refuse_sale(&mut self, error: &str, now_ms: u64) -> (refresh: bool)
        requires
            old(self)@.room_to_refuse(),
        ensures
            (final(self)@, refresh) == old(self)@.sale_refused(error@, now_ms as int),
    {
        self.state.failed_closes = self.state.failed_closes + 1;
        self.consec_close_fails = self.consec_close_fails + 1;
        if let Some(held) = parse_balance_base_units(error) {
            if held > 0 {
                if let LivePhase::Open(p) = &mut self.phase {
                    if p.size > plus(held, 1) {
                        p.sold = greater(minus(p.bought, held), 0);
                        p.size = held;
                    }
                }
                self.persist();
                return false;
            }
        }
        if !speaks_of_balance(error) {
            self.persist();
            return false;
        }
        let held_ms: u64 = match &self.phase {
            LivePhase::Open(p) => now_ms.saturating_sub(p.opened_ms),
            _ => u64::MAX,
        };
        self.zero_balance_refusals = self.zero_balance_refusals + 1;
        if held_ms < SETTLE_GRACE_MS || self.zero_balance_refusals < 3 {
            self.persist();
            return true;
        }
        self.phase = LivePhase::Idle;
        self.state.losses = self.state.losses + 1;
        self.consec_close_fails = 0;
        self.zero_balance_refusals = 0;
        self.http_filled_buy_id = None;
        self.persist();
        false
    }

    /// Takes a sale that the feed confirms.
    pub fn apply_close(
        &mut self,
        order_id: String,
        filled_size: Option<i64>,
        avg_price: Option<i64>,
        reason: &str,
        min_order_size: i64,
    )
        requires
            old(self)@.room_to_close(),
            old(self)@.room_to_fail(),
        ensures
            final(self)@ == old(self)@.after_close(
                order_id@,
                filled_size,
                avg_price,
                reason@,
                min_order_size as int,
            ),
    {
        let p: LivePosition = match &self.phase {
            LivePhase::Open(p) => p.clone(),
            LivePhase::PendingSell { position, .. } => position.clone(),
            _ => {
                return;
            },
        };
        match filled_size {
            Some(n) if n > 0 => {
                let got: i64 = avg_price.unwrap_or(0);
                self.settle_sale(p, order_id.as_str(), n, got, reason, min_order_size);
            },
            _ => {
                self.state.failed_closes = self.state.failed_closes + 1;
                self.persist();
            },
        }
    }

    /// Closes the position of a market that expired, at the last mark of its token.
    pub fn resolve_expired(&mut self, mark_price: i64)
        requires
            old(self)@.room_to_close(),
        ensures
            final(self)@ == old(self)@.after_expiry(mark_price as int),
    {
        let p: LivePosition = match &self.phase {
            LivePhase::Open(p) => p.clone(),
            _ => {
                return;
            },
        };
        let mark: i64 = hold_within(mark_price, 0, UNIT);
        self.record_close(
            p.buy_order_id.as_str(),
            p.side.as_str(),
            p.size,
            mark,
            p.entry_price,
            "expired",
        );
    }

    /// The open position; a position whose sale waits is not handed out.
    pub fn position(&self) -> (r: Option<&LivePosition>)
        ensures
            match r {
                Some(p) => self@.phase == PhaseView::Open(p@),
                None => !(self@.phase is Open),
            },
    {
        if let LivePhase::Open(p) = &self.phase {
            Some(p)
        } else {
            None
        }
    }

    /// Neither a position nor an order: a new signal may be followed.
    pub fn is_idle(&self) -> (r: bool)
        ensures
            r == (self@.phase is Idle),
    {
        matches!(self.phase, LivePhase::Idle)
    }

    /// Whether every counter can still be raised, so that every step can be taken.
    pub fn has_room(&self) -> (r: bool)
        ensures
            r == self@.has_room(),
            r ==> self@.room_to_open() && self@.room_to_close() && self@.room_to_fail()
                && self@.room_to_refuse(),
    {
        self.state.shots < u64::MAX && self.state.wins < u64::MAX && self.state.losses < u64::MAX
            && self.state.failed_closes < u64::MAX && self.consec_close_fails < u32::MAX
            && self.zero_balance_refusals < u32::MAX
    }

    /// Marks the open position as held until its market resolves.
    pub fn mark_hold_to_resolution(&mut self)
        ensures
            final(self)@ == old(self)@.held_to_resolution(),
    {
        if let LivePhase::Open(p) = &mut self.phase {
            p.hold_to_resolution = true;
        } else {
            return;
        }
        self.persist();
    }

    /// Arms the catastrophe of the open position: it is sold at the market until it is gone.
    pub fn arm_catastrophe(&mut self)
        ensures
            final(self)@ == old(self)@.catastrophe(),
    {
        if let LivePhase::Open(p) = &mut self.phase {
            if p.catastrophe_armed {
                return;
            }
            p.catastrophe_armed = true;
        } else {
            return;
        }
        self.persist();
    }

    /// The buy that is followed: waiting, or behind the open position.
    pub fn tracked_buy_order_id(&self) -> (r: Option<String>)
        ensures
            text_of(r) == self@.tracked_buy(),
    {
        match &self.phase {
            LivePhase::PendingBuy { order_id, .. } => Some(order_id.clone()),
            LivePhase::Open(p) => Some(p.buy_order_id.clone()),
            _ => None,
        }
    }

    /// Puts a position whose sale has waited for its fill for `timeout_ms` back on sale. Returns
    /// whether it did.
    pub fn revert_stuck_pending_sell(&mut self, now_ms: u64, timeout_ms: u64) -> (r: bool)
        ensures
            r == old(self)@.sale_is_stuck(now_ms as int, timeout_ms as int),
            final(self)@ == if r {
                old(self)@.sale_retried()
            } else {
                old(self)@
            },
    {
        let position: LivePosition = match &self.phase {
            LivePhase::PendingSell { position, since_ms, .. } => {
                if now_ms.saturating_sub(*since_ms) < timeout_ms {
                    return false;
                }
                position.clone()
            },
            _ => {
                return false;
            },
        };
        self.phase = LivePhase::Open(position);
        self.persist();
        true
    }

    /// The waiting buy: its id, since when it waits, and since when it is being cancelled.
    pub fn pending_buy_info(&self) -> (r: Option<(String, u64, Option<u64>)>)
        ensures
            match (r, self@.phase) {
                (
                    Some((id, since, cancel)),
                    PhaseView::PendingBuy { order_id, since_ms, cancel_since_ms, .. },
                ) => id@ == order_id && since == since_ms && time_of(cancel) == cancel_since_ms,
                (None, phase) => !(phase is PendingBuy),
                _ => false,
            },
    {
        if let LivePhase::PendingBuy { order_id, since_ms, cancel_since_ms, .. } = &self.phase {
            Some((order_id.clone(), *since_ms, *cancel_since_ms))
        } else {
            None
        }
    }

    /// Notes that the cancellation of the waiting buy was sent. A fill may still arrive, and wins.
    pub fn mark_buy_cancelling(&mut self, now_ms: u64)
        ensures
            final(self)@ == old(self)@.cancelling(now_ms as int),
    {
        if let LivePhase::PendingBuy { cancel_since_ms, .. } = &mut self.phase {
            if cancel_since_ms.is_some() {
                return;
            }
            *cancel_since_ms = Some(now_ms);
        } else {
            return;
        }
        self.persist();
    }

    /// Gives the waiting buy up.
    pub fn cancel_pending_buy(&mut self)
        ensures
            final(self)@ == old(self)@.buy_cancelled(),
    {
        if matches!(self.phase, LivePhase::PendingBuy { .. }) {
            self.phase = LivePhase::Idle;
            self.persist();
        }
    }

    /// The share of closes that were not losses; zero before the first.
    pub fn hit_rate(&self) -> (r: i64)
        ensures
            r == if self@.state.wins + self@.state.losses == 0 {
                0
            } else {
                nearest(self@.state.wins * UNIT, self@.state.wins + self@.state.losses)
            },
            0 <= r <= UNIT,
            r == hit_rate_of(self@.state.wins, self@.state.losses),
    {
        let wins: i128 = self.state.wins as i128;
        let closes: i128 = wins + self.state.losses as i128;
        if closes == 0 {
            return 0;
        }
        let rate: i128 = divide_nearest(wins * UNIT as i128, closes);
        proof {
            nearest_is_monotone(0, wins * UNIT, closes as int);
            nearest_is_monotone(wins * UNIT, closes * UNIT, closes as int);
            nearest_of_multiple(0, closes as int);
            nearest_of_multiple(UNIT as int, closes as int);
        }
        saturate(rate)
    }

    /// The buy that opens a position, where there is none: its size is raised to what the exchange
    /// takes, what does not cross at once is killed, and it leaves the node only where that is armed.
    pub fn try_open(
        &self,
        live_armed: bool,
        side: Side,
        order_price: i64,
        size: i64,
        min_order_size: i64,
    ) -> (r: Option<Dispatch>)
        ensures
            r is Some <==> self@.phase is Idle,
            r matches Some(d) ==> {
                &&& d.kind == OrderKind::Fak
                &&& d.post == live_armed
                &&& d.args.side == side
                &&& d.args.price == order_price
                &&& d.args.size == max(
                    size as int,
                    min_size_of(min_order_size as int, order_price as int),
                )
                &&& !d.args.is_sell
            },
            r == self@.buy_order(live_armed, side, order_price, size, min_order_size),
    {
        if !self.is_idle() {
            return None;
        }
        let least: i64 = clob_min_size_for(min_order_size, order_price);
        Some(
            Dispatch {
                args: OrderArgs {
                    side,
                    price: order_price,
                    size: greater(size, least),
                    is_sell: false,
                },
                kind: OrderKind::Fak,
                post: live_armed,
            },
        )
    }

    /// Takes the answer of the exchange to the buy that `try_open` made. Returns whether it was
    /// placed.
    pub fn finish_open(
        &mut self,
        result: Result<PlaceResult, String>,
        side: Side,
        token_id: &str,
        neg_risk: bool,
        order_price: i64,
        size: i64,
        tick: i64,
        now_ms: u64,
    ) -> (r: bool)
        requires
            old(self)@.room_to_open(),
        ensures
            r == (result matches Ok(PlaceResult::Placed { .. })),
            final(self)@ == old(self)@.after_open_order(
                result,
                side,
                token_id@,
                neg_risk,
                order_price as int,
                size as int,
                tick as int,
                now_ms as int,
            ),
    {
        match result {
            Ok(PlaceResult::Placed { order_id, filled_size, avg_price, post_ms }) => {
                self.last_buy_ms = Some(post_ms);
                match filled_size {
                    Some(n) if n > 0 => {
                        let entry: i64 = avg_price.unwrap_or(order_price);
                        self.open_position(
                            side,
                            token_id,
                            neg_risk,
                            entry,
                            n,
                            tick,
                            order_id.as_str(),
                            now_ms,
                        );
                    },
                    _ => {
                        self.phase = LivePhase::PendingBuy {
                            order_id,
                            side,
                            token_id: token_id.to_string(),
                            neg_risk,
                            requested_size: size,
                            tick,
                            since_ms: now_ms,
                            cancel_since_ms: None,
                        };
                    },
                }
                true
            },
            _ => false,
        }
    }

    /// The sale of the open position, where it is due at the mark: for its catastrophe, for its
    /// profit, for its loss, or because its time is over. A sale worth less than one dollar is not
    /// made: it counts as failed and the position is kept.
    pub fn manage(
        &mut self,
        live_armed: bool,
        mark_bid: Option<i64>,
        tick: i64,
        now_ms: u64,
        remaining_s: i64,
    ) -> (r: Option<(Dispatch, &'static str)>)
        requires
            old(self)@.room_to_fail(),
        ensures
            match old(self)@.due(mark_bid, now_ms as int, remaining_s as int) {
                Some((p, bid, reason)) => {
                    let price = old(self)@.exit_price(p, bid, tick as int);
                    if p.size * price < DOLLAR_NOTIONAL {
                        r is None && final(self)@ == old(self)@.close_failed()
                    } else {
                        &&& final(self)@ == old(self)@
                        &&& r matches Some((d, why)) && {
                            &&& d.kind == OrderKind::Fak
                            &&& d.post == live_armed
                            &&& d.args.side == p.side
                            &&& d.args.price == price
                            &&& d.args.size == p.size
                            &&& d.args.is_sell
                            &&& why@ == reason
                        }
                    }
                },
                None => r is None && final(self)@ == old(self)@,
            },
            ({
                let (after, sale) = old(self)@.sale_order(
                    live_armed,
                    mark_bid,
                    tick as int,
                    now_ms as int,
                    remaining_s as int,
                );
                &&& final(self)@ == after
                &&& match r {
                    Some((d, why)) => sale == Some((d, why@)),
                    None => sale is None,
                }
            }),
    {
        let bid: i64 = match mark_bid {
            Some(bid) => bid,
            None => {
                return None;
            },
        };
        let p: LivePosition = match &self.phase {
            LivePhase::Open(p) => p.clone(),
            _ => {
                return None;
            },
        };
        let held_s: i64 = (now_ms.saturating_sub(p.opened_ms) / 1000) as i64;
        let (reason, target): (&'static str, i64) = if p.catastrophe_armed {
            ("catastrophe", bid)
        } else if p.hold_to_resolution {
            return None;
        } else if bid >= p.tp_price {
            ("take_profit", p.tp_price)
        } else if bid <= p.sl_price {
            ("stop_loss", p.sl_price)
        } else if held_s >= self.params.max_hold_secs || remaining_s <= EXIT_REMAINING_S {
            ("max_hold", bid)
        } else {
            return None;
        };
        match self.try_close(live_armed, &p, target, tick) {
            Some(d) => Some((d, reason)),
            None => None,
        }
    }

    /// The sale of `p` around `exit_price`.
    fn try_close(
        &mut self,
        live_armed: bool,
        p: &LivePosition,
        exit_price: i64,
        tick: i64,
    ) -> (r: Option<Dispatch>)
        requires
            old(self)@.room_to_fail(),
        ensures
            ({
                let price = round_tick_of(
                    within(exit_price as int, PRICE_FLOOR as int, PRICE_CEILING as int),
                    tick as int,
                );
                if p@.size * price < DOLLAR_NOTIONAL {
                    r is None && final(self)@ == old(self)@.close_failed()
                } else {
                    &&& final(self)@ == old(self)@
                    &&& r matches Some(d) && {
                        &&& d.kind == OrderKind::Fak
                        &&& d.post == live_armed
                        &&& d.args.side == p@.side
                        &&& d.args.price == price
                        &&& d.args.size == p@.size
                        &&& d.args.is_sell
                    }
                }
            }),
    {
        let price: i64 = round_tick(hold_within(exit_price, PRICE_FLOOR, PRICE_CEILING), tick);
        if product(p.size, price) < DOLLAR_NOTIONAL {
            self.state.failed_closes = self.state.failed_closes + 1;
            self.persist();
            return None;
        }
        Some(
            Dispatch {
                args: OrderArgs { side: p.side, price, size: p.size, is_sell: true },
                kind: OrderKind::Fak,
                post: live_armed,
            },
        )
    }

    /// Takes the answer of the exchange to the sale that `manage` made at `now_ms`. Returns whether
    /// the position is closed. Where the answer has no fill, the position waits for it, and
    /// `now_ms` is the time from which the timeout of the waiting sale counts.
    pub fn finish_close(
        &mut self,
        result: Result<PlaceResult, String>,
        reason: &str,
        now_ms: u64,
    ) -> (r: bool)
        requires
            old(self)@.room_to_close(),
            old(self)@.room_to_fail(),
            old(self)@.phase is Open,
            result matches Ok(PlaceResult::Placed { filled_size, avg_price, .. }) ==> filled_of(
                filled_size,
            ) is Some ==> avg_price is Some,
        ensures
            r == (result matches Ok(PlaceResult::Placed { filled_size, .. }) && filled_of(
                filled_size,
            ) is Some),
            final(self)@ == old(self)@.after_close_order(result, reason@, now_ms as int),
    {
        match result {
            Ok(PlaceResult::Placed { order_id, filled_size, avg_price, post_ms }) => {
                self.last_sell_ms = Some(post_ms);
                match filled_size {
                    Some(n) if n > 0 => {
                        let got: i64 = avg_price.unwrap_or(0);
                        let p: LivePosition = match &self.phase {
                            LivePhase::Open(p) => p.clone(),
                            _ => {
                                return false;
                            },
                        };
                        self.record_close(
                            order_id.as_str(),
                            p.side.as_str(),
                            n,
                            got,
                            p.entry_price,
                            reason,
                        );
                        true
                    },
                    _ => {
                        self.await_sale(reason, now_ms);
                        false
                    },
                }
            },
            Ok(PlaceResult::DryRun) => false,
            Err(_) => {
                self.state.failed_closes = self.state.failed_closes + 1;
                self.persist();
                false
            },
        }
    }
}

/// The smallest size that the exchange takes at `price`.
pub fn clob_min_size_for(min_order_size_tokens: i64, price: i64) -> (r: i64)
    ensures
        r == min_size_of(min_order_size_tokens as int, price as int),
{
    if price > 0 {
        greater(min_order_size_tokens, whole_ceil(UNIT, price))
    } else {
        min_order_size_tokens
    }
}

/// The mean price of `bought` tokens at `entry` and `added` tokens at `price`.
fn mean_price(entry: i64, bought: i64, price: i64, added: i64, total: i64) -> (r: i64)
    requires
        total > 0,
        added > 0,
    ensures
        r == mean_price_of(entry as int, bought as int, price as int, added as int, total as int),
{
    let held: i128 = product(entry, bought);
    let new: i128 = product(price, added);
    proof {
        assert(-0x4000_0000_0000_0000_0000_0000_0000_0000 <= entry * bought
            <= 0x4000_0000_0000_0000_0000_0000_0000_0000) by (nonlinear_arith)
            requires
                -0x8000_0000_0000_0000 <= entry <= 0x7fff_ffff_ffff_ffff,
                -0x8000_0000_0000_0000 <= bought <= 0x7fff_ffff_ffff_ffff,
        ;
        assert(-0x3fff_ffff_ffff_ffff_8000_0000_0000_0000 <= price * added
            <= 0x3fff_ffff_ffff_ffff_8000_0000_0000_0000) by (nonlinear_arith)
            requires
                -0x8000_0000_0000_0000 <= price <= 0x7fff_ffff_ffff_ffff,
                0 < added <= 0x7fff_ffff_ffff_ffff,
        ;
    }
    saturate(divide_nearest(held + new, total as i128))
}

} // verus!
