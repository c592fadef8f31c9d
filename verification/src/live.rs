//! The live node: what it does with a signal, and what it does at each tick.
//!
//! The node decides, the caller acts: a decision comes back as a value, and what came of it is
//! handed in again. Nothing here waits, reads a clock or sends.

use crate::book::{quantity_of, BookView, PolyBook};
use crate::bus::Side;
use crate::fixed::{
    greater, lesser, minus, minus_of, plus, plus_of, product, sat, saturate, within, PRICE_CEILING,
    PRICE_FLOOR, UNIT,
};
use crate::manager::{LivePositionManager, ManagerView, EXIT_REMAINING_S};
use crate::market_feed::{is_word, market_of, or, Market, MarketView, PmShared, SharedView};
use crate::orders::{filled_of, OrderKind, OrderResult};
use crate::position::{text_of, time_of, LivePhase, LivePosition, PhaseView, PositionView};
use crate::pricing::{
    exceeds, gap, gap_of, maker_buy_price, maker_buy_price_of, order_size, order_size_of,
    required_gap, required_gap_of,
};
use crate::text::{lowered, same, same_ignoring_case};
use crate::user_feed::{FillEvent, FillView};
use vstd::math::{max, min};
use vstd::prelude::*;

verus! {

/// Pause between two questions about the status of a buy.
pub const STATUS_POLL_MS: u64 = 1500;

/// Pause between two sweeps of orders that nobody follows.
pub const SWEEP_MS: u64 = 60_000;

/// Pause between two points of the price history.
pub const HISTORY_MS: u64 = 1000;

/// Smallest size of a sale where no market tells it.
pub const DEFAULT_MIN_SIZE: i64 = 5_000_000_000;

/// Settings of the node.
#[derive(Debug, Clone, Copy)]
pub struct LiveConfig {
    /// Enter with resting orders instead of taking the book.
    pub maker_mode: bool,
    /// Orders may leave the node.
    pub live_armed: bool,
    pub live_force_min_size: bool,
    pub gap_min: i64,
    pub gap_dynamic_k: i64,
    pub taker_fee_coeff: i64,
    pub end_window_block_secs: i64,
    pub price_min: i64,
    pub price_max: i64,
    pub cooldown_ms: u64,
    pub maker_price_k_spread: i64,
    pub maker_price_eps_ticks: i64,
    pub entry_buffer: i64,
    pub fixed_order_usd: i64,
    pub notional_target_usd: i64,
    pub grace_frac_of_remaining: i64,
    pub buy_grace_floor_ms: u64,
    pub buy_timeout_ms: u64,
    pub cancel_grace_ms: u64,
    pub sell_timeout_ms: u64,
    pub min_hold_sl_ms: u64,
    pub exit_retry_ms: u64,
    pub exit_buffer: i64,
    pub max_hold_secs: i64,
    /// Try a refused sale again without a refresh of the allowance.
    pub sell_skip_balance_refresh: bool,
}

/// Best bid and best ask of a token.
#[derive(Debug, Clone, Copy)]
pub struct Quote {
    pub bid: Option<i64>,
    pub ask: Option<i64>,
}

/// View of `Quote`.
pub struct QuoteView {
    pub bid: Option<int>,
    pub ask: Option<int>,
}

impl View for Quote {
    type V = QuoteView;

    open spec fn view(&self) -> QuoteView {
        QuoteView { bid: quantity_of(self.bid), ask: quantity_of(self.ask) }
    }
}

/// The quote of a book.
pub open spec fn quote_of(book: BookView) -> QuoteView {
    QuoteView { bid: book.best_bid(), ask: book.best_ask() }
}

/// Why a signal is turned down.
#[derive(Debug, Clone, Copy, PartialEq, Eq, Structural)]
pub enum Reject {
    Breaker,
    Paused,
    NoMarket,
    WindowEnding,
    PriceBand,
    Cooldown,
    Gap,
}

/// Why a signal that was not turned down is still not followed.
#[derive(Debug, Clone, Copy, PartialEq, Eq, Structural)]
pub enum Ignore {
    Busy,
    NoBankroll,
    NoEngine,
    NoCredentials,
    IncompleteBook,
    /// The ask is so low that no order can rest under it.
    NoRoomUnderAsk,
    SizeBelowMinimum,
    BankrollTooSmall,
}

/// A signal with its price: what sizing needs.
#[derive(Debug)]
pub struct Quoted {
    pub side: Side,
    pub token_id: String,
    pub neg_risk: bool,
    pub price: i64,
    pub kind: OrderKind,
    pub edge: i64,
    pub bankroll: i64,
    pub tick: i64,
    pub min_order_size: i64,
}

/// View of `Quoted`.
pub struct QuotedView {
    pub side: Side,
    pub token_id: Seq<char>,
    pub neg_risk: bool,
    pub price: int,
    pub kind: OrderKind,
    pub edge: int,
    pub bankroll: int,
    pub tick: int,
    pub min_order_size: int,
}

impl View for Quoted {
    type V = QuotedView;

    open spec fn view(&self) -> QuotedView {
        QuotedView {
            side: self.side,
            token_id: self.token_id@,
            neg_risk: self.neg_risk,
            price: self.price as int,
            kind: self.kind,
            edge: self.edge as int,
            bankroll: self.bankroll as int,
            tick: self.tick as int,
            min_order_size: self.min_order_size as int,
        }
    }
}

/// What a signal comes to.
#[derive(Debug)]
pub enum Verdict {
    Rejected(Reject),
    Ignored(Ignore),
    Priced(Quoted),
}

/// View of `Verdict`.
pub enum VerdictView {
    Rejected(Reject),
    Ignored(Ignore),
    Priced(QuotedView),
}

impl View for Verdict {
    type V = VerdictView;

    open spec fn view(&self) -> VerdictView {
        match *self {
            Verdict::Rejected(r) => VerdictView::Rejected(r),
            Verdict::Ignored(i) => VerdictView::Ignored(i),
            Verdict::Priced(q) => VerdictView::Priced(q@),
        }
    }
}

/// A buy that was handed to the order engine and not answered yet.
#[derive(Debug)]
pub struct PendingOpen {
    pub side: Side,
    pub token_id: String,
    pub neg_risk: bool,
    pub order_price: i64,
    pub size: i64,
    pub tick: i64,
    pub now_ms: u64,
}

/// View of `PendingOpen`.
pub struct PendingOpenView {
    pub side: Side,
    pub token_id: Seq<char>,
    pub neg_risk: bool,
    pub order_price: int,
    pub size: int,
    pub tick: int,
    pub now_ms: int,
}

impl View for PendingOpen {
    type V = PendingOpenView;

    open spec fn view(&self) -> PendingOpenView {
        PendingOpenView {
            side: self.side,
            token_id: self.token_id@,
            neg_risk: self.neg_risk,
            order_price: self.order_price as int,
            size: self.size as int,
            tick: self.tick as int,
            now_ms: self.now_ms as int,
        }
    }
}

/// A sale to be handed to the order engine.
#[derive(Debug)]
pub struct CloseOrder {
    pub token_id: String,
    pub side: Side,
    pub neg_risk: bool,
    pub price: i64,
    pub size: i64,
    pub tick: i64,
    pub kind: OrderKind,
    pub reason: String,
}

/// View of `CloseOrder`.
pub struct CloseOrderView {
    pub token_id: Seq<char>,
    pub side: Side,
    pub neg_risk: bool,
    pub price: int,
    pub size: int,
    pub tick: int,
    pub kind: OrderKind,
    pub reason: Seq<char>,
}

impl View for CloseOrder {
    type V = CloseOrderView;

    open spec fn view(&self) -> CloseOrderView {
        CloseOrderView {
            token_id: self.token_id@,
            side: self.side,
            neg_risk: self.neg_risk,
            price: self.price as int,
            size: self.size as int,
            tick: self.tick as int,
            kind: self.kind,
            reason: self.reason@,
        }
    }
}

/// A new market: the user feed follows it, and the allowances of its tokens are warmed up where
/// orders may leave the node.
#[derive(Debug)]
pub struct Rollover {
    pub condition_id: String,
    pub warm: Option<(String, String)>,
}

/// What the life cycle of a resting buy asks for.
#[derive(Debug)]
pub enum BuyStep {
    Nothing,
    /// The cancellation of this order is to be sent.
    SendCancel(String),
    /// The buy was given up.
    GivenUp,
}

/// View of `BuyStep`.
pub enum BuyStepView {
    Nothing,
    SendCancel(Seq<char>),
    GivenUp,
}

impl View for BuyStep {
    type V = BuyStepView;

    open spec fn view(&self) -> BuyStepView {
        match *self {
            BuyStep::Nothing => BuyStepView::Nothing,
            BuyStep::SendCancel(id) => BuyStepView::SendCancel(id@),
            BuyStep::GivenUp => BuyStepView::GivenUp,
        }
    }
}

/// A point of the price history, with the levels of the position.
#[derive(Debug, Clone, Copy)]
pub struct PricePoint {
    pub t: u64,
    pub p: i64,
    pub entry: Option<i64>,
    pub tp: Option<i64>,
    pub sl: Option<i64>,
}

/// What the dashboard shows that the node does not keep itself.
#[derive(Debug, Clone, Copy)]
pub struct Outlook {
    pub breaker_tripped: bool,
    pub live_active: bool,
    pub live_enabled: bool,
    pub live_paused: bool,
    pub max_drawdown: i64,
    pub lat_polymarket_ms: Option<u64>,
    /// The change of the bankroll since the session started.
    pub session_pnl: Option<i128>,
    /// When the market feed last told something, zero before that.
    pub last_ws_ts_ms: u64,
}

/// What the dashboard shows.
#[derive(Debug)]
pub struct Dashboard {
    pub market_slug: String,
    pub remaining_s: i64,
    pub fair_up: i64,
    pub real_up: i64,
    pub gap: i64,
    pub in_position: bool,
    pub pos_side: String,
    pub pos_entry: i64,
    pub pos_tp: i64,
    pub pos_sl: i64,
    pub mode: String,
    pub live_enabled: bool,
    pub live_paused: bool,
    pub live_armed: bool,
    pub breaker_tripped: bool,
    pub max_drawdown: i64,
    pub lat_polymarket_ms: Option<u64>,
    pub live_bankroll: Option<i64>,
    pub live_pnl: Option<i128>,
    pub live_shots: u64,
    pub live_force_min: bool,
    pub fixed_order_usd: i64,
    pub maker: bool,
    pub lat_last_buy_ms: Option<u64>,
    pub lat_last_sell_ms: Option<u64>,
    pub lat_transport_ms: Option<u64>,
    pub lat_decide_ms: Option<u64>,
    /// From the post of the last buy to its answer.
    pub lat_post_ms: Option<u64>,
    /// From the signal to the answer of the exchange.
    pub lat_total_ms: Option<u128>,
    pub pm_ws_stale_ms: Option<u64>,
}

/// What is known of a market and its trades, and what was done when.
pub struct LiveNode {
    pub cfg: LiveConfig,
    pub mgr: LivePositionManager,
    pub now_ms: u64,
    pub bankroll: Option<i64>,
    pub market: Option<Market>,
    pub real_up: i64,
    pub up: Quote,
    pub down: Quote,
    pub remaining_s: i64,
    pub last_fire_ms: u64,
    /// The fair price of the last signal.
    pub last_fair: i64,
    pub last_transport_ms: Option<u64>,
    pub last_decide_ms: Option<u64>,
    /// The up token whose bid was last looked at for an exit, and that bid.
    pub last_up_bid: Option<(String, i64)>,
    /// The same of the down token.
    pub last_down_bid: Option<(String, i64)>,
    pub last_sweep_ms: u64,
    pub last_status_poll_ms: u64,
    pub last_sell_attempt_ms: u64,
    pub last_hist_ms: u64,
    /// The token whose allowance was refreshed for the current position.
    pub synced_token: Option<String>,
    /// The followed buy is filled as far as it will be.
    pub buy_poll_done: bool,
    /// The market whose trades the user feed follows.
    pub feed_market: String,
    pub was_active: bool,
    pub pending_opens: Vec<PendingOpen>,
    /// The reason of the sale that was handed to the order engine and not answered yet.
    pub pending_close: Option<String>,
}

/// View of `LiveNode`.
pub struct NodeView {
    pub cfg: LiveConfig,
    pub mgr: ManagerView,
    pub now_ms: int,
    pub bankroll: Option<int>,
    pub market: Option<MarketView>,
    pub real_up: int,
    pub up: QuoteView,
    pub down: QuoteView,
    pub remaining_s: int,
    pub last_fire_ms: int,
    pub last_fair: int,
    pub last_transport_ms: Option<int>,
    pub last_decide_ms: Option<int>,
    pub last_up_bid: Option<(Seq<char>, int)>,
    pub last_down_bid: Option<(Seq<char>, int)>,
    pub last_sweep_ms: int,
    pub last_status_poll_ms: int,
    pub last_sell_attempt_ms: int,
    pub last_hist_ms: int,
    pub synced_token: Option<Seq<char>>,
    pub buy_poll_done: bool,
    pub feed_market: Seq<char>,
    pub was_active: bool,
    pub pending_opens: Seq<PendingOpenView>,
    pub pending_close: Option<Seq<char>>,
}

impl View for LiveNode {
    type V = NodeView;

    open spec fn view(&self) -> NodeView {
        NodeView {
            cfg: self.cfg,
            mgr: self.mgr@,
            now_ms: self.now_ms as int,
            bankroll: quantity_of(self.bankroll),
            market: market_of(self.market),
            real_up: self.real_up as int,
            up: self.up@,
            down: self.down@,
            remaining_s: self.remaining_s as int,
            last_fire_ms: self.last_fire_ms as int,
            last_fair: self.last_fair as int,
            last_transport_ms: time_of(self.last_transport_ms),
            last_decide_ms: time_of(self.last_decide_ms),
            last_up_bid: bid_of_token(self.last_up_bid),
            last_down_bid: bid_of_token(self.last_down_bid),
            last_sweep_ms: self.last_sweep_ms as int,
            last_status_poll_ms: self.last_status_poll_ms as int,
            last_sell_attempt_ms: self.last_sell_attempt_ms as int,
            last_hist_ms: self.last_hist_ms as int,
            synced_token: text_of(self.synced_token),
            buy_poll_done: self.buy_poll_done,
            feed_market: self.feed_market@,
            was_active: self.was_active,
            pending_opens: self.pending_opens@.map_values(|p: PendingOpen| p@),
            pending_close: text_of(self.pending_close),
        }
    }
}

/// A token and its bid, which may be missing.
pub open spec fn bid_of_token(x: Option<(String, i64)>) -> Option<(Seq<char>, int)> {
    match x {
        Some((token, bid)) => Some((token@, bid as int)),
        None => None,
    }
}

/// Whether `pause_ms` went by between `then_ms` and `now_ms`.
pub open spec fn passed(now_ms: int, then_ms: int, pause_ms: int) -> bool {
    max(now_ms - then_ms, 0) >= pause_ms
}

impl NodeView {
    /// After the start of a tick: what the feeds know is taken over.
    pub open spec fn observed(self, g: SharedView, now_ms: int, bankroll: Option<int>) -> NodeView {
        NodeView {
            now_ms,
            bankroll,
            market: g.market,
            real_up: g.real_up,
            up: quote_of(g.up_book),
            down: quote_of(g.down_book),
            remaining_s: g.remaining_s,
            ..self
        }
    }

    /// The quote of the token of a side.
    pub open spec fn quote(self, side: Side) -> QuoteView {
        match side {
            Side::Up => self.up,
            Side::Down => self.down,
        }
    }

    /// The edge that a signal needs now.
    pub open spec fn required_gap(self) -> int {
        required_gap_of(
            self.cfg.gap_min as int,
            self.cfg.gap_dynamic_k as int,
            self.cfg.taker_fee_coeff as int,
            self.real_up,
            self.remaining_s,
        )
    }

    /// Why a signal is turned down, if it is: the first reason that holds.
    pub open spec fn reject(
        self,
        side: Side,
        fair: int,
        breaker_tripped: bool,
        live_active: bool,
    ) -> Option<Reject> {
        if breaker_tripped {
            Some(Reject::Breaker)
        } else if !live_active {
            Some(Reject::Paused)
        } else if self.market is None {
            Some(Reject::NoMarket)
        } else if self.remaining_s <= max(
            self.cfg.end_window_block_secs as int,
            EXIT_REMAINING_S as int,
        ) {
            Some(Reject::WindowEnding)
        } else if self.real_up < self.cfg.price_min || self.real_up > self.cfg.price_max {
            Some(Reject::PriceBand)
        } else if !passed(self.now_ms, self.last_fire_ms, self.cfg.cooldown_ms as int) {
            Some(Reject::Cooldown)
        } else if gap_of(side, fair, self.real_up) < self.required_gap() {
            Some(Reject::Gap)
        } else {
            None
        }
    }

    /// The price and the kind of a buy: inside the spread where orders rest, above the ask where
    /// they take. There is none without the quotes that a resting order needs, nor where the ask
    /// leaves no price to rest at.
    pub open spec fn entry(self, side: Side, tick: int) -> Result<(int, OrderKind), Ignore> {
        let q = self.quote(side);
        if self.cfg.maker_mode {
            match (q.bid, q.ask) {
                (Some(bid), Some(ask)) => {
                    let price = maker_buy_price_of(
                        bid,
                        ask,
                        tick,
                        self.cfg.maker_price_k_spread as int,
                        self.cfg.maker_price_eps_ticks as int,
                    );
                    if price < PRICE_FLOOR {
                        Err(Ignore::NoRoomUnderAsk)
                    } else {
                        Ok((price, OrderKind::Gtc))
                    }
                },
                _ => Err(Ignore::IncompleteBook),
            }
        } else {
            Ok(
                (
                    min(
                        plus_of(or(q.ask, self.real_up), self.cfg.entry_buffer as int),
                        PRICE_CEILING as int,
                    ),
                    OrderKind::Fak,
                ),
            )
        }
    }

    /// The token of a side of the market.
    pub open spec fn token(self, side: Side) -> Seq<char> {
        match side {
            Side::Up => self.market->0.up_token_id,
            Side::Down => self.market->0.down_token_id,
        }
    }

    /// What a signal comes to.
    pub open spec fn verdict(
        self,
        side: Side,
        fair: int,
        breaker_tripped: bool,
        live_active: bool,
        has_engine: bool,
    ) -> VerdictView {
        match self.reject(side, fair, breaker_tripped, live_active) {
            Some(r) => VerdictView::Rejected(r),
            None => {
                let m = self.market->0;
                if !(self.mgr.phase is Idle) || self.pending_opens.len() > 0 {
                    VerdictView::Ignored(Ignore::Busy)
                } else if self.bankroll is None {
                    VerdictView::Ignored(Ignore::NoBankroll)
                } else if !has_engine {
                    VerdictView::Ignored(Ignore::NoEngine)
                } else {
                    match self.entry(side, m.tick_size) {
                        Err(reason) => VerdictView::Ignored(reason),
                        Ok((price, kind)) => VerdictView::Priced(
                            QuotedView {
                                side,
                                token_id: self.token(side),
                                neg_risk: m.neg_risk,
                                price,
                                kind,
                                edge: gap_of(side, fair, self.real_up),
                                bankroll: self.bankroll->0,
                                tick: m.tick_size,
                                min_order_size: m.min_order_size,
                            },
                        ),
                    }
                }
            },
        }
    }

    /// The size of the quoted buy, or why it is not worth it.
    pub open spec fn sized(self, q: QuotedView, kelly: Option<i64>) -> Result<int, Ignore> {
        match order_size_of(
            self.cfg.fixed_order_usd as int,
            self.cfg.live_force_min_size,
            kelly,
            self.cfg.notional_target_usd as int,
            q.min_order_size,
            q.price,
        ) {
            None => Err(Ignore::SizeBelowMinimum),
            Some(size) => if size * q.price > q.bankroll * UNIT {
                Err(Ignore::BankrollTooSmall)
            } else {
                Ok(size)
            },
        }
    }

    /// After a buy of the quoted signal was handed to the order engine.
    pub open spec fn submitted(
        self,
        q: QuotedView,
        size: int,
        transport_ms: int,
        decide_ms: int,
    ) -> NodeView {
        NodeView {
            pending_opens: self.pending_opens.push(
                PendingOpenView {
                    side: q.side,
                    token_id: q.token_id,
                    neg_risk: q.neg_risk,
                    order_price: q.price,
                    size,
                    tick: q.tick,
                    now_ms: self.now_ms,
                },
            ),
            buy_poll_done: false,
            last_fire_ms: self.now_ms,
            last_transport_ms: Some(transport_ms),
            last_decide_ms: Some(decide_ms),
            ..self
        }
    }

    /// After the order engine answered a buy, or went away without an answer.
    pub open spec fn after_open_reply(self, i: int, res: Option<OrderResult>) -> NodeView {
        let p = self.pending_opens[i];
        NodeView {
            pending_opens: self.pending_opens.remove(i),
            mgr: match res {
                Some(r) => self.mgr.after_buy(
                    r,
                    p.side,
                    p.token_id,
                    p.neg_risk,
                    p.order_price,
                    p.size,
                    p.tick,
                    p.now_ms,
                ),
                None => self.mgr,
            },
            ..self
        }
    }

    /// The market is new to the user feed.
    pub open spec fn market_is_new(self) -> bool {
        self.market matches Some(m) && m.condition_id != self.feed_market && m.condition_id.len()
            > 0
    }

    /// The market that the user feed is to follow, and the tokens whose allowances are warmed up.
    pub open spec fn rollover(self) -> Option<(Seq<char>, Option<(Seq<char>, Seq<char>)>)> {
        if self.market_is_new() {
            let m = self.market->0;
            Some(
                (
                    m.condition_id,
                    if self.cfg.live_armed {
                        Some((m.up_token_id, m.down_token_id))
                    } else {
                        None
                    },
                ),
            )
        } else {
            None
        }
    }

    /// After the user feed reported a fill: it counts where it is one of the followed buy.
    pub open spec fn after_fill(self, fill: FillView) -> NodeView {
        match self.mgr.tracked_buy() {
            Some(id) => if fill.involves(id) {
                NodeView {
                    mgr: self.mgr.after_fill(id, fill.filled_size, fill.avg_price, self.now_ms),
                    ..self
                }
            } else {
                self
            },
            None => self,
        }
    }

    /// After a poll told how much of a buy is filled; a buy that is filled to its end is not polled
    /// again.
    pub open spec fn after_poll(
        self,
        order_id: Seq<char>,
        filled: int,
        price: int,
        terminal: bool,
    ) -> NodeView {
        let mgr = self.mgr.after_poll(order_id, filled, price, self.now_ms);
        NodeView {
            mgr,
            buy_poll_done: self.buy_poll_done || (terminal && mgr.tracked_buy() == Some(order_id)),
            ..self
        }
    }

    /// The smallest size of a sale.
    pub open spec fn min_sale(self) -> int {
        match self.market {
            Some(m) => m.min_order_size,
            None => DEFAULT_MIN_SIZE as int,
        }
    }

    /// After the order engine answered a sale, or went away without an answer; and the token whose
    /// allowance is to be refreshed.
    pub open spec fn after_close_reply(self, res: Option<OrderResult>) -> (
        NodeView,
        Option<Seq<char>>,
    ) {
        match res {
            Some(r) => {
                let (mgr, refresh) = self.mgr.after_sell(
                    r,
                    self.pending_close->0,
                    self.now_ms,
                    self.min_sale(),
                );
                let n = NodeView { mgr, pending_close: None, ..self };
                if refresh && self.cfg.live_armed && !self.cfg.sell_skip_balance_refresh {
                    (
                        n,
                        match mgr.phase {
                            PhaseView::Open(p) => Some(p.token_id),
                            _ => None,
                        },
                    )
                } else {
                    (n, None)
                }
            },
            None => (NodeView { pending_close: None, ..self }, None),
        }
    }

    /// Where a new position is held its token is noted, and the pause between two sales starts
    /// anew. A position whose sale waits is still held, and is no new one when it is open again.
    pub open spec fn noted(self) -> NodeView {
        match self.mgr.phase.held() {
            Some(p) => if self.synced_token == Some(p.token_id) {
                self
            } else {
                NodeView { synced_token: Some(p.token_id), last_sell_attempt_ms: 0, ..self }
            },
            None => NodeView { synced_token: None, ..self },
        }
    }

    /// What is remembered of the bids of a side.
    pub open spec fn last_bid(self, side: Side) -> Option<(Seq<char>, int)> {
        match side {
            Side::Up => self.last_up_bid,
            Side::Down => self.last_down_bid,
        }
    }

    /// `x` is what is remembered of the bids of a side.
    pub open spec fn with_last_bid(self, side: Side, x: Option<(Seq<char>, int)>) -> NodeView {
        match side {
            Side::Up => NodeView { last_up_bid: x, ..self },
            Side::Down => NodeView { last_down_bid: x, ..self },
        }
    }

    /// The last bid that was seen of a token of a side; zero where none was.
    pub open spec fn bid_seen(self, side: Side, token: Seq<char>) -> int {
        match self.last_bid(side) {
            Some((t, bid)) => if t == token {
                bid
            } else {
                0
            },
            None => 0,
        }
    }

    /// The buy whose status is to be asked for now.
    pub open spec fn poll_due(self) -> Option<Seq<char>> {
        if self.cfg.maker_mode && self.cfg.live_armed && !self.buy_poll_done && passed(
            self.now_ms,
            self.last_status_poll_ms,
            STATUS_POLL_MS as int,
        ) {
            self.mgr.tracked_buy()
        } else {
            None
        }
    }

    /// How long a buy may rest: a share of what remains of the window, within its bounds.
    pub open spec fn buy_timeout(self) -> int {
        within(
            sat(max(self.remaining_s, 0) * 1000) * self.cfg.grace_frac_of_remaining / UNIT as int,
            self.cfg.buy_grace_floor_ms as int,
            self.cfg.buy_timeout_ms as int,
        )
    }

    /// After the life cycle of a resting buy was looked at: it is cancelled once it has rested long
    /// enough or the window is about to close, and given up a while after that.
    pub open spec fn after_buy_step(self) -> (NodeView, BuyStepView) {
        match self.mgr.phase {
            PhaseView::PendingBuy { order_id, since_ms, cancel_since_ms, .. } => {
                if !self.cfg.maker_mode {
                    (self, BuyStepView::Nothing)
                } else {
                    match cancel_since_ms {
                        None => if passed(self.now_ms, since_ms, self.buy_timeout())
                            || self.remaining_s <= EXIT_REMAINING_S {
                            (
                                NodeView { mgr: self.mgr.cancelling(self.now_ms), ..self },
                                BuyStepView::SendCancel(order_id),
                            )
                        } else {
                            (self, BuyStepView::Nothing)
                        },
                        Some(t) => if passed(self.now_ms, t, self.cfg.cancel_grace_ms as int) {
                            (
                                NodeView { mgr: self.mgr.buy_cancelled(), ..self },
                                BuyStepView::GivenUp,
                            )
                        } else {
                            (self, BuyStepView::Nothing)
                        },
                    }
                }
            },
            _ => (self, BuyStepView::Nothing),
        }
    }

    /// Orders that nobody follows are to be swept now.
    pub open spec fn sweep_due(self) -> bool {
        &&& self.cfg.maker_mode
        &&& self.cfg.live_armed
        &&& self.mgr.phase is Idle
        &&& self.pending_opens.len() == 0
        &&& self.pending_close is None
        &&& passed(self.now_ms, self.last_sweep_ms, SWEEP_MS as int)
    }

    /// After a sale that waits too long was put back on sale, and whether there was one. None is
    /// while the order engine owes the answer to a sale.
    pub open spec fn after_retry(self) -> (NodeView, bool) {
        if self.pending_close is None && self.mgr.sale_is_stuck(
            self.now_ms,
            self.cfg.sell_timeout_ms as int,
        ) {
            (NodeView { mgr: self.mgr.sale_retried(), ..self }, true)
        } else {
            (self, false)
        }
    }

    /// After a buy without a fill was given up where nothing rests in the book.
    pub open spec fn after_drop(self) -> NodeView {
        if self.cfg.maker_mode {
            self
        } else {
            NodeView { mgr: self.mgr.buy_cancelled(), ..self }
        }
    }

    /// Why a position marked at `bid` is to be sold, if it is. The loss is stopped only after a
    /// while, so that the spread of the entry does not do it; a position that is held until its
    /// market resolves is sold for its catastrophe alone.
    pub open spec fn exit_reason(self, p: PositionView, bid: int) -> Option<Seq<char>> {
        let held_ms = max(self.now_ms - p.opened_ms, 0);
        if p.catastrophe_armed {
            Some("catastrophe"@)
        } else if p.hold_to_resolution {
            None
        } else if bid >= p.tp_price {
            Some("take_profit"@)
        } else if held_ms >= self.cfg.min_hold_sl_ms && bid <= p.sl_price {
            Some("stop_loss"@)
        } else if self.remaining_s <= EXIT_REMAINING_S {
            Some("window_close"@)
        } else if held_ms / 1000 >= self.cfg.max_hold_secs {
            Some("max_hold"@)
        } else {
            None
        }
    }

    /// After the open position was looked at, and the sale that is due. A position of an older
    /// market is settled at the last bid that was seen of its own token, at zero where none was.
    pub open spec fn after_exit_step(self, has_engine: bool) -> (NodeView, Option<CloseOrderView>) {
        match (self.mgr.phase, self.market) {
            (PhaseView::Open(p), Some(m)) => {
                if self.pending_close is Some || !has_engine {
                    (self, None)
                } else if p.token_id != self.token(p.side) {
                    (
                        NodeView {
                            mgr: self.mgr.after_expiry(self.bid_seen(p.side, p.token_id)),
                            ..self.with_last_bid(p.side, None)
                        },
                        None,
                    )
                } else {
                    match self.quote(p.side).bid {
                        None => (self, None),
                        Some(bid) => {
                            let n = self.with_last_bid(p.side, Some((p.token_id, bid)));
                            if self.exit_reason(p, bid) is Some && passed(
                                self.now_ms,
                                self.last_sell_attempt_ms,
                                self.cfg.exit_retry_ms as int,
                            ) {
                                (
                                    NodeView { last_sell_attempt_ms: self.now_ms, ..n },
                                    Some(
                                        CloseOrderView {
                                            token_id: p.token_id,
                                            side: p.side,
                                            neg_risk: p.neg_risk,
                                            price: max(
                                                minus_of(bid, self.cfg.exit_buffer as int),
                                                PRICE_FLOOR as int,
                                            ),
                                            size: p.size,
                                            tick: m.tick_size,
                                            kind: OrderKind::Fak,
                                            reason: self.exit_reason(p, bid)->0,
                                        },
                                    ),
                                )
                            } else {
                                (n, None)
                            }
                        },
                    }
                }
            },
            _ => (self, None),
        }
    }

    /// The next point of the price history: second, price, and the levels of the position.
    pub open spec fn history(self) -> Option<(int, int, Option<(int, int, int)>)> {
        if passed(self.now_ms, self.last_hist_ms, HISTORY_MS as int) {
            Some(
                (
                    self.now_ms / 1000,
                    self.mark(),
                    match self.mgr.phase {
                        PhaseView::Open(p) => Some((p.entry_price, p.tp_price, p.sl_price)),
                        _ => None,
                    },
                ),
            )
        } else {
            None
        }
    }

    /// The price of the token of the position, or of the up token.
    pub open spec fn mark(self) -> int {
        match self.mgr.phase {
            PhaseView::Open(p) => match p.side {
                Side::Up => self.real_up,
                Side::Down => minus_of(UNIT as int, self.real_up),
            },
            _ => self.real_up,
        }
    }
}

/// Whether the text names the mode in which orders rest.
pub open spec fn names_maker(exec_mode: Seq<char>) -> bool {
    lowered(exec_mode) == lowered("maker"@)
}

/// What the answer about the status of a buy tells.
pub open spec fn poll_outcome_of(size_matched: int, status: Seq<char>) -> Option<bool> {
    if size_matched > 0 {
        Some(lowered(status) == lowered("MATCHED"@))
    } else {
        None
    }
}

/// Whether the text names the mode in which orders rest.
pub fn is_maker_mode(exec_mode: &str) -> (r: bool)
    ensures
        r == (lowered(exec_mode@) == lowered("maker"@)),
        r == names_maker(exec_mode@),
{
    same_ignoring_case(exec_mode, "maker")
}

/// The quote of a book.
fn quote(book: &PolyBook) -> (r: Quote)
    ensures
        r@ == quote_of(book@),
{
    Quote { bid: book.best_bid(), ask: book.best_ask() }
}

/// Whether `pause_ms` went by between `then_ms` and `now_ms`.
fn has_passed(now_ms: u64, then_ms: u64, pause_ms: u64) -> (r: bool)
    ensures
        r == passed(now_ms as int, then_ms as int, pause_ms as int),
{
    now_ms.saturating_sub(then_ms) >= pause_ms
}

impl LiveNode {
    /// A node that has seen nothing yet.
    pub fn new(cfg: LiveConfig, mgr: LivePositionManager) -> (r: Self)
        ensures
            r@ == (NodeView {
                cfg,
                mgr: mgr@,
                now_ms: 0,
                bankroll: None,
                market: None,
                real_up: UNIT as int / 2,
                up: quote_of(BookView::empty()),
                down: quote_of(BookView::empty()),
                remaining_s: 0,
                last_fire_ms: 0,
                last_fair: UNIT as int / 2,
                last_transport_ms: None,
                last_decide_ms: None,
                last_up_bid: None,
                last_down_bid: None,
                last_sweep_ms: 0,
                last_status_poll_ms: 0,
                last_sell_attempt_ms: 0,
                last_hist_ms: 0,
                synced_token: None,
                buy_poll_done: false,
                feed_market: Seq::empty(),
                was_active: false,
                pending_opens: Seq::empty(),
                pending_close: None,
            }),
    {
        let r = LiveNode {
            cfg,
            mgr,
            now_ms: 0,
            bankroll: None,
            market: None,
            real_up: UNIT / 2,
            up: Quote { bid: None, ask: None },
            down: Quote { bid: None, ask: None },
            remaining_s: 0,
            last_fire_ms: 0,
            last_fair: UNIT / 2,
            last_transport_ms: None,
            last_decide_ms: None,
            last_up_bid: None,
            last_down_bid: None,
            last_sweep_ms: 0,
            last_status_poll_ms: 0,
            last_sell_attempt_ms: 0,
            last_hist_ms: 0,
            synced_token: None,
            buy_poll_done: false,
            feed_market: String::new(),
            was_active: false,
            pending_opens: Vec::new(),
            pending_close: None,
        };
        assert(r@.pending_opens =~= Seq::empty());
        r
    }

    /// Whether orders that nobody follows are to be swept before the start: a resting order may
    /// have outlived the last run.
    pub fn sweep_at_start(&self) -> (r: bool)
        ensures
            r == (self@.cfg.maker_mode && self@.cfg.live_armed),
    {
        self.cfg.maker_mode && self.cfg.live_armed
    }

    /// Starts a tick: takes over what the feeds know.
    pub fn observe(&mut self, g: &PmShared, now_ms: u64, bankroll: Option<i64>)
        ensures
            final(self)@ == (NodeView {
                now_ms: now_ms as int,
                bankroll: quantity_of(bankroll),
                market: g@.market,
                real_up: g@.real_up,
                up: quote_of(g@.up_book),
                down: quote_of(g@.down_book),
                remaining_s: g@.remaining_s,
                ..old(self)@
            }),
            final(self)@ == old(self)@.observed(g@, now_ms as int, quantity_of(bankroll)),
    {
        self.now_ms = now_ms;
        self.bankroll = bankroll;
        self.market = match &g.market {
            Some(m) => Some(m.clone()),
            None => None,
        };
        self.real_up = g.real_up;
        self.up = quote(&g.up_book);
        self.down = quote(&g.down_book);
        self.remaining_s = g.remaining_s;
    }

    /// The quote of the token of a side.
    fn quote_for(&self, side: Side) -> (r: Quote)
        ensures
            r@ == self@.quote(side),
    {
        match side {
            Side::Up => self.up,
            Side::Down => self.down,
        }
    }

    /// Why a signal is turned down, if it is.
    fn rejection(&self, side: Side, fair: i64, breaker_tripped: bool, live_active: bool) -> (r:
        Option<Reject>)
        ensures
            r == self@.reject(side, fair as int, breaker_tripped, live_active),
    {
        if breaker_tripped {
            return Some(Reject::Breaker);
        }
        if !live_active {
            return Some(Reject::Paused);
        }
        if self.market.is_none() {
            return Some(Reject::NoMarket);
        }
        if self.remaining_s <= greater(self.cfg.end_window_block_secs, EXIT_REMAINING_S) {
            return Some(Reject::WindowEnding);
        }
        if self.real_up < self.cfg.price_min || self.real_up > self.cfg.price_max {
            return Some(Reject::PriceBand);
        }
        if !has_passed(self.now_ms, self.last_fire_ms, self.cfg.cooldown_ms) {
            return Some(Reject::Cooldown);
        }
        let needed: i64 = required_gap(
            self.cfg.gap_min,
            self.cfg.gap_dynamic_k,
            self.cfg.taker_fee_coeff,
            self.real_up,
            self.remaining_s,
        );
        if gap(side, fair, self.real_up) < needed {
            return Some(Reject::Gap);
        }
        None
    }

    /// The price and the kind of a buy.
    fn entry_for(&self, side: Side, tick: i64) -> (r: Result<(i64, OrderKind), Ignore>)
        ensures
            match r {
                Ok((price, kind)) => self@.entry(side, tick as int) == Ok::<_, Ignore>(
                    (price as int, kind),
                ),
                Err(reason) => self@.entry(side, tick as int) == Err::<(int, OrderKind), _>(reason),
            },
    {
        let q: Quote = self.quote_for(side);
        if self.cfg.maker_mode {
            match (q.bid, q.ask) {
                (Some(bid), Some(ask)) => {
                    let price: i64 = maker_buy_price(
                        bid,
                        ask,
                        tick,
                        self.cfg.maker_price_k_spread,
                        self.cfg.maker_price_eps_ticks,
                    );
                    if price < PRICE_FLOOR {
                        Err(Ignore::NoRoomUnderAsk)
                    } else {
                        Ok((price, OrderKind::Gtc))
                    }
                },
                _ => Err(Ignore::IncompleteBook),
            }
        } else {
            let base: i64 = match q.ask {
                Some(ask) => ask,
                None => self.real_up,
            };
            Ok((lesser(plus(base, self.cfg.entry_buffer), PRICE_CEILING), OrderKind::Fak))
        }
    }

    /// Takes a signal: the radar puts the fair price of the up token at `fair`.
    pub fn on_signal(
        &mut self,
        side: Side,
        fair: i64,
        breaker_tripped: bool,
        live_active: bool,
        has_engine: bool,
    ) -> (r: Verdict)
        ensures
            r@ == old(self)@.verdict(side, fair as int, breaker_tripped, live_active, has_engine),
            final(self)@ == (NodeView { last_fair: fair as int, ..old(self)@ }),
    {
        self.last_fair = fair;
        if let Some(reason) = self.rejection(side, fair, breaker_tripped, live_active) {
            return Verdict::Rejected(reason);
        }
        assert(self@.pending_opens.len() == self.pending_opens.len());
        if !self.mgr.is_idle() || self.pending_opens.len() > 0 {
            return Verdict::Ignored(Ignore::Busy);
        }
        let bankroll: i64 = match self.bankroll {
            Some(b) => b,
            None => {
                return Verdict::Ignored(Ignore::NoBankroll);
            },
        };
        if !has_engine {
            return Verdict::Ignored(Ignore::NoEngine);
        }
        match &self.market {
            Some(m) => match self.entry_for(side, m.tick_size) {
                Ok((price, kind)) => Verdict::Priced(
                    Quoted {
                        side,
                        token_id: match side {
                            Side::Up => m.up_token_id.clone(),
                            Side::Down => m.down_token_id.clone(),
                        },
                        neg_risk: m.neg_risk,
                        price,
                        kind,
                        edge: gap(side, fair, self.real_up),
                        bankroll,
                        tick: m.tick_size,
                        min_order_size: m.min_order_size,
                    },
                ),
                Err(reason) => Verdict::Ignored(reason),
            },
            None => Verdict::Rejected(Reject::NoMarket),
        }
    }

    /// The size of the quoted buy, where it is worth it and can be paid. `kelly` is what the sizing
    /// of the bankroll says.
    pub fn size_order(&self, q: &Quoted, kelly: Option<i64>) -> (r: Result<i64, Ignore>)
        ensures
            match order_size_of(
                self@.cfg.fixed_order_usd as int,
                self@.cfg.live_force_min_size,
                kelly,
                self@.cfg.notional_target_usd as int,
                q@.min_order_size,
                q@.price,
            ) {
                None => r == Err::<i64, Ignore>(Ignore::SizeBelowMinimum),
                Some(size) => if size * q@.price > q@.bankroll * UNIT {
                    r == Err::<i64, Ignore>(Ignore::BankrollTooSmall)
                } else {
                    r matches Ok(s) && s == size
                },
            },
            match r {
                Ok(size) => self@.sized(q@, kelly) == Ok::<int, Ignore>(size as int),
                Err(reason) => self@.sized(q@, kelly) == Err::<int, Ignore>(reason),
            },
    {
        match order_size(
            self.cfg.fixed_order_usd,
            self.cfg.live_force_min_size,
            kelly,
            self.cfg.notional_target_usd,
            q.min_order_size,
            q.price,
        ) {
            None => Err(Ignore::SizeBelowMinimum),
            Some(size) => if exceeds(size, q.price, q.bankroll) {
                Err(Ignore::BankrollTooSmall)
            } else {
                Ok(size)
            },
        }
    }

    /// Notes that the quoted buy was handed to the order engine.
    pub fn open_submitted(&mut self, q: &Quoted, size: i64, transport_ms: u64, decide_ms: u64)
        ensures
            final(self)@ == old(self)@.submitted(
                q@,
                size as int,
                transport_ms as int,
                decide_ms as int,
            ),
    {
        let p = PendingOpen {
            side: q.side,
            token_id: q.token_id.clone(),
            neg_risk: q.neg_risk,
            order_price: q.price,
            size,
            tick: q.tick,
            now_ms: self.now_ms,
        };
        self.pending_opens.push(p);
        self.buy_poll_done = false;
        self.last_fire_ms = self.now_ms;
        self.last_transport_ms = Some(transport_ms);
        self.last_decide_ms = Some(decide_ms);
        assert(self@.pending_opens =~= old(self)@.submitted(
            q@,
            size as int,
            transport_ms as int,
            decide_ms as int,
        ).pending_opens);
    }

    /// Takes the answer to the pending buy `i`; none where the order engine is gone.
    pub fn on_open_reply(&mut self, i: usize, res: Option<OrderResult>)
        requires
            i < old(self)@.pending_opens.len(),
            old(self)@.mgr.room_to_open(),
        ensures
            final(self)@ == old(self)@.after_open_reply(i as int, res),
    {
        let p: PendingOpen = self.pending_opens.remove(i);
        assert(self@.pending_opens =~= old(self)@.pending_opens.remove(i as int));
        if let Some(r) = res {
            self.mgr.on_buy_result(
                r,
                p.side,
                p.token_id.as_str(),
                p.neg_risk,
                p.order_price,
                p.size,
                p.tick,
                p.now_ms,
            );
        }
    }

    /// Notes a market that is new to the user feed.
    pub fn on_rollover(&mut self) -> (r: Option<Rollover>)
        ensures
            r is Some <==> old(self)@.market_is_new(),
            r matches Some(x) ==> {
                let m = old(self)@.market->0;
                &&& x.condition_id@ == m.condition_id
                &&& final(self)@ == (NodeView { feed_market: m.condition_id, ..old(self)@ })
                &&& match x.warm {
                    Some((up, down)) => old(self)@.cfg.live_armed && up@ == m.up_token_id && down@
                        == m.down_token_id,
                    None => !old(self)@.cfg.live_armed,
                }
            },
            r is None ==> final(self)@ == old(self)@,
            match r {
                Some(x) => old(self)@.rollover() == Some(
                    (
                        x.condition_id@,
                        match x.warm {
                            Some((up, down)) => Some((up@, down@)),
                            None => None,
                        },
                    ),
                ),
                None => old(self)@.rollover() is None,
            },
    {
        let (id, warm): (String, Option<(String, String)>) = match &self.market {
            Some(m) => {
                if same(m.condition_id.as_str(), self.feed_market.as_str())
                    || m.condition_id.as_str().is_empty() {
                    return None;
                }
                (
                    m.condition_id.clone(),
                    if self.cfg.live_armed {
                        Some((m.up_token_id.clone(), m.down_token_id.clone()))
                    } else {
                        None
                    },
                )
            },
            None => {
                return None;
            },
        };
        self.feed_market = id.clone();
        Some(Rollover { condition_id: id, warm })
    }

    /// Takes a fill of the user feed. Returns whether it was one of the followed buy.
    pub fn on_fill(&mut self, fill: &FillEvent) -> (r: bool)
        requires
            old(self)@.mgr.room_to_open(),
        ensures
            r == (old(self)@.mgr.tracked_buy() matches Some(id) && fill@.involves(id)),
            final(self)@ == old(self)@.after_fill(fill@),
    {
        match self.mgr.tracked_buy_order_id() {
            Some(id) => {
                if fill.involves(id.as_str()) {
                    self.mgr.on_fill_confirmed_buy(
                        id.as_str(),
                        fill.filled_size,
                        fill.avg_price,
                        self.now_ms,
                    );
                    true
                } else {
                    false
                }
            },
            None => false,
        }
    }

    /// Takes what a poll told about a buy.
    pub fn on_poll(&mut self, order_id: &str, server_filled: i64, price: i64, terminal: bool)
        requires
            old(self)@.mgr.room_to_open(),
        ensures
            final(self)@ == old(self)@.after_poll(
                order_id@,
                server_filled as int,
                price as int,
                terminal,
            ),
    {
        self.mgr.reconcile_buy_to_server(order_id, server_filled, price, self.now_ms);
        if terminal && is_word(&self.mgr.tracked_buy_order_id(), order_id) {
            self.buy_poll_done = true;
        }
    }

    /// Gives up a buy without a fill where nothing rests in the book.
    pub fn drop_unfilled_buy(&mut self)
        ensures
            final(self)@ == if old(self)@.cfg.maker_mode {
                old(self)@
            } else {
                NodeView { mgr: old(self)@.mgr.buy_cancelled(), ..old(self)@ }
            },
            final(self)@ == old(self)@.after_drop(),
    {
        if !self.cfg.maker_mode {
            self.mgr.cancel_pending_buy();
        }
    }

    /// Takes the answer to the pending sale; none where the order engine is gone. Returns the token
    /// whose allowance is to be refreshed.
    pub fn on_close_reply(&mut self, res: Option<OrderResult>) -> (r: Option<String>)
        requires
            old(self)@.pending_close is Some,
            old(self)@.mgr.room_to_close(),
            old(self)@.mgr.room_to_refuse(),
            res matches Some(OrderResult::Placed { filled_size, avg_price, .. }) ==> filled_of(
                filled_size,
            ) is Some ==> avg_price is Some,
        ensures
            (final(self)@, text_of(r)) == old(self)@.after_close_reply(res),
    {
        let mut pending: Option<String> = None;
        std::mem::swap(&mut pending, &mut self.pending_close);
        let answer: OrderResult = match res {
            Some(a) => a,
            None => {
                return None;
            },
        };
        let least: i64 = match &self.market {
            Some(m) => m.min_order_size,
            None => DEFAULT_MIN_SIZE,
        };
        let refresh: bool = match &pending {
            Some(reason) => self.mgr.on_sell_result(answer, reason.as_str(), self.now_ms, least),
            None => false,
        };
        if refresh && self.cfg.live_armed && !self.cfg.sell_skip_balance_refresh {
            match self.mgr.position() {
                Some(p) => Some(p.token_id.clone()),
                None => None,
            }
        } else {
            None
        }
    }

    /// Notes the token of a new position. Returns it where its allowance is to be refreshed.
    pub fn sync_position(&mut self) -> (r: Option<String>)
        ensures
            final(self)@ == old(self)@.noted(),
            text_of(r) == if old(self)@.cfg.live_armed && final(self)@.synced_token
                != old(self)@.synced_token {
                final(self)@.synced_token
            } else {
                None
            },
    {
        let token: String = match &self.mgr.phase {
            LivePhase::Open(p) => p.token_id.clone(),
            LivePhase::PendingSell { position, .. } => position.token_id.clone(),
            _ => {
                self.synced_token = None;
                return None;
            },
        };
        if is_word(&self.synced_token, token.as_str()) {
            return None;
        }
        self.synced_token = Some(token.clone());
        self.last_sell_attempt_ms = 0;
        if self.cfg.live_armed {
            Some(token)
        } else {
            None
        }
    }

    /// The buy whose status is to be asked for now.
    pub fn poll_status(&mut self) -> (r: Option<String>)
        ensures
            text_of(r) == old(self)@.poll_due(),
            final(self)@ == if r is Some {
                NodeView { last_status_poll_ms: old(self)@.now_ms, ..old(self)@ }
            } else {
                old(self)@
            },
    {
        if !self.cfg.maker_mode || !self.cfg.live_armed || self.buy_poll_done || !has_passed(
            self.now_ms,
            self.last_status_poll_ms,
            STATUS_POLL_MS,
        ) {
            return None;
        }
        let id: Option<String> = self.mgr.tracked_buy_order_id();
        if id.is_some() {
            self.last_status_poll_ms = self.now_ms;
        }
        id
    }

    /// How long a buy may rest.
    fn buy_timeout(&self) -> (r: u64)
        requires
            self@.cfg.buy_grace_floor_ms <= self@.cfg.buy_timeout_ms,
        ensures
            r == self@.buy_timeout(),
    {
        let left: i64 = greater(self.remaining_s, 0);
        let left_ms: i64 = saturate(left as i128 * 1000);
        let share: i128 = product(left_ms, self.cfg.grace_frac_of_remaining);
        let lo: u64 = self.cfg.buy_grace_floor_ms;
        let hi: u64 = self.cfg.buy_timeout_ms;
        if share < 0 {
            assert((share as int) / (UNIT as int) < 0) by (nonlinear_arith)
                requires
                    share < 0,
                    UNIT > 0,
            ;
            return lo;
        }
        let wanted: u128 = share as u128 / UNIT as u128;
        if wanted < lo as u128 {
            lo
        } else if wanted > hi as u128 {
            hi
        } else {
            wanted as u64
        }
    }

    /// Looks at the life cycle of a resting buy. A fill always wins: the buy is given up only a
    /// while after its cancellation, and none came.
    pub fn buy_step(&mut self) -> (r: BuyStep)
        requires
            old(self)@.cfg.maker_mode && old(self)@.mgr.phase is PendingBuy
                && old(self)@.mgr.phase->PendingBuy_cancel_since_ms is None
                ==> old(self)@.cfg.buy_grace_floor_ms <= old(self)@.cfg.buy_timeout_ms,
        ensures
            (final(self)@, r@) == old(self)@.after_buy_step(),
    {
        if !self.cfg.maker_mode {
            return BuyStep::Nothing;
        }
        match self.mgr.pending_buy_info() {
            Some((id, since_ms, cancel_since_ms)) => match cancel_since_ms {
                None => {
                    if has_passed(self.now_ms, since_ms, self.buy_timeout()) || self.remaining_s
                        <= EXIT_REMAINING_S {
                        self.mgr.mark_buy_cancelling(self.now_ms);
                        BuyStep::SendCancel(id)
                    } else {
                        BuyStep::Nothing
                    }
                },
                Some(t) => {
                    if has_passed(self.now_ms, t, self.cfg.cancel_grace_ms) {
                        self.mgr.cancel_pending_buy();
                        BuyStep::GivenUp
                    } else {
                        BuyStep::Nothing
                    }
                },
            },
            None => BuyStep::Nothing,
        }
    }

    /// Whether orders that nobody follows are to be swept now.
    pub fn sweep(&mut self) -> (r: bool)
        ensures
            r == old(self)@.sweep_due(),
            final(self)@ == if r {
                NodeView { last_sweep_ms: old(self)@.now_ms, ..old(self)@ }
            } else {
                old(self)@
            },
    {
        assert(self@.pending_opens.len() == self.pending_opens.len());
        if self.cfg.maker_mode && self.cfg.live_armed && self.mgr.is_idle()
            && self.pending_opens.len() == 0 && self.pending_close.is_none() && has_passed(
            self.now_ms,
            self.last_sweep_ms,
            SWEEP_MS,
        ) {
            self.last_sweep_ms = self.now_ms;
            true
        } else {
            false
        }
    }

    /// Puts a position whose sale waits too long back on sale, unless a sale is pending. Returns
    /// whether it did.
    pub fn retry_stuck_sale(&mut self) -> (r: bool)
        ensures
            r == (old(self)@.pending_close is None && old(self)@.mgr.sale_is_stuck(
                old(self)@.now_ms,
                old(self)@.cfg.sell_timeout_ms as int,
            )),
            final(self)@ == if r {
                NodeView { mgr: old(self)@.mgr.sale_retried(), ..old(self)@ }
            } else {
                old(self)@
            },
            (final(self)@, r) == old(self)@.after_retry(),
    {
        if self.pending_close.is_some() {
            return false;
        }
        self.mgr.revert_stuck_pending_sell(self.now_ms, self.cfg.sell_timeout_ms)
    }

    /// Why a position marked at `bid` is to be sold, if it is.
    fn reason_to_exit(&self, p: &LivePosition, bid: i64) -> (r: Option<&'static str>)
        ensures
            match r {
                Some(reason) => self@.exit_reason(p@, bid as int) == Some(reason@),
                None => self@.exit_reason(p@, bid as int) is None,
            },
    {
        let held_ms: u64 = self.now_ms.saturating_sub(p.opened_ms);
        let held_s: i64 = (held_ms / 1000) as i64;
        if p.catastrophe_armed {
            Some("catastrophe")
        } else if p.hold_to_resolution {
            None
        } else if bid >= p.tp_price {
            Some("take_profit")
        } else if held_ms >= self.cfg.min_hold_sl_ms && bid <= p.sl_price {
            Some("stop_loss")
        } else if self.remaining_s <= EXIT_REMAINING_S {
            Some("window_close")
        } else if held_s >= self.cfg.max_hold_secs {
            Some("max_hold")
        } else {
            None
        }
    }

    /// The last bid that was seen of a token of a side; zero where none was.
    fn seen_bid(&self, side: Side, token: &str) -> (r: i64)
        ensures
            r == self@.bid_seen(side, token@),
    {
        let last: &Option<(String, i64)> = match side {
            Side::Up => &self.last_up_bid,
            Side::Down => &self.last_down_bid,
        };
        match last {
            Some((t, bid)) => if same(t.as_str(), token) {
                *bid
            } else {
                0
            },
            None => 0,
        }
    }

    /// Remembers the bid of a token of a side, or forgets it.
    fn remember_bid(&mut self, side: Side, x: Option<(String, i64)>)
        ensures
            final(self)@ == old(self)@.with_last_bid(side, bid_of_token(x)),
    {
        match side {
            Side::Up => {
                self.last_up_bid = x;
            },
            Side::Down => {
                self.last_down_bid = x;
            },
        }
    }

    /// Looks at the open position: a position of an older market is settled, one that is to be sold
    /// comes back as a sale.
    pub fn exit_step(&mut self, has_engine: bool) -> (r: Option<CloseOrder>)
        requires
            old(self)@.mgr.room_to_close(),
        ensures
            final(self)@ == old(self)@.after_exit_step(has_engine).0,
            match r {
                Some(c) => old(self)@.after_exit_step(has_engine).1 == Some(c@),
                None => old(self)@.after_exit_step(has_engine).1 is None,
            },
    {
        if self.pending_close.is_some() || !has_engine {
            return None;
        }
        let p: LivePosition = match self.mgr.position() {
            Some(p) => p.clone(),
            None => {
                return None;
            },
        };
        let (tick, current): (i64, bool) = match &self.market {
            Some(m) => (
                m.tick_size,
                same(
                    p.token_id.as_str(),
                    match p.side {
                        Side::Up => m.up_token_id.as_str(),
                        Side::Down => m.down_token_id.as_str(),
                    },
                ),
            ),
            None => {
                return None;
            },
        };
        if !current {
            let mark: i64 = self.seen_bid(p.side, p.token_id.as_str());
            self.mgr.resolve_expired(mark);
            self.remember_bid(p.side, None);
            return None;
        }
        let bid: i64 = match self.quote_for(p.side).bid {
            Some(bid) => bid,
            None => {
                return None;
            },
        };
        self.remember_bid(p.side, Some((p.token_id.clone(), bid)));
        match self.reason_to_exit(&p, bid) {
            Some(reason) => {
                if !has_passed(self.now_ms, self.last_sell_attempt_ms, self.cfg.exit_retry_ms) {
                    return None;
                }
                self.last_sell_attempt_ms = self.now_ms;
                Some(
                    CloseOrder {
                        token_id: p.token_id,
                        side: p.side,
                        neg_risk: p.neg_risk,
                        price: greater(minus(bid, self.cfg.exit_buffer), PRICE_FLOOR),
                        size: p.size,
                        tick,
                        kind: OrderKind::Fak,
                        reason: reason.to_string(),
                    },
                )
            },
            None => None,
        }
    }

    /// Notes that a sale was handed to the order engine.
    pub fn close_submitted(&mut self, reason: &str)
        ensures
            final(self)@ == (NodeView { pending_close: Some(reason@), ..old(self)@ }),
    {
        self.pending_close = Some(reason.to_string());
    }

    /// Notes whether the node is active. Returns whether it has just become so: the profit of the
    /// session starts anew.
    pub fn session_starts(&mut self, active: bool) -> (r: bool)
        ensures
            r == (active && !old(self)@.was_active),
            final(self)@ == (NodeView { was_active: active, ..old(self)@ }),
    {
        let starts: bool = active && !self.was_active;
        self.was_active = active;
        starts
    }

    /// The next point of the price history, once a second: the price of the token of the position
    /// with its levels, or of the up token.
    pub fn history_point(&mut self) -> (r: Option<PricePoint>)
        ensures
            r is Some <==> passed(
                old(self)@.now_ms,
                old(self)@.last_hist_ms,
                HISTORY_MS as int,
            ),
            r matches Some(x) ==> {
                &&& x.t == old(self)@.now_ms / 1000
                &&& x.p == old(self)@.mark()
                &&& match old(self)@.mgr.phase {
                    PhaseView::Open(p) => quantity_of(x.entry) == Some(p.entry_price)
                        && quantity_of(x.tp) == Some(p.tp_price) && quantity_of(x.sl) == Some(
                        p.sl_price,
                    ),
                    _ => x.entry is None && x.tp is None && x.sl is None,
                }
            },
            match r {
                Some(x) => old(self)@.history() == Some(
                    (
                        x.t as int,
                        x.p as int,
                        match (x.entry, x.tp, x.sl) {
                            (Some(entry), Some(tp), Some(sl)) => Some(
                                (entry as int, tp as int, sl as int),
                            ),
                            _ => None,
                        },
                    ),
                ),
                None => old(self)@.history() is None,
            },
            final(self)@ == if r is Some {
                NodeView { last_hist_ms: old(self)@.now_ms, ..old(self)@ }
            } else {
                old(self)@
            },
    {
        if !has_passed(self.now_ms, self.last_hist_ms, HISTORY_MS) {
            return None;
        }
        self.last_hist_ms = self.now_ms;
        Some(
            match self.mgr.position() {
                Some(p) => PricePoint {
                    t: self.now_ms / 1000,
                    p: match p.side {
                        Side::Up => self.real_up,
                        Side::Down => minus(UNIT, self.real_up),
                    },
                    entry: Some(p.entry_price),
                    tp: Some(p.tp_price),
                    sl: Some(p.sl_price),
                },
                None => PricePoint {
                    t: self.now_ms / 1000,
                    p: self.real_up,
                    entry: None,
                    tp: None,
                    sl: None,
                },
            },
        )
    }

    /// What the dashboard shows. The realised profit is shown once a position was opened, the change
    /// of the bankroll before that.
    pub fn dashboard(&self, o: &Outlook) -> (d: Dashboard)
        ensures
            d.market_slug@ == match self@.market {
                Some(m) => m.slug,
                None => Seq::empty(),
            },
            d.remaining_s == self@.remaining_s,
            d.fair_up == self@.last_fair,
            d.real_up == self@.real_up,
            d.gap == minus_of(self@.last_fair, self@.real_up),
            match self@.mgr.phase {
                PhaseView::Open(p) => d.in_position && d.pos_side@ == p.side.label() && d.pos_entry
                    == p.entry_price && d.pos_tp == p.tp_price && d.pos_sl == p.sl_price,
                _ => !d.in_position,
            },
            d.mode@ == if o.breaker_tripped {
                "BREAKER"@
            } else if o.live_active {
                "LIVE"@
            } else {
                "PAUSE"@
            },
            d.live_enabled == o.live_enabled,
            d.live_paused == o.live_paused,
            d.live_armed == self@.cfg.live_armed,
            d.breaker_tripped == o.breaker_tripped,
            d.max_drawdown == o.max_drawdown,
            d.lat_polymarket_ms == o.lat_polymarket_ms,
            d.live_force_min == self@.cfg.live_force_min_size,
            d.fixed_order_usd == self@.cfg.fixed_order_usd,
            d.maker == self@.cfg.maker_mode,
            quantity_of(d.live_bankroll) == self@.bankroll,
            d.live_pnl == if self@.mgr.state.shots > 0 {
                Some(self@.mgr.state.realized_pnl as i128)
            } else {
                o.session_pnl
            },
            d.live_shots == self@.mgr.state.shots,
            time_of(d.lat_last_buy_ms) == self@.mgr.last_buy_ms,
            time_of(d.lat_last_sell_ms) == self@.mgr.last_sell_ms,
            time_of(d.lat_transport_ms) == self@.last_transport_ms,
            time_of(d.lat_decide_ms) == self@.last_decide_ms,
            time_of(d.lat_post_ms) == self@.mgr.last_buy_ms,
            match (self@.last_transport_ms, self@.last_decide_ms, self@.mgr.last_buy_ms) {
                (Some(t), Some(c), Some(p)) => d.lat_total_ms matches Some(x) && x == t + c + p,
                _ => d.lat_total_ms is None,
            },
            time_of(d.pm_ws_stale_ms) == if o.last_ws_ts_ms > 0 {
                Some(max(self@.now_ms - o.last_ws_ts_ms, 0))
            } else {
                None
            },
    {
        let (in_position, pos_side, pos_entry, pos_tp, pos_sl): (bool, String, i64, i64, i64) =
            match self.mgr.position() {
            Some(p) => (true, p.side.as_str().to_string(), p.entry_price, p.tp_price, p.sl_price),
            None => (false, String::new(), 0, 0, 0),
        };
        Dashboard {
            market_slug: match &self.market {
                Some(m) => m.slug.clone(),
                None => String::new(),
            },
            remaining_s: self.remaining_s,
            fair_up: self.last_fair,
            real_up: self.real_up,
            gap: minus(self.last_fair, self.real_up),
            in_position,
            pos_side,
            pos_entry,
            pos_tp,
            pos_sl,
            mode: if o.breaker_tripped {
                "BREAKER".to_string()
            } else if o.live_active {
                "LIVE".to_string()
            } else {
                "PAUSE".to_string()
            },
            live_enabled: o.live_enabled,
            live_paused: o.live_paused,
            live_armed: self.cfg.live_armed,
            breaker_tripped: o.breaker_tripped,
            max_drawdown: o.max_drawdown,
            lat_polymarket_ms: o.lat_polymarket_ms,
            live_bankroll: self.bankroll,
            live_pnl: if self.mgr.state.shots > 0 {
                Some(self.mgr.state.realized_pnl)
            } else {
                o.session_pnl
            },
            live_shots: self.mgr.state.shots,
            live_force_min: self.cfg.live_force_min_size,
            fixed_order_usd: self.cfg.fixed_order_usd,
            maker: self.cfg.maker_mode,
            lat_last_buy_ms: self.mgr.last_buy_ms,
            lat_last_sell_ms: self.mgr.last_sell_ms,
            lat_transport_ms: self.last_transport_ms,
            lat_decide_ms: self.last_decide_ms,
            lat_post_ms: self.mgr.last_buy_ms,
            lat_total_ms: match (self.last_transport_ms, self.last_decide_ms, self.mgr.last_buy_ms) {
                (Some(t), Some(c), Some(p)) => Some(t as u128 + c as u128 + p as u128),
                _ => None,
            },
            pm_ws_stale_ms: if o.last_ws_ts_ms > 0 {
                Some(self.now_ms.saturating_sub(o.last_ws_ts_ms))
            } else {
                None
            },
        }
    }
}

/// What the answer about the status of a buy tells: whether it is filled to its end, and nothing
/// where none of it is filled.
pub fn poll_outcome(size_matched: i64, status: &str) -> (r: Option<bool>)
    ensures
        r == if size_matched > 0 {
            Some(lowered(status@) == lowered("MATCHED"@))
        } else {
            None
        },
        r == poll_outcome_of(size_matched as int, status@),
{
    if size_matched > 0 {
        Some(same_ignoring_case(status, "MATCHED"))
    } else {
        None
    }
}

/// Whether the breaker is to trip: it has not, the bankroll is known, and its drawdown is reached.
pub fn breaker_trips(already_tripped: bool, bankroll_known: bool, drawdown_reached: bool) -> (r:
    bool)
    ensures
        r == (!already_tripped && bankroll_known && drawdown_reached),
{
    !already_tripped && bankroll_known && drawdown_reached
}

} // verus!
