//! The executor node, which trades on paper and, once it is switched, live.

use crate::book::quantity_of;
use crate::bus::Side;
use crate::fixed::{minus, minus_of, HALF, UNIT};
use crate::live::{passed, Ignore, Quoted, QuotedView, Reject};
use crate::manager::LivePositionManager;
use crate::market_feed::{or, PmShared, SharedView};
use crate::orders::OrderKind;
use crate::position::{LivePosition, PhaseView, PositionView};
use crate::pricing::{exceeds, gap, gap_of};
use vstd::prelude::*;

verus! {

/// Settings of the node.
#[derive(Debug, Clone, Copy)]
pub struct ExecutorConfig {
    pub gap_min: i64,
    pub end_window_block_secs: i64,
    pub cooldown_ms: u64,
    pub live_force_min_size: bool,
}

/// The switches of the node at the time of a signal, and what live trading has at hand.
#[derive(Debug, Clone, Copy)]
pub struct Switches {
    pub breaker_tripped: bool,
    pub live_active: bool,
    pub paper_paused: bool,
    /// A live position is open.
    pub position_open: bool,
    pub bankroll: Option<i64>,
    pub has_credentials: bool,
}

/// A signal to be followed on paper.
#[derive(Debug)]
pub struct PaperShot {
    pub side: Side,
    pub token_id: String,
    pub edge: i64,
    pub tick: i64,
    pub min_order_size: i64,
}

/// View of `PaperShot`.
pub struct PaperShotView {
    pub side: Side,
    pub token_id: Seq<char>,
    pub edge: int,
    pub tick: int,
    pub min_order_size: int,
}

impl View for PaperShot {
    type V = PaperShotView;

    open spec fn view(&self) -> PaperShotView {
        PaperShotView {
            side: self.side,
            token_id: self.token_id@,
            edge: self.edge as int,
            tick: self.tick as int,
            min_order_size: self.min_order_size as int,
        }
    }
}

/// Where a signal goes.
#[derive(Debug)]
pub enum Route {
    Rejected(Reject),
    Ignored(Ignore),
    Live(Quoted),
    Paper(PaperShot),
    PaperPaused,
}

/// View of `Route`.
pub enum RouteView {
    Rejected(Reject),
    Ignored(Ignore),
    Live(QuotedView),
    Paper(PaperShotView),
    PaperPaused,
}

impl View for Route {
    type V = RouteView;

    open spec fn view(&self) -> RouteView {
        match *self {
            Route::Rejected(r) => RouteView::Rejected(r),
            Route::Ignored(i) => RouteView::Ignored(i),
            Route::Live(q) => RouteView::Live(q@),
            Route::Paper(p) => RouteView::Paper(p@),
            Route::PaperPaused => RouteView::PaperPaused,
        }
    }
}

/// The figures of the account on paper, as they are shown.
#[derive(Debug, Clone, Copy, PartialEq, Eq, Structural)]
pub struct PaperFigures {
    pub cash: i64,
    pub equity: i64,
    pub realized_pnl: i64,
    pub drawdown: i64,
    pub shots: u64,
    pub wins: u64,
    pub losses: u64,
    pub hit_rate: i64,
}

/// What the dashboard shows that the node does not keep itself.
#[derive(Debug, Clone, Copy)]
pub struct ExecutorOutlook<'a> {
    /// The name of the mode of the node.
    pub mode: &'a str,
    pub live_active: bool,
    pub paper_paused: bool,
    pub live_enabled: bool,
    pub live_paused: bool,
    pub live_armed: bool,
    pub breaker_tripped: bool,
    pub initial_capital: i64,
    pub max_drawdown: i64,
    pub lat_polymarket_ms: Option<u64>,
    pub live_bankroll: Option<i64>,
    /// The change of the bankroll since the session started.
    pub session_pnl: Option<i128>,
}

/// What the dashboard shows.
#[derive(Debug)]
pub struct ExecutorDashboard {
    pub market_slug: String,
    pub remaining_s: i64,
    pub fair_up: i64,
    pub real_up: i64,
    pub gap: i64,
    /// The position that is shown, if any is open.
    pub position: Option<ShownPosition>,
    pub paper: PaperFigures,
    pub mode: String,
    pub paper_paused: bool,
    pub live_enabled: bool,
    pub live_paused: bool,
    pub live_armed: bool,
    pub breaker_tripped: bool,
    pub initial_capital: i64,
    pub max_drawdown: i64,
    pub lat_polymarket_ms: Option<u64>,
    pub live_bankroll: Option<i64>,
    pub live_pnl: Option<i128>,
    pub live_shots: u64,
    pub live_force_min: bool,
}

/// The executor node.
#[derive(Debug, Clone, Copy)]
pub struct ExecutorNode {
    pub cfg: ExecutorConfig,
    pub last_fire_ms: u64,
    /// The fair price of the last signal.
    pub last_fair: i64,
    pub was_live: bool,
}

/// The token of a side.
pub open spec fn token_of(g: SharedView, side: Side) -> Seq<char> {
    match side {
        Side::Up => g.market->0.up_token_id,
        Side::Down => g.market->0.down_token_id,
    }
}

/// The best ask of the token of a side.
pub open spec fn ask_of(g: SharedView, side: Side) -> Option<int> {
    match side {
        Side::Up => g.up_book.best_ask(),
        Side::Down => g.down_book.best_ask(),
    }
}

/// The best bid of the token of a side.
pub open spec fn bid_of(g: SharedView, side: Side) -> Option<int> {
    match side {
        Side::Up => g.up_book.best_bid(),
        Side::Down => g.down_book.best_bid(),
    }
}

impl ExecutorNode {
    /// Why a signal is turned down, if it is: the first reason that holds.
    pub open spec fn reject(
        self,
        g: SharedView,
        side: Side,
        fair: int,
        now_ms: int,
        breaker_tripped: bool,
    ) -> Option<Reject> {
        if breaker_tripped {
            Some(Reject::Breaker)
        } else if g.market is None {
            Some(Reject::NoMarket)
        } else if g.remaining_s <= self.cfg.end_window_block_secs {
            Some(Reject::WindowEnding)
        } else if !passed(now_ms, self.last_fire_ms as int, self.cfg.cooldown_ms as int) {
            Some(Reject::Cooldown)
        } else if gap_of(side, fair, g.real_up) < self.cfg.gap_min {
            Some(Reject::Gap)
        } else {
            None
        }
    }

    /// Where a signal goes: to live trading while that is active, to paper otherwise.
    pub open spec fn route(
        self,
        g: SharedView,
        side: Side,
        fair: int,
        now_ms: int,
        s: Switches,
    ) -> RouteView {
        match self.reject(g, side, fair, now_ms, s.breaker_tripped) {
            Some(r) => RouteView::Rejected(r),
            None => {
                let m = g.market->0;
                let edge = gap_of(side, fair, g.real_up);
                if !s.live_active {
                    if s.paper_paused {
                        RouteView::PaperPaused
                    } else {
                        RouteView::Paper(
                            PaperShotView {
                                side,
                                token_id: token_of(g, side),
                                edge,
                                tick: m.tick_size,
                                min_order_size: m.min_order_size,
                            },
                        )
                    }
                } else if s.position_open {
                    RouteView::Ignored(Ignore::Busy)
                } else if s.bankroll is None {
                    RouteView::Ignored(Ignore::NoBankroll)
                } else if !s.has_credentials {
                    RouteView::Ignored(Ignore::NoCredentials)
                } else {
                    RouteView::Live(
                        QuotedView {
                            side,
                            token_id: token_of(g, side),
                            neg_risk: m.neg_risk,
                            price: or(ask_of(g, side), g.real_up),
                            kind: OrderKind::Fak,
                            edge,
                            bankroll: s.bankroll->0 as int,
                            tick: m.tick_size,
                            min_order_size: m.min_order_size,
                        },
                    )
                }
            },
        }
    }

    /// The size of a live buy, or why it is not worth it.
    pub open spec fn sized(self, q: QuotedView, kelly: Option<i64>) -> Result<int, Ignore> {
        match if self.cfg.live_force_min_size {
            Some(q.min_order_size)
        } else {
            quantity_of(kelly)
        } {
            None => Err(Ignore::SizeBelowMinimum),
            Some(size) => if size * q.price > q.bankroll * UNIT {
                Err(Ignore::BankrollTooSmall)
            } else {
                Ok(size)
            },
        }
    }

    /// A node that has seen nothing yet.
    pub fn new(cfg: ExecutorConfig) -> (r: Self)
        ensures
            r == (ExecutorNode {
                cfg,
                last_fire_ms: 0,
                last_fair: HALF,
                was_live: false,
            }),
    {
        ExecutorNode { cfg, last_fire_ms: 0, last_fair: HALF, was_live: false }
    }

    /// Why a signal is turned down, if it is.
    fn rejection(
        &self,
        g: &PmShared,
        side: Side,
        fair: i64,
        now_ms: u64,
        breaker_tripped: bool,
    ) -> (r: Option<Reject>)
        ensures
            r == self.reject(g@, side, fair as int, now_ms as int, breaker_tripped),
    {
        if breaker_tripped {
            Some(Reject::Breaker)
        } else if g.market.is_none() {
            Some(Reject::NoMarket)
        } else if g.remaining_s <= self.cfg.end_window_block_secs {
            Some(Reject::WindowEnding)
        } else if now_ms.saturating_sub(self.last_fire_ms) < self.cfg.cooldown_ms {
            Some(Reject::Cooldown)
        } else if gap(side, fair, g.real_up) < self.cfg.gap_min {
            Some(Reject::Gap)
        } else {
            None
        }
    }

    /// Takes a signal: the radar puts the fair price of the up token at `fair`.
    pub fn on_signal(&mut self, g: &PmShared, side: Side, fair: i64, now_ms: u64, s: Switches) -> (r:
        Route)
        ensures
            r@ == old(self).route(g@, side, fair as int, now_ms as int, s),
            *final(self) == (ExecutorNode { last_fair: fair, ..*old(self) }),
    {
        self.last_fair = fair;
        if let Some(reason) = self.rejection(g, side, fair, now_ms, s.breaker_tripped) {
            return Route::Rejected(reason);
        }
        let edge: i64 = gap(side, fair, g.real_up);
        match &g.market {
            Some(m) => {
                let token_id: String = match side {
                    Side::Up => m.up_token_id.clone(),
                    Side::Down => m.down_token_id.clone(),
                };
                if !s.live_active {
                    if s.paper_paused {
                        return Route::PaperPaused;
                    }
                    return Route::Paper(
                        PaperShot {
                            side,
                            token_id,
                            edge,
                            tick: m.tick_size,
                            min_order_size: m.min_order_size,
                        },
                    );
                }
                if s.position_open {
                    return Route::Ignored(Ignore::Busy);
                }
                let bankroll: i64 = match s.bankroll {
                    Some(b) => b,
                    None => {
                        return Route::Ignored(Ignore::NoBankroll);
                    },
                };
                if !s.has_credentials {
                    return Route::Ignored(Ignore::NoCredentials);
                }
                let ask: Option<i64> = match side {
                    Side::Up => g.up_book.best_ask(),
                    Side::Down => g.down_book.best_ask(),
                };
                Route::Live(
                    Quoted {
                        side,
                        token_id,
                        neg_risk: m.neg_risk,
                        price: match ask {
                            Some(a) => a,
                            None => g.real_up,
                        },
                        kind: OrderKind::Fak,
                        edge,
                        bankroll,
                        tick: m.tick_size,
                        min_order_size: m.min_order_size,
                    },
                )
            },
            None => Route::Rejected(Reject::NoMarket),
        }
    }

    /// The size of a live buy, where it is worth it and can be paid: the smallest size where that is
    /// forced, what `kelly` says otherwise.
    pub fn size_live(&self, q: &Quoted, kelly: Option<i64>) -> (r: Result<i64, Ignore>)
        ensures
            match if self.cfg.live_force_min_size {
                Some(q@.min_order_size)
            } else {
                quantity_of(kelly)
            } {
                None => r == Err::<i64, Ignore>(Ignore::SizeBelowMinimum),
                Some(size) => if size * q@.price > q@.bankroll * UNIT {
                    r == Err::<i64, Ignore>(Ignore::BankrollTooSmall)
                } else {
                    r matches Ok(x) && x == size
                },
            },
            match r {
                Ok(size) => self.sized(q@, kelly) == Ok::<int, Ignore>(size as int),
                Err(reason) => self.sized(q@, kelly) == Err::<int, Ignore>(reason),
            },
    {
        let sized: Option<i64> = if self.cfg.live_force_min_size {
            Some(q.min_order_size)
        } else {
            kelly
        };
        match sized {
            None => Err(Ignore::SizeBelowMinimum),
            Some(size) => if exceeds(size, q.price, q.bankroll) {
                Err(Ignore::BankrollTooSmall)
            } else {
                Ok(size)
            },
        }
    }

    /// Notes that a signal was followed.
    pub fn fired(&mut self, now_ms: u64)
        ensures
            *final(self) == (ExecutorNode { last_fire_ms: now_ms, ..*old(self) }),
    {
        self.last_fire_ms = now_ms;
    }

    /// What the dashboard shows: the market and the last signal, the live position or else the one
    /// on paper, the figures of the account on paper and those of live trading.
    pub fn dashboard(
        &self,
        g: &PmShared,
        live: &LivePositionManager,
        paper_position: Option<ShownPosition>,
        paper: PaperFigures,
        o: &ExecutorOutlook,
    ) -> (d: ExecutorDashboard)
        ensures
            d.market_slug@ == match g@.market {
                Some(m) => m.slug,
                None => Seq::empty(),
            },
            d.remaining_s == g@.remaining_s,
            d.fair_up == self.last_fair,
            d.real_up == g@.real_up,
            d.gap == minus_of(self.last_fair as int, g@.real_up),
            d.position == match live@.phase {
                PhaseView::Open(p) => Some(shown_of(p)),
                _ => paper_position,
            },
            d.paper == paper,
            d.mode@ == o.mode@,
            d.paper_paused == o.paper_paused,
            d.live_enabled == o.live_enabled,
            d.live_paused == o.live_paused,
            d.live_armed == o.live_armed,
            d.breaker_tripped == o.breaker_tripped,
            d.initial_capital == o.initial_capital,
            d.max_drawdown == o.max_drawdown,
            d.lat_polymarket_ms == o.lat_polymarket_ms,
            d.live_bankroll == o.live_bankroll,
            d.live_pnl == if !o.live_active {
                None
            } else if live@.state.shots > 0 {
                Some(live@.state.realized_pnl as i128)
            } else {
                o.session_pnl
            },
            d.live_shots == live@.state.shots,
            d.live_force_min == self.cfg.live_force_min_size,
    {
        ExecutorDashboard {
            market_slug: match &g.market {
                Some(m) => m.slug.clone(),
                None => String::new(),
            },
            remaining_s: g.remaining_s,
            fair_up: self.last_fair,
            real_up: g.real_up,
            gap: minus(self.last_fair, g.real_up),
            position: shown_position(live.position(), paper_position),
            paper,
            mode: o.mode.to_string(),
            paper_paused: o.paper_paused,
            live_enabled: o.live_enabled,
            live_paused: o.live_paused,
            live_armed: o.live_armed,
            breaker_tripped: o.breaker_tripped,
            initial_capital: o.initial_capital,
            max_drawdown: o.max_drawdown,
            lat_polymarket_ms: o.lat_polymarket_ms,
            live_bankroll: o.live_bankroll,
            live_pnl: shown_pnl(
                o.live_active,
                live.state.shots,
                live.state.realized_pnl,
                o.session_pnl,
            ),
            live_shots: live.state.shots,
            live_force_min: self.cfg.live_force_min_size,
        }
    }

    /// Notes whether live trading is active. Returns whether it has just become so: the profit of
    /// the session starts anew.
    pub fn session_starts(&mut self, is_live: bool) -> (r: bool)
        ensures
            r == (is_live && !old(self).was_live),
            *final(self) == (ExecutorNode { was_live: is_live, ..*old(self) }),
    {
        let starts: bool = is_live && !self.was_live;
        self.was_live = is_live;
        starts
    }
}

/// The best bid of the token of a position, where there is one.
pub fn mark_bid(g: &PmShared, side: Option<Side>) -> (r: Option<i64>)
    ensures
        quantity_of(r) == match side {
            Some(s) => bid_of(g@, s),
            None => None,
        },
{
    match side {
        Some(Side::Up) => g.up_book.best_bid(),
        Some(Side::Down) => g.down_book.best_bid(),
        None => None,
    }
}

/// Whether the drawdown of the account that trades is reached.
pub open spec fn drawdown_of(live_active: bool, live: Option<bool>, paper: bool) -> bool {
    if live_active {
        live == Some(true)
    } else {
        paper
    }
}

/// The profit that the dashboard shows.
pub open spec fn shown_pnl_of(
    live_active: bool,
    shots: u64,
    realized_pnl: i128,
    session_pnl: Option<i128>,
) -> Option<i128> {
    if !live_active {
        None
    } else if shots > 0 {
        Some(realized_pnl)
    } else {
        session_pnl
    }
}

/// Whether the drawdown is reached: that of the real bankroll while live trading is active, once it
/// is known; that of the paper account otherwise.
pub fn drawdown_reached(live_active: bool, live: Option<bool>, paper: bool) -> (r: bool)
    ensures
        r == if live_active {
            live == Some(true)
        } else {
            paper
        },
        r == drawdown_of(live_active, live, paper),
{
    if live_active {
        match live {
            Some(reached) => reached,
            None => false,
        }
    } else {
        paper
    }
}

/// The profit that the dashboard shows: the realised one once a live position was opened, the change
/// of the bankroll before that, nothing while live trading is off.
pub fn shown_pnl(
    live_active: bool,
    shots: u64,
    realized_pnl: i128,
    session_pnl: Option<i128>,
) -> (r: Option<i128>)
    ensures
        r == if !live_active {
            None
        } else if shots > 0 {
            Some(realized_pnl)
        } else {
            session_pnl
        },
        r == shown_pnl_of(live_active, shots, realized_pnl, session_pnl),
{
    if !live_active {
        None
    } else if shots > 0 {
        Some(realized_pnl)
    } else {
        session_pnl
    }
}

/// Side and levels of a position, as the dashboard shows them.
#[derive(Debug, Clone, Copy, PartialEq, Eq, Structural)]
pub struct ShownPosition {
    pub side: Side,
    pub entry: i64,
    pub tp: i64,
    pub sl: i64,
}

/// The levels of a live position.
pub open spec fn shown_of(p: PositionView) -> ShownPosition {
    ShownPosition {
        side: p.side,
        entry: p.entry_price as i64,
        tp: p.tp_price as i64,
        sl: p.sl_price as i64,
    }
}

/// The position that the dashboard shows: the live one, or else the one on paper.
pub fn shown_position(live: Option<&LivePosition>, paper: Option<ShownPosition>) -> (r: Option<
    ShownPosition,
>)
    ensures
        r == match live {
            Some(p) => Some(shown_of(p@)),
            None => paper,
        },
{
    match live {
        Some(p) => Some(
            ShownPosition {
                side: p.side,
                entry: p.entry_price,
                tp: p.tp_price,
                sl: p.sl_price,
            },
        ),
        None => paper,
    }
}

} // verus!
