//! The live position, the phases of its life and the records it leaves behind.
//!
//! Each type has a view over mathematical values, in which the transitions of the manager are
//! stated.

use crate::bus::Side;
use vstd::prelude::*;

verus! {

/// Counters and realised profit of live trading. `realized_pnl` is exact: `UNIT * UNIT` is one
/// dollar.
#[derive(Debug, Clone, Copy)]
pub struct LiveState {
    pub realized_pnl: i128,
    pub shots: u64,
    pub wins: u64,
    pub losses: u64,
    pub failed_closes: u64,
}

impl Default for LiveState {
    fn default() -> (r: Self)
        ensures
            r@ == StateView::start(),
    {
        LiveState { realized_pnl: 0, shots: 0, wins: 0, losses: 0, failed_closes: 0 }
    }
}

/// View of `LiveState`.
pub struct StateView {
    pub realized_pnl: int,
    pub shots: int,
    pub wins: int,
    pub losses: int,
    pub failed_closes: int,
}

impl StateView {
    /// Nothing traded yet.
    pub open spec fn start() -> StateView {
        StateView { realized_pnl: 0, shots: 0, wins: 0, losses: 0, failed_closes: 0 }
    }
}

impl View for LiveState {
    type V = StateView;

    open spec fn view(&self) -> StateView {
        StateView {
            realized_pnl: self.realized_pnl as int,
            shots: self.shots as int,
            wins: self.wins as int,
            losses: self.losses as int,
            failed_closes: self.failed_closes as int,
        }
    }
}

/// The open position. `size` is what is really held, never what was asked for.
#[derive(Debug)]
pub struct LivePosition {
    pub side: Side,
    pub token_id: String,
    pub entry_price: i64,
    /// Net size that can be sold: `bought` less `sold`.
    pub size: i64,
    pub tp_price: i64,
    pub sl_price: i64,
    pub opened_ms: u64,
    pub neg_risk: bool,
    pub buy_order_id: String,
    /// Price step of the market, kept to round the exit prices anew when the position grows.
    pub tick: i64,
    /// Cumulated purchase, as the server counts it; it never shrinks.
    pub bought: i64,
    /// Cumulated sale.
    pub sold: i64,
    /// Held until the market resolves: exempt from every exit but the catastrophe.
    pub hold_to_resolution: bool,
    /// Once set, stays set: the position is sold at the market until it is gone.
    pub catastrophe_armed: bool,
}

impl Clone for LivePosition {
    fn clone(&self) -> (r: Self)
        ensures
            r == *self,
    {
        LivePosition {
            side: self.side,
            token_id: self.token_id.clone(),
            entry_price: self.entry_price,
            size: self.size,
            tp_price: self.tp_price,
            sl_price: self.sl_price,
            opened_ms: self.opened_ms,
            neg_risk: self.neg_risk,
            buy_order_id: self.buy_order_id.clone(),
            tick: self.tick,
            bought: self.bought,
            sold: self.sold,
            hold_to_resolution: self.hold_to_resolution,
            catastrophe_armed: self.catastrophe_armed,
        }
    }
}

/// View of `LivePosition`.
pub struct PositionView {
    pub side: Side,
    pub token_id: Seq<char>,
    pub entry_price: int,
    pub size: int,
    pub tp_price: int,
    pub sl_price: int,
    pub opened_ms: int,
    pub neg_risk: bool,
    pub buy_order_id: Seq<char>,
    pub tick: int,
    pub bought: int,
    pub sold: int,
    pub hold_to_resolution: bool,
    pub catastrophe_armed: bool,
}

impl PositionView {
    /// Something was bought, no more was sold than was bought, and the net size is what is left.
    pub open spec fn wf(self) -> bool {
        &&& 0 < self.bought <= i64::MAX
        &&& 0 <= self.sold <= self.bought
        &&& self.size == self.bought - self.sold
    }

    /// `later` is the same position at a later time: neither what was bought nor what was sold has
    /// shrunk, and neither the hold nor the catastrophe was taken back.
    pub open spec fn becomes(self, later: PositionView) -> bool {
        &&& later.side == self.side
        &&& later.token_id == self.token_id
        &&& later.opened_ms == self.opened_ms
        &&& later.neg_risk == self.neg_risk
        &&& later.buy_order_id == self.buy_order_id
        &&& later.tick == self.tick
        &&& later.bought >= self.bought
        &&& later.sold >= self.sold
        &&& self.hold_to_resolution ==> later.hold_to_resolution
        &&& self.catastrophe_armed ==> later.catastrophe_armed
    }
}

impl View for LivePosition {
    type V = PositionView;

    open spec fn view(&self) -> PositionView {
        PositionView {
            side: self.side,
            token_id: self.token_id@,
            entry_price: self.entry_price as int,
            size: self.size as int,
            tp_price: self.tp_price as int,
            sl_price: self.sl_price as int,
            opened_ms: self.opened_ms as int,
            neg_risk: self.neg_risk,
            buy_order_id: self.buy_order_id@,
            tick: self.tick as int,
            bought: self.bought as int,
            sold: self.sold as int,
            hold_to_resolution: self.hold_to_resolution,
            catastrophe_armed: self.catastrophe_armed,
        }
    }
}

/// Which leg waits for a reconciliation by hand.
#[derive(Debug, Clone, Copy, PartialEq, Eq, Structural)]
pub enum ReconcileKind {
    Buy,
    Sell,
}

/// Life cycle of the position: there is one at most.
#[derive(Debug)]
pub enum LivePhase {
    Idle,
    /// A buy was accepted without a fill: it rests in the book. `cancel_since_ms` is when its
    /// cancellation was sent; a fill that arrives after that still wins.
    PendingBuy {
        order_id: String,
        side: Side,
        token_id: String,
        neg_risk: bool,
        requested_size: i64,
        tick: i64,
        since_ms: u64,
        cancel_since_ms: Option<u64>,
    },
    Open(LivePosition),
    /// A sale was accepted without a fill.
    PendingSell { position: LivePosition, reason: String, since_ms: u64 },
    /// To be reconciled by hand.
    Reconciling { order_id: String, since_ms: u64, kind: ReconcileKind },
}

impl Default for LivePhase {
    fn default() -> (r: Self)
        ensures
            r is Idle,
    {
        LivePhase::Idle
    }
}

impl Clone for LivePhase {
    fn clone(&self) -> (r: Self)
        ensures
            r == *self,
    {
        match self {
            LivePhase::Idle => LivePhase::Idle,
            LivePhase::PendingBuy {
                order_id,
                side,
                token_id,
                neg_risk,
                requested_size,
                tick,
                since_ms,
                cancel_since_ms,
            } => LivePhase::PendingBuy {
                order_id: order_id.clone(),
                side: *side,
                token_id: token_id.clone(),
                neg_risk: *neg_risk,
                requested_size: *requested_size,
                tick: *tick,
                since_ms: *since_ms,
                cancel_since_ms: *cancel_since_ms,
            },
            LivePhase::Open(p) => LivePhase::Open(p.clone()),
            LivePhase::PendingSell { position, reason, since_ms } => LivePhase::PendingSell {
                position: position.clone(),
                reason: reason.clone(),
                since_ms: *since_ms,
            },
            LivePhase::Reconciling { order_id, since_ms, kind } => LivePhase::Reconciling {
                order_id: order_id.clone(),
                since_ms: *since_ms,
                kind: *kind,
            },
        }
    }
}

/// View of `LivePhase`.
pub enum PhaseView {
    Idle,
    PendingBuy {
        order_id: Seq<char>,
        side: Side,
        token_id: Seq<char>,
        neg_risk: bool,
        requested_size: int,
        tick: int,
        since_ms: int,
        cancel_since_ms: Option<int>,
    },
    Open(PositionView),
    PendingSell { position: PositionView, reason: Seq<char>, since_ms: int },
    Reconciling { order_id: Seq<char>, since_ms: int, kind: ReconcileKind },
}

impl PhaseView {
    /// The position that the phase holds, sold or not.
    pub open spec fn held(self) -> Option<PositionView> {
        match self {
            PhaseView::Open(p) => Some(p),
            PhaseView::PendingSell { position, .. } => Some(position),
            _ => None,
        }
    }

    pub open spec fn wf(self) -> bool {
        self.held() matches Some(p) ==> p.wf()
    }
}

impl View for LivePhase {
    type V = PhaseView;

    open spec fn view(&self) -> PhaseView {
        match *self {
            LivePhase::Idle => PhaseView::Idle,
            LivePhase::PendingBuy {
                order_id,
                side,
                token_id,
                neg_risk,
                requested_size,
                tick,
                since_ms,
                cancel_since_ms,
            } => PhaseView::PendingBuy {
                order_id: order_id@,
                side,
                token_id: token_id@,
                neg_risk,
                requested_size: requested_size as int,
                tick: tick as int,
                since_ms: since_ms as int,
                cancel_since_ms: time_of(cancel_since_ms),
            },
            LivePhase::Open(p) => PhaseView::Open(p@),
            LivePhase::PendingSell { position, reason, since_ms } => PhaseView::PendingSell {
                position: position@,
                reason: reason@,
                since_ms: since_ms as int,
            },
            LivePhase::Reconciling { order_id, since_ms, kind } => PhaseView::Reconciling {
                order_id: order_id@,
                since_ms: since_ms as int,
                kind,
            },
        }
    }
}

/// A time that may be missing.
pub open spec fn time_of(t: Option<u64>) -> Option<int> {
    match t {
        Some(x) => Some(x as int),
        None => None,
    }
}

/// A text that may be missing.
pub open spec fn text_of(t: Option<String>) -> Option<Seq<char>> {
    match t {
        Some(x) => Some(x@),
        None => None,
    }
}

/// One line of the trade journal, without its time stamp.
#[derive(Debug)]
pub struct LiveTradeRec {
    pub kind: String,
    pub side: String,
    pub price: i64,
    pub size: i64,
    pub pnl: i128,
    pub order_id: String,
    pub realized_pnl_after: i128,
}

/// View of `LiveTradeRec`.
pub struct TradeView {
    pub kind: Seq<char>,
    pub side: Seq<char>,
    pub price: int,
    pub size: int,
    pub pnl: int,
    pub order_id: Seq<char>,
    pub realized_pnl_after: int,
}

impl View for LiveTradeRec {
    type V = TradeView;

    open spec fn view(&self) -> TradeView {
        TradeView {
            kind: self.kind@,
            side: self.side@,
            price: self.price as int,
            size: self.size as int,
            pnl: self.pnl as int,
            order_id: self.order_id@,
            realized_pnl_after: self.realized_pnl_after as int,
        }
    }
}

/// What the manager wants written: a line of the trade journal, or the state and the phase.
#[derive(Debug)]
pub enum Effect {
    Append(LiveTradeRec),
    Persist,
}

/// View of `Effect`.
pub enum EffectView {
    Append(TradeView),
    Persist,
}

impl View for Effect {
    type V = EffectView;

    open spec fn view(&self) -> EffectView {
        match *self {
            Effect::Append(rec) => EffectView::Append(rec@),
            Effect::Persist => EffectView::Persist,
        }
    }
}

} // verus!
