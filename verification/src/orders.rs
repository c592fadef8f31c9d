//! Orders handed to the exchange and what the exchange answers.

use crate::bus::Side;
use vstd::prelude::*;

verus! {

/// How long an order stays in the book.
#[derive(Debug, Clone, Copy, PartialEq, Eq, Structural)]
pub enum OrderKind {
    /// Fill what crosses now, kill the rest.
    Fak,
    /// Rest in the book until cancelled.
    Gtc,
}

/// Price and size of an order.
#[derive(Debug, Clone, Copy, PartialEq, Eq, Structural)]
pub struct OrderArgs {
    pub side: Side,
    pub price: i64,
    pub size: i64,
    pub is_sell: bool,
}

/// The answer of the order engine to one command.
#[derive(Debug)]
pub enum OrderResult {
    Placed { order_id: String, filled_size: Option<i64>, avg_price: Option<i64>, post_ms: u64 },
    DryRun,
    Cancelled { order_id: String },
    Failed { error: String },
}

/// The answer of the exchange to an order that it did not refuse.
#[derive(Debug)]
pub enum PlaceResult {
    Placed { order_id: String, filled_size: Option<i64>, avg_price: Option<i64>, post_ms: u64 },
    DryRun,
}

/// Parameters of sizing and exit. `tp_cents` and `sl_cents` count cents, `UNIT` being one cent.
#[derive(Debug, Clone, Copy, PartialEq, Eq, Structural)]
pub struct KellyParams {
    pub kelly_fraction: i64,
    pub max_size_pct: i64,
    pub tp_cents: i64,
    pub sl_cents: i64,
    pub max_hold_secs: i64,
}

/// What an answer says was filled: the size, where it is positive.
pub open spec fn filled_of(filled_size: Option<i64>) -> Option<int> {
    match filled_size {
        Some(n) => if n > 0 {
            Some(n as int)
        } else {
            None
        },
        None => None,
    }
}

} // verus!
