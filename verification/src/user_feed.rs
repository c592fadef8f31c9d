//! The user feed: trades of our own orders.

use crate::decimal::{decimal_of, parse_decimal};
use crate::market_feed::is_word;
use crate::position::text_of;
use vstd::prelude::*;

verus! {

/// A confirmed fill.
///
/// It carries both ids: when our resting order is filled, ours is the maker's, and the side is that
/// of the other party. Whose fill it is goes by the id, and whether we bought or sold by our phase.
#[derive(Debug)]
pub struct FillEvent {
    pub taker_order_id: Option<String>,
    pub maker_order_id: Option<String>,
    pub filled_size: i64,
    pub avg_price: i64,
    /// Side of the taker, as the feed writes it.
    pub taker_side_is_sell: bool,
}

impl Clone for FillEvent {
    fn clone(&self) -> (r: Self)
        ensures
            r == *self,
    {
        FillEvent {
            taker_order_id: self.taker_order_id.clone(),
            maker_order_id: self.maker_order_id.clone(),
            filled_size: self.filled_size,
            avg_price: self.avg_price,
            taker_side_is_sell: self.taker_side_is_sell,
        }
    }
}

/// View of `FillEvent`.
pub struct FillView {
    pub taker_order_id: Option<Seq<char>>,
    pub maker_order_id: Option<Seq<char>>,
    pub filled_size: int,
    pub avg_price: int,
    pub taker_side_is_sell: bool,
}

impl FillView {
    /// Whether the order `id` took part in the trade.
    pub open spec fn involves(self, id: Seq<char>) -> bool {
        self.taker_order_id == Some(id) || self.maker_order_id == Some(id)
    }
}

impl View for FillEvent {
    type V = FillView;

    open spec fn view(&self) -> FillView {
        FillView {
            taker_order_id: text_of(self.taker_order_id),
            maker_order_id: text_of(self.maker_order_id),
            filled_size: self.filled_size as int,
            avg_price: self.avg_price as int,
            taker_side_is_sell: self.taker_side_is_sell,
        }
    }
}

impl FillEvent {
    /// Whether the order `id` took part in the trade, as taker or as maker.
    pub fn involves(&self, id: &str) -> (r: bool)
        ensures
            r == self@.involves(id@),
    {
        is_word(&self.taker_order_id, id) || is_word(&self.maker_order_id, id)
    }
}

/// An event of the feed.
#[derive(Debug)]
pub struct UserEvent {
    pub event_type: Option<String>,
    pub id: Option<String>,
    pub taker_order_id: Option<String>,
    pub maker_order_id: Option<String>,
    pub size: Option<String>,
    pub size_matched: Option<String>,
    pub price: Option<String>,
    pub side: Option<String>,
    pub status: Option<String>,
}

/// The number that a field writes; zero where it cannot be read.
pub open spec fn number_in(field: String) -> int {
    match decimal_of(field@) {
        Some(x) => x,
        None => 0,
    }
}

/// The fill that an event confirms: a trade whose size and price are there and positive.
pub open spec fn fill_of(ev: UserEvent) -> Option<FillView> {
    match (ev.size, ev.price) {
        (Some(size), Some(price)) => {
            if text_of(ev.event_type) == Some("trade"@) && number_in(size) > 0 && number_in(price)
                > 0 {
                Some(
                    FillView {
                        taker_order_id: text_of(ev.taker_order_id),
                        maker_order_id: text_of(ev.maker_order_id),
                        filled_size: number_in(size),
                        avg_price: number_in(price),
                        taker_side_is_sell: text_of(ev.side) == Some("SELL"@),
                    },
                )
            } else {
                None
            }
        },
        _ => None,
    }
}

/// The fills that the events confirm, in their order.
pub open spec fn fills_of(events: Seq<UserEvent>) -> Seq<FillView>
    decreases events.len(),
{
    if events.len() == 0 {
        Seq::empty()
    } else {
        let rest = fills_of(events.drop_last());
        match fill_of(events.last()) {
            Some(f) => rest.push(f),
            None => rest,
        }
    }
}

/// Reads the number of a field.
fn read_number_in(field: &String) -> (r: i64)
    ensures
        r == number_in(*field),
{
    match parse_decimal(field.as_str()) {
        Some(x) => x,
        None => 0,
    }
}

/// Reads the fill that an event confirms.
fn read_fill(ev: &UserEvent) -> (r: Option<FillEvent>)
    ensures
        match r {
            Some(f) => fill_of(*ev) == Some(f@),
            None => fill_of(*ev) is None,
        },
{
    if !is_word(&ev.event_type, "trade") {
        return None;
    }
    match (&ev.size, &ev.price) {
        (Some(size), Some(price)) => {
            let filled_size: i64 = read_number_in(size);
            let avg_price: i64 = read_number_in(price);
            if filled_size > 0 && avg_price > 0 {
                Some(
                    FillEvent {
                        taker_order_id: ev.taker_order_id.clone(),
                        maker_order_id: ev.maker_order_id.clone(),
                        filled_size,
                        avg_price,
                        taker_side_is_sell: is_word(&ev.side, "SELL"),
                    },
                )
            } else {
                None
            }
        },
        _ => None,
    }
}

/// Takes the events of one message. Every fill is handed on, none in place of another.
pub fn process_message(events: &Vec<UserEvent>) -> (r: Vec<FillEvent>)
    ensures
        r@.map_values(|f: FillEvent| f@) == fills_of(events@),
{
    let mut out: Vec<FillEvent> = Vec::new();
    let mut i: usize = 0;
    assert(out@.map_values(|f: FillEvent| f@) =~= fills_of(events@.take(0)));
    while i < events.len()
        invariant
            i <= events.len(),
            out@.map_values(|f: FillEvent| f@) == fills_of(events@.take(i as int)),
        decreases events.len() - i,
    {
        assert(events@.take(i + 1).drop_last() =~= events@.take(i as int));
        if let Some(f) = read_fill(&events[i]) {
            let ghost told = out@.map_values(|f: FillEvent| f@);
            out.push(f);
            assert(out@.map_values(|f: FillEvent| f@) =~= told.push(f@));
        }
        i += 1;
    }
    assert(events@.take(i as int) =~= events@);
    out
}

} // verus!
