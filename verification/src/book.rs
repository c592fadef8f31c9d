//! The order book of one token.

use crate::fixed::{divide_nearest, greater, lesser, nearest, saturate};
use vstd::math::{abs, max, min};
use vstd::prelude::*;

verus! {

/// A price and the size that stands at it.
#[derive(Debug, Clone, Copy, PartialEq, Eq, Structural)]
pub struct Level {
    pub price: i64,
    pub size: i64,
}

/// The book of one token; its levels are in no order.
#[derive(Debug)]
pub struct PolyBook {
    pub bids: Vec<Level>,
    pub asks: Vec<Level>,
}

/// View of `PolyBook`.
pub struct BookView {
    pub bids: Seq<Level>,
    pub asks: Seq<Level>,
}

impl View for PolyBook {
    type V = BookView;

    open spec fn view(&self) -> BookView {
        BookView { bids: self.bids@, asks: self.asks@ }
    }
}

/// The highest price among the levels.
pub open spec fn highest(levels: Seq<Level>) -> Option<int>
    decreases levels.len(),
{
    if levels.len() == 0 {
        None
    } else {
        let last = levels.last().price as int;
        match highest(levels.drop_last()) {
            Some(h) => Some(max(h, last)),
            None => Some(last),
        }
    }
}

/// The lowest price among the levels.
pub open spec fn lowest(levels: Seq<Level>) -> Option<int>
    decreases levels.len(),
{
    if levels.len() == 0 {
        None
    } else {
        let last = levels.last().price as int;
        match lowest(levels.drop_last()) {
            Some(l) => Some(min(l, last)),
            None => Some(last),
        }
    }
}

/// Whether two prices are told apart.
pub open spec fn apart(l: Level, price: int) -> bool {
    abs(l.price - price) > 1
}

/// The levels without those at `price`.
pub open spec fn without(levels: Seq<Level>, price: int) -> Seq<Level> {
    levels.filter(|l: Level| apart(l, price))
}

/// The first position, `from` or later, of a level at `price`.
pub open spec fn level_from(levels: Seq<Level>, price: i64, from: int) -> Option<int>
    decreases levels.len() - from,
{
    if from < 0 || from >= levels.len() {
        None
    } else if levels[from].price == price {
        Some(from)
    } else {
        level_from(levels, price, from + 1)
    }
}

/// The levels after the size at `price` became `size`: a size of zero clears the price, another one
/// replaces the size of the first level there, or makes a level.
pub open spec fn with_size(levels: Seq<Level>, price: i64, size: i64) -> Seq<Level> {
    if size == 0 {
        without(levels, price as int)
    } else {
        match level_from(levels, price, 0) {
            Some(i) => levels.update(i, Level { price, size }),
            None => levels.push(Level { price, size }),
        }
    }
}

impl BookView {
    pub open spec fn empty() -> BookView {
        BookView { bids: Seq::empty(), asks: Seq::empty() }
    }

    /// The highest bid.
    pub open spec fn best_bid(self) -> Option<int> {
        highest(self.bids)
    }

    /// The lowest ask.
    pub open spec fn best_ask(self) -> Option<int> {
        lowest(self.asks)
    }

    /// The price half way between bid and ask, where there are both.
    pub open spec fn mid(self) -> Option<int> {
        match (self.best_bid(), self.best_ask()) {
            (Some(b), Some(a)) => Some(nearest(b + a, 2)),
            _ => None,
        }
    }

    /// The book after the size at `price` became `size` on one of its sides.
    pub open spec fn changed(self, is_bid: bool, price: i64, size: i64) -> BookView {
        if is_bid {
            BookView { bids: with_size(self.bids, price, size), ..self }
        } else {
            BookView { asks: with_size(self.asks, price, size), ..self }
        }
    }
}

/// A quantity that may be missing.
pub open spec fn quantity_of(x: Option<i64>) -> Option<int> {
    match x {
        Some(v) => Some(v as int),
        None => None,
    }
}

/// `highest` is the price of a level, and no level is above it.
pub proof fn highest_is_best(levels: Seq<Level>)
    ensures
        highest(levels) is Some <==> levels.len() > 0,
        levels.len() > 0 ==> exists|i: int|
            0 <= i < levels.len() && #[trigger] levels[i].price == highest(levels)->0,
        forall|i: int| 0 <= i < levels.len() ==> #[trigger] levels[i].price <= highest(levels)->0,
    decreases levels.len(),
{
    if levels.len() > 0 {
        let rest = levels.drop_last();
        highest_is_best(rest);
        assert forall|i: int| 0 <= i < levels.len() implies #[trigger] levels[i].price <= highest(
            levels,
        )->0 by {
            if i < rest.len() {
                assert(rest[i] == levels[i]);
            }
        }
        if rest.len() > 0 && highest(rest)->0 >= levels.last().price {
            let i = choose|i: int|
                0 <= i < rest.len() && #[trigger] rest[i].price == highest(rest)->0;
            assert(levels[i].price == highest(levels)->0);
        } else {
            assert(levels[levels.len() - 1].price == highest(levels)->0);
        }
    }
}

/// `lowest` is the price of a level, and no level is below it.
pub proof fn lowest_is_best(levels: Seq<Level>)
    ensures
        lowest(levels) is Some <==> levels.len() > 0,
        levels.len() > 0 ==> exists|i: int|
            0 <= i < levels.len() && #[trigger] levels[i].price == lowest(levels)->0,
        forall|i: int| 0 <= i < levels.len() ==> #[trigger] levels[i].price >= lowest(levels)->0,
    decreases levels.len(),
{
    if levels.len() > 0 {
        let rest = levels.drop_last();
        lowest_is_best(rest);
        assert forall|i: int| 0 <= i < levels.len() implies #[trigger] levels[i].price >= lowest(
            levels,
        )->0 by {
            if i < rest.len() {
                assert(rest[i] == levels[i]);
            }
        }
        if rest.len() > 0 && lowest(rest)->0 <= levels.last().price {
            let i = choose|i: int|
                0 <= i < rest.len() && #[trigger] rest[i].price == lowest(rest)->0;
            assert(levels[i].price == lowest(levels)->0);
        } else {
            assert(levels[levels.len() - 1].price == lowest(levels)->0);
        }
    }
}

impl PolyBook {
    /// An empty book.
    pub fn new() -> (r: Self)
        ensures
            r@ == BookView::empty(),
    {
        let r = PolyBook { bids: Vec::new(), asks: Vec::new() };
        assert(r.bids@ =~= Seq::empty() && r.asks@ =~= Seq::empty());
        r
    }

    /// The highest bid.
    pub fn best_bid(&self) -> (r: Option<i64>)
        ensures
            quantity_of(r) == self@.best_bid(),
    {
        let mut best: Option<i64> = None;
        let mut i: usize = 0;
        while i < self.bids.len()
            invariant
                i <= self.bids.len(),
                quantity_of(best) == highest(self.bids@.take(i as int)),
            decreases self.bids.len() - i,
        {
            assert(self.bids@.take(i + 1).drop_last() =~= self.bids@.take(i as int));
            let price: i64 = self.bids[i].price;
            best = match best {
                Some(h) => Some(greater(h, price)),
                None => Some(price),
            };
            i += 1;
        }
        assert(self.bids@.take(i as int) =~= self.bids@);
        best
    }

    /// The lowest ask.
    pub fn best_ask(&self) -> (r: Option<i64>)
        ensures
            quantity_of(r) == self@.best_ask(),
    {
        let mut best: Option<i64> = None;
        let mut i: usize = 0;
        while i < self.asks.len()
            invariant
                i <= self.asks.len(),
                quantity_of(best) == lowest(self.asks@.take(i as int)),
            decreases self.asks.len() - i,
        {
            assert(self.asks@.take(i + 1).drop_last() =~= self.asks@.take(i as int));
            let price: i64 = self.asks[i].price;
            best = match best {
                Some(l) => Some(lesser(l, price)),
                None => Some(price),
            };
            i += 1;
        }
        assert(self.asks@.take(i as int) =~= self.asks@);
        best
    }

    /// The price half way between bid and ask, where there are both.
    pub fn mid(&self) -> (r: Option<i64>)
        ensures
            quantity_of(r) == self@.mid(),
    {
        match (self.best_bid(), self.best_ask()) {
            (Some(b), Some(a)) => {
                proof {
                    crate::fixed::nearest_is_close(b + a, 2);
                }
                Some(saturate(divide_nearest(b as i128 + a as i128, 2)))
            },
            _ => None,
        }
    }
}

/// Sets the size at `price`.
pub fn set_size(levels: &mut Vec<Level>, price: i64, size: i64)
    ensures
        final(levels)@ == with_size(old(levels)@, price, size),
{
    let ghost before = levels@;
    if size == 0 {
        let mut kept: Vec<Level> = Vec::new();
        let ghost keep = |l: Level| apart(l, price as int);
        let mut i: usize = 0;
        assert(before.take(0).filter(keep) =~= Seq::<Level>::empty()) by {
            reveal(Seq::filter);
        }
        while i < levels.len()
            invariant
                i <= levels.len(),
                levels@ == before,
                keep == (|l: Level| apart(l, price as int)),
                kept@ == before.take(i as int).filter(keep),
            decreases levels.len() - i,
        {
            let l: Level = levels[i];
            proof {
                reveal(Seq::filter);
                assert(before.take(i + 1).drop_last() =~= before.take(i as int));
            }
            let gap: i128 = l.price as i128 - price as i128;
            if gap > 1 || gap < -1 {
                kept.push(l);
            }
            i += 1;
        }
        assert(before.take(i as int) =~= before);
        *levels = kept;
        return;
    }
    let mut i: usize = 0;
    while i < levels.len()
        invariant
            i <= levels.len(),
            levels@ == before,
            before == old(levels)@,
            size != 0,
            level_from(before, price, 0) == level_from(before, price, i as int),
        decreases levels.len() - i,
    {
        if levels[i].price == price {
            levels.set(i, Level { price, size });
            return;
        }
        i += 1;
    }
    levels.push(Level { price, size });
}

} // verus!
