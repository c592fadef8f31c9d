//! Laws of the books and of the two feeds.

use crate::book::{
    apart, highest_is_best, level_from, lowest_is_best, with_size, BookView, Level,
};
use crate::decimal::decimal_of;
use crate::fixed::UNIT;
use crate::market_feed::{
    after_change, after_changes, asset_of, book_of, levels_of, or, tick_changes, PriceChange,
    RawLevel, SharedView, WsEvent,
};
use crate::position::text_of;
use crate::price_laws::ties_go_away_from_zero;
use crate::user_feed::{fill_of, fills_of, FillView, UserEvent};
use vstd::prelude::*;

verus! {

/// The first level at a price is at that price, and is found in what it stands in.
proof fn level_is_found(levels: Seq<Level>, price: i64, from: int)
    requires
        0 <= from <= levels.len(),
    ensures
        level_from(levels, price, from) matches Some(i) ==> from <= i < levels.len()
            && levels[i].price == price,
        forall|j: int|
            from <= j < levels.len() && #[trigger] levels[j].price == price ==> {
                &&& level_from(levels, price, from) is Some
                &&& level_from(levels, price, from)->0 <= j
            },
    decreases levels.len() - from,
{
    if from < levels.len() && levels[from].price != price {
        level_is_found(levels, price, from + 1);
    }
}

/// A size that was set is read back: the first level at its price has it. A size of zero leaves no
/// level at the price.
pub proof fn size_is_read_back(levels: Seq<Level>, price: i64, size: i64)
    ensures
        size != 0 ==> {
            &&& level_from(with_size(levels, price, size), price, 0) matches Some(i)
            &&& with_size(levels, price, size)[i] == (Level { price, size })
        },
        size == 0 ==> level_from(with_size(levels, price, size), price, 0) is None,
{
    let after = with_size(levels, price, size);
    level_is_found(levels, price, 0);
    level_is_found(after, price, 0);
    if size != 0 {
        match level_from(levels, price, 0) {
            Some(i) => {
                assert(after[i].price == price);
                let j = level_from(after, price, 0)->0;
                if j < i {
                    assert(levels[j].price == price);
                }
            },
            None => {
                assert(after[levels.len() as int].price == price);
                let j = level_from(after, price, 0)->0;
                if j < levels.len() {
                    assert(levels[j].price == price);
                }
            },
        }
    } else {
        if level_from(after, price, 0) is Some {
            let j = level_from(after, price, 0)->0;
            levels.lemma_filter_pred(|l: Level| apart(l, price as int), j);
        }
    }
}

/// Setting the size at one price leaves every level away from that price as it is, and makes none.
pub proof fn other_prices_are_untouched(levels: Seq<Level>, price: i64, size: i64, l: Level)
    requires
        apart(l, price as int),
    ensures
        with_size(levels, price, size).contains(l) <==> levels.contains(l),
{
    let after = with_size(levels, price, size);
    let keep = |x: Level| apart(x, price as int);
    if size == 0 {
        if levels.contains(l) {
            let i = choose|i: int| 0 <= i < levels.len() && levels[i] == l;
            levels.lemma_filter_contains(keep, i);
        }
        if after.contains(l) {
            levels.lemma_filter_contains_rev(keep, l);
        }
    } else {
        level_is_found(levels, price, 0);
        if levels.contains(l) {
            let i = choose|i: int| 0 <= i < levels.len() && levels[i] == l;
            assert(after[i] == l);
        }
        if after.contains(l) {
            let i = choose|i: int| 0 <= i < after.len() && after[i] == l;
            assert(levels[i] == l);
        }
    }
}

/// A size that is not zero replaces the first level at its price, in its place, or comes as a new
/// level behind the others where there is none.
pub proof fn level_is_set_in_place(levels: Seq<Level>, price: i64, size: i64, i: int)
    requires
        size != 0,
        0 <= i <= levels.len(),
        forall|j: int| 0 <= j < i ==> #[trigger] levels[j].price != price,
        i < levels.len() ==> levels[i].price == price,
    ensures
        ({
            let after = with_size(levels, price, size);
            &&& after.len() == if i < levels.len() {
                levels.len()
            } else {
                levels.len() + 1
            }
            &&& after[i].price == price && after[i].size == size
            &&& forall|j: int| 0 <= j < levels.len() && j != i ==> #[trigger] after[j] == levels[j]
        }),
{
    level_is_found(levels, price, 0);
    if i < levels.len() {
        assert(levels[i].price == price);
    }
}

/// A size of zero clears the price: of the levels, those more than a billionth away stay, in their
/// order, and no other.
pub proof fn price_is_cleared(levels: Seq<Level>, price: i64, l: Level)
    ensures
        with_size(Seq::empty(), price, 0).len() == 0,
        l.price - price > 1 || price - l.price > 1 ==> with_size(levels.push(l), price, 0)
            == with_size(levels, price, 0).push(l),
        -1 <= l.price - price <= 1 ==> with_size(levels.push(l), price, 0) == with_size(
            levels,
            price,
            0,
        ),
{
    reveal(Seq::filter);
    assert(levels.push(l).drop_last() =~= levels);
    assert(levels.push(l).last() == l);
}

/// The best prices that are kept beside the books are those of the books.
pub open spec fn tops_agree(g: SharedView) -> bool {
    &&& g.up_best_bid == or(g.up_book.best_bid(), 0)
    &&& g.up_best_ask == or(g.up_book.best_ask(), UNIT as int)
    &&& g.down_best_bid == or(g.down_book.best_bid(), 0)
    &&& g.down_best_ask == or(g.down_book.best_ask(), UNIT as int)
}

/// The best prices follow the books through every message.
pub proof fn tops_follow_the_books(g: SharedView, events: Seq<WsEvent>, now_ms: int)
    requires
        tops_agree(g),
    ensures
        tops_agree(g.after_events(events, now_ms)),
    decreases events.len(),
{
    if events.len() > 0 {
        tops_follow_the_books(g, events.drop_last(), now_ms);
    }
}

/// An event of a token that is not traded leaves prices and books as they are.
pub proof fn other_tokens_are_ignored(g: SharedView, ev: WsEvent, now_ms: int)
    requires
        g.up_token() != Some(asset_of(ev)),
        g.down_token() != Some(asset_of(ev)),
    ensures
        g.after_event(ev, now_ms) == g || g.after_event(ev, now_ms) == g.heard(now_ms),
{
}

/// Events may come in one message or in two: the books end up the same.
pub proof fn messages_add_up(g: SharedView, first: Seq<WsEvent>, second: Seq<WsEvent>, now_ms: int)
    ensures
        g.after_events(first + second, now_ms) == g.after_events(first, now_ms).after_events(
            second,
            now_ms,
        ),
    decreases second.len(),
{
    if second.len() == 0 {
        assert(first + second =~= first);
    } else {
        messages_add_up(g, first, second.drop_last(), now_ms);
        assert((first + second).drop_last() =~= first + second.drop_last());
    }
}

/// No fill stands in for another: those of a message are the fills of its parts, one after the
/// other.
pub proof fn every_fill_is_handed_on(first: Seq<UserEvent>, second: Seq<UserEvent>)
    ensures
        fills_of(first + second) == fills_of(first) + fills_of(second),
    decreases second.len(),
{
    if second.len() == 0 {
        assert(first + second =~= first);
        assert(fills_of(first) + fills_of(second) =~= fills_of(first));
    } else {
        every_fill_is_handed_on(first, second.drop_last());
        assert((first + second).drop_last() =~= first + second.drop_last());
        assert(fills_of(first + second) =~= fills_of(first) + fills_of(second));
    }
}

/// A fill comes from a trade alone, and it always has a size and a price.
pub proof fn fills_are_trades(ev: UserEvent)
    ensures
        fill_of(ev) matches Some(f) ==> text_of(ev.event_type) == Some("trade"@) && f.filled_size
            > 0 && f.avg_price > 0,
{
}

/// Whichever party to the trade an order was, taker or maker, the fill is matched by its id.
pub proof fn either_party_is_matched(ev: UserEvent, id: Seq<char>)
    requires
        fill_of(ev) is Some,
    ensures
        fill_of(ev)->0.involves(id) <==> text_of(ev.taker_order_id) == Some(id) || text_of(
            ev.maker_order_id,
        ) == Some(id),
{
}

/// The price of a change is away from that of a level: it cannot be read, or is told apart from it.
pub open spec fn is_away(l: Level, c: PriceChange) -> bool {
    decimal_of(c.price@) matches Some(p) ==> l.price - p > 1 || p - l.price > 1
}

/// What a decimal literal writes is a quantity.
proof fn decimal_is_a_quantity(s: Seq<char>)
    ensures
        decimal_of(s) matches Some(x) ==> i64::MIN <= x <= i64::MAX,
{
}

/// One change leaves the levels away from it, on both sides of a book.
proof fn change_spares_other_levels(book: BookView, c: PriceChange, l: Level)
    requires
        is_away(l, c),
    ensures
        after_change(book, c).bids.contains(l) <==> book.bids.contains(l),
        after_change(book, c).asks.contains(l) <==> book.asks.contains(l),
{
    decimal_is_a_quantity(c.price@);
    decimal_is_a_quantity(c.size@);
    match (decimal_of(c.price@), decimal_of(c.size@)) {
        (Some(price), Some(size)) => {
            other_prices_are_untouched(book.bids, price as i64, size as i64, l);
            other_prices_are_untouched(book.asks, price as i64, size as i64, l);
        },
        _ => {},
    }
}

/// Changes leave the levels away from all of them, on both sides of a book.
proof fn changes_spare_other_levels(book: BookView, changes: Seq<PriceChange>, l: Level)
    requires
        forall|i: int| 0 <= i < changes.len() ==> is_away(l, #[trigger] changes[i]),
    ensures
        after_changes(book, changes).bids.contains(l) <==> book.bids.contains(l),
        after_changes(book, changes).asks.contains(l) <==> book.asks.contains(l),
    decreases changes.len(),
{
    if changes.len() > 0 {
        let rest = changes.drop_last();
        assert forall|i: int| 0 <= i < rest.len() implies is_away(l, #[trigger] rest[i]) by {
            assert(rest[i] == changes[i]);
        }
        changes_spare_other_levels(book, rest, l);
        assert(is_away(l, changes[changes.len() - 1]));
        change_spares_other_levels(after_changes(book, rest), changes.last(), l);
    }
}

/// A change of levels leaves every level away from the changed prices as it was, in the book of its
/// token and in the book of the other.
pub proof fn change_leaves_other_levels(
    g: SharedView,
    ev: WsEvent,
    up_tok: Option<Seq<char>>,
    dn_tok: Option<Seq<char>>,
    now_ms: int,
    l: Level,
)
    requires
        forall|i: int| 0 <= i < ev.changes@.len() ==> is_away(l, #[trigger] ev.changes@[i]),
    ensures
        ({
            let after = g.after_price_change(ev, up_tok, dn_tok, now_ms);
            &&& after.up_book.bids.contains(l) <==> g.up_book.bids.contains(l)
            &&& after.up_book.asks.contains(l) <==> g.up_book.asks.contains(l)
            &&& after.down_book.bids.contains(l) <==> g.down_book.bids.contains(l)
            &&& after.down_book.asks.contains(l) <==> g.down_book.asks.contains(l)
        }),
{
    changes_spare_other_levels(g.up_book, ev.changes@, l);
    changes_spare_other_levels(g.down_book, ev.changes@, l);
}

/// A change of levels leaves everything that is known of the other token, and the market and its
/// time; one of neither token leaves all there is.
pub proof fn change_leaves_the_other_token(
    g: SharedView,
    ev: WsEvent,
    up_tok: Option<Seq<char>>,
    dn_tok: Option<Seq<char>>,
    now_ms: int,
)
    ensures
        ({
            let after = g.after_price_change(ev, up_tok, dn_tok, now_ms);
            let asset = if ev.asset_id is Some {
                ev.asset_id->0@
            } else {
                Seq::empty()
            };
            let is_up = up_tok == Some(asset);
            let is_down = !is_up && dn_tok == Some(asset);
            &&& !is_up && !is_down ==> after == g
            &&& is_up ==> after == (SharedView {
                real_up: after.real_up,
                up_best_bid: after.up_best_bid,
                up_best_ask: after.up_best_ask,
                up_book: after_changes(g.up_book, ev.changes@),
                last_ws_ts_ms: now_ms,
                ..g
            })
            &&& is_down ==> after == (SharedView {
                down_best_bid: after.down_best_bid,
                down_best_ask: after.down_best_ask,
                down_book: after_changes(g.down_book, ev.changes@),
                last_ws_ts_ms: now_ms,
                ..g
            })
        }),
{
}

/// `levels` have the size at the price: the first level there has it, and a size of zero means that
/// there is none.
pub open spec fn reads_back(levels: Seq<Level>, price: int, size: int) -> bool {
    &&& size != 0 ==> exists|i: int|
        0 <= i < levels.len() && #[trigger] levels[i].price == price && levels[i].size == size
            && forall|j: int| 0 <= j < i ==> #[trigger] levels[j].price != price
    &&& size == 0 ==> forall|i: int|
        0 <= i < levels.len() ==> (#[trigger] levels[i]).price - price > 1 || price
            - levels[i].price > 1
}

/// A size that was set is read back by whoever reads the levels.
proof fn set_size_reads_back(levels: Seq<Level>, price: i64, size: i64)
    ensures
        reads_back(with_size(levels, price, size), price as int, size as int),
{
    let after = with_size(levels, price, size);
    size_is_read_back(levels, price, size);
    level_is_found(after, price, 0);
    if size != 0 {
        let i = level_from(after, price, 0)->0;
        assert(after[i].price == price && after[i].size == size);
        assert forall|j: int| 0 <= j < i implies #[trigger] after[j].price != price by {
            if after[j].price == price {
                assert(level_from(after, price, 0)->0 <= j);
            }
        }
    } else {
        assert forall|i: int| 0 <= i < after.len() implies (#[trigger] after[i]).price - price > 1
            || price - after[i].price > 1 by {
            levels.lemma_filter_pred(|l: Level| apart(l, price as int), i);
        }
    }
}

/// The last change of an event is read back from the book of its token, on the side it is of: among
/// the bids where it is one to buy, among the asks otherwise.
pub proof fn last_change_is_read_back(
    g: SharedView,
    ev: WsEvent,
    up_tok: Option<Seq<char>>,
    dn_tok: Option<Seq<char>>,
    now_ms: int,
)
    requires
        ev.changes@.len() > 0,
        decimal_of(ev.changes@.last().price@) is Some,
        decimal_of(ev.changes@.last().size@) is Some,
        ev.asset_id is Some,
        up_tok == Some(ev.asset_id->0@) || dn_tok == Some(ev.asset_id->0@),
    ensures
        ({
            let after = g.after_price_change(ev, up_tok, dn_tok, now_ms);
            let book = if up_tok == Some(ev.asset_id->0@) {
                after.up_book
            } else {
                after.down_book
            };
            let c = ev.changes@.last();
            let buys = c.side is Some && c.side->0@ == "BUY"@;
            let levels = if buys {
                book.bids
            } else {
                book.asks
            };
            reads_back(levels, decimal_of(c.price@)->0, decimal_of(c.size@)->0)
        }),
{
    let c = ev.changes@.last();
    decimal_is_a_quantity(c.price@);
    decimal_is_a_quantity(c.size@);
    let price = decimal_of(c.price@)->0 as i64;
    let size = decimal_of(c.size@)->0 as i64;
    let up = after_changes(g.up_book, ev.changes@.drop_last());
    let down = after_changes(g.down_book, ev.changes@.drop_last());
    set_size_reads_back(up.bids, price, size);
    set_size_reads_back(up.asks, price, size);
    set_size_reads_back(down.bids, price, size);
    set_size_reads_back(down.asks, price, size);
}

/// Changes may come in one event or in two; one that cannot be read does nothing; one to buy sets a
/// size among the bids and leaves the asks, and any other sets one among the asks and leaves the bids.
pub proof fn changes_add_up(
    book: BookView,
    first: Seq<PriceChange>,
    second: Seq<PriceChange>,
    c: PriceChange,
)
    ensures
        after_changes(book, first + second) == after_changes(after_changes(book, first), second),
        after_changes(book, Seq::empty()) == book,
        after_changes(book, seq![c]) == after_change(book, c),
        decimal_of(c.price@) is None || decimal_of(c.size@) is None ==> after_change(book, c)
            == book,
        c.side is Some && c.side->0@ == "BUY"@ ==> after_change(book, c).asks == book.asks,
        !(c.side is Some && c.side->0@ == "BUY"@) ==> after_change(book, c).bids == book.bids,
        decimal_of(c.price@) is Some && decimal_of(c.size@) is Some ==> {
            let price = decimal_of(c.price@)->0 as i64;
            let size = decimal_of(c.size@)->0 as i64;
            if c.side is Some && c.side->0@ == "BUY"@ {
                after_change(book, c).bids == with_size(book.bids, price, size)
            } else {
                after_change(book, c).asks == with_size(book.asks, price, size)
            }
        },
    decreases second.len(),
{
    let none = seq![c].drop_last();
    assert(none =~= Seq::empty());
    assert(after_changes(book, none) == book);
    if second.len() == 0 {
        assert(first + second =~= first);
    } else {
        changes_add_up(book, first, second.drop_last(), c);
        assert((first + second).drop_last() =~= first + second.drop_last());
    }
}

/// The levels of a snapshot are those that can be read, in their order, each with its own price and
/// size.
pub proof fn snapshot_holds_its_levels(first: Seq<RawLevel>, second: Seq<RawLevel>, raw: RawLevel)
    ensures
        levels_of(first + second) == levels_of(first) + levels_of(second),
        decimal_of(raw.price@) is Some && decimal_of(raw.size@) is Some ==> {
            &&& levels_of(seq![raw]).len() == 1
            &&& levels_of(seq![raw])[0].price == decimal_of(raw.price@)->0
            &&& levels_of(seq![raw])[0].size == decimal_of(raw.size@)->0
        },
        decimal_of(raw.price@) is None || decimal_of(raw.size@) is None ==> levels_of(
            seq![raw],
        ).len() == 0,
    decreases second.len(),
{
    decimal_is_a_quantity(raw.price@);
    decimal_is_a_quantity(raw.size@);
    let none = seq![raw].drop_last();
    assert(none.len() == 0);
    assert(levels_of(none).len() == 0);
    if second.len() == 0 {
        assert(first + second =~= first);
        assert(levels_of(first) + levels_of(second) =~= levels_of(first));
    } else {
        snapshot_holds_its_levels(first, second.drop_last(), raw);
        assert((first + second).drop_last() =~= first + second.drop_last());
        assert(levels_of(first + second) =~= levels_of(first) + levels_of(second));
    }
}

/// A snapshot replaces the book of its token, bids by bids and asks by asks, and nothing of the other
/// token; one of neither token only tells that the feed is alive.
pub proof fn snapshot_replaces_the_book(g: SharedView, ev: WsEvent, now_ms: int)
    ensures
        ({
            let after = g.after_snapshot(ev, now_ms);
            let asset = if ev.asset_id is Some {
                ev.asset_id->0@
            } else {
                Seq::empty()
            };
            let is_up = g.market is Some && g.market->0.up_token_id == asset;
            let is_down = !is_up && g.market is Some && g.market->0.down_token_id == asset;
            &&& is_up ==> after == (SharedView {
                real_up: after.real_up,
                up_best_bid: after.up_best_bid,
                up_best_ask: after.up_best_ask,
                up_book: after.up_book,
                last_ws_ts_ms: now_ms,
                ..g
            }) && after.up_book.bids == levels_of(ev.bids@) && after.up_book.asks == levels_of(
                ev.asks@,
            )
            &&& is_down ==> after == (SharedView {
                down_best_bid: after.down_best_bid,
                down_best_ask: after.down_best_ask,
                down_book: after.down_book,
                last_ws_ts_ms: now_ms,
                ..g
            }) && after.down_book.bids == levels_of(ev.bids@) && after.down_book.asks == levels_of(
                ev.asks@,
            )
            &&& !is_up && !is_down ==> after == (SharedView { last_ws_ts_ms: now_ms, ..g })
        }),
{
}

/// `bid` is the highest price among `bids`, zero where there is none.
pub open spec fn is_best_bid(bid: int, bids: Seq<Level>) -> bool {
    &&& bids.len() == 0 ==> bid == 0
    &&& bids.len() > 0 ==> exists|i: int| 0 <= i < bids.len() && #[trigger] bids[i].price == bid
    &&& forall|i: int| 0 <= i < bids.len() ==> #[trigger] bids[i].price <= bid
}

/// `ask` is the lowest price among `asks`, one dollar where there is none.
pub open spec fn is_best_ask(ask: int, asks: Seq<Level>) -> bool {
    &&& asks.len() == 0 ==> ask == 1_000_000_000
    &&& asks.len() > 0 ==> exists|i: int| 0 <= i < asks.len() && #[trigger] asks[i].price == ask
    &&& forall|i: int| 0 <= i < asks.len() ==> #[trigger] asks[i].price >= ask
}

/// `mid` is half of `sum`, and where that is no whole number the whole number farther from zero.
pub open spec fn is_middle(mid: int, sum: int) -> bool {
    &&& sum >= 0 ==> 0 <= 2 * mid - sum <= 1
    &&& sum <= 0 ==> -1 <= 2 * mid - sum <= 0
}

/// The best prices of a book and their middle.
proof fn prices_of(book: BookView)
    ensures
        is_best_bid(or(book.best_bid(), 0), book.bids),
        is_best_ask(or(book.best_ask(), UNIT as int), book.asks),
        book.mid() is Some <==> book.bids.len() > 0 && book.asks.len() > 0,
        book.mid() is Some ==> is_middle(
            book.mid()->0,
            book.best_bid()->0 + book.best_ask()->0,
        ),
{
    highest_is_best(book.bids);
    lowest_is_best(book.asks);
    if book.bids.len() > 0 && book.asks.len() > 0 {
        ties_go_away_from_zero(book.best_bid()->0 + book.best_ask()->0, 2);
    }
}

/// After a change or a snapshot of a token the prices that are kept of it are those of its book: the
/// highest bid, the lowest ask, and of the up token the middle of the two. Without a bid or an ask
/// there is no middle: a snapshot then has none, and a change keeps the last one.
pub proof fn prices_are_those_of_the_book(g: SharedView, ev: WsEvent, now_ms: int)
    requires
        g.market is Some,
        ev.asset_id is Some,
        g.market->0.up_token_id == ev.asset_id->0@ || g.market->0.down_token_id == ev.asset_id->0@,
    ensures
        ({
            let is_up = g.market->0.up_token_id == ev.asset_id->0@;
            let changed = g.after_price_change(
                ev,
                Some(g.market->0.up_token_id),
                Some(g.market->0.down_token_id),
                now_ms,
            );
            let fresh = g.after_snapshot(ev, now_ms);
            &&& is_up ==> has_own_up_prices(changed) && has_own_up_prices(fresh)
            &&& !is_up ==> has_own_down_prices(changed) && has_own_down_prices(fresh)
            &&& is_up && !is_two_sided(changed.up_book) ==> changed.real_up == g.real_up
            &&& is_up && !is_two_sided(fresh.up_book) ==> fresh.real_up == 0
        }),
{
    prices_of(book_of(ev));
    prices_of(after_changes(g.up_book, ev.changes@));
    prices_of(after_changes(g.down_book, ev.changes@));
}

/// A book has both bids and asks.
pub open spec fn is_two_sided(book: BookView) -> bool {
    book.bids.len() > 0 && book.asks.len() > 0
}

/// The prices of the up token are those of its book.
pub open spec fn has_own_up_prices(g: SharedView) -> bool {
    &&& is_best_bid(g.up_best_bid, g.up_book.bids)
    &&& is_best_ask(g.up_best_ask, g.up_book.asks)
    &&& is_two_sided(g.up_book) ==> is_middle(g.real_up, g.up_best_bid + g.up_best_ask)
}

/// The prices of the down token are those of its book.
pub open spec fn has_own_down_prices(g: SharedView) -> bool {
    &&& is_best_bid(g.down_best_bid, g.down_book.bids)
    &&& is_best_ask(g.down_best_ask, g.down_book.asks)
}

/// An event does what its type says: a book replaces, a price change changes, and anything else does
/// nothing. The tokens are those of the market.
pub proof fn events_do_what_they_say(g: SharedView, ev: WsEvent, now_ms: int)
    ensures
        ({
            let after = g.after_events(seq![ev], now_ms);
            let is_book = ev.event_type is Some && ev.event_type->0@ == "book"@;
            let is_change = ev.event_type is Some && ev.event_type->0@ == "price_change"@;
            let up = if g.market is Some {
                Some(g.market->0.up_token_id)
            } else {
                None
            };
            let down = if g.market is Some {
                Some(g.market->0.down_token_id)
            } else {
                None
            };
            &&& is_book ==> after == g.after_snapshot(ev, now_ms)
            &&& is_change ==> after == g.after_price_change(ev, up, down, now_ms)
            &&& !is_book && !is_change ==> after == g
        }),
        g.after_events(Seq::empty(), now_ms) == g,
{
    assert(seq![ev].drop_last() =~= Seq::empty());
    assert(g.after_events(Seq::<WsEvent>::empty(), now_ms) == g);
    reveal_strlit("book");
    reveal_strlit("price_change");
    assert("book"@.len() == 4 && "price_change"@.len() == 12);
}

/// Every token whose tick size changed is told, in the order of the events, and no other.
pub proof fn tick_changes_are_told(first: Seq<WsEvent>, second: Seq<WsEvent>, ev: WsEvent)
    ensures
        tick_changes(first + second) == tick_changes(first) + tick_changes(second),
        ({
            let told = tick_changes(seq![ev]);
            let is_tick = ev.event_type is Some && ev.event_type->0@ == "tick_size_change"@;
            &&& is_tick && ev.asset_id is Some ==> told == seq![ev.asset_id->0@]
            &&& !is_tick || ev.asset_id is None ==> told.len() == 0
        }),
    decreases second.len(),
{
    let none = seq![ev].drop_last();
    assert(none.len() == 0);
    assert(tick_changes(none).len() == 0);
    if second.len() == 0 {
        assert(first + second =~= first);
        assert(tick_changes(first) + tick_changes(second) =~= tick_changes(first));
    } else {
        tick_changes_are_told(first, second.drop_last(), ev);
        assert((first + second).drop_last() =~= first + second.drop_last());
        assert(tick_changes(first + second) =~= tick_changes(first) + tick_changes(second));
    }
    assert(ev.asset_id is Some ==> Seq::empty().push(ev.asset_id->0@) =~= seq![ev.asset_id->0@]);
}

/// A trade with a positive size and price is a fill with that size, that price, both ids and the side
/// of the taker; anything else is none.
pub proof fn trade_is_a_fill(ev: UserEvent)
    ensures
        ({
            let is_trade = ev.event_type is Some && ev.event_type->0@ == "trade"@;
            let size = decimal_of(ev.size->0@);
            let price = decimal_of(ev.price->0@);
            let counts = is_trade && ev.size is Some && ev.price is Some && size is Some && price
                is Some && size->0 > 0 && price->0 > 0;
            let fills = fills_of(seq![ev]);
            &&& counts ==> {
                &&& fills.len() == 1
                &&& fills[0].filled_size == size->0
                &&& fills[0].avg_price == price->0
                &&& fills[0].taker_side_is_sell == (ev.side is Some && ev.side->0@ == "SELL"@)
                &&& ev.taker_order_id is Some ==> fills[0].taker_order_id == Some(
                    ev.taker_order_id->0@,
                )
                &&& ev.taker_order_id is None ==> fills[0].taker_order_id is None
                &&& ev.maker_order_id is Some ==> fills[0].maker_order_id == Some(
                    ev.maker_order_id->0@,
                )
                &&& ev.maker_order_id is None ==> fills[0].maker_order_id is None
            }
            &&& !counts ==> fills.len() == 0
        }),
{
    let none = seq![ev].drop_last();
    assert(none.len() == 0);
    assert(fills_of(none).len() == 0);
}

/// A fill involves the two orders it names, and no other.
pub proof fn fill_involves_its_orders(f: FillView, id: Seq<char>)
    ensures
        f.taker_order_id == Some(id) ==> f.involves(id),
        f.maker_order_id == Some(id) ==> f.involves(id),
        f.involves(id) ==> f.taker_order_id == Some(id) || f.maker_order_id == Some(id),
{
}

} // verus!
