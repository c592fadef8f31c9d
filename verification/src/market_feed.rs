//! The market feed: snapshots and changes of the books of the two tokens.

use crate::book::{quantity_of, set_size, BookView, Level, PolyBook};
use crate::decimal::{decimal_of, parse_decimal};
use crate::fixed::UNIT;
use crate::position::text_of;
use crate::text::same;
use vstd::prelude::*;

verus! {

/// The market that is traded.
#[derive(Debug)]
pub struct Market {
    pub slug: String,
    pub condition_id: String,
    pub up_token_id: String,
    pub down_token_id: String,
    pub neg_risk: bool,
    pub tick_size: i64,
    pub min_order_size: i64,
}

/// View of `Market`.
pub struct MarketView {
    pub slug: Seq<char>,
    pub condition_id: Seq<char>,
    pub up_token_id: Seq<char>,
    pub down_token_id: Seq<char>,
    pub neg_risk: bool,
    pub tick_size: int,
    pub min_order_size: int,
}

impl View for Market {
    type V = MarketView;

    open spec fn view(&self) -> MarketView {
        MarketView {
            slug: self.slug@,
            condition_id: self.condition_id@,
            up_token_id: self.up_token_id@,
            down_token_id: self.down_token_id@,
            neg_risk: self.neg_risk,
            tick_size: self.tick_size as int,
            min_order_size: self.min_order_size as int,
        }
    }
}

impl Clone for Market {
    fn clone(&self) -> (r: Self)
        ensures
            r == *self,
    {
        Market {
            slug: self.slug.clone(),
            condition_id: self.condition_id.clone(),
            up_token_id: self.up_token_id.clone(),
            down_token_id: self.down_token_id.clone(),
            neg_risk: self.neg_risk,
            tick_size: self.tick_size,
            min_order_size: self.min_order_size,
        }
    }
}

/// What the node knows of the market, kept by the feed.
#[derive(Debug)]
pub struct PmShared {
    pub market: Option<Market>,
    /// The price of the up token half way between bid and ask.
    pub real_up: i64,
    pub up_best_bid: i64,
    pub up_best_ask: i64,
    pub down_best_bid: i64,
    pub down_best_ask: i64,
    pub up_book: PolyBook,
    pub down_book: PolyBook,
    pub remaining_s: i64,
    /// When the feed last told something, zero before that.
    pub last_ws_ts_ms: u64,
}

/// View of `PmShared`.
pub struct SharedView {
    pub market: Option<MarketView>,
    pub real_up: int,
    pub up_best_bid: int,
    pub up_best_ask: int,
    pub down_best_bid: int,
    pub down_best_ask: int,
    pub up_book: BookView,
    pub down_book: BookView,
    pub remaining_s: int,
    pub last_ws_ts_ms: int,
}

/// A market that may be missing.
pub open spec fn market_of(m: Option<Market>) -> Option<MarketView> {
    match m {
        Some(x) => Some(x@),
        None => None,
    }
}

impl View for PmShared {
    type V = SharedView;

    open spec fn view(&self) -> SharedView {
        SharedView {
            market: market_of(self.market),
            real_up: self.real_up as int,
            up_best_bid: self.up_best_bid as int,
            up_best_ask: self.up_best_ask as int,
            down_best_bid: self.down_best_bid as int,
            down_best_ask: self.down_best_ask as int,
            up_book: self.up_book@,
            down_book: self.down_book@,
            remaining_s: self.remaining_s as int,
            last_ws_ts_ms: self.last_ws_ts_ms as int,
        }
    }
}

/// A level as the feed writes it.
#[derive(Debug)]
pub struct RawLevel {
    pub price: String,
    pub size: String,
}

/// A change of a level as the feed writes it.
#[derive(Debug)]
pub struct PriceChange {
    pub price: String,
    pub size: String,
    pub side: Option<String>,
}

/// An event of the feed.
#[derive(Debug)]
pub struct WsEvent {
    pub event_type: Option<String>,
    pub asset_id: Option<String>,
    pub bids: Vec<RawLevel>,
    pub asks: Vec<RawLevel>,
    pub changes: Vec<PriceChange>,
}

/// The level that the feed writes, where both of its numbers can be read.
pub open spec fn level_of(raw: RawLevel) -> Option<Level> {
    match (decimal_of(raw.price@), decimal_of(raw.size@)) {
        (Some(price), Some(size)) => Some(Level { price: price as i64, size: size as i64 }),
        _ => None,
    }
}

/// The levels that can be read, in the order of the feed.
pub open spec fn levels_of(raw: Seq<RawLevel>) -> Seq<Level>
    decreases raw.len(),
{
    if raw.len() == 0 {
        Seq::empty()
    } else {
        let rest = levels_of(raw.drop_last());
        match level_of(raw.last()) {
            Some(l) => rest.push(l),
            None => rest,
        }
    }
}

/// The book that a snapshot describes.
pub open spec fn book_of(ev: WsEvent) -> BookView {
    BookView { bids: levels_of(ev.bids@), asks: levels_of(ev.asks@) }
}

/// The book after one change; a change that cannot be read is passed over.
pub open spec fn after_change(book: BookView, c: PriceChange) -> BookView {
    match (decimal_of(c.price@), decimal_of(c.size@)) {
        (Some(price), Some(size)) => book.changed(
            text_of(c.side) == Some("BUY"@),
            price as i64,
            size as i64,
        ),
        _ => book,
    }
}

/// The book after the changes, one after the other.
pub open spec fn after_changes(book: BookView, changes: Seq<PriceChange>) -> BookView
    decreases changes.len(),
{
    if changes.len() == 0 {
        book
    } else {
        after_change(after_changes(book, changes.drop_last()), changes.last())
    }
}

/// `x`, or `other` where it is missing.
pub open spec fn or(x: Option<int>, other: int) -> int {
    match x {
        Some(v) => v,
        None => other,
    }
}

/// The token that an event is about; none is the empty name.
pub open spec fn asset_of(ev: WsEvent) -> Seq<char> {
    match text_of(ev.asset_id) {
        Some(id) => id,
        None => Seq::empty(),
    }
}

impl SharedView {
    /// The up token of the market, if there is a market.
    pub open spec fn up_token(self) -> Option<Seq<char>> {
        match self.market {
            Some(m) => Some(m.up_token_id),
            None => None,
        }
    }

    /// The down token of the market, if there is a market.
    pub open spec fn down_token(self) -> Option<Seq<char>> {
        match self.market {
            Some(m) => Some(m.down_token_id),
            None => None,
        }
    }

    /// The up token has the book `book`, and the price `price`.
    pub open spec fn with_up(self, book: BookView, price: int) -> SharedView {
        SharedView {
            real_up: price,
            up_best_bid: or(book.best_bid(), 0),
            up_best_ask: or(book.best_ask(), UNIT as int),
            up_book: book,
            ..self
        }
    }

    /// The down token has the book `book`.
    pub open spec fn with_down(self, book: BookView) -> SharedView {
        SharedView {
            down_best_bid: or(book.best_bid(), 0),
            down_best_ask: or(book.best_ask(), UNIT as int),
            down_book: book,
            ..self
        }
    }

    /// The feed told something at `now_ms`.
    pub open spec fn heard(self, now_ms: int) -> SharedView {
        SharedView { last_ws_ts_ms: now_ms, ..self }
    }

    /// After a snapshot.
    pub open spec fn after_snapshot(self, ev: WsEvent, now_ms: int) -> SharedView {
        let book = book_of(ev);
        let asset = asset_of(ev);
        if self.up_token() == Some(asset) {
            self.with_up(book, or(book.mid(), 0)).heard(now_ms)
        } else if self.down_token() == Some(asset) {
            self.with_down(book).heard(now_ms)
        } else {
            self.heard(now_ms)
        }
    }

    /// After changes of levels; changes of other tokens are passed over.
    pub open spec fn after_price_change(
        self,
        ev: WsEvent,
        up_tok: Option<Seq<char>>,
        dn_tok: Option<Seq<char>>,
        now_ms: int,
    ) -> SharedView {
        let asset = asset_of(ev);
        if up_tok == Some(asset) {
            let book = after_changes(self.up_book, ev.changes@);
            self.with_up(book, or(book.mid(), self.real_up)).heard(now_ms)
        } else if dn_tok == Some(asset) {
            self.with_down(after_changes(self.down_book, ev.changes@)).heard(now_ms)
        } else {
            self
        }
    }

    /// After one event.
    pub open spec fn after_event(self, ev: WsEvent, now_ms: int) -> SharedView {
        if text_of(ev.event_type) == Some("book"@) {
            self.after_snapshot(ev, now_ms)
        } else if text_of(ev.event_type) == Some("price_change"@) {
            self.after_price_change(ev, self.up_token(), self.down_token(), now_ms)
        } else {
            self
        }
    }

    /// After the events, one after the other.
    pub open spec fn after_events(self, events: Seq<WsEvent>, now_ms: int) -> SharedView
        decreases events.len(),
    {
        if events.len() == 0 {
            self
        } else {
            self.after_events(events.drop_last(), now_ms).after_event(events.last(), now_ms)
        }
    }
}

/// The tokens whose tick size changed, in the order of the events.
pub open spec fn tick_changes(events: Seq<WsEvent>) -> Seq<Seq<char>>
    decreases events.len(),
{
    if events.len() == 0 {
        Seq::empty()
    } else {
        let rest = tick_changes(events.drop_last());
        let ev = events.last();
        if text_of(ev.event_type) == Some("tick_size_change"@) && ev.asset_id is Some {
            rest.push(asset_of(ev))
        } else {
            rest
        }
    }
}

/// Reads a level.
pub fn parse_level(l: &RawLevel) -> (r: Option<Level>)
    ensures
        r == level_of(*l),
{
    match (parse_decimal(l.price.as_str()), parse_decimal(l.size.as_str())) {
        (Some(price), Some(size)) => Some(Level { price, size }),
        _ => None,
    }
}

/// Reads levels, passing over those that cannot be read.
fn parse_levels(raw: &Vec<RawLevel>) -> (r: Vec<Level>)
    ensures
        r@ == levels_of(raw@),
{
    let mut out: Vec<Level> = Vec::new();
    let mut i: usize = 0;
    assert(out@ =~= levels_of(raw@.take(0)));
    while i < raw.len()
        invariant
            i <= raw.len(),
            out@ == levels_of(raw@.take(i as int)),
        decreases raw.len() - i,
    {
        assert(raw@.take(i + 1).drop_last() =~= raw@.take(i as int));
        if let Some(l) = parse_level(&raw[i]) {
            out.push(l);
        }
        i += 1;
    }
    assert(raw@.take(i as int) =~= raw@);
    out
}

/// Reads the book of a snapshot.
pub fn build_book(ev: &WsEvent) -> (r: PolyBook)
    ensures
        r@ == book_of(*ev),
{
    PolyBook { bids: parse_levels(&ev.bids), asks: parse_levels(&ev.asks) }
}

/// Whether a text is there and is `word`.
pub fn is_word(t: &Option<String>, word: &str) -> (r: bool)
    ensures
        r == (text_of(*t) == Some(word@)),
{
    match t {
        Some(x) => same(x.as_str(), word),
        None => false,
    }
}

/// Applies the changes to a book.
fn apply_changes(book: &mut PolyBook, changes: &Vec<PriceChange>)
    ensures
        final(book)@ == after_changes(old(book)@, changes@),
{
    let ghost before = book@;
    let mut i: usize = 0;
    while i < changes.len()
        invariant
            i <= changes.len(),
            before == old(book)@,
            book@ == after_changes(before, changes@.take(i as int)),
        decreases changes.len() - i,
    {
        assert(changes@.take(i + 1).drop_last() =~= changes@.take(i as int));
        let c: &PriceChange = &changes[i];
        if let Some(price) = parse_decimal(c.price.as_str()) {
            if let Some(size) = parse_decimal(c.size.as_str()) {
                if is_word(&c.side, "BUY") {
                    set_size(&mut book.bids, price, size);
                } else {
                    set_size(&mut book.asks, price, size);
                }
            }
        }
        i += 1;
    }
    assert(changes@.take(i as int) =~= changes@);
}

/// `x`, or `other` where it is missing.
fn value_or(x: Option<i64>, other: i64) -> (r: i64)
    ensures
        r == or(quantity_of(x), other as int),
{
    match x {
        Some(v) => v,
        None => other,
    }
}

/// Whether an event is about the token `tok`.
fn is_about(ev: &WsEvent, tok: &Option<String>) -> (r: bool)
    ensures
        r == (text_of(*tok) == Some(asset_of(*ev))),
{
    match &ev.asset_id {
        Some(id) => is_word(tok, id.as_str()),
        None => match tok {
            Some(t) => {
                assert(t@.len() == 0 ==> t@ =~= Seq::empty());
                t.as_str().is_empty()
            },
            None => false,
        },
    }
}

/// Applies changes of levels to the book of their token.
pub fn apply_price_change(
    ev: &WsEvent,
    up_tok: &Option<String>,
    dn_tok: &Option<String>,
    g: &mut PmShared,
    now_ms: u64,
)
    ensures
        final(g)@ == old(g)@.after_price_change(
            *ev,
            text_of(*up_tok),
            text_of(*dn_tok),
            now_ms as int,
        ),
{
    if is_about(ev, up_tok) {
        apply_changes(&mut g.up_book, &ev.changes);
        g.real_up = value_or(g.up_book.mid(), g.real_up);
        g.up_best_bid = value_or(g.up_book.best_bid(), 0);
        g.up_best_ask = value_or(g.up_book.best_ask(), UNIT);
        g.last_ws_ts_ms = now_ms;
    } else if is_about(ev, dn_tok) {
        apply_changes(&mut g.down_book, &ev.changes);
        g.down_best_bid = value_or(g.down_book.best_bid(), 0);
        g.down_best_ask = value_or(g.down_book.best_ask(), UNIT);
        g.last_ws_ts_ms = now_ms;
    }
}

/// Takes a snapshot of a book.
fn apply_snapshot(
    ev: &WsEvent,
    up_tok: &Option<String>,
    dn_tok: &Option<String>,
    g: &mut PmShared,
    now_ms: u64,
)
    requires
        text_of(*up_tok) == old(g)@.up_token(),
        text_of(*dn_tok) == old(g)@.down_token(),
    ensures
        final(g)@ == old(g)@.after_snapshot(*ev, now_ms as int),
{
    let book: PolyBook = build_book(ev);
    if is_about(ev, up_tok) {
        g.real_up = value_or(book.mid(), 0);
        g.up_best_bid = value_or(book.best_bid(), 0);
        g.up_best_ask = value_or(book.best_ask(), UNIT);
        g.up_book = book;
    } else if is_about(ev, dn_tok) {
        g.down_best_bid = value_or(book.best_bid(), 0);
        g.down_best_ask = value_or(book.best_ask(), UNIT);
        g.down_book = book;
    }
    g.last_ws_ts_ms = now_ms;
}

/// Takes the events of one message. Returns the tokens whose tick size changed.
pub fn process_message(events: &Vec<WsEvent>, g: &mut PmShared, now_ms: u64) -> (r: Vec<String>)
    ensures
        final(g)@ == old(g)@.after_events(events@, now_ms as int),
        r@.map_values(|s: String| s@) == tick_changes(events@),
{
    let ghost before = g@;
    let mut stale: Vec<String> = Vec::new();
    let mut i: usize = 0;
    assert(stale@.map_values(|s: String| s@) =~= tick_changes(events@.take(0)));
    while i < events.len()
        invariant
            i <= events.len(),
            before == old(g)@,
            g@ == before.after_events(events@.take(i as int), now_ms as int),
            stale@.map_values(|s: String| s@) == tick_changes(events@.take(i as int)),
        decreases events.len() - i,
    {
        assert(events@.take(i + 1).drop_last() =~= events@.take(i as int));
        let ev: &WsEvent = &events[i];
        let (up_tok, dn_tok): (Option<String>, Option<String>) = match &g.market {
            Some(m) => (Some(m.up_token_id.clone()), Some(m.down_token_id.clone())),
            None => (None, None),
        };
        proof {
            reveal_strlit("book");
            reveal_strlit("price_change");
            reveal_strlit("tick_size_change");
            assert("book"@.len() != "tick_size_change"@.len());
            assert("price_change"@.len() != "tick_size_change"@.len());
        }
        if is_word(&ev.event_type, "book") {
            apply_snapshot(ev, &up_tok, &dn_tok, g, now_ms);
        } else if is_word(&ev.event_type, "price_change") {
            apply_price_change(ev, &up_tok, &dn_tok, g, now_ms);
        } else if is_word(&ev.event_type, "tick_size_change") {
            if let Some(asset) = &ev.asset_id {
                let ghost told = stale@.map_values(|s: String| s@);
                stale.push(asset.clone());
                assert(stale@.map_values(|s: String| s@) =~= told.push(asset@));
            }
        }
        i += 1;
    }
    assert(events@.take(i as int) =~= events@);
    stale
}

} // verus!
