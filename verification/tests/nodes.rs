//! Prices and sizes, the live node and the executor node.

use rust_quant_bot::book::{Level, PolyBook};
use rust_quant_bot::bus::Side;
use rust_quant_bot::executor::{
    drawdown_reached, mark_bid, shown_pnl, shown_position, ExecutorConfig, ExecutorNode,
    ExecutorOutlook, PaperFigures, Route, ShownPosition, Switches,
};
use rust_quant_bot::fixed::{plus, round_tick, times, whole_ceil, whole_floor, UNIT};
use rust_quant_bot::live::{
    breaker_trips, is_maker_mode, poll_outcome, BuyStep, Ignore, LiveConfig, LiveNode, Outlook,
    Quoted, Reject, Verdict,
};
use rust_quant_bot::manager::LivePositionManager;
use rust_quant_bot::market_feed::{Market, PmShared};
use rust_quant_bot::orders::{KellyParams, OrderKind, OrderResult};
use rust_quant_bot::position::LivePhase;
use rust_quant_bot::pricing::{
    exceeds, gap, maker_buy_price, order_size, required_gap, taker_exit_fee,
};
use rust_quant_bot::user_feed::FillEvent;

fn q(x: f64) -> i64 {
    (x * 1e9).round() as i64
}

#[test]
fn maker_price_below_ask_above_bid_for_k_quarter() {
    let p = maker_buy_price(q(0.40), q(0.50), q(0.01), q(0.25), q(1.0));
    assert!(p < q(0.50), "stays below the ask, got {p}");
    assert!(p <= q(0.49), "no higher than one tick under the ask, got {p}");
    assert!(p > q(0.40), "above the bid, got {p}");
    assert!((p - q(0.425)).abs() <= q(0.01), "about mid - k * spread, got {p}");
    assert_eq!(p, q(0.43));
}

#[test]
fn maker_price_k_half_equals_best_bid() {
    let p = maker_buy_price(q(0.40), q(0.50), q(0.01), q(0.5), q(1.0));
    assert_eq!(p, q(0.40), "half the spread is the bid, got {p}");
}

#[test]
fn maker_price_one_tick_market_clamps_under_ask() {
    let p = maker_buy_price(q(0.49), q(0.50), q(0.01), q(0.25), q(1.0));
    assert_eq!(p, q(0.49), "held at the ceiling, got {p}");
    assert!(p < q(0.50), "never at the ask");
}

#[test]
fn taker_exit_fee_max_at_mid_zero_at_extremes() {
    let mid = taker_exit_fee(q(0.07), q(0.50));
    assert_eq!(mid, q(0.0175), "0.07 * 0.25, got {mid}");
    assert!(taker_exit_fee(q(0.07), q(0.05)) < mid / 4, "tiny at the ends");
    assert!(taker_exit_fee(q(0.07), q(0.95)) < mid / 4, "tiny at the other end too");
    assert_eq!(taker_exit_fee(q(0.07), 0), 0);
    assert_eq!(taker_exit_fee(q(0.07), UNIT), 0);
    assert_eq!(taker_exit_fee(q(0.07), q(0.3)), taker_exit_fee(q(0.07), q(0.7)));
}

#[test]
fn round_tick_rounds_and_clamps() {
    assert_eq!(round_tick(q(0.4267), q(0.01)), q(0.43));
    assert_eq!(round_tick(q(0.004), q(0.01)), q(0.01));
    assert_eq!(round_tick(q(1.7), 0), q(1.7), "no tick, no rounding");
}

#[test]
fn maker_price_at_zero_spread_share_is_the_middle() {
    assert_eq!(maker_buy_price(q(0.40), q(0.50), q(0.01), 0, q(1.0)), q(0.45));
    assert_eq!(maker_buy_price(q(0.60), q(0.50), q(0.01), 0, q(1.0)), q(0.49), "a crossed book");
}

#[test]
fn maker_price_stays_below_the_lowest_asks() {
    for tick in [0.01, 0.001] {
        for ask in [0.001, 0.004, 0.005, 0.009, 0.01, 0.011, 0.02, 0.5] {
            for k in [0.0, 0.25, 0.5, 2.0] {
                let p = maker_buy_price(q(ask / 2.0), q(ask), q(tick), q(k), q(1.0));
                assert!(p < q(ask), "ask {ask}, tick {tick}, k {k}: got {p}");
            }
        }
    }
    assert_eq!(maker_buy_price(q(0.005), q(0.01), q(0.001), q(0.25), q(1.0)), q(0.009));
    assert_eq!(maker_buy_price(q(0.01), q(0.02), q(0.01), q(0.25), q(2.0)), q(0.01));
}

#[test]
fn no_order_rests_under_a_cent() {
    let mut low = shared(200);
    low.up_book = book(Some(0.005), Some(0.01));
    let mut n = node_with(config(), &low, 10_000);
    assert_eq!(ignored(n.on_signal(Side::Up, q(0.6), false, true, true)), Ignore::NoRoomUnderAsk);
    low.up_book = book(Some(0.01), Some(0.02));
    let mut room = node_with(config(), &low, 10_000);
    assert_eq!(priced(room.on_signal(Side::Up, q(0.6), false, true, true)).price, q(0.01));
}

#[test]
fn fixed_point_saturates_and_rounds() {
    assert_eq!(plus(i64::MAX, 1), i64::MAX);
    assert_eq!(times(q(0.5), 3), 2, "ties go away from zero");
    assert_eq!(times(q(0.5), -3), -2);
    assert_eq!(whole_floor(q(1.0), q(0.3)), q(3.0));
    assert_eq!(whole_ceil(q(1.0), q(0.3)), q(4.0));
    assert_eq!(whole_ceil(q(1.0), 0), i64::MAX);
}

#[test]
fn gap_favours_the_side() {
    assert_eq!(gap(Side::Up, q(0.6), q(0.5)), q(0.1));
    assert_eq!(gap(Side::Down, q(0.6), q(0.5)), -q(0.1));
    assert_eq!((Side::Up.as_str(), Side::Down.as_str()), ("up", "down"));
}

#[test]
fn required_gap_grows_with_decision_and_time() {
    let at = |real: f64, left: i64| required_gap(q(0.03), q(0.1), 0, q(real), left);
    assert_eq!(at(0.5, 0), q(0.03));
    assert_eq!(at(0.8, 150), q(0.045));
    assert_eq!(at(0.2, 150), q(0.045));
    assert_eq!(at(0.8, 400), q(0.03), "before the window nothing is over");
    assert!(at(0.8, 100) > at(0.8, 200));
    assert!(at(0.9, 100) > at(0.8, 100));
    assert_eq!(required_gap(q(0.03), 0, q(0.07), q(0.5), 300), q(0.0475));
}

#[test]
fn order_size_follows_its_settings() {
    let size = |fixed: f64, force: bool, kelly: Option<f64>, target: f64, price: f64| {
        order_size(q(fixed), force, kelly.map(q), q(target), q(5.0), q(price))
    };
    assert_eq!(size(10.0, false, None, 1.2, 0.30), Some(q(33.0)));
    assert_eq!(size(1.0, false, None, 1.2, 0.50), Some(q(5.0)));
    assert_eq!(size(0.0, true, Some(40.0), 1.2, 0.10), Some(q(12.0)));
    assert_eq!(size(0.0, false, Some(40.0), 1.2, 0.10), Some(q(40.0)));
    assert_eq!(size(0.0, false, None, 1.2, 0.10), None);
    assert!(exceeds(q(10.0), q(0.5), q(4.99)));
    assert!(!exceeds(q(10.0), q(0.5), q(5.0)));
}

fn config() -> LiveConfig {
    LiveConfig {
        maker_mode: true,
        live_armed: true,
        live_force_min_size: false,
        gap_min: q(0.03),
        gap_dynamic_k: 0,
        taker_fee_coeff: 0,
        end_window_block_secs: 20,
        price_min: q(0.10),
        price_max: q(0.90),
        cooldown_ms: 1000,
        maker_price_k_spread: q(0.5),
        maker_price_eps_ticks: q(1.0),
        entry_buffer: q(0.02),
        fixed_order_usd: 0,
        notional_target_usd: q(1.2),
        grace_frac_of_remaining: q(0.1),
        buy_grace_floor_ms: 2_000,
        buy_timeout_ms: 10_000,
        cancel_grace_ms: 3_000,
        sell_timeout_ms: 4_000,
        min_hold_sl_ms: 5_000,
        exit_retry_ms: 150,
        exit_buffer: q(0.02),
        max_hold_secs: 60,
        sell_skip_balance_refresh: false,
    }
}

fn manager() -> LivePositionManager {
    LivePositionManager::load_or_init(
        KellyParams {
            kelly_fraction: q(0.5),
            max_size_pct: q(0.1),
            tp_cents: q(4.0),
            sl_cents: q(3.0),
            max_hold_secs: 60,
        },
        None,
    )
}

fn book(bid: Option<f64>, ask: Option<f64>) -> PolyBook {
    PolyBook {
        bids: bid.map(|p| Level { price: q(p), size: q(100.0) }).into_iter().collect(),
        asks: ask.map(|p| Level { price: q(p), size: q(100.0) }).into_iter().collect(),
    }
}

fn shared(remaining_s: i64) -> PmShared {
    PmShared {
        market: Some(Market {
            slug: "btc-5m".to_string(),
            condition_id: "0xc".to_string(),
            up_token_id: "up".to_string(),
            down_token_id: "dn".to_string(),
            neg_risk: true,
            tick_size: q(0.01),
            min_order_size: q(5.0),
        }),
        real_up: q(0.5),
        up_best_bid: q(0.48),
        up_best_ask: q(0.52),
        down_best_bid: q(0.47),
        down_best_ask: q(0.53),
        up_book: book(Some(0.48), Some(0.52)),
        down_book: book(Some(0.47), Some(0.53)),
        remaining_s,
        last_ws_ts_ms: 9_000,
    }
}

fn node_with(cfg: LiveConfig, g: &PmShared, now_ms: u64) -> LiveNode {
    let mut n = LiveNode::new(cfg, manager());
    n.observe(g, now_ms, Some(q(100.0)));
    n
}

fn node() -> LiveNode {
    node_with(config(), &shared(200), 10_000)
}

fn rejected(n: &mut LiveNode, fair: f64) -> Reject {
    match n.on_signal(Side::Up, q(fair), false, true, true) {
        Verdict::Rejected(r) => r,
        other => panic!("should be turned down, got {other:?}"),
    }
}

fn ignored(v: Verdict) -> Ignore {
    match v {
        Verdict::Ignored(i) => i,
        other => panic!("should be ignored, got {other:?}"),
    }
}

fn priced(v: Verdict) -> Quoted {
    match v {
        Verdict::Priced(x) => x,
        other => panic!("should be priced, got {other:?}"),
    }
}

fn placed(id: &str, filled: Option<f64>, price: Option<f64>) -> Option<OrderResult> {
    Some(OrderResult::Placed {
        order_id: id.to_string(),
        filled_size: filled.map(q),
        avg_price: price.map(q),
        post_ms: 40,
    })
}

/// A node that has bought `filled` of five up tokens at 0.48.
fn bought(cfg: LiveConfig, filled: Option<f64>) -> LiveNode {
    let mut n = node_with(cfg, &shared(200), 10_000);
    let quoted = priced(n.on_signal(Side::Up, q(0.6), false, true, true));
    n.open_submitted(&quoted, q(5.0), 7, 3);
    n.on_open_reply(0, placed("b1", filled, filled.map(|_| 0.48)));
    n
}

#[test]
fn signal_is_turned_down_for_the_first_reason() {
    let mut n = node();
    assert!(matches!(n.on_signal(Side::Up, q(0.6), true, false, true), Verdict::Rejected(Reject::Breaker)));
    assert!(matches!(n.on_signal(Side::Up, q(0.6), false, false, true), Verdict::Rejected(Reject::Paused)));
    assert_eq!(rejected(&mut n, 0.52), Reject::Gap);
    let mut fresh = LiveNode::new(config(), manager());
    assert_eq!(rejected(&mut fresh, 0.6), Reject::NoMarket);
    assert_eq!(rejected(&mut node_with(config(), &shared(30), 10_000), 0.6), Reject::WindowEnding);
    let mut far = shared(200);
    far.real_up = q(0.91);
    assert_eq!(rejected(&mut node_with(config(), &far, 10_000), 0.99), Reject::PriceBand);
    let mut shot = node();
    shot.last_fire_ms = 9_500;
    assert_eq!(rejected(&mut shot, 0.6), Reject::Cooldown);
    assert_eq!(shot.last_fair, q(0.6));
}

#[test]
fn window_blocks_as_early_as_it_is_set() {
    let cfg = LiveConfig { end_window_block_secs: 60, ..config() };
    assert_eq!(rejected(&mut node_with(cfg, &shared(60), 10_000), 0.6), Reject::WindowEnding);
    let mut n = node_with(cfg, &shared(61), 10_000);
    priced(n.on_signal(Side::Up, q(0.6), false, true, true));
}

#[test]
fn signal_is_ignored_where_it_cannot_be_followed() {
    let mut n = node();
    n.bankroll = None;
    assert_eq!(ignored(n.on_signal(Side::Up, q(0.6), false, true, true)), Ignore::NoBankroll);
    let mut lone = node();
    assert_eq!(ignored(lone.on_signal(Side::Up, q(0.6), false, true, false)), Ignore::NoEngine);
    let mut half = shared(200);
    half.up_book = book(Some(0.48), None);
    let mut blind = node_with(config(), &half, 10_000);
    assert_eq!(ignored(blind.on_signal(Side::Up, q(0.6), false, true, true)), Ignore::IncompleteBook);
}

#[test]
fn second_buy_is_never_priced() {
    let mut n = node();
    let quoted = priced(n.on_signal(Side::Up, q(0.6), false, true, true));
    n.open_submitted(&quoted, q(5.0), 7, 3);
    n.now_ms = 20_000;
    assert_eq!(ignored(n.on_signal(Side::Up, q(0.6), false, true, true)), Ignore::Busy);
    n.on_open_reply(0, placed("b1", None, None));
    assert_eq!(n.pending_opens.len(), 0);
    assert_eq!(ignored(n.on_signal(Side::Up, q(0.6), false, true, true)), Ignore::Busy);
}

#[test]
fn resting_buy_is_priced_inside_the_spread() {
    let mut n = node();
    let x = priced(n.on_signal(Side::Down, q(0.4), false, true, true));
    assert_eq!((x.token_id.as_str(), x.price, x.kind, x.edge), ("dn", q(0.47), OrderKind::Gtc, q(0.1)));
    assert_eq!((x.bankroll, x.tick, x.min_order_size, x.neg_risk), (q(100.0), q(0.01), q(5.0), true));
}

#[test]
fn taking_buy_is_priced_above_the_ask() {
    let cfg = LiveConfig { maker_mode: false, ..config() };
    let mut n = node_with(cfg, &shared(200), 10_000);
    let x = priced(n.on_signal(Side::Up, q(0.6), false, true, true));
    assert_eq!((x.price, x.kind), (q(0.54), OrderKind::Fak));
    let mut bare = shared(200);
    bare.up_book = PolyBook::new();
    let mut blind = node_with(LiveConfig { entry_buffer: q(0.9), ..cfg }, &bare, 10_000);
    assert_eq!(priced(blind.on_signal(Side::Up, q(0.6), false, true, true)).price, q(0.99));
}

#[test]
fn order_is_sized_and_paid() {
    let mut n = node();
    let x = priced(n.on_signal(Side::Up, q(0.6), false, true, true));
    assert_eq!(n.size_order(&x, Some(q(20.0))), Ok(q(20.0)));
    assert_eq!(n.size_order(&x, None), Err(Ignore::SizeBelowMinimum));
    assert_eq!(n.size_order(&x, Some(q(1000.0))), Err(Ignore::BankrollTooSmall));
}

#[test]
fn submitted_buy_is_noted_and_answered() {
    let n = bought(config(), Some(5.0));
    assert_eq!((n.last_fire_ms, n.last_transport_ms, n.last_decide_ms), (10_000, Some(7), Some(3)));
    assert!(!n.buy_poll_done);
    assert_eq!(n.mgr.position().map(|p| (p.size, p.opened_ms)), Some((q(5.0), 10_000)));
    let mut lost = node();
    let quoted = priced(lost.on_signal(Side::Up, q(0.6), false, true, true));
    lost.open_submitted(&quoted, q(5.0), 7, 3);
    lost.on_open_reply(0, None);
    assert!(lost.mgr.is_idle() && lost.pending_opens.is_empty());
}

#[test]
fn rollover_is_told_once() {
    let mut n = node();
    let r = n.on_rollover().expect("a new market");
    assert_eq!(r.condition_id, "0xc");
    assert_eq!(r.warm, Some(("up".to_string(), "dn".to_string())));
    assert!(n.on_rollover().is_none());
    let mut dry = node_with(LiveConfig { live_armed: false, ..config() }, &shared(200), 1);
    assert_eq!(dry.on_rollover().map(|x| x.warm), Some(None));
    let mut none = LiveNode::new(config(), manager());
    assert!(none.on_rollover().is_none());
}

#[test]
fn fill_counts_for_the_followed_buy_as_either_party() {
    let fill = |taker: &str, maker: &str| FillEvent {
        taker_order_id: Some(taker.to_string()),
        maker_order_id: Some(maker.to_string()),
        filled_size: q(5.0),
        avg_price: q(0.48),
        taker_side_is_sell: true,
    };
    let mut n = bought(config(), None);
    assert!(!n.on_fill(&fill("x", "y")));
    assert!(n.mgr.position().is_none());
    assert!(n.on_fill(&fill("x", "b1")));
    assert_eq!(n.mgr.position().map(|p| p.size), Some(q(5.0)));
    let mut idle = node();
    assert!(!idle.on_fill(&fill("b1", "b1")));
}

#[test]
fn poll_adopts_and_stops_at_the_end() {
    let mut n = bought(config(), None);
    assert_eq!(n.poll_status(), Some("b1".to_string()));
    assert_eq!(n.poll_status(), None, "not again so soon");
    n.now_ms += 1500;
    assert_eq!(n.poll_status(), Some("b1".to_string()));
    n.on_poll("b1", q(5.0), q(0.48), true);
    assert!(n.buy_poll_done && n.mgr.position().is_some());
    n.now_ms += 1500;
    assert_eq!(n.poll_status(), None, "filled to its end");
    assert_eq!(poll_outcome(q(5.0), "matched"), Some(true));
    assert_eq!(poll_outcome(q(5.0), "LIVE"), Some(false));
    assert_eq!(poll_outcome(0, "MATCHED"), None);
}

#[test]
fn taker_leaves_no_buy_waiting() {
    let mut n = bought(LiveConfig { maker_mode: false, ..config() }, None);
    n.drop_unfilled_buy();
    assert!(n.mgr.is_idle());
    let mut maker = bought(config(), None);
    maker.drop_unfilled_buy();
    assert!(maker.mgr.pending_buy_info().is_some());
    let odd = LiveConfig { maker_mode: false, buy_grace_floor_ms: 9, buy_timeout_ms: 1, ..config() };
    assert!(matches!(bought(odd, None).buy_step(), BuyStep::Nothing), "the rest of a buy is the maker's");
    assert!(matches!(maker.poll_status(), Some(_)));
}

#[test]
fn resting_buy_is_cancelled_then_given_up() {
    let mut n = bought(config(), None);
    n.now_ms = 19_999;
    assert!(matches!(n.buy_step(), BuyStep::Nothing));
    n.now_ms = 20_000;
    match n.buy_step() {
        BuyStep::SendCancel(id) => assert_eq!(id, "b1"),
        other => panic!("should be cancelled, got {other:?}"),
    }
    n.now_ms = 22_999;
    assert!(matches!(n.buy_step(), BuyStep::Nothing), "the grace runs");
    n.now_ms = 23_000;
    assert!(matches!(n.buy_step(), BuyStep::GivenUp));
    assert!(n.mgr.is_idle());
}

#[test]
fn resting_buy_is_cancelled_sooner_near_the_end() {
    let mut n = bought(config(), None);
    n.remaining_s = 40;
    n.now_ms = 13_999;
    assert!(matches!(n.buy_step(), BuyStep::Nothing));
    n.now_ms = 14_000;
    assert!(matches!(n.buy_step(), BuyStep::SendCancel(_)));
    let mut late = bought(config(), None);
    late.remaining_s = 30;
    assert!(matches!(late.buy_step(), BuyStep::SendCancel(_)), "none rests into the end");
}

#[test]
fn sweep_runs_while_nothing_is_followed() {
    let mut n = node_with(config(), &shared(200), 60_000);
    assert!(n.sweep_at_start());
    assert!(n.sweep());
    assert!(!n.sweep());
    let mut busy = bought(config(), None);
    busy.now_ms = 600_000;
    assert!(!busy.sweep());
    let mut dry = node_with(LiveConfig { live_armed: false, ..config() }, &shared(200), 60_000);
    assert!(!dry.sweep() && !dry.sweep_at_start());
}

#[test]
fn allowance_is_synced_once_per_position() {
    let mut n = bought(config(), Some(5.0));
    n.last_sell_attempt_ms = 10_000;
    assert_eq!(n.sync_position(), Some("up".to_string()));
    assert_eq!(n.last_sell_attempt_ms, 0);
    assert_eq!(n.sync_position(), None);
    n.mgr.resolve_expired(0);
    assert_eq!(n.sync_position(), None);
    assert_eq!(n.synced_token, None);
}

#[test]
fn profit_is_taken_at_once_and_loss_after_a_while() {
    let mut n = bought(config(), Some(5.0));
    n.up.bid = Some(q(0.40));
    assert!(n.exit_step(true).is_none(), "the loss is not stopped yet");
    assert_eq!(n.last_up_bid, Some(("up".to_string(), q(0.40))));
    n.now_ms = 15_000;
    let stop = n.exit_step(true).expect("the loss is stopped");
    assert_eq!((stop.reason.as_str(), stop.price, stop.size, stop.kind), ("stop_loss", q(0.38), q(5.0), OrderKind::Fak));
    assert_eq!((stop.token_id.as_str(), stop.side, stop.neg_risk, stop.tick), ("up", Side::Up, true, q(0.01)));
    n.now_ms = 15_149;
    assert!(n.exit_step(true).is_none(), "not again so soon");
    n.up.bid = Some(q(0.52));
    n.now_ms = 15_150;
    assert_eq!(n.exit_step(true).map(|c| c.reason), Some("take_profit".to_string()));
    n.now_ms = 20_000;
    assert!(n.exit_step(false).is_none(), "no engine");
    n.close_submitted("take_profit");
    assert!(n.exit_step(true).is_none(), "one sale at a time");
}

#[test]
fn position_goes_when_its_time_is_over() {
    let mut n = bought(config(), Some(5.0));
    n.now_ms = 69_999;
    assert!(n.exit_step(true).is_none());
    n.now_ms = 70_000;
    assert_eq!(n.exit_step(true).map(|c| c.reason), Some("max_hold".to_string()));
    let mut end = bought(config(), Some(5.0));
    end.remaining_s = 30;
    assert_eq!(end.exit_step(true).map(|c| c.reason), Some("window_close".to_string()));
    let mut held = bought(config(), Some(5.0));
    held.mgr.mark_hold_to_resolution();
    held.remaining_s = 1;
    held.now_ms = 900_000;
    assert!(held.exit_step(true).is_none());
    held.mgr.arm_catastrophe();
    assert_eq!(held.exit_step(true).map(|c| c.reason), Some("catastrophe".to_string()));
}

#[test]
fn sale_price_has_a_floor() {
    let mut n = bought(config(), Some(5.0));
    n.up.bid = Some(q(0.02));
    n.now_ms = 20_000;
    assert_eq!(n.exit_step(true).map(|c| c.price), Some(q(0.01)));
}

#[test]
fn position_of_an_older_market_is_settled() {
    let mut n = bought(config(), Some(5.0));
    n.up.bid = Some(q(0.49));
    assert!(n.exit_step(true).is_none());
    let mut next = shared(299);
    if let Some(m) = &mut next.market {
        m.up_token_id = "up2".to_string();
    }
    next.up_book = book(Some(0.99), None);
    n.observe(&next, 11_000, Some(q(100.0)));
    assert!(n.exit_step(true).is_none(), "nothing is sold into the new book");
    assert!(n.mgr.is_idle());
    assert_eq!(n.mgr.state.realized_pnl, q(0.01) as i128 * q(5.0) as i128);
    assert_eq!(n.last_up_bid, None);
}

#[test]
fn position_without_a_bid_is_settled_at_zero() {
    let mut n = bought(config(), Some(5.0));
    n.up.bid = Some(q(0.49));
    assert!(n.exit_step(true).is_none());
    n.close_submitted("max_hold");
    n.on_close_reply(placed("s1", Some(5.0), Some(0.49)));
    assert!(n.mgr.is_idle());
    n.now_ms = 20_000;
    let quoted = priced(n.on_signal(Side::Down, q(0.4), false, true, true));
    n.open_submitted(&quoted, q(5.0), 7, 3);
    n.on_open_reply(0, placed("b2", Some(5.0), Some(0.30)));
    n.down.bid = None;
    assert!(n.exit_step(true).is_none());
    let mut next = shared(299);
    if let Some(m) = &mut next.market {
        m.up_token_id = "up2".to_string();
        m.down_token_id = "dn2".to_string();
    }
    n.observe(&next, 21_000, Some(q(100.0)));
    assert!(n.exit_step(true).is_none());
    assert_eq!((n.mgr.state.wins, n.mgr.state.losses), (1, 1));
    let earned = q(0.01) as i128 * q(5.0) as i128;
    assert_eq!(n.mgr.state.realized_pnl, earned - q(0.30) as i128 * q(5.0) as i128);
}

#[test]
fn bid_of_a_token_outlives_a_position_of_the_other_side() {
    let mut n = bought(config(), Some(5.0));
    n.up.bid = Some(q(0.49));
    assert!(n.exit_step(true).is_none());
    n.last_down_bid = Some(("dn".to_string(), q(0.33)));
    let mut next = shared(299);
    if let Some(m) = &mut next.market {
        m.up_token_id = "up2".to_string();
    }
    n.observe(&next, 21_000, Some(q(100.0)));
    assert!(n.exit_step(true).is_none());
    assert_eq!(n.mgr.state.realized_pnl, q(0.01) as i128 * q(5.0) as i128);
    assert_eq!(n.last_down_bid, Some(("dn".to_string(), q(0.33))));
}

#[test]
fn waiting_sale_is_no_new_position() {
    let mut n = bought(LiveConfig { sell_timeout_ms: 100, ..config() }, Some(5.0));
    assert_eq!(n.sync_position(), Some("up".to_string()));
    n.up.bid = Some(q(0.52));
    n.now_ms = 10_200;
    assert!(n.exit_step(true).is_some());
    n.close_submitted("take_profit");
    n.on_close_reply(placed("s1", None, None));
    assert_eq!(n.sync_position(), None);
    n.now_ms = 10_340;
    assert!(n.retry_stuck_sale());
    assert_eq!(n.sync_position(), None, "the same position");
    assert!(n.exit_step(true).is_none(), "the pause still runs");
    n.now_ms = 10_350;
    assert!(n.exit_step(true).is_some());
}

#[test]
fn refused_sale_asks_for_a_refresh() {
    let refused = || Some(OrderResult::Failed { error: "balance: 0".to_string() });
    let mut n = bought(config(), Some(5.0));
    n.close_submitted("stop_loss");
    assert_eq!(n.on_close_reply(refused()), Some("up".to_string()));
    assert_eq!(n.pending_close, None);
    let mut skip = bought(LiveConfig { sell_skip_balance_refresh: true, ..config() }, Some(5.0));
    skip.close_submitted("stop_loss");
    assert_eq!(skip.on_close_reply(refused()), None);
    let mut lost = bought(config(), Some(5.0));
    lost.close_submitted("stop_loss");
    assert_eq!(lost.on_close_reply(None), None);
    assert!(lost.pending_close.is_none() && lost.mgr.position().is_some());
}

#[test]
fn filled_sale_closes_the_position() {
    let mut n = bought(config(), Some(5.0));
    n.close_submitted("take_profit");
    assert_eq!(n.on_close_reply(placed("s1", Some(5.0), Some(0.52))), None);
    assert!(n.mgr.is_idle());
    assert_eq!(n.mgr.state.realized_pnl, 200_000_000_000_000_000);
}

#[test]
fn stuck_sale_is_tried_again() {
    let mut n = bought(config(), Some(5.0));
    n.close_submitted("take_profit");
    n.on_close_reply(placed("s1", None, None));
    assert!(matches!(n.mgr.phase, LivePhase::PendingSell { .. }));
    n.now_ms = 13_999;
    assert!(!n.retry_stuck_sale());
    n.now_ms = 14_000;
    assert!(n.retry_stuck_sale());
    assert_eq!(n.mgr.position().map(|p| p.size), Some(q(5.0)));
}

#[test]
fn history_has_a_point_a_second() {
    let mut n = node();
    let x = n.history_point().expect("the first point");
    assert_eq!((x.t, x.p, x.entry), (10, q(0.5), None));
    assert!(n.history_point().is_none());
    let mut held = bought(config(), Some(5.0));
    let y = held.history_point().unwrap();
    assert_eq!((y.entry, y.tp, y.sl), (Some(q(0.48)), Some(q(0.52)), Some(q(0.45))));
}

fn outlook() -> Outlook {
    Outlook {
        breaker_tripped: false,
        live_active: true,
        live_enabled: true,
        live_paused: false,
        max_drawdown: q(0.2),
        lat_polymarket_ms: Some(12),
        session_pnl: Some(5),
        last_ws_ts_ms: 9_000,
    }
}

#[test]
fn dashboard_shows_the_node() {
    let n = bought(config(), Some(5.0));
    let d = n.dashboard(&outlook());
    assert_eq!((d.market_slug.as_str(), d.mode.as_str(), d.pos_side.as_str()), ("btc-5m", "LIVE", "up"));
    assert_eq!((d.gap, d.live_shots, d.live_pnl), (q(0.1), 1, Some(0)));
    assert_eq!((d.lat_total_ms, d.pm_ws_stale_ms), (Some(50), Some(1_000)));
    assert_eq!((d.in_position, d.pos_entry, d.pos_tp, d.pos_sl), (true, q(0.48), q(0.52), q(0.45)));
    assert_eq!((d.live_enabled, d.live_paused, d.live_armed, d.breaker_tripped), (true, false, true, false));
    assert_eq!((d.max_drawdown, d.lat_polymarket_ms, d.lat_post_ms), (q(0.2), Some(12), Some(40)));
    assert_eq!((d.maker, d.live_force_min, d.fixed_order_usd), (true, false, 0));
    let idle = node().dashboard(&Outlook { breaker_tripped: true, last_ws_ts_ms: 0, ..outlook() });
    assert_eq!((idle.mode.as_str(), idle.in_position, idle.live_pnl), ("BREAKER", false, Some(5)));
    assert_eq!((idle.lat_total_ms, idle.pm_ws_stale_ms), (None, None));
    assert_eq!(node().dashboard(&Outlook { live_active: false, ..outlook() }).mode, "PAUSE");
}

#[test]
fn session_starts_with_each_activation() {
    let mut n = node();
    assert!(n.session_starts(true));
    assert!(!n.session_starts(true));
    assert!(!n.session_starts(false));
    assert!(n.session_starts(true));
}

#[test]
fn maker_mode_goes_by_its_name() {
    assert!(is_maker_mode("Maker"));
    assert!(!is_maker_mode("taker"));
    assert!(!is_maker_mode("maker "));
}

#[test]
fn breaker_trips_once() {
    assert!(breaker_trips(false, true, true));
    assert!(!breaker_trips(true, true, true));
    assert!(!breaker_trips(false, false, true));
    assert!(!breaker_trips(false, true, false));
}

fn executor() -> ExecutorNode {
    ExecutorNode::new(ExecutorConfig {
        gap_min: q(0.03),
        end_window_block_secs: 20,
        cooldown_ms: 1000,
        live_force_min_size: false,
    })
}

fn switches() -> Switches {
    Switches {
        breaker_tripped: false,
        live_active: true,
        paper_paused: false,
        position_open: false,
        bankroll: Some(q(50.0)),
        has_credentials: true,
    }
}

#[test]
fn executor_turns_signals_down() {
    let g = shared(200);
    let route = |g: &PmShared, fair: f64, now_ms: u64, s: Switches| match executor().on_signal(g, Side::Up, q(fair), now_ms, s) {
        Route::Rejected(r) => r,
        other => panic!("should be turned down, got {other:?}"),
    };
    assert_eq!(route(&g, 0.6, 5_000, Switches { breaker_tripped: true, ..switches() }), Reject::Breaker);
    let mut none = shared(200);
    none.market = None;
    assert_eq!(route(&none, 0.6, 5_000, switches()), Reject::NoMarket);
    assert_eq!(route(&shared(20), 0.6, 5_000, switches()), Reject::WindowEnding);
    assert_eq!(route(&g, 0.6, 999, switches()), Reject::Cooldown);
    assert_eq!(route(&g, 0.52, 5_000, switches()), Reject::Gap);
}

#[test]
fn executor_routes_live_or_to_paper() {
    let g = shared(200);
    let mut n = executor();
    match n.on_signal(&g, Side::Down, q(0.4), 5_000, switches()) {
        Route::Live(x) => {
            assert_eq!((x.token_id.as_str(), x.price, x.kind, x.edge), ("dn", q(0.53), OrderKind::Fak, q(0.1)));
            assert_eq!(n.size_live(&x, Some(q(10.0))), Ok(q(10.0)));
            assert_eq!(n.size_live(&x, Some(q(100.0))), Err(Ignore::BankrollTooSmall));
            assert_eq!(n.size_live(&x, None), Err(Ignore::SizeBelowMinimum));
            n.cfg.live_force_min_size = true;
            assert_eq!(n.size_live(&x, None), Ok(q(5.0)));
        }
        other => panic!("should go live, got {other:?}"),
    }
    assert_eq!(n.last_fair, q(0.4));
    match n.on_signal(&g, Side::Up, q(0.6), 5_000, Switches { live_active: false, ..switches() }) {
        Route::Paper(x) => assert_eq!((x.token_id.as_str(), x.edge, x.min_order_size), ("up", q(0.1), q(5.0))),
        other => panic!("should go to paper, got {other:?}"),
    }
    let paused = Switches { live_active: false, paper_paused: true, ..switches() };
    assert!(matches!(n.on_signal(&g, Side::Up, q(0.6), 5_000, paused), Route::PaperPaused));
    n.fired(5_000);
    assert!(matches!(n.on_signal(&g, Side::Up, q(0.6), 5_999, switches()), Route::Rejected(Reject::Cooldown)));
}

#[test]
fn executor_ignores_what_it_cannot_follow() {
    let g = shared(200);
    let route = |s: Switches| match executor().on_signal(&g, Side::Up, q(0.6), 5_000, s) {
        Route::Ignored(i) => i,
        other => panic!("should be ignored, got {other:?}"),
    };
    assert_eq!(route(Switches { position_open: true, ..switches() }), Ignore::Busy);
    assert_eq!(route(Switches { bankroll: None, ..switches() }), Ignore::NoBankroll);
    assert_eq!(route(Switches { has_credentials: false, ..switches() }), Ignore::NoCredentials);
}

#[test]
fn executor_dashboard_shows_the_node() {
    let paper = PaperFigures {
        cash: q(90.0),
        equity: q(95.0),
        realized_pnl: -q(5.0),
        drawdown: q(0.05),
        shots: 4,
        wins: 1,
        losses: 3,
        hit_rate: q(0.25),
    };
    let o = ExecutorOutlook {
        mode: "LIVE",
        live_active: true,
        paper_paused: true,
        live_enabled: true,
        live_paused: false,
        live_armed: true,
        breaker_tripped: false,
        initial_capital: q(100.0),
        max_drawdown: q(0.2),
        lat_polymarket_ms: Some(12),
        live_bankroll: Some(q(50.0)),
        session_pnl: Some(5),
    };
    let mut e = executor();
    e.on_signal(&shared(200), Side::Up, q(0.6), 5_000, switches());
    let on_paper = ShownPosition { side: Side::Down, entry: 1, tp: 2, sl: 3 };
    let d = e.dashboard(&shared(200), &manager(), Some(on_paper), paper, &o);
    assert_eq!((d.market_slug.as_str(), d.mode.as_str(), d.remaining_s), ("btc-5m", "LIVE", 200));
    assert_eq!((d.fair_up, d.real_up, d.gap), (q(0.6), q(0.5), q(0.1)));
    assert_eq!((d.position, d.paper), (Some(on_paper), paper));
    assert_eq!((d.live_pnl, d.live_shots, d.live_bankroll), (Some(5), 0, Some(q(50.0))));
    assert_eq!((d.paper_paused, d.live_enabled, d.live_paused, d.live_armed), (true, true, false, true));
    assert_eq!((d.breaker_tripped, d.live_force_min), (false, false));
    assert_eq!((d.initial_capital, d.max_drawdown, d.lat_polymarket_ms), (q(100.0), q(0.2), Some(12)));
    let held = bought(config(), Some(5.0));
    let live = e.dashboard(&shared(200), &held.mgr, Some(on_paper), paper, &o);
    assert_eq!((live.position.map(|p| p.side), live.live_pnl, live.live_shots), (Some(Side::Up), Some(0), 1));
    let off = ExecutorOutlook { live_active: false, ..o };
    assert_eq!(e.dashboard(&shared(200), &held.mgr, None, paper, &off).live_pnl, None);
}

#[test]
fn executor_shows_live_before_paper() {
    let paper = ShownPosition { side: Side::Down, entry: 1, tp: 2, sl: 3 };
    assert_eq!(shown_position(None, Some(paper)), Some(paper));
    let n = bought(config(), Some(5.0));
    let shown = shown_position(n.mgr.position(), Some(paper)).unwrap();
    assert_eq!((shown.side, shown.entry, shown.tp, shown.sl), (Side::Up, q(0.48), q(0.52), q(0.45)));
    assert_eq!(shown_pnl(false, 3, 9, Some(1)), None);
    assert_eq!(shown_pnl(true, 3, 9, Some(1)), Some(9));
    assert_eq!(shown_pnl(true, 0, 9, Some(1)), Some(1));
    assert_eq!(mark_bid(&shared(200), Some(Side::Down)), Some(q(0.47)));
    assert_eq!(mark_bid(&shared(200), None), None);
    assert!(drawdown_reached(true, Some(true), false));
    assert!(!drawdown_reached(true, None, true));
    assert!(drawdown_reached(false, None, true));
    let mut e = executor();
    assert!(e.session_starts(true) && !e.session_starts(true));
}
