//! The manager of the live position.

use rust_quant_bot::balance::parse_balance_base_units;
use rust_quant_bot::bus::Side;
use rust_quant_bot::fixed::{round_tick, UNIT};
use rust_quant_bot::manager::{clob_min_size_for, LivePositionManager};
use rust_quant_bot::orders::{KellyParams, OrderKind, OrderResult, PlaceResult};
use rust_quant_bot::position::{Effect, LivePhase, LivePosition, LiveState, LiveTradeRec};

fn q(x: f64) -> i64 {
    (x * 1e9).round() as i64
}

fn params() -> KellyParams {
    KellyParams {
        kelly_fraction: q(0.5),
        max_size_pct: q(0.10),
        tp_cents: q(4.0),
        sl_cents: q(3.0),
        max_hold_secs: 60,
    }
}

fn mgr() -> LivePositionManager {
    LivePositionManager::load_or_init(params(), None)
}

fn placed(id: &str, filled: Option<f64>, price: Option<f64>, post_ms: u64) -> OrderResult {
    OrderResult::Placed {
        order_id: id.to_string(),
        filled_size: filled.map(q),
        avg_price: price.map(q),
        post_ms,
    }
}

fn answered(id: &str, filled: Option<f64>, price: Option<f64>, post_ms: u64) -> Result<PlaceResult, String> {
    Ok(PlaceResult::Placed {
        order_id: id.to_string(),
        filled_size: filled.map(q),
        avg_price: price.map(q),
        post_ms,
    })
}

fn buy(m: &mut LivePositionManager, id: &str, filled: Option<f64>, price: f64, size: f64) {
    m.on_buy_result(
        placed(id, filled, filled.map(|_| price), 50),
        Side::Up,
        "tok",
        false,
        q(price),
        q(size),
        q(0.01),
        1000,
    );
}

fn open(m: &LivePositionManager) -> &LivePosition {
    match &m.phase {
        LivePhase::Open(p) => p,
        other => panic!("should be open, got {other:?}"),
    }
}

fn lines(m: &mut LivePositionManager) -> Vec<LiveTradeRec> {
    m.take_effects()
        .into_iter()
        .filter_map(|e| match e {
            Effect::Append(rec) => Some(rec),
            Effect::Persist => None,
        })
        .collect()
}

const ZERO_BALANCE: &str = "the balance is not enough -> balance: 0, order amount: 5000000";

#[test]
fn fresh_manager_has_no_position_no_state() {
    let m = mgr();
    assert!(m.position().is_none());
    assert!(matches!(m.phase, LivePhase::Idle));
    assert_eq!(m.state.shots, 0);
}

#[test]
fn saved_state_is_taken_over() {
    let saved = LiveState { realized_pnl: 7, shots: 3, wins: 2, losses: 1, failed_closes: 4 };
    let m = LivePositionManager::load_or_init(params(), Some(saved));
    assert!(m.is_idle());
    assert_eq!((m.state.realized_pnl, m.state.shots, m.state.wins), (7, 3, 2));
    assert_eq!((m.state.losses, m.state.failed_closes), (1, 4));
}

#[test]
fn buy_result_with_fill_opens_position() {
    let mut m = mgr();
    m.on_buy_result(
        placed("o1", Some(10.0), Some(0.50), 50),
        Side::Up, "tok", false, q(0.50), q(10.0), q(0.01), 1000,
    );
    assert!(matches!(m.phase, LivePhase::Open(_)));
    assert_eq!(m.state.shots, 1);
    let p = open(&m);
    assert_eq!((p.tp_price, p.sl_price), (q(0.54), q(0.47)));
    assert_eq!((p.size, p.bought, p.sold, p.opened_ms), (q(10.0), q(10.0), 0, 1000));
    assert_eq!(m.last_buy_ms, Some(50));
}

#[test]
fn buy_result_without_fill_goes_pending_buy() {
    let mut m = mgr();
    m.on_buy_result(
        placed("o1", None, None, 50),
        Side::Up, "tok", false, q(0.50), q(10.0), q(0.01), 1000,
    );
    assert!(m.position().is_none());
    assert!(matches!(m.phase, LivePhase::PendingBuy { .. }), "got {:?}", m.phase);
    assert_eq!(m.state.shots, 0, "no shot before a fill");
}

#[test]
fn refused_dry_and_cancelled_buys_change_nothing() {
    for res in [
        OrderResult::DryRun,
        OrderResult::Cancelled { order_id: "o1".to_string() },
        OrderResult::Failed { error: "no".to_string() },
    ] {
        let mut m = mgr();
        m.on_buy_result(res, Side::Up, "tok", false, q(0.50), q(10.0), q(0.01), 1000);
        assert!(m.is_idle());
        assert_eq!(m.last_buy_ms, None);
        assert_eq!(m.take_effects().len(), 0);
    }
}

#[test]
fn buy_without_mean_price_enters_at_the_order_price() {
    let mut m = mgr();
    m.on_buy_result(
        placed("o1", Some(10.0), None, 50),
        Side::Down, "tok", true, q(0.30), q(10.0), q(0.01), 1000,
    );
    assert_eq!(open(&m).entry_price, q(0.30));
    assert!(open(&m).neg_risk);
}

#[test]
fn fill_wins_the_cancel_race() {
    let mut m = mgr();
    m.on_buy_result(
        placed("o1", None, None, 50),
        Side::Up, "tok", false, q(0.50), q(10.0), q(0.01), 1000,
    );
    assert!(matches!(m.phase, LivePhase::PendingBuy { .. }));
    m.mark_buy_cancelling(2000);
    match m.pending_buy_info() {
        Some((id, _, cancel_since)) => {
            assert_eq!(id, "o1");
            assert_eq!(cancel_since, Some(2000), "the time of the cancellation is kept");
        }
        None => panic!("should still wait after the cancellation was sent"),
    }
    m.on_fill_confirmed_buy("o1", q(10.0), q(0.50), 2500);
    assert!(matches!(m.phase, LivePhase::Open(_)), "the fill opens the position, got {:?}", m.phase);
    assert!(m.position().is_some());
}

#[test]
fn first_cancellation_time_is_kept() {
    let mut m = mgr();
    buy(&mut m, "o1", None, 0.50, 10.0);
    m.mark_buy_cancelling(2000);
    m.mark_buy_cancelling(3000);
    assert_eq!(m.pending_buy_info(), Some(("o1".to_string(), 1000, Some(2000))));
}

#[test]
fn http_filled_buy_ignores_duplicate_ws() {
    let mut m = mgr();
    m.on_buy_result(
        placed("x1", Some(5.0), Some(0.24), 50),
        Side::Up, "tok", false, q(0.30), q(5.0), q(0.01), 1000,
    );
    assert!(matches!(m.phase, LivePhase::Open(_)));
    m.on_fill_confirmed_buy("x1", q(5.0), q(0.24), 1100);
    match &m.phase {
        LivePhase::Open(p) => assert_eq!(p.size, q(5.0), "not counted twice, got {}", p.size),
        other => panic!("should stay open, got {other:?}"),
    }
}

#[test]
fn fill_of_another_order_is_ignored() {
    let mut m = mgr();
    buy(&mut m, "o1", None, 0.50, 10.0);
    m.on_fill_confirmed_buy("o2", q(10.0), q(0.50), 1100);
    assert!(matches!(m.phase, LivePhase::PendingBuy { .. }));
    m.on_fill_confirmed_buy("o1", 0, q(0.50), 1100);
    assert!(matches!(m.phase, LivePhase::PendingBuy { .. }), "a fill of nothing is none");
}

#[test]
fn buy_without_an_id_is_opened_by_any_fill() {
    let mut m = mgr();
    buy(&mut m, "", None, 0.50, 10.0);
    m.on_fill_confirmed_buy("o9", q(4.0), q(0.51), 1100);
    assert_eq!(open(&m).buy_order_id, "o9");
    assert_eq!(open(&m).size, q(4.0));
}

#[test]
fn poll_reconcile_adopts_then_grows_idempotent() {
    let mut m = mgr();
    m.on_buy_result(
        placed("g1", None, None, 50),
        Side::Up, "tok", false, q(0.50), q(10.0), q(0.01), 1000,
    );
    assert!(matches!(m.phase, LivePhase::PendingBuy { .. }));
    m.reconcile_buy_to_server("g1", q(6.0), q(0.50), 1100);
    match &m.phase {
        LivePhase::Open(p) => assert_eq!(p.size, q(6.0), "adopted at 6, got {}", p.size),
        other => panic!("should be open, got {other:?}"),
    }
    m.reconcile_buy_to_server("g1", q(6.0), q(0.50), 1200);
    assert_eq!(open(&m).size, q(6.0), "the same count changes nothing");
    m.reconcile_buy_to_server("g1", q(10.0), q(0.50), 1300);
    assert_eq!(open(&m).size, q(10.0), "grown to 10");
    m.reconcile_buy_to_server("autre", q(5.0), q(0.40), 1400);
    assert_eq!(open(&m).size, q(10.0), "another order is ignored");
}

#[test]
fn growth_moves_entry_and_exits() {
    let mut m = mgr();
    buy(&mut m, "g1", Some(6.0), 0.50, 10.0);
    m.reconcile_buy_to_server("g1", q(10.0), q(0.60), 1300);
    let p = open(&m);
    assert_eq!(p.entry_price, q(0.54));
    assert_eq!((p.tp_price, p.sl_price), (q(0.58), q(0.51)));
    let told = lines(&mut m);
    assert_eq!(told.len(), 2);
    assert_eq!((told[1].kind.as_str(), told[1].price, told[1].size), ("reconcile_grow", q(0.60), q(4.0)));
}

#[test]
fn count_within_the_dust_is_no_growth() {
    let mut m = mgr();
    buy(&mut m, "g1", Some(6.0), 0.50, 10.0);
    m.reconcile_buy_to_server("g1", q(6.0) + 1000, q(0.60), 1300);
    assert_eq!(open(&m).bought, q(6.0));
    m.reconcile_buy_to_server("g1", q(6.0) + 1001, q(0.60), 1300);
    assert_eq!(open(&m).bought, q(6.0) + 1001);
}

#[test]
fn cancel_after_grace_without_fill_goes_idle() {
    let mut m = mgr();
    m.on_buy_result(
        placed("o1", None, None, 50),
        Side::Up, "tok", false, q(0.50), q(10.0), q(0.01), 1000,
    );
    m.mark_buy_cancelling(2000);
    m.cancel_pending_buy();
    assert!(m.is_idle(), "without a fill the cancellation ends idle, got {:?}", m.phase);
    assert!(m.position().is_none());
}

#[test]
fn sell_result_without_fill_goes_pending_sell() {
    let mut m = mgr();
    m.on_buy_result(
        placed("o1", Some(10.0), Some(0.50), 50),
        Side::Up, "tok", false, q(0.50), q(10.0), q(0.01), 1000,
    );
    assert!(matches!(m.phase, LivePhase::Open(_)));
    let _ = m.on_sell_result(placed("o2", None, None, 30), "take_profit", 1000, q(5.0));
    assert!(matches!(m.phase, LivePhase::PendingSell { .. }), "got {:?}", m.phase);
    assert_eq!(m.last_sell_ms, Some(30));
}

#[test]
fn sale_that_leaves_too_little_closes() {
    let mut m = mgr();
    buy(&mut m, "o1", Some(10.0), 0.50, 10.0);
    let refresh = m.on_sell_result(placed("o2", Some(6.0), Some(0.45), 30), "stop_loss", 1100, q(5.0));
    assert!(!refresh);
    assert!(m.is_idle());
    assert_eq!((m.state.wins, m.state.losses), (0, 1));
    assert_eq!(m.state.realized_pnl, -(q(0.05) as i128) * q(6.0) as i128);
    let told = lines(&mut m);
    assert_eq!(told[1].kind, "close_sl");
    assert_eq!(told[1].realized_pnl_after, m.state.realized_pnl);
}

#[test]
fn sale_without_a_known_position_is_all_profit() {
    let mut m = mgr();
    let _ = m.on_sell_result(placed("o2", Some(6.0), Some(0.45), 30), "max_hold", 1100, q(5.0));
    assert_eq!(m.state.wins, 1);
    assert_eq!(m.state.realized_pnl, q(0.45) as i128 * q(6.0) as i128);
    let told = lines(&mut m);
    assert_eq!((told[0].kind.as_str(), told[0].side.as_str()), ("close_max_hold", "?"));
}

#[test]
fn apply_close_with_fill_clears_position() {
    let mut m = mgr();
    m.on_buy_result(
        placed("o1", Some(10.0), Some(0.50), 50),
        Side::Up, "tok", false, q(0.50), q(10.0), q(0.01), 1000,
    );
    m.apply_close("o2".to_string(), Some(q(10.0)), Some(q(0.54)), "take_profit", q(5.0));
    assert!(matches!(m.phase, LivePhase::Idle));
    assert_eq!(m.state.wins, 1);
    let dollars = m.state.realized_pnl as f64 / 1e18;
    assert!((dollars - 0.40).abs() < 1e-6, "pnl = (0.54-0.50)*10 = 0.40");
    assert_eq!(m.state.realized_pnl, 400_000_000_000_000_000);
}

#[test]
fn apply_close_without_fill_keeps_pending_sell() {
    let mut m = mgr();
    m.on_buy_result(
        placed("o1", Some(10.0), Some(0.50), 50),
        Side::Up, "tok", false, q(0.50), q(10.0), q(0.01), 1000,
    );
    let _ = m.on_sell_result(placed("o2", None, None, 30), "stop_loss", 1000, q(5.0));
    m.apply_close("o2".to_string(), None, None, "stop_loss", q(5.0));
    assert!(!matches!(m.phase, LivePhase::Idle), "idle without a fill would be dangerous");
    assert_eq!(m.state.failed_closes, 1);
}

#[test]
fn apply_close_without_a_position_is_ignored() {
    let mut m = mgr();
    m.apply_close("o2".to_string(), Some(q(1.0)), Some(q(0.5)), "stop_loss", q(5.0));
    assert!(m.is_idle());
    assert_eq!(m.take_effects().len(), 0);
    assert_eq!(m.state.wins + m.state.losses, 0);
}

#[test]
fn parse_balance_from_clob_error() {
    let e = "not enough balance / allowance: the balance is not enough -> balance: 4995787, order amount: 5000000";
    let held = parse_balance_base_units(e).expect("the balance is stated");
    assert_eq!(held, q(4.995787), "4.995787 tokens, got {held}");
    assert!(parse_balance_base_units("réseau timeout").is_none());
    assert_eq!(parse_balance_base_units("the balance is not enough -> balance: 0, order amount: 5000000"), Some(0));
}

#[test]
fn balance_is_read_whatever_its_case_and_spaces() {
    assert_eq!(parse_balance_base_units("BALANCE:\t 12"), Some(12_000));
    assert_eq!(parse_balance_base_units("Balance:7x"), Some(7_000));
    assert_eq!(parse_balance_base_units("balance: none"), None);
    assert_eq!(parse_balance_base_units("balance 12"), None);
    assert_eq!(parse_balance_base_units("balance:"), None);
    assert_eq!(parse_balance_base_units("balance: 99999999999999999999999999"), Some(i64::MAX));
}

#[test]
fn oversell_resizes_position_never_abandons() {
    let mut m = mgr();
    m.on_buy_result(
        placed("b1", Some(5.0), Some(0.24), 50),
        Side::Down, "tok", false, q(0.24), q(5.0), q(0.01), 1000,
    );
    assert!(matches!(m.phase, LivePhase::Open(_)));
    let err = "the balance is not enough -> balance: 4995787, order amount: 5000000".to_string();
    let _ = m.on_sell_result(OrderResult::Failed { error: err }, "stop_loss", 60_000, q(5.0));
    match &m.phase {
        LivePhase::Open(p) => {
            assert_eq!(p.size, q(4.995787), "the size follows the balance, got {}", p.size);
            assert_eq!(p.sold, p.bought - p.size);
        }
        other => panic!("should stay open while tokens are held, got {other:?}"),
    }
}

#[test]
fn sell_balance_zero_asks_refresh_and_keeps_position() {
    let mut m = mgr();
    m.on_buy_result(
        placed("b1", Some(5.0), Some(0.30), 50),
        Side::Up, "tok", false, q(0.30), q(5.0), q(0.01), 1000,
    );
    let err = "the balance is not enough -> balance: 0, order amount: 5000000".to_string();
    let need = m.on_sell_result(OrderResult::Failed { error: err.clone() }, "stop_loss", 60_000, q(5.0));
    assert!(need, "a refresh is asked for");
    assert!(matches!(m.phase, LivePhase::Open(_)), "not given up at once, got {:?}", m.phase);
    let _ = m.on_sell_result(OrderResult::Failed { error: err.clone() }, "stop_loss", 60_000, q(5.0));
    let _ = m.on_sell_result(OrderResult::Failed { error: err }, "stop_loss", 60_000, q(5.0));
    assert!(m.is_idle(), "given up after three settled refusals, got {:?}", m.phase);
    assert_eq!((m.state.losses, m.state.failed_closes), (1, 3));
}

#[test]
fn unsettled_zero_balance_is_never_given_up() {
    let mut m = mgr();
    buy(&mut m, "b1", Some(5.0), 0.30, 5.0);
    for _ in 0..4 {
        let failed = OrderResult::Failed { error: ZERO_BALANCE.to_string() };
        assert!(m.on_sell_result(failed, "stop_loss", 5_999, q(5.0)));
    }
    assert!(matches!(m.phase, LivePhase::Open(_)));
}

#[test]
fn other_refusals_never_cost_the_position() {
    let mut m = mgr();
    buy(&mut m, "b1", Some(5.0), 0.30, 5.0);
    for _ in 0..7 {
        let failed = OrderResult::Failed { error: "no match".to_string() };
        assert!(!m.on_sell_result(failed, "stop_loss", 60_000, q(5.0)));
    }
    assert_eq!(open(&m).size, q(5.0));
    assert_eq!(m.state.failed_closes, 7);
}

#[test]
fn first_zero_balance_asks_a_refresh_whatever_came_before() {
    let mut m = mgr();
    buy(&mut m, "b1", Some(5.0), 0.30, 5.0);
    for _ in 0..2 {
        let failed = OrderResult::Failed { error: "timeout".to_string() };
        assert!(!m.on_sell_result(failed, "stop_loss", 60_000, q(5.0)));
    }
    let zero = || OrderResult::Failed { error: "balance: 0".to_string() };
    assert!(m.on_sell_result(zero(), "stop_loss", 60_000, q(5.0)), "a refresh is asked for");
    assert_eq!(open(&m).size, q(5.0));
    assert!(m.on_sell_result(zero(), "stop_loss", 60_000, q(5.0)));
    assert!(!m.on_sell_result(zero(), "stop_loss", 60_000, q(5.0)));
    assert!(m.is_idle(), "given up at the third");
}

#[test]
fn zero_balances_are_counted_per_position_and_sale() {
    let zero = || OrderResult::Failed { error: "balance: 0".to_string() };
    let mut m = mgr();
    buy(&mut m, "b1", Some(10.0), 0.30, 10.0);
    for _ in 0..2 {
        assert!(m.on_sell_result(zero(), "stop_loss", 60_000, q(1.0)));
    }
    let _ = m.on_sell_result(placed("s1", Some(4.0), Some(0.30), 30), "stop_loss", 60_000, q(1.0));
    for _ in 0..2 {
        assert!(m.on_sell_result(zero(), "stop_loss", 60_000, q(1.0)), "the sale in part starts anew");
    }
    assert_eq!(open(&m).size, q(6.0));
    let _ = m.on_sell_result(placed("s2", Some(6.0), Some(0.30), 30), "stop_loss", 60_000, q(1.0));
    buy(&mut m, "b2", Some(10.0), 0.30, 10.0);
    assert!(m.on_sell_result(zero(), "stop_loss", 60_000, q(1.0)), "a new position starts anew");
    assert_eq!(m.zero_balance_refusals, 1);
}

#[test]
fn second_answer_without_a_fill_keeps_the_waiting_sale() {
    let mut m = mgr();
    buy(&mut m, "o1", Some(10.0), 0.50, 10.0);
    for now_ms in [5_000, 6_000] {
        let _ = m.on_sell_result(placed("o2", None, None, 50), "stop_loss", now_ms, q(5.0));
        match &m.phase {
            LivePhase::PendingSell { position, reason, since_ms } => {
                assert_eq!((position.size, reason.as_str(), *since_ms), (q(10.0), "stop_loss", 5_000));
            }
            other => panic!("should wait for its sale, got {other:?}"),
        }
    }
    let mut waits = mgr();
    buy(&mut waits, "o1", None, 0.50, 10.0);
    let _ = waits.on_sell_result(placed("o2", None, None, 50), "stop_loss", 5_000, q(5.0));
    assert_eq!(waits.pending_buy_info(), Some(("o1".to_string(), 1000, None)));
}

#[test]
fn sold_never_exceeds_bought() {
    let mut m = mgr();
    buy(&mut m, "o1", Some(10.0), 0.50, 10.0);
    m.apply_close("o2".to_string(), Some(q(10.0)), Some(q(0.54)), "take_profit", 0);
    let p = open(&m);
    assert_eq!((p.bought, p.sold, p.size), (q(10.0), q(10.0), 0));
    m.apply_close("o3".to_string(), Some(q(1.0)), Some(q(0.54)), "take_profit", 0);
    assert!(m.is_idle());
}

#[test]
fn favorite_flags_default_false_and_settable() {
    let mut m = mgr();
    m.on_buy_result(
        placed("f1", Some(5.0), Some(0.85), 50),
        Side::Up, "tok", false, q(0.85), q(5.0), q(0.01), 1000,
    );
    match &m.phase {
        LivePhase::Open(p) => {
            assert!(!p.hold_to_resolution);
            assert!(!p.catastrophe_armed);
        }
        o => panic!("should be open, got {o:?}"),
    }
    m.mark_hold_to_resolution();
    m.arm_catastrophe();
    match &m.phase {
        LivePhase::Open(p) => {
            assert!(p.hold_to_resolution, "held");
            assert!(p.catastrophe_armed, "armed");
        }
        o => panic!("should stay open, got {o:?}"),
    }
}

#[test]
fn held_position_is_sold_for_its_catastrophe_alone() {
    let mut m = mgr();
    buy(&mut m, "f1", Some(5.0), 0.85, 5.0);
    m.mark_hold_to_resolution();
    assert!(m.manage(true, Some(q(0.99)), q(0.01), 900_000, 1).is_none());
    m.arm_catastrophe();
    let (d, reason) = m.manage(true, Some(q(0.60)), q(0.01), 2_000, 200).unwrap();
    assert_eq!((reason, d.args.price, d.post), ("catastrophe", q(0.60), true));
}

#[test]
fn buy_poll_does_not_resurrect_after_partial_sell() {
    let mut m = mgr();
    m.on_buy_result(
        placed("g1", Some(10.0), Some(0.50), 50),
        Side::Up, "tok", false, q(0.50), q(10.0), q(0.01), 1000,
    );
    let _ = m.on_sell_result(placed("s1", Some(6.0), Some(0.55), 30), "take_profit", 1100, q(1.0));
    match &m.phase {
        LivePhase::Open(p) => assert_eq!(p.size, q(4.0), "4 left after the sale, got {}", p.size),
        o => panic!("should stay open, got {o:?}"),
    }
    m.reconcile_buy_to_server("g1", q(10.0), q(0.50), 1200);
    match &m.phase {
        LivePhase::Open(p) => {
            assert_eq!(p.size, q(4.0), "the poll brings nothing back, got size {}", p.size);
            assert_eq!(p.bought, q(10.0), "bought stays 10, got {}", p.bought);
        }
        o => panic!("should stay open, got {o:?}"),
    }
}

#[test]
fn stuck_pending_sell_reverts_to_open_for_retry() {
    let mut m = mgr();
    m.on_buy_result(
        placed("o1", Some(10.0), Some(0.50), 50),
        Side::Up, "tok", false, q(0.50), q(10.0), q(0.01), 1000,
    );
    let _ = m.on_sell_result(placed("o2", None, None, 30), "stop_loss", 5_000, q(5.0));
    assert!(matches!(m.phase, LivePhase::PendingSell { .. }));
    assert!(!m.revert_stuck_pending_sell(6_000, 3_000), "too early");
    assert!(matches!(m.phase, LivePhase::PendingSell { .. }));
    assert!(m.revert_stuck_pending_sell(8_000, 3_000), "late enough");
    match &m.phase {
        LivePhase::Open(p) => assert_eq!(p.size, q(10.0), "the position is whole"),
        other => panic!("should be open again, got {other:?}"),
    }
}

#[test]
fn partial_ws_close_keeps_remainder_open() {
    let mut m = mgr();
    m.on_buy_result(
        placed("o1", Some(10.0), Some(0.50), 50),
        Side::Up, "tok", false, q(0.50), q(10.0), q(0.01), 1000,
    );
    m.apply_close("o2".to_string(), Some(q(7.0)), Some(q(0.54)), "take_profit", q(1.0));
    match &m.phase {
        LivePhase::Open(p) => assert_eq!(p.size, q(3.0), "3 left to sell, got {}", p.size),
        other => panic!("should stay open, got {other:?}"),
    }
}

#[test]
fn parts_and_whole_earn_the_same() {
    let mut parts = mgr();
    buy(&mut parts, "o1", Some(10.0), 0.50, 10.0);
    parts.apply_close("o2".to_string(), Some(q(7.0)), Some(q(0.54)), "take_profit", q(1.0));
    parts.apply_close("o3".to_string(), Some(q(3.0)), Some(q(0.54)), "take_profit", q(1.0));
    let mut whole = mgr();
    buy(&mut whole, "o1", Some(10.0), 0.50, 10.0);
    whole.apply_close("o2".to_string(), Some(q(10.0)), Some(q(0.54)), "take_profit", q(1.0));
    assert_eq!(parts.state.realized_pnl, whole.state.realized_pnl);
    assert!(parts.is_idle() && whole.is_idle());
    assert_eq!((parts.state.wins, whole.state.wins), (1, 1));
}

#[test]
fn journal_names_every_kind_of_close() {
    for (reason, kind) in [
        ("take_profit", "close_tp"),
        ("stop_loss", "close_sl"),
        ("expired", "close_expired"),
        ("window_close", "close_window"),
        ("max_hold", "close_max_hold"),
    ] {
        let mut m = mgr();
        buy(&mut m, "o1", Some(10.0), 0.50, 10.0);
        m.apply_close("o2".to_string(), Some(q(10.0)), Some(q(0.50)), reason, q(1.0));
        let told = lines(&mut m);
        assert_eq!((told[0].kind.as_str(), told[1].kind.as_str()), ("open", kind));
        assert_eq!(m.state.wins, 1, "no loss is a win");
    }
}

#[test]
fn expired_position_is_settled_at_its_mark() {
    let mut m = mgr();
    buy(&mut m, "o1", Some(10.0), 0.50, 10.0);
    m.resolve_expired(q(1.7));
    assert!(m.is_idle());
    assert_eq!(m.state.realized_pnl, q(0.50) as i128 * q(10.0) as i128, "the mark is held within one");
    m.resolve_expired(q(0.0));
    assert_eq!(m.state.losses, 0, "nothing left to settle");
}

#[test]
fn hit_rate_is_the_share_of_wins() {
    let mut m = mgr();
    assert_eq!(m.hit_rate(), 0);
    m.state.wins = 2;
    m.state.losses = 1;
    assert_eq!(m.hit_rate(), 666_666_667);
    m.state.losses = 0;
    assert_eq!(m.hit_rate(), UNIT);
}

#[test]
fn try_open_raises_the_size_to_a_dollar() {
    let m = mgr();
    let d = m.try_open(true, Side::Up, q(0.10), q(2.0), q(5.0)).unwrap();
    assert_eq!(d.kind, OrderKind::Fak);
    assert_eq!((d.args.size, d.args.price, d.args.is_sell, d.post), (q(10.0), q(0.10), false, true));
    let dry = m.try_open(false, Side::Down, q(0.50), q(8.0), q(5.0)).unwrap();
    assert_eq!((dry.args.size, dry.post), (q(8.0), false));
}

#[test]
fn try_open_needs_an_idle_manager() {
    let mut m = mgr();
    buy(&mut m, "o1", None, 0.50, 10.0);
    assert!(m.try_open(true, Side::Up, q(0.50), q(5.0), q(5.0)).is_none());
}

#[test]
fn finish_open_takes_every_answer() {
    let mut m = mgr();
    assert!(m.finish_open(answered("o1", Some(10.0), None, 40), Side::Up, "tok", false, q(0.50), q(10.0), q(0.01), 1000));
    assert_eq!(open(&m).entry_price, q(0.50));
    let mut waits = mgr();
    assert!(waits.finish_open(answered("o1", Some(0.0), None, 40), Side::Up, "tok", false, q(0.50), q(10.0), q(0.01), 1000));
    assert_eq!(waits.pending_buy_info(), Some(("o1".to_string(), 1000, None)));
    let mut dry = mgr();
    assert!(!dry.finish_open(Ok(PlaceResult::DryRun), Side::Up, "tok", false, q(0.50), q(10.0), q(0.01), 1000));
    assert!(!dry.finish_open(Err("no".to_string()), Side::Up, "tok", false, q(0.50), q(10.0), q(0.01), 1000));
    assert!(dry.is_idle());
}

#[test]
fn manage_sells_for_each_reason() {
    let cases: [(f64, u64, i64, &str, f64); 4] = [
        (0.60, 2_000, 200, "take_profit", 0.54),
        (0.40, 2_000, 200, "stop_loss", 0.47),
        (0.50, 61_000, 200, "max_hold", 0.50),
        (0.50, 2_000, 30, "max_hold", 0.50),
    ];
    for (bid, now_ms, remaining_s, reason, price) in cases {
        let mut m = mgr();
        buy(&mut m, "o1", Some(10.0), 0.50, 10.0);
        let (d, why) = m.manage(true, Some(q(bid)), q(0.01), now_ms, remaining_s).unwrap();
        assert_eq!((why, d.args.price, d.args.size, d.args.is_sell), (reason, q(price), q(10.0), true));
        assert_eq!(d.kind, OrderKind::Fak);
    }
    let mut m = mgr();
    buy(&mut m, "o1", Some(10.0), 0.50, 10.0);
    assert!(m.manage(true, Some(q(0.50)), q(0.01), 60_999, 31).is_none());
    assert!(m.manage(true, None, q(0.01), 90_000, 1).is_none());
}

#[test]
fn sale_under_a_dollar_is_not_made() {
    let mut m = mgr();
    buy(&mut m, "o1", Some(10.0), 0.09, 10.0);
    assert!(m.manage(true, Some(q(0.05)), q(0.01), 2_000, 200).is_none());
    assert_eq!(m.state.failed_closes, 1);
    assert_eq!(open(&m).size, q(10.0));
}

#[test]
fn finish_close_takes_every_answer() {
    let mut m = mgr();
    buy(&mut m, "o1", Some(10.0), 0.50, 10.0);
    assert!(!m.finish_close(Ok(PlaceResult::DryRun), "take_profit", 20));
    assert!(!m.finish_close(Err("no".to_string()), "take_profit", 20));
    assert_eq!(m.state.failed_closes, 1);
    assert!(m.finish_close(answered("o2", Some(10.0), Some(0.54), 30), "take_profit", 20));
    assert!(m.is_idle());
    assert_eq!((m.state.wins, m.last_sell_ms), (1, Some(30)));
    let mut waits = mgr();
    buy(&mut waits, "o1", Some(10.0), 0.50, 10.0);
    assert!(!waits.finish_close(answered("o2", None, None, 30), "take_profit", 20));
    match &waits.phase {
        LivePhase::PendingSell { reason, since_ms, .. } => assert_eq!((reason.as_str(), *since_ms), ("take_profit", 20)),
        other => panic!("should wait for the sale, got {other:?}"),
    }
}

#[test]
fn effects_come_in_order_and_once() {
    let mut m = mgr();
    buy(&mut m, "o1", Some(10.0), 0.50, 10.0);
    let told = m.take_effects();
    assert_eq!(told.len(), 2);
    assert!(matches!(&told[0], Effect::Append(rec) if rec.kind == "open" && rec.side == "up" && rec.order_id == "o1"));
    assert!(matches!(told[1], Effect::Persist));
    assert_eq!(m.take_effects().len(), 0);
}

#[test]
fn clob_min_size_respects_dollar_notional() {
    assert_eq!(clob_min_size_for(q(5.0), q(0.50)), q(5.0));
    assert_eq!(clob_min_size_for(q(5.0), q(0.10)), q(10.0));
    assert_eq!(clob_min_size_for(q(5.0), q(0.20)), q(5.0));
    assert_eq!(clob_min_size_for(q(5.0), q(0.19)), q(6.0));
}

#[test]
fn min_size_without_a_price_is_that_of_the_exchange() {
    assert_eq!(clob_min_size_for(q(5.0), 0), q(5.0));
    assert_eq!(clob_min_size_for(q(5.0), -1), q(5.0));
}

#[test]
fn round_tick_clamps_to_valid_range() {
    assert_eq!(round_tick(q(0.5234), q(0.01)), q(0.52));
    assert_eq!(round_tick(q(0.005), q(0.01)), q(0.01));
    assert_eq!(round_tick(q(0.999), q(0.01)), q(0.99));
}

#[test]
fn has_room_until_a_counter_is_full() {
    let mut m = mgr();
    assert!(m.has_room());
    m.state.wins = u64::MAX;
    assert!(!m.has_room());
}

#[test]
fn opening_asks_for_room_in_the_shots_alone() {
    let mut m = mgr();
    m.state.wins = u64::MAX;
    m.state.losses = u64::MAX;
    m.state.failed_closes = u64::MAX;
    buy(&mut m, "o1", None, 0.50, 10.0);
    m.on_fill_confirmed_buy("o1", q(4.0), q(0.50), 1100);
    m.reconcile_buy_to_server("o1", q(10.0), q(0.50), 1200);
    assert_eq!((open(&m).size, m.state.shots), (q(10.0), 1));
}

#[test]
fn phase_starts_idle_and_copies() {
    assert!(matches!(LivePhase::default(), LivePhase::Idle));
    let mut m = mgr();
    buy(&mut m, "o1", Some(10.0), 0.50, 10.0);
    match m.phase.clone() {
        LivePhase::Open(p) => assert_eq!(p.size, q(10.0)),
        other => panic!("should be open, got {other:?}"),
    }
    assert_eq!(m.tracked_buy_order_id(), Some("o1".to_string()));
}
