//! What a signal must be worth, at which price it is followed, and for how much.

use crate::bus::Side;
use crate::fixed::{
    divide_nearest, greater, hold_within, lesser, minus, minus_of, nearest, plus, plus_of, product,
    round_tick, round_tick_of, sat, saturate, times, times_of, whole_ceil, whole_ceil_of,
    whole_floor, whole_floor_of, within, HALF, PRICE_FLOOR, UNIT,
};
use vstd::math::{abs, max, min};
use vstd::prelude::*;

verus! {

/// Length of a trading window, in seconds.
pub const WINDOW_S: i64 = 300;

/// The edge of a signal: by how much the fair price of the up token favours the side.
pub open spec fn gap_of(side: Side, fair: int, real_up: int) -> int {
    match side {
        Side::Up => minus_of(fair, real_up),
        Side::Down => minus_of(real_up, fair),
    }
}

/// The fee of leaving as a taker, per token: `coeff * p * (1 - p)`.
pub open spec fn taker_exit_fee_of(coeff: int, p: int) -> int {
    times_of(coeff, times_of(p, minus_of(UNIT as int, p)))
}

/// How decided the market is: the distance of its price from one half.
pub open spec fn decisiveness_of(real_up: int) -> int {
    sat(abs(real_up - HALF) as int)
}

/// How much of the window is over, between nothing and all of it.
pub open spec fn elapsed_of(remaining_s: int) -> int {
    within(nearest((WINDOW_S - remaining_s) * UNIT, WINDOW_S as int), 0, UNIT as int)
}

/// The edge that a signal needs: the more decided the market and the later in the window, the more;
/// the fee of leaving comes on top.
pub open spec fn required_gap_of(
    gap_min: int,
    gap_dynamic_k: int,
    fee_coeff: int,
    real_up: int,
    remaining_s: int,
) -> int {
    plus_of(
        plus_of(
            gap_min,
            times_of(
                times_of(gap_dynamic_k, decisiveness_of(real_up)),
                elapsed_of(remaining_s),
            ),
        ),
        taker_exit_fee_of(fee_coeff, real_up),
    )
}

/// The highest price at which a buy still rests below the ask.
pub open spec fn maker_ceiling_of(ask: int, tick: int, eps_ticks: int) -> int {
    max(minus_of(ask, times_of(eps_ticks, tick)), PRICE_FLOOR as int)
}

/// The price inside the spread: `mid - k * spread`, between the bid and the ceiling under the ask,
/// at the grid and within a cent of the ends of the price range.
pub open spec fn inside_spread_of(
    bid: int,
    ask: int,
    tick: int,
    k_spread: int,
    eps_ticks: int,
) -> int {
    let spread = max(minus_of(ask, bid), 0);
    let mid = nearest(bid + ask, 2);
    let ceiling = maker_ceiling_of(ask, tick, eps_ticks);
    round_tick_of(
        within(minus_of(mid, times_of(k_spread, spread)), min(bid, ceiling), ceiling),
        tick,
    )
}

/// The price of a buy that rests: the one inside the spread, where that lies below the ask. Where the
/// ask leaves no room above one cent it is `eps_ticks` ticks under the ask, below the lowest price
/// of an order.
pub open spec fn maker_buy_price_of(
    bid: int,
    ask: int,
    tick: int,
    k_spread: int,
    eps_ticks: int,
) -> int {
    let p = inside_spread_of(bid, ask, tick, k_spread, eps_ticks);
    let top = minus_of(ask, times_of(eps_ticks, tick));
    if p < ask || top >= PRICE_FLOOR {
        p
    } else {
        top
    }
}

/// The size of an order: a fixed amount of dollars where one is set, the smallest size where that is
/// forced, what `kelly` says otherwise; never below what the target notional or the exchange asks.
pub open spec fn order_size_of(
    fixed_usd: int,
    force_min: bool,
    kelly: Option<i64>,
    notional_target_usd: int,
    min_order_size: int,
    price: int,
) -> Option<int> {
    let wanted = if fixed_usd > 0 {
        Some(max(whole_floor_of(fixed_usd, price), min_order_size))
    } else if force_min {
        Some(min_order_size)
    } else {
        crate::book::quantity_of(kelly)
    };
    match wanted {
        Some(s) => Some(
            max(max(s, whole_ceil_of(notional_target_usd, price)), min_order_size),
        ),
        None => None,
    }
}

/// The edge of a signal.
pub fn gap(side: Side, fair: i64, real_up: i64) -> (r: i64)
    ensures
        r == gap_of(side, fair as int, real_up as int),
{
    match side {
        Side::Up => minus(fair, real_up),
        Side::Down => minus(real_up, fair),
    }
}

/// The fee of leaving as a taker, per token: greatest in the middle, nothing at the ends.
pub fn taker_exit_fee(coeff: i64, p: i64) -> (r: i64)
    ensures
        r == taker_exit_fee_of(coeff as int, p as int),
{
    times(coeff, times(p, minus(UNIT, p)))
}

/// The edge that a signal needs.
pub fn required_gap(
    gap_min: i64,
    gap_dynamic_k: i64,
    fee_coeff: i64,
    real_up: i64,
    remaining_s: i64,
) -> (r: i64)
    ensures
        r == required_gap_of(
            gap_min as int,
            gap_dynamic_k as int,
            fee_coeff as int,
            real_up as int,
            remaining_s as int,
        ),
{
    let off: i128 = real_up as i128 - HALF as i128;
    let decided: i64 = saturate(
        if off >= 0 {
            off
        } else {
            -off
        },
    );
    let past: i128 = WINDOW_S as i128 - remaining_s as i128;
    proof {
        assert(-0x1_0000_0000_0000_0000_0000_0000 <= past * UNIT
            <= 0x1_0000_0000_0000_0000_0000_0000) by (nonlinear_arith)
            requires
                -0x1_0000_0000_0000_0000 <= past <= 0x1_0000_0000_0000_0000,
                UNIT == 1_000_000_000,
        ;
    }
    let over: i128 = divide_nearest(past * UNIT as i128, WINDOW_S as i128);
    let elapsed: i64 = hold_within(saturate(over), 0, UNIT);
    let dynamic: i64 = times(times(gap_dynamic_k, decided), elapsed);
    plus(plus(gap_min, dynamic), taker_exit_fee(fee_coeff, real_up))
}

/// The price of a buy that rests inside the spread and never reaches the ask. With `k_spread` at one
/// half it is the bid, at zero the middle. A price below one cent is none that an order can have: the
/// ask leaves no room to rest under it.
pub fn maker_buy_price(bid: i64, ask: i64, tick: i64, k_spread: i64, eps_ticks: i64) -> (r: i64)
    ensures
        r == maker_buy_price_of(
            bid as int,
            ask as int,
            tick as int,
            k_spread as int,
            eps_ticks as int,
        ),
{
    let spread: i64 = greater(minus(ask, bid), 0);
    proof {
        crate::fixed::nearest_is_close(bid + ask, 2);
    }
    let mid: i64 = saturate(divide_nearest(bid as i128 + ask as i128, 2));
    let top: i64 = minus(ask, times(eps_ticks, tick));
    let ceiling: i64 = greater(top, PRICE_FLOOR);
    let lo: i64 = lesser(bid, ceiling);
    let p: i64 = round_tick(hold_within(minus(mid, times(k_spread, spread)), lo, ceiling), tick);
    if p < ask || top >= PRICE_FLOOR {
        p
    } else {
        top
    }
}

/// The size of an order.
pub fn order_size(
    fixed_usd: i64,
    force_min: bool,
    kelly: Option<i64>,
    notional_target_usd: i64,
    min_order_size: i64,
    price: i64,
) -> (r: Option<i64>)
    ensures
        crate::book::quantity_of(r) == order_size_of(
            fixed_usd as int,
            force_min,
            kelly,
            notional_target_usd as int,
            min_order_size as int,
            price as int,
        ),
{
    let wanted: Option<i64> = if fixed_usd > 0 {
        Some(greater(whole_floor(fixed_usd, price), min_order_size))
    } else if force_min {
        Some(min_order_size)
    } else {
        kelly
    };
    match wanted {
        Some(s) => Some(
            greater(greater(s, whole_ceil(notional_target_usd, price)), min_order_size),
        ),
        None => None,
    }
}

/// Whether `size` tokens at `price` cost more than `bankroll`.
pub fn exceeds(size: i64, price: i64, bankroll: i64) -> (r: bool)
    ensures
        r == (size * price > bankroll * UNIT),
{
    product(size, price) > product(bankroll, UNIT)
}

} // verus!
