//! Laws of prices, fees and sizes.

use crate::bus::Side;
use crate::fixed::{
    minus_of, nearest, nearest_is_close, nearest_is_monotone, nearest_of_multiple, plus_of,
    round_tick_of, times_of, whole_ceil_of, whole_floor_of, within, HALF, PRICE_CEILING,
    PRICE_FLOOR, UNIT,
};
use crate::pricing::{
    decisiveness_of, elapsed_of, gap_of, inside_spread_of, maker_buy_price_of, maker_ceiling_of,
    order_size_of, required_gap_of, taker_exit_fee_of,
};
use vstd::arithmetic::div_mod::lemma_fundamental_div_mod;
use vstd::math::{max, min};
use vstd::prelude::*;

verus! {

/// A price that is rounded to a tick stays between one cent and ninety-nine; it is a multiple of the
/// tick no further than half a tick away, unless it was stopped at one of the two.
pub proof fn rounded_price_is_near(p: int, tick: int)
    requires
        tick > 0,
    ensures
        PRICE_FLOOR <= round_tick_of(p, tick) <= PRICE_CEILING,
        PRICE_FLOOR < round_tick_of(p, tick) < PRICE_CEILING ==> round_tick_of(p, tick) == nearest(
            p,
            tick,
        ) * tick && -tick <= 2 * (round_tick_of(p, tick) - p) <= tick,
{
    nearest_is_close(p, tick);
}

/// Rounding to a tick keeps the order of prices.
pub proof fn rounding_keeps_order(p: int, q: int, tick: int)
    requires
        tick > 0,
        p <= q,
    ensures
        round_tick_of(p, tick) <= round_tick_of(q, tick),
{
    nearest_is_monotone(p, q, tick);
    let a = nearest(p, tick);
    let b = nearest(q, tick);
    assert(a * tick <= b * tick) by (nonlinear_arith)
        requires
            a <= b,
            tick > 0,
    ;
}

/// A price on the grid, between one cent and ninety-nine, is left as it is.
pub proof fn rounding_keeps_the_grid(k: int, tick: int)
    requires
        tick > 0,
        PRICE_FLOOR <= k * tick <= PRICE_CEILING,
    ensures
        round_tick_of(k * tick, tick) == k * tick,
{
    nearest_of_multiple(k, tick);
}

/// A multiplication by one or more does not shrink.
proof fn times_grows(a: int, b: int)
    requires
        a >= UNIT,
        0 <= b <= i64::MAX,
    ensures
        times_of(a, b) >= b,
{
    assert(b * UNIT <= a * b) by (nonlinear_arith)
        requires
            a >= UNIT,
            b >= 0,
    ;
    nearest_is_monotone(b * UNIT, a * b, UNIT as int);
    nearest_of_multiple(b, UNIT as int);
}

/// The fixed-point product keeps the order of its second factor.
proof fn times_is_monotone(a: int, b: int, c: int)
    requires
        a >= 0,
        b <= c,
    ensures
        times_of(a, b) <= times_of(a, c),
{
    assert(a * b <= a * c) by (nonlinear_arith)
        requires
            a >= 0,
            b <= c,
    ;
    nearest_is_monotone(a * b, a * c, UNIT as int);
}

/// A resting buy is strictly below the ask, whatever the ask, and no higher than the ceiling under it
/// at the grid: it never crosses.
pub proof fn maker_buy_never_crosses(bid: int, ask: int, tick: int, k_spread: int, eps_ticks: int)
    requires
        0 < tick <= i64::MAX,
        i64::MIN < ask <= i64::MAX,
    ensures
        maker_buy_price_of(bid, ask, tick, k_spread, eps_ticks) <= round_tick_of(
            maker_ceiling_of(ask, tick, eps_ticks),
            tick,
        ),
        eps_ticks >= UNIT ==> maker_buy_price_of(bid, ask, tick, k_spread, eps_ticks) < ask,
{
    let ceiling = maker_ceiling_of(ask, tick, eps_ticks);
    let spread = max(minus_of(ask, bid), 0);
    let x = within(
        minus_of(nearest(bid + ask, 2), times_of(k_spread, spread)),
        min(bid, ceiling),
        ceiling,
    );
    assert(x <= ceiling);
    rounding_keeps_order(x, ceiling, tick);
    if eps_ticks >= UNIT {
        times_grows(eps_ticks, tick);
        if ask - times_of(eps_ticks, tick) >= PRICE_FLOOR {
            assert(ceiling <= ask - tick);
            nearest_is_close(ceiling, tick);
        }
    }
}

/// Half of the spread below the middle is the bid: there a buy joins the bid, or the ceiling under
/// the ask where that is lower, unless the ask leaves no room there.
pub proof fn half_spread_joins_the_bid(bid: int, ask: int, tick: int, eps_ticks: int)
    requires
        0 <= bid <= ask <= i64::MAX,
    ensures
        ({
            let p = round_tick_of(min(bid, maker_ceiling_of(ask, tick, eps_ticks)), tick);
            &&& inside_spread_of(bid, ask, tick, HALF as int, eps_ticks) == p
            &&& p < ask || minus_of(ask, times_of(eps_ticks, tick)) >= PRICE_FLOOR
                ==> maker_buy_price_of(bid, ask, tick, HALF as int, eps_ticks) == p
        }),
{
    let spread = ask - bid;
    let half = times_of(HALF as int, spread);
    assert(half == (spread + 1) / 2) by {
        let a = HALF * spread;
        assert(2 * a + UNIT == UNIT * (spread + 1)) by (nonlinear_arith)
            requires
                a == HALF * spread,
                UNIT == 1_000_000_000,
                HALF == 500_000_000,
        ;
        assert((UNIT * (spread + 1)) / (2 * UNIT) == (spread + 1) / 2) by {
            vstd::arithmetic::div_mod::lemma_div_denominator(UNIT * (spread + 1), UNIT as int, 2);
            vstd::arithmetic::div_mod::lemma_div_by_multiple(spread + 1, UNIT as int);
            assert(UNIT * (spread + 1) == (spread + 1) * UNIT) by (nonlinear_arith);
        }
        assert(a >= 0) by (nonlinear_arith)
            requires
                a == HALF * spread,
                HALF == 500_000_000,
                spread >= 0,
        ;
    }
    let sum = bid + ask;
    let two = 2int;
    assert((2 * sum + two) / (2 * two) == (sum + 1) / 2) by (nonlinear_arith)
        requires
            two == 2,
    ;
    assert(nearest(sum, two) == (sum + 1) / 2);
    assert(nearest(bid + ask, 2) - half == bid);
}

/// With no share of the spread the buy is priced at the middle, held between the bid and the ceiling
/// under the ask, unless the ask leaves no room there.
pub proof fn no_share_is_the_middle(bid: int, ask: int, tick: int, eps_ticks: int)
    requires
        i64::MIN <= bid <= i64::MAX,
        i64::MIN <= ask <= i64::MAX,
    ensures
        ({
            let ceiling = maker_ceiling_of(ask, tick, eps_ticks);
            let p = round_tick_of(
                within(nearest(bid + ask, 2), min(bid, ceiling), ceiling),
                tick,
            );
            &&& inside_spread_of(bid, ask, tick, 0, eps_ticks) == p
            &&& p < ask || minus_of(ask, times_of(eps_ticks, tick)) >= PRICE_FLOOR
                ==> maker_buy_price_of(bid, ask, tick, 0, eps_ticks) == p
        }),
{
    let spread = max(minus_of(ask, bid), 0);
    assert(0 * spread == 0 && 0 * UNIT == 0) by (nonlinear_arith);
    nearest_of_multiple(0, UNIT as int);
    nearest_is_close(bid + ask, 2);
}

/// The fee of leaving is the same on either side of one half, nothing at the two ends, and never
/// more than at one half.
pub proof fn fee_peaks_in_the_middle(coeff: int, p: int)
    requires
        coeff >= 0,
        0 <= p <= UNIT,
    ensures
        taker_exit_fee_of(coeff, p) == taker_exit_fee_of(coeff, UNIT - p),
        taker_exit_fee_of(coeff, 0) == 0,
        taker_exit_fee_of(coeff, UNIT as int) == 0,
        0 <= taker_exit_fee_of(coeff, p) <= taker_exit_fee_of(coeff, HALF as int),
{
    let one = UNIT as int;
    let half = HALF as int;
    assert(p * (one - p) == (one - p) * p) by (nonlinear_arith);
    assert(0 <= p * (one - p) <= half * half) by (nonlinear_arith)
        requires
            0 <= p <= one,
            one == 2 * half,
    ;
    assert(0 * one == 0 && one * 0 == 0 && coeff * 0 == 0 && 0 * (one - 0) == 0) by (nonlinear_arith);
    nearest_of_multiple(0, one);
    nearest_is_monotone(0, p * (one - p), one);
    nearest_is_monotone(p * (one - p), half * half, one);
    times_is_monotone(coeff, 0, times_of(p, one - p));
    times_is_monotone(coeff, times_of(p, one - p), times_of(half, half));
    assert(one - half == half);
}

/// At one price the edge that a signal needs never falls as the window runs out.
pub proof fn required_gap_rises_with_time(
    gap_min: int,
    gap_dynamic_k: int,
    fee_coeff: int,
    real_up: int,
    sooner_s: int,
    later_s: int,
)
    requires
        gap_dynamic_k >= 0,
        later_s <= sooner_s,
    ensures
        required_gap_of(gap_min, gap_dynamic_k, fee_coeff, real_up, sooner_s) <= required_gap_of(
            gap_min,
            gap_dynamic_k,
            fee_coeff,
            real_up,
            later_s,
        ),
{
    elapsed_rises(sooner_s, later_s);
    times_is_monotone(gap_dynamic_k, 0, decisiveness_of(real_up));
    nearest_of_multiple(0, UNIT as int);
    assert(gap_dynamic_k * 0 == 0 && 0 * UNIT == 0) by (nonlinear_arith);
    times_is_monotone(
        times_of(gap_dynamic_k, decisiveness_of(real_up)),
        elapsed_of(sooner_s),
        elapsed_of(later_s),
    );
}

/// At one time the part of the needed edge that grows with the decision of the market never falls
/// as the price moves away from one half.
pub proof fn required_gap_rises_with_decision(
    gap_dynamic_k: int,
    price: int,
    farther: int,
    remaining_s: int,
)
    requires
        gap_dynamic_k >= 0,
        decisiveness_of(price) <= decisiveness_of(farther),
    ensures
        required_gap_of(0, gap_dynamic_k, 0, price, remaining_s) <= required_gap_of(
            0,
            gap_dynamic_k,
            0,
            farther,
            remaining_s,
        ),
{
    let e = elapsed_of(remaining_s);
    let a = times_of(gap_dynamic_k, decisiveness_of(price));
    let b = times_of(gap_dynamic_k, decisiveness_of(farther));
    times_is_monotone(gap_dynamic_k, decisiveness_of(price), decisiveness_of(farther));
    assert(a * e <= b * e) by (nonlinear_arith)
        requires
            a <= b,
            e >= 0,
    ;
    nearest_is_monotone(a * e, b * e, UNIT as int);
    let f = times_of(price, minus_of(UNIT as int, price));
    let g = times_of(farther, minus_of(UNIT as int, farther));
    assert(0 * f == 0 && 0 * g == 0 && 0 * UNIT == 0) by (nonlinear_arith);
    nearest_of_multiple(0, UNIT as int);
}

/// The window only runs forward.
proof fn elapsed_rises(sooner_s: int, later_s: int)
    requires
        later_s <= sooner_s,
    ensures
        0 <= elapsed_of(sooner_s) <= elapsed_of(later_s) <= UNIT,
{
    let w = crate::pricing::WINDOW_S as int;
    assert((w - sooner_s) * UNIT <= (w - later_s) * UNIT) by (nonlinear_arith)
        requires
            later_s <= sooner_s,
            UNIT == 1_000_000_000,
    ;
    nearest_is_monotone((w - sooner_s) * UNIT, (w - later_s) * UNIT, w);
}

/// An order is never smaller than what the exchange trades, and it is worth the target, as far as
/// the number of tokens that takes can be written.
pub proof fn order_is_large_enough(
    fixed_usd: int,
    force_min: bool,
    kelly: Option<i64>,
    notional_target_usd: int,
    min_order_size: int,
    price: int,
)
    requires
        price > 0,
        -(-notional_target_usd / price) * UNIT <= i64::MAX,
    ensures
        order_size_of(
            fixed_usd,
            force_min,
            kelly,
            notional_target_usd,
            min_order_size,
            price,
        ) matches Some(s) ==> s >= min_order_size && s * price >= notional_target_usd * UNIT,
{
    let t = notional_target_usd;
    let one = UNIT as int;
    let q = -t / price;
    let r = -t % price;
    lemma_fundamental_div_mod(-t, price);
    let need = whole_ceil_of(t, price);
    assert(need >= -q * one);
    assert((-q * one) * price >= t * one) by (nonlinear_arith)
        requires
            -t == price * q + r,
            0 <= r < price,
            one > 0,
    ;
    match order_size_of(fixed_usd, force_min, kelly, t, min_order_size, price) {
        Some(s) => {
            assert(s * price >= (-q * one) * price) by (nonlinear_arith)
                requires
                    s >= -q * one,
                    price > 0,
            ;
        },
        None => {},
    }
}

/// Ties go away from zero: the nearest whole number is never the one of two that lies closer to zero.
pub proof fn ties_go_away_from_zero(a: int, d: int)
    requires
        d > 0,
    ensures
        a >= 0 ==> -d < 2 * (nearest(a, d) * d - a) <= d,
        a <= 0 ==> -d <= 2 * (nearest(a, d) * d - a) < d,
{
    nearest_is_close(a, d);
    let m = if a >= 0 {
        a
    } else {
        -a
    };
    let q = (2 * m + d) / (2 * d);
    let r = (2 * m + d) % (2 * d);
    lemma_fundamental_div_mod(2 * m + d, 2 * d);
    assert(2 * d * q == 2 * (q * d)) by (nonlinear_arith);
    assert((-q) * d == -(q * d)) by (nonlinear_arith);
    assert(0 <= r < 2 * d);
    if a == 0 {
        nearest_of_multiple(0, d);
        assert(0 * d == 0);
    }
}

/// The fixed-point sum, difference and product are the true ones where these fit, up to half a
/// billionth for the product.
pub proof fn fixed_point_is_arithmetic(a: int, b: int)
    ensures
        i64::MIN <= a + b <= i64::MAX ==> plus_of(a, b) == a + b,
        i64::MIN <= a - b <= i64::MAX ==> minus_of(a, b) == a - b,
        a + b > i64::MAX ==> plus_of(a, b) == i64::MAX,
        a - b < i64::MIN ==> minus_of(a, b) == i64::MIN,
        -0x4000_0000_0000_0000 * 1_000_000_000 <= a * b <= 0x4000_0000_0000_0000 * 1_000_000_000
            ==> -1_000_000_000 <= 2 * (times_of(a, b) * 1_000_000_000 - a * b) <= 1_000_000_000,
{
    nearest_is_close(a * b, UNIT as int);
}

/// The edge of a signal is what the fair price is above the market for the side that it buys: the two
/// sides see it with opposite signs.
pub proof fn edge_is_seen_from_the_side(fair: int, real_up: int)
    requires
        is_ratio(fair),
        is_ratio(real_up),
    ensures
        gap_of(Side::Up, fair, real_up) == fair - real_up,
        gap_of(Side::Down, fair, real_up) == real_up - fair,
{
}

/// A quantity between minus a million and a million.
pub open spec fn is_ratio(x: int) -> bool {
    -1_000_000_000_000_000 <= x <= 1_000_000_000_000_000
}

/// The fee of leaving is `coeff * p * (1 - p)`, up to the rounding of its two products.
pub proof fn fee_is_the_product(coeff: int, p: int)
    requires
        0 <= coeff <= 1_000_000_000_000,
        0 <= p <= 1_000_000_000,
    ensures
        ({
            let one: int = 1_000_000_000;
            let fee = taker_exit_fee_of(coeff, p);
            -(one * one + coeff * one) <= 2 * (fee * (one * one) - coeff * (p * (one - p))) <= one
                * one + coeff * one
        }),
{
    let one = UNIT as int;
    let pq = p * (one - p);
    assert(0 <= pq <= one * one) by (nonlinear_arith)
        requires
            pq == p * (one - p),
            0 <= p <= one,
    ;
    assert(one * one == 1_000_000_000_000_000_000) by (nonlinear_arith)
        requires
            one == 1_000_000_000,
    ;
    nearest_is_close(pq, one);
    let inner = nearest(pq, one);
    assert(-1 <= inner <= one + 1) by (nonlinear_arith)
        requires
            -one <= 2 * (inner * one - pq) <= one,
            0 <= pq <= one * one,
            one == 1_000_000_000,
    ;
    assert(inner == times_of(p, one - p));
    assert(-1_000_000_000_000 * 2 <= coeff * inner <= 1_000_000_000_000 * 1_000_000_001)
        by (nonlinear_arith)
        requires
            0 <= coeff <= 1_000_000_000_000,
            -1 <= inner <= 1_000_000_001,
    ;
    nearest_is_close(coeff * inner, one);
    let fee = nearest(coeff * inner, one);
    assert(-0x4000_0000_0000_0000 <= fee <= 0x4000_0000_0000_0000) by (nonlinear_arith)
        requires
            -one <= 2 * (fee * one - coeff * inner) <= one,
            -1_000_000_000_000 * 2 <= coeff * inner <= 1_000_000_000_000 * 1_000_000_001,
            one == 1_000_000_000,
    ;
    assert(fee == taker_exit_fee_of(coeff, p));
    assert(-(one * one + coeff * one) <= 2 * (fee * (one * one) - coeff * pq) <= one * one + coeff
        * one) by (nonlinear_arith)
        requires
            -one <= 2 * (fee * one - coeff * inner) <= one,
            -one <= 2 * (inner * one - pq) <= one,
            coeff >= 0,
            one == 1_000_000_000,
    ;
}

/// The parts of the edge that a signal needs add up: the least edge, the growth, and the fee of
/// leaving on top. With a fee it needs what it needs without one and the fee; with a least edge what
/// it needs without one and that.
pub proof fn needed_edge_adds_up(
    gap_min: int,
    gap_dynamic_k: int,
    fee_coeff: int,
    real_up: int,
    remaining_s: int,
)
    requires
        ({
            let growth = required_gap_of(0, gap_dynamic_k, 0, real_up, remaining_s);
            let fee = taker_exit_fee_of(fee_coeff, real_up);
            &&& i64::MIN <= gap_min <= i64::MAX
            &&& i64::MIN <= gap_min + growth <= i64::MAX
            &&& i64::MIN <= growth + fee <= i64::MAX
            &&& i64::MIN <= gap_min + growth + fee <= i64::MAX
        }),
    ensures
        required_gap_of(gap_min, gap_dynamic_k, fee_coeff, real_up, remaining_s)
            == required_gap_of(gap_min, gap_dynamic_k, 0, real_up, remaining_s)
            + taker_exit_fee_of(fee_coeff, real_up),
        required_gap_of(gap_min, gap_dynamic_k, fee_coeff, real_up, remaining_s) == gap_min
            + required_gap_of(0, gap_dynamic_k, fee_coeff, real_up, remaining_s),
        required_gap_of(gap_min, gap_dynamic_k, fee_coeff, real_up, remaining_s) == gap_min
            + required_gap_of(0, gap_dynamic_k, 0, real_up, remaining_s) + taker_exit_fee_of(
            fee_coeff,
            real_up,
        ),
        required_gap_of(gap_min, 0, 0, real_up, remaining_s) == gap_min,
{
    let f = times_of(real_up, minus_of(UNIT as int, real_up));
    let e = elapsed_of(remaining_s);
    let c = decisiveness_of(real_up);
    assert(0 * f == 0 && 0 * c == 0 && 0 * e == 0 && 0 * UNIT == 0) by (nonlinear_arith);
    nearest_of_multiple(0, UNIT as int);
}

/// The window is over by the share of its five minutes that is past, from nothing before it to all of
/// it at its end.
pub proof fn elapsed_is_the_share_of_the_window(remaining_s: int)
    ensures
        remaining_s >= 300 ==> elapsed_of(remaining_s) == 0,
        remaining_s <= 0 ==> elapsed_of(remaining_s) == 1_000_000_000,
        0 <= remaining_s <= 300 ==> -300 <= 2 * (elapsed_of(remaining_s) * 300 - (300 - remaining_s)
            * 1_000_000_000) <= 300,
{
    let a = (300 - remaining_s) * UNIT;
    nearest_is_close(a, 300);
    nearest_of_multiple(0, 300);
    nearest_of_multiple(UNIT as int, 300);
    if remaining_s >= 300 {
        nearest_is_monotone(a, 0, 300);
    }
    if remaining_s <= 0 {
        nearest_is_monotone(UNIT * 300, a, 300);
    }
    if 0 <= remaining_s <= 300 {
        nearest_is_monotone(0, a, 300);
        nearest_is_monotone(a, UNIT * 300, 300);
    }
}

/// The growth of the needed edge is `k` times the distance of the market from one half times the share
/// of the window that is over, up to the rounding of the two products.
pub proof fn growth_is_the_product(gap_dynamic_k: int, real_up: int, remaining_s: int)
    requires
        0 <= gap_dynamic_k <= 1_000_000_000_000,
        0 <= real_up <= 1_000_000_000,
    ensures
        ({
            let one: int = 1_000_000_000;
            let growth = required_gap_of(0, gap_dynamic_k, 0, real_up, remaining_s);
            let off = if real_up >= 500_000_000 {
                real_up - 500_000_000
            } else {
                500_000_000 - real_up
            };
            -2 * (one * one) <= 2 * (growth * (one * one) - (gap_dynamic_k * off) * elapsed_of(
                remaining_s,
            )) <= 2 * (one * one)
        }),
{
    let one = UNIT as int;
    let k = gap_dynamic_k;
    let off = decisiveness_of(real_up);
    let e = elapsed_of(remaining_s);
    let f = times_of(real_up, minus_of(one, real_up));
    assert(0 * f == 0 && 0 * one == 0) by (nonlinear_arith);
    nearest_of_multiple(0, one);
    assert(0 <= k * off <= 1_000_000_000_000 * 500_000_000) by (nonlinear_arith)
        requires
            0 <= k <= 1_000_000_000_000,
            0 <= off <= 500_000_000,
    ;
    nearest_is_close(k * off, one);
    let a = nearest(k * off, one);
    assert(-1 <= a <= 500_000_000_001) by (nonlinear_arith)
        requires
            -one <= 2 * (a * one - k * off) <= one,
            0 <= k * off <= 1_000_000_000_000 * 500_000_000,
            one == 1_000_000_000,
    ;
    assert(-1_000_000_000 <= a * e <= 500_000_000_001 * 1_000_000_000) by (nonlinear_arith)
        requires
            -1 <= a <= 500_000_000_001,
            0 <= e <= 1_000_000_000,
    ;
    nearest_is_close(a * e, one);
    let d = nearest(a * e, one);
    assert(-0x4000_0000_0000_0000 <= d <= 0x4000_0000_0000_0000) by (nonlinear_arith)
        requires
            -one <= 2 * (d * one - a * e) <= one,
            -1_000_000_000 <= a * e <= 500_000_000_001 * 1_000_000_000,
            one == 1_000_000_000,
    ;
    assert(-2 * (one * one) <= 2 * (d * (one * one) - (k * off) * e) <= 2 * (one * one))
        by (nonlinear_arith)
        requires
            -one <= 2 * (d * one - a * e) <= one,
            -one <= 2 * (a * one - k * off) <= one,
            0 <= e <= one,
            one == 1_000_000_000,
    ;
}

/// A resting buy is priced at `mid - k * spread`, up to the rounding to the tick, wherever that lies
/// under the ceiling; and at the ceiling where it lies above.
pub proof fn maker_buy_is_priced_by_its_share(
    bid: int,
    ask: int,
    tick: int,
    k_spread: int,
    eps_ticks: int,
)
    requires
        0 < tick <= i64::MAX,
        0 <= bid < ask <= 1_000_000_000,
        0 <= k_spread <= 500_000_000,
        eps_ticks >= 1_000_000_000,
    ensures
        ({
            let one: int = 1_000_000_000;
            let p = maker_buy_price_of(bid, ask, tick, k_spread, eps_ticks);
            let top = ask - times_of(eps_ticks, tick);
            let twice = one * (bid + ask) - 2 * (k_spread * (ask - bid));
            &&& 10_000_000 < p < 990_000_000 && top >= 10_000_000 && twice <= 2 * one * top - 2
                * one ==> -(one * tick + 2 * one) <= 2 * one * p - twice <= one * tick + 2 * one
            &&& 10_000_000 < p < 990_000_000 && top >= 10_000_000 && twice >= 2 * one * top + 2
                * one ==> -tick <= 2 * (p - top) <= tick
        }),
{
    let one = UNIT as int;
    let spread = ask - bid;
    let top = ask - times_of(eps_ticks, tick);
    let prod = k_spread * spread;
    assert(0 <= prod <= HALF * spread <= HALF * one) by (nonlinear_arith)
        requires
            prod == k_spread * spread,
            0 <= k_spread <= HALF,
            0 <= spread <= one,
            one == 1_000_000_000,
            HALF == 500_000_000,
    ;
    assert(HALF * one == 500_000_000_000_000_000) by (nonlinear_arith)
        requires
            one == 1_000_000_000,
            HALF == 500_000_000,
    ;
    nearest_is_close(prod, one);
    nearest_is_close(bid + ask, 2);
    let t = nearest(prod, one);
    let mid = nearest(bid + ask, 2);
    nearest_is_monotone(prod, HALF * spread, one);
    nearest_is_monotone(0, prod, one);
    nearest_of_multiple(0, one);
    let half = nearest(HALF * spread, one);
    assert(half == (spread + 1) / 2) by {
        half_of(spread);
    }
    assert(0 <= t <= half);
    times_grows(eps_ticks, tick);
    let x = mid - t;
    assert(mid - half == bid) by {
        middle_of(bid, ask);
    }
    assert(x >= bid);
    let twice = one * (bid + ask) - 2 * prod;
    assert(-(2 * one) <= 2 * one * x - twice <= 2 * one) by (nonlinear_arith)
        requires
            x == mid - t,
            twice == one * (bid + ask) - 2 * prod,
            -one <= 2 * (t * one - prod) <= one,
            -2 <= 2 * (mid * 2 - (bid + ask)) <= 2,
            one == 1_000_000_000,
    ;
    if top >= PRICE_FLOOR {
        assert(minus_of(ask, times_of(eps_ticks, tick)) == top);
        assert(top <= ask);
        if twice <= 2 * one * top - 2 * one {
            assert(x <= top) by (nonlinear_arith)
                requires
                    2 * one * x - twice <= 2 * one,
                    twice <= 2 * one * top - 2 * one,
                    one == 1_000_000_000,
            ;
            nearest_is_close(x, tick);
            let p = maker_buy_price_of(bid, ask, tick, k_spread, eps_ticks);
            if 10_000_000 < p < 990_000_000 {
                assert(p == nearest(x, tick) * tick);
                assert(-(one * tick + 2 * one) <= 2 * one * p - twice <= one * tick + 2 * one)
                    by (nonlinear_arith)
                    requires
                        -tick <= 2 * (p - x) <= tick,
                        -(2 * one) <= 2 * one * x - twice <= 2 * one,
                        one == 1_000_000_000,
                ;
            }
        }
        if twice >= 2 * one * top + 2 * one {
            assert(x >= top) by (nonlinear_arith)
                requires
                    2 * one * x - twice >= -(2 * one),
                    twice >= 2 * one * top + 2 * one,
                    one == 1_000_000_000,
            ;
            nearest_is_close(top, tick);
        }
    }
}

/// Half of a spread, rounded away from zero.
proof fn half_of(spread: int)
    requires
        spread >= 0,
    ensures
        nearest(HALF * spread, UNIT as int) == (spread + 1) / 2,
{
    let a = HALF * spread;
    assert(2 * a + UNIT == UNIT * (spread + 1)) by (nonlinear_arith)
        requires
            a == HALF * spread,
            UNIT == 1_000_000_000,
            HALF == 500_000_000,
    ;
    vstd::arithmetic::div_mod::lemma_div_denominator(UNIT * (spread + 1), UNIT as int, 2);
    vstd::arithmetic::div_mod::lemma_div_by_multiple(spread + 1, UNIT as int);
    assert(UNIT * (spread + 1) == (spread + 1) * UNIT) by (nonlinear_arith);
    assert(a >= 0) by (nonlinear_arith)
        requires
            a == HALF * spread,
            HALF == 500_000_000,
            spread >= 0,
    ;
}

/// The middle of a spread less half of it is the bid.
proof fn middle_of(bid: int, ask: int)
    requires
        0 <= bid <= ask,
    ensures
        nearest(bid + ask, 2) - (ask - bid + 1) / 2 == bid,
{
    let sum = bid + ask;
    let two = 2int;
    assert((2 * sum + two) / (2 * two) == (sum + 1) / 2) by (nonlinear_arith)
        requires
            two == 2,
    ;
    assert(nearest(sum, two) == (sum + 1) / 2);
}

/// The whole tokens that an amount buys and those that it takes to be worth one: the one costs no more
/// than the amount and one token more would, the other costs no less and one token less would.
pub proof fn whole_tokens_are_tight(amount: int, price: int)
    requires
        price > 0,
        0 <= amount <= i64::MAX,
        (amount / price + 1) * 1_000_000_000 <= i64::MAX,
    ensures
        ({
            let one: int = 1_000_000_000;
            let f = whole_floor_of(amount, price);
            let c = whole_ceil_of(amount, price);
            &&& f % one == 0 && f >= 0 && f * price <= amount * one < (f + one) * price
            &&& c % one == 0 && c >= 0 && (c - one) * price < amount * one <= c * price
        }),
{
    let one = UNIT as int;
    let a = amount / price;
    lemma_fundamental_div_mod(amount, price);
    let r = amount % price;
    let q = -amount / price;
    let s = -amount % price;
    lemma_fundamental_div_mod(-amount, price);
    assert(a >= 0) by (nonlinear_arith)
        requires
            amount == price * a + r,
            0 <= r < price,
            amount >= 0,
            price > 0,
    ;
    assert(a <= -q <= a + 1) by (nonlinear_arith)
        requires
            amount == price * a + r,
            0 <= r < price,
            -amount == price * q + s,
            0 <= s < price,
            price > 0,
    ;
    assert(0 <= a * one <= i64::MAX && 0 <= -q * one <= i64::MAX) by (nonlinear_arith)
        requires
            0 <= a <= -q <= a + 1,
            (a + 1) * one <= i64::MAX,
            one == 1_000_000_000,
    ;
    vstd::arithmetic::div_mod::lemma_mod_multiples_basic(a, one);
    vstd::arithmetic::div_mod::lemma_mod_multiples_basic(-q, one);
    assert((a * one) * price <= amount * one < (a * one + one) * price) by (nonlinear_arith)
        requires
            amount == price * a + r,
            0 <= r < price,
            one == 1_000_000_000,
    ;
    assert((-q * one - one) * price < amount * one <= (-q * one) * price) by (nonlinear_arith)
        requires
            -amount == price * q + s,
            0 <= s < price,
            one == 1_000_000_000,
    ;
}

/// The size of an order comes from one source: a fixed amount where one is set, whatever Kelly says
/// and whether or not the smallest size is forced; the smallest size where that is forced, whatever
/// Kelly says; Kelly otherwise, and nothing where Kelly gives none.
pub proof fn size_comes_from_one_source(
    fixed_usd: int,
    force_min: bool,
    other_force: bool,
    kelly: Option<i64>,
    other_kelly: Option<i64>,
    target: int,
    min_order_size: int,
    price: int,
)
    ensures
        fixed_usd > 0 ==> order_size_of(fixed_usd, force_min, kelly, target, min_order_size, price)
            == order_size_of(fixed_usd, other_force, other_kelly, target, min_order_size, price),
        fixed_usd <= 0 ==> order_size_of(fixed_usd, true, kelly, target, min_order_size, price)
            == order_size_of(0, true, other_kelly, target, min_order_size, price),
        order_size_of(fixed_usd, force_min, kelly, target, min_order_size, price) is None
            <==> fixed_usd <= 0 && !force_min && kelly is None,
{
}

/// The size of an order is what its source says, raised to the least size and to the target: it is
/// never less than any of the three, and always one of them. A fixed amount says the whole tokens
/// that it buys, so that the order costs no more than the amount unless it is one of the two floors.
pub proof fn size_is_what_is_asked_or_a_floor(
    fixed_usd: int,
    force_min: bool,
    kelly: Option<i64>,
    target: int,
    min_order_size: int,
    price: int,
)
    requires
        0 < price,
        0 <= fixed_usd <= i64::MAX,
        0 <= target <= i64::MAX,
        (fixed_usd / price + 1) * 1_000_000_000 <= i64::MAX,
        (target / price + 1) * 1_000_000_000 <= i64::MAX,
        fixed_usd > 0 || force_min || kelly is Some,
    ensures
        ({
            let one: int = 1_000_000_000;
            let size = order_size_of(fixed_usd, force_min, kelly, target, min_order_size, price);
            let s = size->0;
            let is_target = s % one == 0 && (s - one) * price < target * one;
            &&& size is Some
            &&& s >= min_order_size
            &&& s * price >= target * one
            &&& fixed_usd > 0 ==> (s + one) * price > fixed_usd * one && (s == min_order_size
                || is_target || (s % one == 0 && s * price <= fixed_usd * one))
            &&& fixed_usd == 0 && force_min ==> s == min_order_size || is_target
            &&& fixed_usd == 0 && !force_min ==> s >= kelly->0 && (s == kelly->0 || s
                == min_order_size || is_target)
        }),
{
    let one = UNIT as int;
    whole_tokens_are_tight(target, price);
    whole_tokens_are_tight(fixed_usd, price);
    let c = whole_ceil_of(target, price);
    let f = whole_floor_of(fixed_usd, price);
    let s = order_size_of(fixed_usd, force_min, kelly, target, min_order_size, price)->0;
    assert(s * price >= c * price) by (nonlinear_arith)
        requires
            s >= c,
            price > 0,
    ;
    if fixed_usd > 0 {
        assert((s + one) * price >= (f + one) * price) by (nonlinear_arith)
            requires
                s >= f,
                price > 0,
        ;
    }
}

/// A division by nothing goes to the end of the range that the amount points to, and stays at nothing
/// without an amount; the sign of both may be turned. A price without a grid stays as it is.
pub proof fn degenerate_divisions_have_an_answer(a: int, b: int, p: int, tick: int)
    ensures
        a > 0 ==> whole_floor_of(a, 0) == i64::MAX && whole_ceil_of(a, 0) == i64::MAX,
        a < 0 ==> whole_floor_of(a, 0) == i64::MIN && whole_ceil_of(a, 0) == i64::MIN,
        whole_floor_of(0, 0) == 0 && whole_ceil_of(0, 0) == 0,
        whole_floor_of(-a, -b) == whole_floor_of(a, b) || b == 0,
        whole_ceil_of(-a, -b) == whole_ceil_of(a, b) || b == 0,
        tick <= 0 ==> round_tick_of(p, tick) == p,
{
}

} // verus!
