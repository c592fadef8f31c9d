//! Fixed-point quantities.
//!
//! Prices, sizes and ratios are whole numbers of billionths: `UNIT` is one dollar, one token or
//! the ratio one. Every operation is total. A result that is not a whole number of billionths is
//! the nearest one, ties going away from zero; a result that leaves the range of `i64` stops at
//! its end. Profit is kept exact, as a whole number of billionths of a billionth (`UNIT * UNIT` is
//! one dollar), so that its sign is never lost to rounding.

use vstd::arithmetic::div_mod::{lemma_fundamental_div_mod, lemma_fundamental_div_mod_converse};
use vstd::math::{max, min};
use vstd::prelude::*;

verus! {

/// One dollar, one token, or the ratio one.
pub const UNIT: i64 = 1_000_000_000;

/// Half of `UNIT`.
pub const HALF: i64 = 500_000_000;

/// One cent, the lowest price of an order.
pub const PRICE_FLOOR: i64 = 10_000_000;

/// Ninety-nine cents, the highest price of an order.
pub const PRICE_CEILING: i64 = 990_000_000;

/// One dollar of notional: the product of a price and a size.
pub const DOLLAR_NOTIONAL: i128 = 1_000_000_000_000_000_000;

/// `x`, stopped at the ends of the range of `i64`.
pub open spec fn sat(x: int) -> int {
    if x > i64::MAX {
        i64::MAX as int
    } else if x < i64::MIN {
        i64::MIN as int
    } else {
        x
    }
}

/// `x`, stopped at the ends of the range of `i128`.
pub open spec fn sat_wide(x: int) -> int {
    if x > i128::MAX {
        i128::MAX as int
    } else if x < i128::MIN {
        i128::MIN as int
    } else {
        x
    }
}

/// The whole number nearest to `a / d`, ties going away from zero.
pub open spec fn nearest(a: int, d: int) -> int
    recommends
        d > 0,
{
    if a >= 0 {
        (2 * a + d) / (2 * d)
    } else {
        -((2 * -a + d) / (2 * d))
    }
}

/// `x` held between `lo` and `hi`.
pub open spec fn within(x: int, lo: int, hi: int) -> int {
    if x < lo {
        lo
    } else if x > hi {
        hi
    } else {
        x
    }
}

/// The fixed-point sum.
pub open spec fn plus_of(a: int, b: int) -> int {
    sat(a + b)
}

/// The fixed-point difference.
pub open spec fn minus_of(a: int, b: int) -> int {
    sat(a - b)
}

/// The fixed-point product.
pub open spec fn times_of(a: int, b: int) -> int {
    sat(nearest(a * b, UNIT as int))
}

/// The whole number of tokens just below or at `a / b`, as a quantity. A division by zero goes to
/// the end of the range that the sign of `a` points to.
pub open spec fn whole_floor_of(a: int, b: int) -> int {
    if b > 0 {
        sat((a / b) * UNIT)
    } else if b < 0 {
        sat((-a / -b) * UNIT)
    } else if a > 0 {
        i64::MAX as int
    } else if a < 0 {
        i64::MIN as int
    } else {
        0
    }
}

/// The whole number of tokens just above or at `a / b`, as a quantity.
pub open spec fn whole_ceil_of(a: int, b: int) -> int {
    if b > 0 {
        sat(-(-a / b) * UNIT)
    } else if b < 0 {
        sat(-(a / -b) * UNIT)
    } else if a > 0 {
        i64::MAX as int
    } else if a < 0 {
        i64::MIN as int
    } else {
        0
    }
}

/// `p` at the nearest multiple of `tick`, between one cent and ninety-nine; `p` itself where there
/// is no tick.
pub open spec fn round_tick_of(p: int, tick: int) -> int {
    if tick <= 0 {
        p
    } else {
        within(nearest(p, tick) * tick, PRICE_FLOOR as int, PRICE_CEILING as int)
    }
}

/// The exact profit of selling `n` tokens at `got` that were bought at `entry`.
pub open spec fn profit_of(got: int, entry: int, n: int) -> int {
    (got - entry) * n
}

/// `nearest` is never off by more than half of the divisor.
pub proof fn nearest_is_close(a: int, d: int)
    requires
        d > 0,
    ensures
        -d <= 2 * (nearest(a, d) * d - a) <= d,
{
    let m: int = if a >= 0 { a } else { -a };
    let q = (2 * m + d) / (2 * d);
    let r = (2 * m + d) % (2 * d);
    lemma_fundamental_div_mod(2 * m + d, 2 * d);
    assert(2 * d * q == 2 * (q * d)) by (nonlinear_arith);
    assert((-q) * d == -(q * d)) by (nonlinear_arith);
}

/// A multiple of the divisor is divided exactly.
pub proof fn nearest_of_multiple(k: int, d: int)
    requires
        d > 0,
    ensures
        nearest(k * d, d) == k,
{
    nearest_is_close(k * d, d);
    let e = nearest(k * d, d) - k;
    assert(nearest(k * d, d) * d - k * d == e * d) by (nonlinear_arith)
        requires
            e == nearest(k * d, d) - k,
    ;
    assert(e == 0) by (nonlinear_arith)
        requires
            -d <= 2 * (e * d) <= d,
            d > 0,
    ;
}

/// `nearest` keeps the order of its first argument.
pub proof fn nearest_is_monotone(a: int, b: int, d: int)
    requires
        d > 0,
        a <= b,
    ensures
        nearest(a, d) <= nearest(b, d),
{
    if a >= 0 {
        vstd::arithmetic::div_mod::lemma_div_is_ordered(2 * a + d, 2 * b + d, 2 * d);
    } else if b < 0 {
        vstd::arithmetic::div_mod::lemma_div_is_ordered(2 * -b + d, 2 * -a + d, 2 * d);
    } else {
        vstd::arithmetic::div_mod::lemma_div_pos_is_pos(2 * -a + d, 2 * d);
        vstd::arithmetic::div_mod::lemma_div_pos_is_pos(2 * b + d, 2 * d);
    }
}

/// `x` stopped at the ends of the range of `i64`.
pub fn saturate(x: i128) -> (r: i64)
    ensures
        r == sat(x as int),
{
    if x > i64::MAX as i128 {
        i64::MAX
    } else if x < i64::MIN as i128 {
        i64::MIN
    } else {
        x as i64
    }
}

/// The sum of two profits.
pub fn add_profit(a: i128, b: i128) -> (r: i128)
    ensures
        r == sat_wide(a + b),
{
    match a.checked_add(b) {
        Some(s) => s,
        None => {
            if b > 0 {
                i128::MAX
            } else {
                i128::MIN
            }
        },
    }
}

/// The distance of `x` from zero.
fn magnitude(x: i128) -> (r: u128)
    ensures
        r == if x >= 0 { x as int } else { -(x as int) },
{
    if x >= 0 {
        x as u128
    } else {
        (-(x + 1)) as u128 + 1
    }
}

/// The whole number nearest to `a / d`, ties going away from zero.
pub fn divide_nearest(a: i128, d: i128) -> (r: i128)
    requires
        d > 0,
    ensures
        r == nearest(a as int, d as int),
{
    let m: u128 = magnitude(a);
    let w: u128 = d as u128;
    let q: u128 = m / w;
    let rest: u128 = m % w;
    proof {
        lemma_fundamental_div_mod(m as int, w as int);
        let up: int = if rest >= w - rest { q + 1 } else { q as int };
        let left: int = if rest >= w - rest { 2 * rest - w } else { 2 * rest + w };
        assert(2 * m + w == up * (2 * w) + left) by (nonlinear_arith)
            requires
                m == w * q + rest,
                rest >= w - rest ==> up == q + 1 && left == 2 * rest - w,
                rest < w - rest ==> up == q && left == 2 * rest + w,
        ;
        lemma_fundamental_div_mod_converse(2 * m + w, 2 * w, up, left);
        assert(q <= m) by (nonlinear_arith)
            requires
                m == w * q + rest,
                w >= 1,
                rest >= 0,
                q >= 0,
        ;
        if w == 1 {
            assert(rest == 0);
        } else {
            assert(2 * q <= m) by (nonlinear_arith)
                requires
                    m == w * q + rest,
                    w >= 2,
                    rest >= 0,
                    q >= 0,
            ;
        }
    }
    let near: u128 = if rest >= w - rest {
        q + 1
    } else {
        q
    };
    if a >= 0 {
        near as i128
    } else if near == 0 {
        0
    } else {
        -((near - 1) as i128) - 1
    }
}

/// The fixed-point sum.
pub fn plus(a: i64, b: i64) -> (r: i64)
    ensures
        r == plus_of(a as int, b as int),
{
    saturate(a as i128 + b as i128)
}

/// The fixed-point difference.
pub fn minus(a: i64, b: i64) -> (r: i64)
    ensures
        r == minus_of(a as int, b as int),
{
    saturate(a as i128 - b as i128)
}

/// The exact product of two quantities.
pub fn product(a: i64, b: i64) -> (r: i128)
    ensures
        r == a * b,
{
    proof {
        assert(-0x4000_0000_0000_0000_0000_0000_0000_0000 <= a * b
            <= 0x4000_0000_0000_0000_0000_0000_0000_0000) by (nonlinear_arith)
            requires
                -0x8000_0000_0000_0000 <= a <= 0x7fff_ffff_ffff_ffff,
                -0x8000_0000_0000_0000 <= b <= 0x7fff_ffff_ffff_ffff,
        ;
    }
    a as i128 * b as i128
}

/// The fixed-point product.
pub fn times(a: i64, b: i64) -> (r: i64)
    ensures
        r == times_of(a as int, b as int),
{
    saturate(divide_nearest(product(a, b), UNIT as i128))
}

/// The smaller of two quantities.
pub fn lesser(a: i64, b: i64) -> (r: i64)
    ensures
        r == min(a as int, b as int),
{
    if a <= b {
        a
    } else {
        b
    }
}

/// The greater of two quantities.
pub fn greater(a: i64, b: i64) -> (r: i64)
    ensures
        r == max(a as int, b as int),
{
    if a >= b {
        a
    } else {
        b
    }
}

/// `x` held between `lo` and `hi`.
pub fn hold_within(x: i64, lo: i64, hi: i64) -> (r: i64)
    ensures
        r == within(x as int, lo as int, hi as int),
{
    if x < lo {
        lo
    } else if x > hi {
        hi
    } else {
        x
    }
}

/// The whole number of tokens just below or at `a / b`, as a quantity.
pub fn whole_floor(a: i64, b: i64) -> (r: i64)
    ensures
        r == whole_floor_of(a as int, b as int),
{
    if b > 0 {
        tokens(floor_quotient(a as i128, b as i128))
    } else if b < 0 {
        tokens(floor_quotient(-(a as i128), -(b as i128)))
    } else if a > 0 {
        i64::MAX
    } else if a < 0 {
        i64::MIN
    } else {
        0
    }
}

/// The whole number of tokens just above or at `a / b`, as a quantity.
pub fn whole_ceil(a: i64, b: i64) -> (r: i64)
    ensures
        r == whole_ceil_of(a as int, b as int),
{
    if b > 0 {
        tokens(-floor_quotient(-(a as i128), b as i128))
    } else if b < 0 {
        tokens(-floor_quotient(a as i128, -(b as i128)))
    } else if a > 0 {
        i64::MAX
    } else if a < 0 {
        i64::MIN
    } else {
        0
    }
}

/// A whole number of tokens, as a quantity.
fn tokens(n: i128) -> (r: i64)
    requires
        -0x8000_0000_0000_0000 <= n <= 0x8000_0000_0000_0000,
    ensures
        r == sat(n * UNIT),
{
    saturate(n * UNIT as i128)
}

/// The greatest whole number not above `a / b`.
fn floor_quotient(a: i128, b: i128) -> (r: i128)
    requires
        b > 0,
        -0x8000_0000_0000_0000 <= a <= 0x8000_0000_0000_0000,
    ensures
        r == a as int / b as int,
        -0x8000_0000_0000_0000 <= r <= 0x8000_0000_0000_0000,
{
    let m: u128 = magnitude(a);
    let w: u128 = b as u128;
    let q: u128 = m / w;
    let rest: u128 = m % w;
    proof {
        lemma_fundamental_div_mod(m as int, w as int);
        assert(q <= m) by (nonlinear_arith)
            requires
                m == w * q + rest,
                w >= 1,
                rest >= 0,
                q >= 0,
        ;
        if a < 0 {
            let up: int = if rest == 0 { -(q as int) } else { -(q as int) - 1 };
            let left: int = if rest == 0 { 0int } else { w - rest };
            assert(-(m as int) == up * w + left) by (nonlinear_arith)
                requires
                    m == w * q + rest,
                    rest == 0 ==> up == -(q as int) && left == 0,
                    rest != 0 ==> up == -(q as int) - 1 && left == w - rest,
            ;
            lemma_fundamental_div_mod_converse(a as int, b as int, up, left);
            if rest != 0 {
                assert(q < m) by (nonlinear_arith)
                    requires
                        m == w * q + rest,
                        w >= 1,
                        rest > 0,
                        q >= 0,
                ;
            }
        }
    }
    if a >= 0 {
        q as i128
    } else if rest == 0 {
        -(q as i128)
    } else {
        -(q as i128) - 1
    }
}

/// Rounds to the nearest tick, between one cent and ninety-nine; a price is left as it is where
/// there is no tick.
pub fn round_tick(p: i64, tick: i64) -> (r: i64)
    ensures
        r == round_tick_of(p as int, tick as int),
{
    if tick <= 0 {
        return p;
    }
    let steps: i128 = divide_nearest(p as i128, tick as i128);
    proof {
        nearest_is_close(p as int, tick as int);
    }
    hold_within(saturate(steps * tick as i128), PRICE_FLOOR, PRICE_CEILING)
}

/// The exact profit of selling `n` tokens at `got` that were bought at `entry`.
pub fn profit(got: i64, entry: i64, n: i64) -> (r: i128)
    ensures
        r == profit_of(got as int, entry as int, n as int),
{
    let gain: i128 = got as i128 - entry as i128;
    proof {
        assert(-0x7fff_ffff_ffff_ffff_ffff_ffff_ffff_ffff <= gain * n
            <= 0x7fff_ffff_ffff_ffff_ffff_ffff_ffff_ffff) by (nonlinear_arith)
            requires
                -0xffff_ffff_ffff_ffff <= gain <= 0xffff_ffff_ffff_ffff,
                -0x8000_0000_0000_0000 <= n <= 0x7fff_ffff_ffff_ffff,
        ;
    }
    gain * n as i128
}

} // verus!
