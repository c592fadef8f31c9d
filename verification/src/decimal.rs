//! Decimal literals of the feeds, read into fixed-point quantities.

use crate::fixed::{sat, saturate};
use crate::text::{
    chars_of, digit_run, digit_value, is_digit, lowered, number_is_nat, number_of, read_number,
    skip_digits, tail_is,
};
use vstd::math::min;
use vstd::prelude::*;

verus! {

/// The decimal places of a quantity.
pub const PLACES: i128 = 9;

/// Ten to the power of `k`.
pub open spec fn pow10(k: int) -> int
    decreases k,
{
    if k <= 0 {
        1
    } else {
        10 * pow10(k - 1)
    }
}

/// Whether a sign stands at position `i`.
pub open spec fn sign_at(s: Seq<char>, i: int) -> bool {
    0 <= i < s.len() && (s[i] == '+' || s[i] == '-')
}

/// Whether a minus sign stands at position `i`.
pub open spec fn minus_at(s: Seq<char>, i: int) -> bool {
    0 <= i < s.len() && s[i] == '-'
}

/// The position behind the sign that may stand at `i`.
pub open spec fn after_sign(s: Seq<char>, i: int) -> int {
    if sign_at(s, i) {
        i + 1
    } else {
        i
    }
}

/// The number that `digits` write with a point behind the first `p` of them, rounded to a whole
/// number by the first digit behind the point.
pub open spec fn pointed(digits: Seq<char>, p: int) -> int {
    if p < 0 {
        0
    } else if p < digits.len() {
        number_of(digits.take(p)) + if digit_value(digits[p]) >= 5 {
            1int
        } else {
            0int
        }
    } else {
        number_of(digits) * pow10(p - digits.len())
    }
}

/// `n`, or one where the digits write a number other than zero and `n` is zero: what is not zero is
/// never read as zero.
pub open spec fn kept_apart(digits: Seq<char>, n: int) -> int {
    if n == 0 && number_of(digits) > 0 {
        1
    } else {
        n
    }
}

/// `n` with the sign, as a quantity.
pub open spec fn signed(negative: bool, n: int) -> int {
    if negative {
        sat(-n)
    } else {
        sat(n)
    }
}

/// Where the parts of a decimal literal stand.
pub struct Parts {
    pub start: int,
    pub whole: int,
    pub frac_start: int,
    pub frac: int,
}

/// The parts of `s`: the digits before the point from `start` on, `whole` of them, and the digits
/// behind it from `frac_start` on, `frac` of them.
pub open spec fn parts_of(s: Seq<char>) -> Parts {
    let start = after_sign(s, 0);
    let whole = digit_run(s, start) as int;
    let point = start + whole;
    if point < s.len() && s[point] == '.' {
        Parts { start, whole, frac_start: point + 1, frac: digit_run(s, point + 1) as int }
    } else {
        Parts { start, whole, frac_start: point, frac: 0 }
    }
}

/// The digits of a decimal literal, without its point.
pub open spec fn digits_of(s: Seq<char>, parts: Parts) -> Seq<char> {
    s.subrange(parts.start, parts.start + parts.whole) + s.subrange(
        parts.frac_start,
        parts.frac_start + parts.frac,
    )
}

/// The exponent of a decimal literal whose digits end at `end`: zero where the text ends there,
/// `None` where neither the end nor an exponent follows.
pub open spec fn exponent_of(s: Seq<char>, end: int) -> Option<int> {
    if end == s.len() {
        Some(0)
    } else if s[end] == 'e' || s[end] == 'E' {
        let from = after_sign(s, end + 1);
        let run = digit_run(s, from) as int;
        if run == 0 || from + run != s.len() {
            None
        } else {
            let size = number_of(s.subrange(from, s.len() as int));
            Some(
                if minus_at(s, end + 1) {
                    -size
                } else {
                    size
                },
            )
        }
    } else {
        None
    }
}

/// Whether `s` behind its sign is one of the two words for infinity, in any case.
pub open spec fn is_infinite(s: Seq<char>) -> bool {
    let word = lowered(s.skip(after_sign(s, 0)));
    word == lowered("inf"@) || word == lowered("infinity"@)
}

/// The quantity that a decimal literal writes: an optional sign, digits with at most one point
/// among or around them, and an optional exponent. Its value is rounded to the nearest billionth,
/// one that is not zero to a billionth at least, and stops at the ends of the range; infinity is an
/// end of the range. `None` for anything else, and for "nan", which a quantity cannot hold.
pub open spec fn decimal_of(s: Seq<char>) -> Option<int> {
    let negative = minus_at(s, 0);
    let parts = parts_of(s);
    if is_infinite(s) {
        Some(
            if negative {
                i64::MIN as int
            } else {
                i64::MAX as int
            },
        )
    } else if parts.whole + parts.frac == 0 {
        None
    } else {
        match exponent_of(s, parts.frac_start + parts.frac) {
            Some(e) => {
                let digits = digits_of(s, parts);
                Some(
                    signed(
                        negative,
                        kept_apart(digits, pointed(digits, parts.whole + e + PLACES)),
                    ),
                )
            },
            None => None,
        }
    }
}

/// A power of ten exceeds its exponent.
proof fn pow10_grows(k: int)
    requires
        k >= 0,
    ensures
        pow10(k) > k,
    decreases k,
{
    if k > 0 {
        pow10_grows(k - 1);
    }
}

/// The largest number that `read` tells apart.
const READ_CAP: i128 = 0x1_0000_0000_0000_0000_0000;

/// The largest exponent that `read` tells apart.
const EXPONENT_CAP: i128 = 0x400_0000_0000_0000_0000_0000;

/// `n * pow10(k)`, stopped at the cap.
fn shift_up(n: i128, k: i128) -> (r: i128)
    requires
        0 <= n <= READ_CAP,
        k >= 0,
    ensures
        r == min(n * pow10(k as int), READ_CAP as int),
{
    let mut m: i128 = n;
    let mut left: i128 = k;
    while left > 0 && m > 0 && m < READ_CAP
        invariant
            0 <= m <= READ_CAP,
            left >= 0,
            min(n * pow10(k as int), READ_CAP as int) == min(m * pow10(left as int), READ_CAP as int),
        decreases left,
    {
        let ghost tail = pow10(left - 1);
        proof {
            assert(m * (10 * tail) == (m * 10) * tail) by (nonlinear_arith);
            pow10_grows(left - 1);
            if m * 10 > READ_CAP {
                assert(m * 10 * tail >= m * 10) by (nonlinear_arith)
                    requires
                        tail >= 1,
                        m > 0,
                ;
                assert(READ_CAP * tail >= READ_CAP) by (nonlinear_arith)
                    requires
                        tail >= 1,
                ;
            }
        }
        m = if m * 10 > READ_CAP {
            READ_CAP
        } else {
            m * 10
        };
        left -= 1;
    }
    proof {
        pow10_grows(left as int);
        if left > 0 && m > 0 {
            assert(m * pow10(left as int) >= m) by (nonlinear_arith)
                requires
                    pow10(left as int) >= 1,
                    m > 0,
            ;
        }
    }
    m
}

/// The number that `digits` write with a point behind the first `p` of them, stopped at the cap or
/// one above it.
fn read_pointed(digits: &Vec<char>, p: i128) -> (r: i128)
    requires
        forall|j: int| 0 <= j < digits.len() ==> is_digit(#[trigger] digits@[j]),
        p <= 0x1000_0000_0000_0000_0000_0000,
    ensures
        0 <= r <= READ_CAP + 1,
        r == pointed(digits@, p as int) || (r >= READ_CAP && pointed(digits@, p as int)
            >= READ_CAP),
{
    if p < 0 {
        return 0;
    }
    let n: usize = digits.len();
    if p < n as i128 {
        let cut: usize = p as usize;
        let head: i128 = read_number(digits, 0, cut, READ_CAP);
        assert(digits@.subrange(0, cut as int) =~= digits@.take(p as int));
        assert(is_digit(digits@[cut as int]));
        if digits[cut] >= '5' {
            head + 1
        } else {
            head
        }
    } else {
        let all: i128 = read_number(digits, 0, n, READ_CAP);
        assert(digits@.subrange(0, n as int) =~= digits@);
        let k: i128 = p - n as i128;
        proof {
            number_is_nat(digits@);
            pow10_grows(k as int);
            if number_of(digits@) > READ_CAP {
                assert(number_of(digits@) * pow10(k as int) >= READ_CAP) by (nonlinear_arith)
                    requires
                        number_of(digits@) > READ_CAP,
                        pow10(k as int) >= 1,
                        READ_CAP >= 0,
                ;
                assert(READ_CAP * pow10(k as int) >= READ_CAP) by (nonlinear_arith)
                    requires
                        pow10(k as int) >= 1,
                        READ_CAP >= 0,
                ;
            }
        }
        shift_up(all, k)
    }
}

/// Far from the digits it does not matter how far the point is: what they write is beyond the cap, or
/// nothing.
proof fn far_places_agree(digits: Seq<char>, p: int, q: int)
    requires
        forall|j: int| 0 <= j < digits.len() ==> is_digit(#[trigger] digits[j]),
        p == q || (p < 0 && q < 0) || (p >= digits.len() + READ_CAP && q >= digits.len()
            + READ_CAP),
    ensures
        kept_apart(digits, pointed(digits, p)) == kept_apart(digits, pointed(digits, q)) || (
        pointed(digits, p) >= READ_CAP && pointed(digits, q) >= READ_CAP),
{
    if p >= digits.len() + READ_CAP && q >= digits.len() + READ_CAP {
        let n = number_of(digits);
        let a = pow10(p - digits.len());
        let b = pow10(q - digits.len());
        number_is_nat(digits);
        pow10_grows(p - digits.len());
        pow10_grows(q - digits.len());
        if n >= 1 {
            assert(n * a >= READ_CAP && n * b >= READ_CAP) by (nonlinear_arith)
                requires
                    n >= 1,
                    a >= READ_CAP,
                    b >= READ_CAP,
            ;
        } else {
            assert(0 * a == 0 && 0 * b == 0);
        }
    }
}

/// The same number, kept apart from zero where the digits write one that is not zero.
fn read_kept_apart(digits: &Vec<char>, p: i128) -> (r: i128)
    requires
        forall|j: int| 0 <= j < digits.len() ==> is_digit(#[trigger] digits@[j]),
        p <= 0x1000_0000_0000_0000_0000_0000,
    ensures
        0 <= r <= READ_CAP + 1,
        r == kept_apart(digits@, pointed(digits@, p as int)) || (r >= READ_CAP && pointed(
            digits@,
            p as int,
        ) >= READ_CAP),
{
    let n: i128 = read_pointed(digits, p);
    let least: i128 = read_number(digits, 0, digits.len(), 1);
    assert(digits@.subrange(0, digits.len() as int) =~= digits@);
    if n == 0 && least > 0 {
        1
    } else {
        n
    }
}

/// The position behind the sign that may stand at `i`.
fn skip_sign(s: &Vec<char>, i: usize) -> (r: usize)
    requires
        i <= s.len(),
    ensures
        r == after_sign(s@, i as int),
        i <= r <= s.len(),
{
    if i < s.len() && (s[i] == '+' || s[i] == '-') {
        i + 1
    } else {
        i
    }
}

/// The exponent of a decimal literal whose digits end at `end`, stopped at the cap in both
/// directions.
fn read_exponent(s: &Vec<char>, end: usize) -> (r: Option<i128>)
    requires
        end <= s.len(),
    ensures
        match (r, exponent_of(s@, end as int)) {
            (Some(x), Some(e)) => {
                &&& -EXPONENT_CAP <= x <= EXPONENT_CAP
                &&& x == e || (x == EXPONENT_CAP && e >= x) || (x == -EXPONENT_CAP && e <= x)
            },
            (None, None) => true,
            _ => false,
        },
{
    if end == s.len() {
        return Some(0);
    }
    if s[end] != 'e' && s[end] != 'E' {
        return None;
    }
    let from: usize = skip_sign(s, end + 1);
    let to: usize = skip_digits(s, from);
    if to == from || to != s.len() {
        return None;
    }
    let size: i128 = read_number(s, from, to, EXPONENT_CAP);
    if s[end + 1] == '-' {
        Some(-size)
    } else {
        Some(size)
    }
}

/// Copies the characters of `s` from `from` to `to` behind those of `out`.
fn copy_range(s: &Vec<char>, from: usize, to: usize, out: &mut Vec<char>)
    requires
        from <= to <= s.len(),
    ensures
        final(out)@ == old(out)@ + s@.subrange(from as int, to as int),
{
    let mut i: usize = from;
    assert(s@.subrange(from as int, from as int) =~= Seq::<char>::empty());
    while i < to
        invariant
            from <= i <= to <= s.len(),
            out@ =~= old(out)@ + s@.subrange(from as int, i as int),
        decreases to - i,
    {
        out.push(s[i]);
        i += 1;
    }
}

/// Reads a decimal literal.
pub fn parse_decimal(text: &str) -> (r: Option<i64>)
    ensures
        match r {
            Some(x) => decimal_of(text@) == Some(x as int),
            None => decimal_of(text@) is None,
        },
{
    let s: Vec<char> = chars_of(text);
    let negative: bool = s.len() > 0 && s[0] == '-';
    let start: usize = skip_sign(&s, 0);
    if tail_is(&s, start, "inf") || tail_is(&s, start, "infinity") {
        return Some(
            if negative {
                i64::MIN
            } else {
                i64::MAX
            },
        );
    }
    let point: usize = skip_digits(&s, start);
    let frac_start: usize = if point < s.len() && s[point] == '.' {
        point + 1
    } else {
        point
    };
    let end: usize = if frac_start > point {
        skip_digits(&s, frac_start)
    } else {
        point
    };
    if point - start + (end - frac_start) == 0 {
        return None;
    }
    let e: i128 = match read_exponent(&s, end) {
        Some(x) => x,
        None => {
            return None;
        },
    };
    let mut digits: Vec<char> = Vec::new();
    copy_range(&s, start, point, &mut digits);
    copy_range(&s, frac_start, end, &mut digits);
    let ghost parts = parts_of(text@);
    let ghost full = exponent_of(text@, end as int)->0;
    let ghost p_full = parts.whole + full + PLACES;
    let p: i128 = (point - start) as i128 + e + PLACES;
    assert(digits@ =~= digits_of(text@, parts));
    let n: i128 = read_kept_apart(&digits, p);
    proof {
        far_places_agree(digits@, p as int, p_full);
    }
    assert(signed(negative, n as int) == signed(
        negative,
        kept_apart(digits@, pointed(digits@, p_full)),
    ));
    if negative {
        Some(saturate(-n))
    } else {
        Some(saturate(n))
    }
}

} // verus!
