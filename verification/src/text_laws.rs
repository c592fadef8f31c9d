//! Laws of the texts: what a number in them is worth, and where a word stands in them.

use crate::balance::{balance_of, mentions_balance, states_balance};
use crate::decimal::{
    after_sign, decimal_of, digits_of, exponent_of, is_infinite, kept_apart, minus_at, parts_of,
    pointed, pow10, sign_at, signed, PLACES,
};
use crate::text::{
    digit_run, digit_run_fits, digit_value, first_from, is_digit, is_white, lower, lowered,
    number_is_nat, number_of, stands_at, white_run,
};
use vstd::prelude::*;

verus! {

/// Nothing but digits.
pub open spec fn all_digits(d: Seq<char>) -> bool {
    forall|i: int| 0 <= i < d.len() ==> '0' <= #[trigger] d[i] && d[i] <= '9'
}

/// A sign, or nothing.
pub open spec fn is_sign_text(sg: Seq<char>) -> bool {
    sg.len() == 0 || sg == seq!['+'] || sg == seq!['-']
}

/// A power of ten is positive, and the next one is ten times as large.
proof fn pow10_is_positive(k: int)
    ensures
        pow10(k) >= 1,
    decreases k,
{
    if k > 0 {
        pow10_is_positive(k - 1);
    }
}

/// A power of ten is no smaller than one with a smaller exponent.
proof fn pow10_is_monotone(j: int, k: int)
    requires
        j <= k,
    ensures
        pow10(j) <= pow10(k),
    decreases k - j,
{
    pow10_is_positive(k - 1);
    if j < k {
        pow10_is_monotone(j, k - 1);
    }
}

/// The powers of ten multiply.
proof fn pow10_adds(a: int, b: int)
    requires
        a >= 0,
        b >= 0,
    ensures
        pow10(a + b) == pow10(a) * pow10(b),
    decreases b,
{
    if b > 0 {
        pow10_adds(a, b - 1);
        assert(pow10(a + b) == 10 * pow10(a + b - 1));
        assert(10 * (pow10(a) * pow10(b - 1)) == pow10(a) * (10 * pow10(b - 1)))
            by (nonlinear_arith);
    }
}

/// Digits count by their place: what stands in front of `b` digits counts ten times as much for each
/// of them, and one digit counts from zero to nine.
pub proof fn digits_count_by_their_place(a: Seq<char>, b: Seq<char>, c: char)
    requires
        all_digits(b),
        '0' <= c && c <= '9',
    ensures
        number_of(a + b) == number_of(a) * pow10(b.len() as int) + number_of(b),
        0 <= number_of(b) < pow10(b.len() as int),
        number_of(seq![c]) == c as int - '0' as int,
        number_of(Seq::empty()) == 0,
        pow10(0) == 1,
        pow10(9) == 1_000_000_000,
    decreases b.len(),
{
    reveal_with_fuel(pow10, 10);
    let none = seq![c].drop_last();
    assert(none.len() == 0);
    assert(number_of(none) == 0);
    if b.len() == 0 {
        assert(a + b =~= a);
        assert(number_of(a) * 1 == number_of(a)) by (nonlinear_arith);
    } else {
        let rest = b.drop_last();
        assert forall|i: int| 0 <= i < rest.len() implies '0' <= #[trigger] rest[i] && rest[i]
            <= '9' by {
            assert(rest[i] == b[i]);
        }
        digits_count_by_their_place(a, rest, c);
        assert((a + b).drop_last() =~= a + rest);
        assert((a + b).last() == b.last());
        assert('0' <= b[b.len() - 1] && b[b.len() - 1] <= '9');
        let n = number_of(a);
        let p = pow10(rest.len() as int);
        assert(pow10(b.len() as int) == 10 * p);
        assert((n * p) * 10 == n * (10 * p)) by (nonlinear_arith);
    }
}

/// A run of digits ends where the digits do.
proof fn run_ends_with_the_digits(s: Seq<char>, i: int, n: int)
    requires
        0 <= i,
        0 <= n,
        i + n <= s.len(),
        forall|j: int| i <= j < i + n ==> is_digit(#[trigger] s[j]),
        i + n < s.len() ==> !is_digit(s[i + n]),
    ensures
        digit_run(s, i) == n,
    decreases n,
{
    if n > 0 {
        assert(is_digit(s[i]));
        run_ends_with_the_digits(s, i + 1, n - 1);
    }
}

/// A text whose first character behind the sign is a digit or a point is no word for infinity.
proof fn number_is_no_word(s: Seq<char>)
    requires
        after_sign(s, 0) < s.len(),
        is_digit(s[after_sign(s, 0)]) || s[after_sign(s, 0)] == '.',
    ensures
        !is_infinite(s),
{
    reveal_strlit("inf");
    reveal_strlit("infinity");
    let rest = s.skip(after_sign(s, 0));
    assert(lowered(rest)[0] == lower(s[after_sign(s, 0)]));
    assert("inf"@[0] == 'i' && "infinity"@[0] == 'i');
    assert(lowered("inf"@)[0] == 'i');
    assert(lowered("infinity"@)[0] == 'i');
}

/// What the digits around a point write, rounded to a whole number: exactly where no digit is left
/// behind the point, and up to one half otherwise.
proof fn pointed_is_near(d: Seq<char>, p: int)
    requires
        all_digits(d),
        d.len() > 0,
    ensures
        p >= d.len() ==> pointed(d, p) == number_of(d) * pow10(p - d.len()),
        p < d.len() ==> -pow10(d.len() - p) <= 2 * (pointed(d, p) * pow10(d.len() - p) - number_of(
            d,
        )) <= pow10(d.len() - p),
        pointed(d, p) >= 0,
{
    let k = d.len() - p;
    digits_count_by_their_place(Seq::empty(), d, '0');
    assert(Seq::<char>::empty() + d =~= d);
    let n = number_of(d);
    if p >= d.len() {
        pow10_is_positive(p - d.len());
        assert(n * pow10(p - d.len()) >= 0) by (nonlinear_arith)
            requires
                n >= 0,
                pow10(p - d.len()) >= 1,
        ;
    } else if p < 0 {
        pow10_is_monotone(d.len() as int, k - 1);
        assert(0 * pow10(k) == 0);
    } else {
        let head = d.take(p);
        let tail = d.skip(p);
        let c = d[p];
        let rest = d.skip(p + 1);
        assert('0' <= d[p] && d[p] <= '9');
        assert(forall|i: int| 0 <= i < tail.len() ==> #[trigger] tail[i] == d[i + p]);
        assert(forall|i: int| 0 <= i < rest.len() ==> #[trigger] rest[i] == d[i + p + 1]);
        assert(forall|i: int| 0 <= i < head.len() ==> #[trigger] head[i] == d[i]);
        assert(all_digits(tail)) by {
            assert forall|i: int| 0 <= i < tail.len() implies '0' <= #[trigger] tail[i] && tail[i]
                <= '9' by {
                assert(tail[i] == d[i + p]);
            }
        }
        assert(all_digits(rest)) by {
            assert forall|i: int| 0 <= i < rest.len() implies '0' <= #[trigger] rest[i] && rest[i]
                <= '9' by {
                assert(rest[i] == d[i + p + 1]);
            }
        }
        assert(all_digits(head)) by {
            assert forall|i: int| 0 <= i < head.len() implies '0' <= #[trigger] head[i] && head[i]
                <= '9' by {
                assert(head[i] == d[i]);
            }
        }
        assert(head + tail =~= d);
        assert(seq![c] + rest =~= tail);
        digits_count_by_their_place(head, tail, c);
        digits_count_by_their_place(seq![c], rest, c);
        digits_count_by_their_place(Seq::empty(), head, c);
        let h = number_of(head);
        let t = number_of(tail);
        let v = digit_value(c);
        let q = pow10(k - 1);
        let r = number_of(rest);
        assert(pow10(k) == 10 * q);
        assert(t == v * q + r);
        assert(n == h * (10 * q) + t);
        if v >= 5 {
            assert(-(10 * q) <= 2 * ((h + 1) * (10 * q) - n) <= 10 * q) by (nonlinear_arith)
                requires
                    n == h * (10 * q) + t,
                    t == v * q + r,
                    5 <= v <= 9,
                    0 <= r < q,
            ;
        } else {
            assert(-(10 * q) <= 2 * (h * (10 * q) - n) <= 10 * q) by (nonlinear_arith)
                requires
                    n == h * (10 * q) + t,
                    t == v * q + r,
                    0 <= v <= 4,
                    0 <= r < q,
            ;
        }
    }
}

/// A decimal literal: sign, digits, point, digits, and an exponent where `x` has digits.
pub open spec fn literal(
    sg: Seq<char>,
    w: Seq<char>,
    pt: Seq<char>,
    f: Seq<char>,
    letter: char,
    es: Seq<char>,
    x: Seq<char>,
) -> Seq<char> {
    if x.len() == 0 {
        sg + w + pt + f
    } else {
        sg + w + pt + f + seq![letter] + es + x
    }
}

/// Digits behind digits are digits.
proof fn joined_digits(w: Seq<char>, f: Seq<char>)
    requires
        all_digits(w),
        all_digits(f),
    ensures
        all_digits(w + f),
{
    let d = w + f;
    assert forall|i: int| 0 <= i < d.len() implies '0' <= #[trigger] d[i] && d[i] <= '9' by {
        if i < w.len() {
            assert(d[i] == w[i]);
        } else {
            assert(d[i] == f[i - w.len()]);
        }
    }
}

/// The parts of a literal are those that it was put together from.
proof fn literal_has_its_parts(
    sg: Seq<char>,
    w: Seq<char>,
    pt: Seq<char>,
    f: Seq<char>,
    letter: char,
    es: Seq<char>,
    x: Seq<char>,
)
    requires
        is_sign_text(sg),
        is_sign_text(es),
        all_digits(w),
        all_digits(f),
        all_digits(x),
        pt == seq!['.'] || (pt.len() == 0 && f.len() == 0),
        w.len() + f.len() > 0,
        letter == 'e' || letter == 'E',
    ensures
        ({
            let e = if es == seq!['-'] {
                -number_of(x)
            } else {
                number_of(x)
            };
            decimal_of(literal(sg, w, pt, f, letter, es, x)) == Some(
                signed(
                    sg == seq!['-'],
                    kept_apart(w + f, pointed(w + f, w.len() + e + PLACES)),
                ),
            )
        }),
{
    let s = literal(sg, w, pt, f, letter, es, x);
    let start = sg.len() as int;
    let point = start + w.len();
    let frac_start = point + pt.len();
    let end = frac_start + f.len();
    let d = w + f;
    assert forall|i: int| 0 <= i < w.len() implies #[trigger] s[start + i] == w[i] by {}
    assert forall|i: int| 0 <= i < f.len() implies #[trigger] s[frac_start + i] == f[i] by {}
    assert(forall|j: int| start <= j < point ==> #[trigger] s[j] == w[j - start]);
    assert(forall|j: int| frac_start <= j < end ==> #[trigger] s[j] == f[j - frac_start]);
    assert(pt.len() == 1 ==> s[point] == '.');
    assert(sg.len() == 1 ==> s[0] == sg[0]);
    assert(sg.len() == 0 && w.len() > 0 ==> s[0] == w[0]);
    assert(after_sign(s, 0) == start);
    assert(minus_at(s, 0) == (sg == seq!['-'])) by {
        if sg.len() == 1 {
            assert(sg == seq!['-'] || sg[0] == '+');
            assert(sg == seq!['-'] ==> sg[0] == '-');
        }
    }
    assert(x.len() > 0 ==> s[end] == letter);
    assert(x.len() == 0 ==> s.len() == end);
    assert forall|j: int| start <= j < point implies is_digit(#[trigger] s[j]) by {
        assert(s[j] == w[j - start]);
    }
    assert(point < s.len() ==> !is_digit(s[point]));
    run_ends_with_the_digits(s, start, w.len() as int);
    assert forall|j: int| frac_start <= j < end implies is_digit(#[trigger] s[j]) by {
        assert(s[j] == f[j - frac_start]);
    }
    assert(end < s.len() ==> !is_digit(s[end]));
    if pt.len() == 1 {
        run_ends_with_the_digits(s, frac_start, f.len() as int);
    }
    let parts = parts_of(s);
    assert(parts.start == start && parts.whole == w.len());
    assert(parts.frac_start == frac_start && parts.frac == f.len());
    assert(s.subrange(start, start + w.len()) =~= w);
    assert(s.subrange(frac_start, frac_start + f.len()) =~= f);
    assert(digits_of(s, parts) =~= d);
    number_is_no_word(s);
    let e = if es == seq!['-'] {
        -number_of(x)
    } else {
        number_of(x)
    };
    assert(x.len() > 0 ==> s.skip(end) =~= seq![letter] + es + x);
    exponent_is_read(s, end, letter, es, x);
    assert(exponent_of(s, end) == Some(e));
}

/// A decimal literal is read for what it writes. Its digits are a number `n`, of which `k` digits
/// stand behind the ninth place; the quantity is `n` with as many zeros where `k` is negative, the
/// nearest to `n / 10^k` otherwise, one where that would be zero and `n` is not; it has the sign of
/// the text, and stops at the ends of the range.
pub proof fn literal_is_read_for_what_it_writes(
    sg: Seq<char>,
    w: Seq<char>,
    pt: Seq<char>,
    f: Seq<char>,
    letter: char,
    es: Seq<char>,
    x: Seq<char>,
)
    requires
        is_sign_text(sg),
        is_sign_text(es),
        all_digits(w),
        all_digits(f),
        all_digits(x),
        pt == seq!['.'] || (pt.len() == 0 && f.len() == 0),
        w.len() + f.len() > 0,
        letter == 'e' || letter == 'E',
    ensures
        ({
            let got = decimal_of(literal(sg, w, pt, f, letter, es, x));
            let n = number_of(w + f);
            let e = if es == seq!['-'] {
                -number_of(x)
            } else {
                number_of(x)
            };
            let k = f.len() - e - 9;
            let minus = sg == seq!['-'];
            let v = if minus {
                -got->0
            } else {
                got->0
            };
            let inside = i64::MIN < got->0 < i64::MAX;
            &&& got is Some
            &&& i64::MIN <= got->0 <= i64::MAX
            &&& v >= 0
            &&& k <= 0 && n * pow10(-k) <= i64::MAX ==> v == n * pow10(-k)
            &&& k <= 0 && n * pow10(-k) > i64::MAX ==> !inside
            &&& k > 0 && inside ==> -pow10(k) <= 2 * (v * pow10(k) - n) <= pow10(k) || (v == 1 && n
                > 0)
            &&& k > 0 && n > 0 ==> v > 0
            &&& k > 0 && !inside ==> 2 * n >= (2 * i64::MAX - 1) * pow10(k)
        }),
{
    let e = if es == seq!['-'] {
        -number_of(x)
    } else {
        number_of(x)
    };
    let d = w + f;
    literal_has_its_parts(sg, w, pt, f, letter, es, x);
    assert(all_digits(d)) by {
        joined_digits(w, f);
    }
    let p = w.len() + e + PLACES;
    let k = f.len() - e - 9;
    let n = number_of(d);
    assert(d.len() - p == k);
    pointed_is_near(d, p);
    digits_count_by_their_place(Seq::empty(), d, '0');
    assert(Seq::<char>::empty() + d =~= d);
    let a = pointed(d, p);
    let m = kept_apart(d, a);
    if k <= 0 {
        pow10_is_positive(-k);
        assert(n > 0 ==> n * pow10(-k) > 0) by (nonlinear_arith)
            requires
                pow10(-k) >= 1,
        ;
        assert(m == n * pow10(-k));
    } else {
        pow10_is_positive(k);
        if m > i64::MAX - 1 {
            assert(m == a);
            assert(2 * n >= (2 * i64::MAX - 1) * pow10(k)) by (nonlinear_arith)
                requires
                    2 * (m * pow10(k) - n) <= pow10(k),
                    m >= i64::MAX,
                    pow10(k) >= 1,
            ;
        }
    }
}

/// The exponent of a literal is the number behind its letter, with its sign.
proof fn exponent_is_read(s: Seq<char>, end: int, letter: char, es: Seq<char>, x: Seq<char>)
    requires
        0 <= end,
        all_digits(x),
        is_sign_text(es),
        letter == 'e' || letter == 'E',
        x.len() == 0 ==> s.len() == end,
        x.len() > 0 ==> s.len() >= end && s.skip(end) == seq![letter] + es + x,
    ensures
        exponent_of(s, end) == Some(
            if es == seq!['-'] {
                -number_of(x)
            } else {
                number_of(x)
            },
        ),
{
    if x.len() == 0 {
        assert(number_of(x) == 0);
    } else {
        let t = s.skip(end);
        assert(t.len() == 1 + es.len() + x.len());
        assert(s[end] == t[0]);
        let from = end + 1 + es.len();
        assert(es.len() == 1 ==> s[end + 1] == t[1] && t[1] == es[0]);
        assert(es.len() == 0 ==> s[end + 1] == t[1] && t[1] == x[0]);
        assert(es.len() == 0 ==> '0' <= x[0] && x[0] <= '9');
        assert(es.len() == 1 ==> es[0] == '+' || es[0] == '-');
        assert(after_sign(s, end + 1) == from);
        assert(minus_at(s, end + 1) == (es == seq!['-'])) by {
            if es.len() == 1 {
                assert(es == seq!['-'] || es[0] == '+');
            }
        }
        assert forall|j: int| from <= j < s.len() implies is_digit(#[trigger] s[j]) by {
            assert(s[j] == t[j - end]);
            assert(t[j - end] == x[j - from]);
        }
        run_ends_with_the_digits(s, from, x.len() as int);
        assert(s.subrange(from, s.len() as int) =~= x) by {
            assert forall|j: int| 0 <= j < x.len() implies s.subrange(from, s.len() as int)[j]
                == x[j] by {
                assert(s[from + j] == t[from + j - end]);
            }
        }
    }
}

/// Only numbers are read: but for the words for infinity, a text that is read holds digits, signs, a
/// point and the letter of an exponent alone, and a digit at least.
pub proof fn only_numbers_are_read(s: Seq<char>, i: int)
    requires
        decimal_of(s) is Some,
        !is_infinite(s),
        0 <= i < s.len(),
    ensures
        is_digit(s[i]) || s[i] == '+' || s[i] == '-' || s[i] == '.' || s[i] == 'e' || s[i] == 'E',
        exists|j: int| 0 <= j < s.len() && is_digit(#[trigger] s[j]),
{
    let parts = parts_of(s);
    let start = after_sign(s, 0);
    digit_run_fits(s, start);
    let point = start + parts.whole;
    if point < s.len() && s[point] == '.' {
        digit_run_fits(s, point + 1);
    }
    let end = parts.frac_start + parts.frac;
    if parts.whole > 0 {
        assert(is_digit(s[start]));
    } else {
        assert(is_digit(s[parts.frac_start]));
    }
    if end < s.len() {
        digit_run_fits(s, after_sign(s, end + 1));
    }
}

/// The words for infinity are the ends of the range, whatever their case, by their sign.
pub proof fn infinity_is_an_end_of_the_range(sg: Seq<char>, word: Seq<char>)
    requires
        is_sign_text(sg),
        lowered(word) == "inf"@ || lowered(word) == "infinity"@,
    ensures
        sg == seq!['-'] ==> decimal_of(sg + word) == Some(i64::MIN as int),
        sg != seq!['-'] ==> decimal_of(sg + word) == Some(i64::MAX as int),
{
    reveal_strlit("inf");
    reveal_strlit("infinity");
    let s = sg + word;
    assert(lowered("inf"@) =~= "inf"@);
    assert(lowered("infinity"@) =~= "infinity"@);
    assert(lowered(word).len() == word.len());
    assert(lowered(word)[0] == 'i');
    assert(lower(word[0]) == 'i');
    assert(sg.len() == 0 ==> s[0] == word[0]);
    assert(sg.len() == 1 ==> s[0] == sg[0]);
    assert(sign_at(s, 0) == (sg.len() == 1));
    assert(s.skip(sg.len() as int) =~= word);
    if sg.len() == 1 {
        assert(sg == seq!['-'] || sg[0] == '+');
    }
}

/// The lower case of a letter from `A` to `Z` is the letter thirty-two places on, and a text in lower
/// case is as long as the text.
pub proof fn case_is_that_of_letters(s: Seq<char>, i: int)
    requires
        0 <= i < s.len(),
    ensures
        lowered(s).len() == s.len(),
        65 <= s[i] as int <= 90 ==> lowered(s)[i] as int == s[i] as int + 32,
        !(65 <= s[i] as int <= 90) ==> lowered(s)[i] == s[i],
{
}

/// The first place of a word in a text is a place where it stands, character by character, and it
/// stands at no place before that; there is none only where it stands nowhere.
pub proof fn first_place_is_the_first(s: Seq<char>, word: Seq<char>, from: int, i: int)
    requires
        0 <= from <= i,
    ensures
        first_from(s, word, from) == Some(i) ==> i + word.len() <= s.len() && (forall|j: int|
            0 <= j < word.len() ==> s[i + j] == #[trigger] word[j]),
        (i + word.len() <= s.len() && forall|j: int|
            0 <= j < word.len() ==> s[i + j] == #[trigger] word[j]) ==> first_from(s, word, from)
            is Some && from <= first_from(s, word, from)->0 <= i,
    decreases s.len() - from,
{
    let here = i + word.len() <= s.len() && forall|j: int|
        0 <= j < word.len() ==> s[i + j] == #[trigger] word[j];
    if from + word.len() <= s.len() {
        if stands_at(s, word, from) {
            let part = s.subrange(from, from + word.len());
            assert(part =~= word);
            if i == from {
                assert forall|j: int| 0 <= j < word.len() implies s[i + j] == #[trigger] word[j] by {
                    assert(part[j] == s[from + j]);
                }
            }
        } else if from < i {
            first_place_is_the_first(s, word, from + 1, i);
        } else if here {
            assert(s.subrange(from, from + word.len()) =~= word);
        } else {
            first_from_is_later(s, word, from + 1);
        }
    }
}

/// The first place is not before the place where the search starts.
proof fn first_from_is_later(s: Seq<char>, word: Seq<char>, from: int)
    ensures
        first_from(s, word, from) matches Some(i) ==> i >= from,
    decreases s.len() - from,
{
    if from >= 0 && from + word.len() <= s.len() && !stands_at(s, word, from) {
        first_from_is_later(s, word, from + 1);
    }
}

/// A run of white space ends where the white space does.
proof fn white_run_ends(s: Seq<char>, i: int, n: int)
    requires
        0 <= i,
        0 <= n,
        i + n <= s.len(),
        forall|j: int| i <= j < i + n ==> is_white(#[trigger] s[j]),
        i + n < s.len() ==> !is_white(s[i + n]),
    ensures
        white_run(s, i) == n,
    decreases n,
{
    if n > 0 {
        assert(is_white(s[i]));
        white_run_ends(s, i + 1, n - 1);
    }
}

/// A word that begins with `b` is not found where there is no such letter.
proof fn unbegun_word_is_not_found(s: Seq<char>, word: Seq<char>)
    requires
        word.len() > 0,
        word[0] == 'b',
        forall|i: int| 0 <= i < s.len() ==> #[trigger] lower(s[i]) != 'b',
    ensures
        first_from(lowered(s), word, 0) is None,
{
    if first_from(lowered(s), word, 0) is Some {
        let i = first_from(lowered(s), word, 0)->0;
        first_from_is_later(lowered(s), word, 0);
        first_place_is_the_first(lowered(s), word, 0, i);
        assert(lowered(s)[i + 0] == word[0]);
        assert(lower(s[i]) == 'b');
    }
}

/// The balance that a refusal states is the number behind its first `balance:` and the white space
/// after that, in millionths of a token; without a digit there it states none, and without the word
/// it states none.
pub proof fn stated_balance_is_the_number_behind_the_word(
    before: Seq<char>,
    word: Seq<char>,
    white: Seq<char>,
    digits: Seq<char>,
    rest: Seq<char>,
)
    requires
        lowered(word) == "balance:"@,
        forall|i: int| 0 <= i < before.len() ==> #[trigger] lower(before[i]) != 'b',
        forall|i: int| 0 <= i < white.len() ==> is_white(#[trigger] white[i]),
        all_digits(digits),
        rest.len() > 0 ==> !is_digit(rest[0]) && !is_white(rest[0]),
    ensures
        ({
            let error = before + word + white + digits + rest;
            let n = number_of(digits);
            &&& mentions_balance(error)
            &&& !mentions_balance(before) && balance_of(before) is None && !states_balance(before)
            &&& digits.len() == 0 ==> balance_of(error) is None && !states_balance(error)
            &&& digits.len() > 0 && 1000 * n <= i64::MAX ==> balance_of(error) == Some(1000 * n)
            &&& digits.len() > 0 && 1000 * n > i64::MAX ==> balance_of(error) == Some(
                i64::MAX as int,
            )
            &&& digits.len() > 0 ==> (states_balance(error) <==> n > 0)
        }),
{
    reveal_strlit("balance:");
    reveal_strlit("balance");
    let error = before + word + white + digits + rest;
    let low = lowered(error);
    let at = before.len() as int;
    assert(word.len() == 8) by {
        assert(lowered(word).len() == word.len());
    }
    assert forall|i: int| 0 <= i < at implies low[i] != 'b' by {
        assert(error[i] == before[i]);
        assert(lower(before[i]) != 'b');
    }
    assert forall|j: int| 0 <= j < 8 implies #[trigger] low[at + j] == "balance:"@[j] by {
        assert(error[at + j] == word[j]);
        assert(lowered(word)[j] == lower(word[j]));
    }
    assert(forall|j: int| 0 <= j < 8 ==> low[at + j] == #[trigger] "balance:"@[j]) by {
        assert forall|j: int| 0 <= j < 8 implies low[at + j] == #[trigger] "balance:"@[j] by {
            assert(low[at + j] == "balance:"@[j]);
        }
    }
    assert(forall|j: int| 0 <= j < 7 ==> low[at + j] == #[trigger] "balance"@[j]) by {
        assert forall|j: int| 0 <= j < 7 implies low[at + j] == #[trigger] "balance"@[j] by {
            assert("balance"@[j] == "balance:"@[j]);
            assert(low[at + j] == "balance:"@[j]);
        }
    }
    first_place_is_the_first(low, "balance:"@, 0, at);
    first_place_is_the_first(low, "balance"@, 0, at);
    unbegun_word_is_not_found(before, "balance:"@);
    unbegun_word_is_not_found(before, "balance"@);
    let found = first_from(low, "balance:"@, 0)->0;
    first_place_is_the_first(low, "balance:"@, 0, found);
    if found < at {
        assert(low[found + 0] == "balance:"@[0]);
        assert("balance:"@[0] == 'b');
    }
    let behind = at + 8;
    let from = behind + white.len();
    assert forall|j: int| behind <= j < from implies is_white(#[trigger] error[j]) by {
        assert(error[j] == white[j - behind]);
    }
    assert forall|j: int| from <= j < from + digits.len() implies is_digit(#[trigger] error[j]) by {
        assert(error[j] == digits[j - from]);
    }
    if digits.len() > 0 {
        assert(error[from] == digits[0]);
        assert('0' <= digits[0] && digits[0] <= '9');
        assert(!is_white(error[from]));
    } else if rest.len() > 0 {
        assert(error[from] == rest[0]);
    }
    white_run_ends(error, behind, white.len() as int);
    if rest.len() > 0 {
        assert(error[from + digits.len()] == rest[0]);
    }
    run_ends_with_the_digits(error, from, digits.len() as int);
    assert(error.subrange(from, from + digits.len()) =~= digits);
    assert(number_of(digits) >= 0) by {
        assert forall|j: int| 0 <= j < digits.len() implies is_digit(#[trigger] digits[j]) by {
            assert('0' <= digits[j] && digits[j] <= '9');
        }
        number_is_nat(digits);
    }
}

/// White space is the tab and the four characters behind it, the space, and the spaces and separators
/// of the other scripts.
pub proof fn white_space_is_known(c: char)
    ensures
        ({
            let n = c as int;
            is_white(c) <==> 9 <= n < 14 || n == 32 || n == 133 || n == 160 || n == 5760 || 8192 <= n
                < 8203 || n == 8232 || n == 8233 || n == 8239 || n == 8287 || n == 12288
        }),
{
}

} // verus!
