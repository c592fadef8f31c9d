//! Reading of texts, character by character.

use vstd::prelude::*;

verus! {

/// `c` in lower case, where it is an ASCII letter.
pub open spec fn lower(c: char) -> char {
    if 'A' <= c && c <= 'Z' {
        (c as u32 + 32) as char
    } else {
        c
    }
}

/// `s` with its ASCII letters in lower case.
pub open spec fn lowered(s: Seq<char>) -> Seq<char> {
    s.map_values(|c: char| lower(c))
}

/// `word` stands in `s` from position `i` on.
pub open spec fn stands_at(s: Seq<char>, word: Seq<char>, i: int) -> bool {
    0 <= i && i + word.len() <= s.len() && s.subrange(i, i + word.len()) =~= word
}

/// The first position, `from` or later, at which `word` stands in `s`.
pub open spec fn first_from(s: Seq<char>, word: Seq<char>, from: int) -> Option<int>
    decreases s.len() - from,
{
    if from < 0 || from + word.len() > s.len() {
        None
    } else if stands_at(s, word, from) {
        Some(from)
    } else {
        first_from(s, word, from + 1)
    }
}

/// Whether `c` is one of the characters with the Unicode property `White_Space`.
pub open spec fn is_white(c: char) -> bool {
    ||| '\u{9}' <= c && c <= '\u{d}'
    ||| c == ' '
    ||| c == '\u{85}'
    ||| c == '\u{a0}'
    ||| c == '\u{1680}'
    ||| '\u{2000}' <= c && c <= '\u{200a}'
    ||| c == '\u{2028}'
    ||| c == '\u{2029}'
    ||| c == '\u{202f}'
    ||| c == '\u{205f}'
    ||| c == '\u{3000}'
}

/// The number of white-space characters from position `i` on.
pub open spec fn white_run(s: Seq<char>, i: int) -> nat
    decreases s.len() - i,
{
    if 0 <= i < s.len() && is_white(s[i]) {
        1 + white_run(s, i + 1)
    } else {
        0
    }
}

/// Whether `c` is a decimal digit.
pub open spec fn is_digit(c: char) -> bool {
    '0' <= c && c <= '9'
}

/// What the digit `c` counts.
pub open spec fn digit_value(c: char) -> int {
    c as int - '0' as int
}

/// The number of digits from position `i` on.
pub open spec fn digit_run(s: Seq<char>, i: int) -> nat
    decreases s.len() - i,
{
    if 0 <= i < s.len() && is_digit(s[i]) {
        1 + digit_run(s, i + 1)
    } else {
        0
    }
}

/// The number that a sequence of digits writes.
pub open spec fn number_of(digits: Seq<char>) -> int
    decreases digits.len(),
{
    if digits.len() == 0 {
        0
    } else {
        number_of(digits.drop_last()) * 10 + digit_value(digits.last())
    }
}

/// A run of digits stays within the text.
pub proof fn digit_run_fits(s: Seq<char>, i: int)
    requires
        0 <= i <= s.len(),
    ensures
        i + digit_run(s, i) <= s.len(),
        forall|j: int| i <= j < i + digit_run(s, i) ==> is_digit(#[trigger] s[j]),
    decreases s.len() - i,
{
    if i < s.len() && is_digit(s[i]) {
        digit_run_fits(s, i + 1);
    }
}

/// Digits write a number that is not negative.
pub proof fn number_is_nat(digits: Seq<char>)
    requires
        forall|j: int| 0 <= j < digits.len() ==> is_digit(#[trigger] digits[j]),
    ensures
        number_of(digits) >= 0,
    decreases digits.len(),
{
    if digits.len() > 0 {
        assert(is_digit(digits[digits.len() - 1]));
        assert forall|j: int| 0 <= j < digits.drop_last().len() implies is_digit(
            #[trigger] digits.drop_last()[j],
        ) by {
            assert(is_digit(digits[j]));
        }
        number_is_nat(digits.drop_last());
    }
}

/// The characters of a text.
pub fn chars_of(s: &str) -> (r: Vec<char>)
    ensures
        r@ == s@,
{
    let mut out: Vec<char> = Vec::new();
    for c in it: s.chars()
        invariant
            out@ =~= it.seq().take(it.index()),
    {
        out.push(c);
    }
    out
}

/// Whether two texts are the same.
pub fn same(a: &str, b: &str) -> (r: bool)
    ensures
        r == (a@ == b@),
{
    let x: Vec<char> = chars_of(a);
    let y: Vec<char> = chars_of(b);
    if x.len() != y.len() {
        return false;
    }
    let mut i: usize = 0;
    while i < x.len()
        invariant
            x@ == a@,
            y@ == b@,
            i <= x.len(),
            x.len() == y.len(),
            forall|j: int| 0 <= j < i ==> x@[j] == y@[j],
        decreases x.len() - i,
    {
        if x[i] != y[i] {
            return false;
        }
        i += 1;
    }
    assert(x@ =~= y@);
    true
}

/// `c` in lower case, where it is an ASCII letter.
fn lower_char(c: char) -> (r: char)
    ensures
        r == lower(c),
{
    if 'A' <= c && c <= 'Z' {
        (c as u8 + 32) as char
    } else {
        c
    }
}

/// Whether the text from position `from` on is `word`, but for the case of the ASCII letters.
pub fn tail_is(s: &Vec<char>, from: usize, word: &str) -> (r: bool)
    requires
        from <= s.len(),
    ensures
        r == (lowered(s@.skip(from as int)) == lowered(word@)),
{
    let w: Vec<char> = chars_of(word);
    let ghost tail = lowered(s@.skip(from as int));
    if s.len() - from != w.len() {
        assert(tail.len() != lowered(word@).len());
        return false;
    }
    let mut i: usize = 0;
    while i < w.len()
        invariant
            w@ == word@,
            tail == lowered(s@.skip(from as int)),
            i <= w.len(),
            s.len() - from == w.len(),
            forall|j: int| 0 <= j < i ==> tail[j] == lowered(word@)[j],
        decreases w.len() - i,
    {
        if lower_char(s[from + i]) != lower_char(w[i]) {
            assert(tail[i as int] != lowered(word@)[i as int]);
            return false;
        }
        i += 1;
    }
    assert(tail =~= lowered(word@));
    true
}

/// Whether two texts are the same but for the case of their ASCII letters.
pub fn same_ignoring_case(a: &str, b: &str) -> (r: bool)
    ensures
        r == (lowered(a@) == lowered(b@)),
{
    assert(a@.skip(0) =~= a@);
    tail_is(&chars_of(a), 0, b)
}

/// The first position at which `word`, written in lower case, stands in `s`, whatever the case of
/// the ASCII letters of `s`.
pub fn find_ignoring_case(s: &Vec<char>, word: &str) -> (r: Option<usize>)
    ensures
        match r {
            Some(i) => first_from(lowered(s@), word@, 0) == Some(i as int) && i + word@.len()
                <= s.len(),
            None => first_from(lowered(s@), word@, 0) is None,
        },
{
    let w: Vec<char> = chars_of(word);
    let ghost low = lowered(s@);
    if w.len() > s.len() {
        return None;
    }
    let mut i: usize = 0;
    while i <= s.len() - w.len()
        invariant
            w@ == word@,
            low == lowered(s@),
            low.len() == s.len(),
            w.len() <= s.len(),
            i <= s.len() - w.len() + 1,
            first_from(low, word@, 0) == first_from(low, word@, i as int),
        decreases s.len() - w.len() + 1 - i,
    {
        let mut k: usize = 0;
        while k < w.len() && lower_char(s[i + k]) == w[k]
            invariant
                w@ == word@,
                low == lowered(s@),
                low.len() == s.len(),
                i + w.len() <= s.len(),
                k <= w.len(),
                forall|j: int| 0 <= j < k ==> low[i + j] == w@[j],
            decreases w.len() - k,
        {
            k += 1;
        }
        if k == w.len() {
            assert(low.subrange(i as int, i + word@.len()) =~= word@);
            return Some(i);
        }
        assert(!stands_at(low, word@, i as int)) by {
            if stands_at(low, word@, i as int) {
                assert(low.subrange(i as int, i + word@.len())[k as int] == word@[k as int]);
                assert(low[i + k] == word@[k as int]);
            }
        }
        if i == s.len() - w.len() {
            assert(first_from(low, word@, i + 1) is None);
            return None;
        }
        i += 1;
    }
    None
}

/// Whether `c` has the Unicode property `White_Space`.
fn white_char(c: char) -> (r: bool)
    ensures
        r == is_white(c),
{
    ('\u{9}' <= c && c <= '\u{d}') || c == ' ' || c == '\u{85}' || c == '\u{a0}' || c == '\u{1680}'
        || ('\u{2000}' <= c && c <= '\u{200a}') || c == '\u{2028}' || c == '\u{2029}' || c
        == '\u{202f}' || c == '\u{205f}' || c == '\u{3000}'
}

/// The position at which the white space that starts at `from` ends.
pub fn skip_white(s: &Vec<char>, from: usize) -> (r: usize)
    requires
        from <= s.len(),
    ensures
        r == from + white_run(s@, from as int),
        r <= s.len(),
{
    let mut i: usize = from;
    while i < s.len() && white_char(s[i])
        invariant
            from <= i <= s.len(),
            from + white_run(s@, from as int) == i + white_run(s@, i as int),
        decreases s.len() - i,
    {
        i += 1;
    }
    i
}

/// Whether `c` is a decimal digit.
pub fn digit_char(c: char) -> (r: bool)
    ensures
        r == is_digit(c),
{
    '0' <= c && c <= '9'
}

/// The position at which the digits that start at `from` end.
pub fn skip_digits(s: &Vec<char>, from: usize) -> (r: usize)
    requires
        from <= s.len(),
    ensures
        r == from + digit_run(s@, from as int),
        r <= s.len(),
        forall|j: int| from <= j < r ==> is_digit(#[trigger] s@[j]),
{
    let mut i: usize = from;
    while i < s.len() && digit_char(s[i])
        invariant
            from <= i <= s.len(),
            from + digit_run(s@, from as int) == i + digit_run(s@, i as int),
            forall|j: int| from <= j < i ==> is_digit(#[trigger] s@[j]),
        decreases s.len() - i,
    {
        i += 1;
    }
    i
}

/// The number that the digits of `s` from `from` to `to` write, stopped at `cap`.
pub fn read_number(s: &Vec<char>, from: usize, to: usize, cap: i128) -> (r: i128)
    requires
        from <= to <= s.len(),
        0 <= cap <= 0x1_0000_0000_0000_0000_0000_0000,
        forall|j: int| from <= j < to ==> is_digit(#[trigger] s@[j]),
    ensures
        r == vstd::math::min(number_of(s@.subrange(from as int, to as int)), cap as int),
        r >= 0,
{
    let mut n: i128 = 0;
    let mut i: usize = from;
    assert(s@.subrange(from as int, from as int).len() == 0);
    while i < to
        invariant
            from <= i <= to <= s.len(),
            0 <= cap <= 0x1_0000_0000_0000_0000_0000_0000,
            forall|j: int| from <= j < to ==> is_digit(#[trigger] s@[j]),
            n == vstd::math::min(number_of(s@.subrange(from as int, i as int)), cap as int),
            0 <= n <= cap,
        decreases to - i,
    {
        let ghost shorter = s@.subrange(from as int, i as int);
        let ghost longer = s@.subrange(from as int, i + 1);
        let d: i128 = (s[i] as u32 - '0' as u32) as i128;
        proof {
            assert(longer.drop_last() =~= shorter);
            assert(longer.last() == s@[i as int]);
            assert forall|j: int| 0 <= j < shorter.len() implies is_digit(#[trigger] shorter[j]) by {
                assert(is_digit(s@[from + j]));
            }
            number_is_nat(shorter);
        }
        let next: i128 = n * 10 + d;
        n = if next > cap {
            cap
        } else {
            next
        };
        i += 1;
    }
    n
}

} // verus!
