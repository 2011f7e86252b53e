//! JSON number literals: an optional minus sign, an integer part without
//! leading zeros, an optional fraction and an optional exponent.

use vstd::prelude::*;
use crate::decimal::{digits_end, is_digit, lemma_digits_end, lemma_digits_end_run, scan_digits};
use crate::text::to_chars;

verus! {

/// Where the digits of the integer part start for a number at `from`: past
/// the minus sign, if there is one.
pub open spec fn integer_start(s: Seq<char>, from: int) -> int {
    if 0 <= from < s.len() && s[from] == '-' {
        from + 1
    } else {
        from
    }
}

/// Where the fraction ends, given where the integer part ends: past the
/// point and the digits after it, or at `int_end` if no point follows.
pub open spec fn fraction_end(s: Seq<char>, int_end: int) -> int {
    if 0 <= int_end < s.len() && s[int_end] == '.' {
        digits_end(s, int_end + 1)
    } else {
        int_end
    }
}

/// Whether an exponent mark stands at `at`.
pub open spec fn has_exponent(s: Seq<char>, at: int) -> bool {
    0 <= at < s.len() && (s[at] == 'e' || s[at] == 'E')
}

/// Where the digits of the exponent start, given the exponent mark at
/// `mark`: past the mark and the sign, if there is one.
pub open spec fn exponent_start(s: Seq<char>, mark: int) -> int {
    if 0 <= mark + 1 < s.len() && (s[mark + 1] == '+' || s[mark + 1] == '-') {
        mark + 2
    } else {
        mark + 1
    }
}

/// Where the JSON number that starts at `from` ends, read as far as it
/// goes; `None` where no number starts at `from`, or where a point or an
/// exponent mark is not followed by a digit.
pub open spec fn number_end(s: Seq<char>, from: int) -> Option<int> {
    let int_start = integer_start(s, from);
    let int_end = digits_end(s, int_start);
    let frac_end = fraction_end(s, int_end);
    if int_end == int_start {
        None
    } else if s[int_start] == '0' && int_end > int_start + 1 {
        None
    } else if frac_end == int_end + 1 {
        None
    } else if has_exponent(s, frac_end) {
        let exp_start = exponent_start(s, frac_end);
        let exp_end = digits_end(s, exp_start);
        if exp_end == exp_start {
            None
        } else {
            Some(exp_end)
        }
    } else {
        Some(frac_end)
    }
}

/// Whether the whole of `s` is one JSON number.
pub open spec fn is_json_number(s: Seq<char>) -> bool {
    number_end(s, 0) == Some(s.len() as int)
}

/// Whether `c` may occur in a JSON number.
pub open spec fn is_number_char(c: char) -> bool {
    is_digit(c) || c == '-' || c == '+' || c == '.' || c == 'e' || c == 'E'
}

/// A run of digits inside `t` is the same run inside `a + t + b`, when
/// `b` does not start with a digit.
proof fn lemma_digits_end_embedded(a: Seq<char>, t: Seq<char>, b: Seq<char>, i: int)
    requires
        0 <= i <= t.len(),
        b.len() == 0 || !is_digit(b[0]),
    ensures
        digits_end(a + t + b, a.len() + i) == a.len() + digits_end(t, i),
{
    let s = a + t + b;
    lemma_digits_end_run(t, i);
    let e = digits_end(t, i);
    assert forall|k: int| a.len() + i <= k < a.len() + e implies is_digit(#[trigger] s[k]) by {
        assert(s[k] == t[k - a.len()]);
    }
    if e < t.len() {
        assert(s[a.len() + e] == t[e]);
    } else if b.len() > 0 {
        assert(s[a.len() + e] == b[0]);
    }
    lemma_digits_end(s, a.len() + i, a.len() + e);
}

/// A number that fills `t` is read to the same end inside `a + t + b`,
/// when `b` does not start with a character of a number.
pub proof fn lemma_number_end_embedded(a: Seq<char>, t: Seq<char>, b: Seq<char>)
    requires
        is_json_number(t),
        b.len() == 0 || !is_number_char(b[0]),
    ensures
        number_end(a + t + b, a.len() as int) == Some((a.len() + t.len()) as int),
{
    let s = a + t + b;
    let n = a.len() as int;
    assert forall|k: int| 0 <= k < t.len() implies s[n + k] == t[k] by {}
    if b.len() > 0 {
        assert(s[n + t.len()] == b[0]);
    }
    let int_start = integer_start(t, 0);
    let int_end = digits_end(t, int_start);
    lemma_digits_end_run(t, int_start);
    assert(integer_start(s, n) == n + int_start) by {
        if t.len() > 0 {
            assert(s[n] == t[0]);
        }
    }
    lemma_digits_end_embedded(a, t, b, int_start);
    assert(s[n + int_start] == t[int_start]);
    let frac_end = fraction_end(t, int_end);
    if int_end < t.len() && t[int_end] == '.' {
        lemma_digits_end_run(t, int_end + 1);
        lemma_digits_end_embedded(a, t, b, int_end + 1);
    }
    assert(fraction_end(s, n + int_end) == n + frac_end);
    assert(has_exponent(s, n + frac_end) == has_exponent(t, frac_end));
    if has_exponent(t, frac_end) {
        let exp_start = exponent_start(t, frac_end);
        assert(exp_start <= t.len());
        assert(exponent_start(s, n + frac_end) == n + exp_start) by {
            if frac_end + 1 < t.len() {
                assert(s[n + frac_end + 1] == t[frac_end + 1]);
            }
        }
        lemma_digits_end_run(t, exp_start);
        lemma_digits_end_embedded(a, t, b, exp_start);
    }
}

/// A run of digits of `s` that ends by `to` is the same run inside
/// `s[from..to]`.
proof fn lemma_digits_end_within(s: Seq<char>, from: int, to: int, i: int)
    requires
        0 <= from <= i <= to <= s.len(),
        digits_end(s, i) <= to,
    ensures
        digits_end(s.subrange(from, to), i - from) == digits_end(s, i) - from,
{
    let t = s.subrange(from, to);
    lemma_digits_end_run(s, i);
    let e = digits_end(s, i);
    assert forall|k: int| i - from <= k < e - from implies is_digit(#[trigger] t[k]) by {
        assert(t[k] == s[k + from]);
    }
    if e < to {
        assert(t[e - from] == s[e]);
    }
    lemma_digits_end(t, i - from, e - from);
}

/// The text that was read as a number is, by itself, a JSON number.
pub proof fn lemma_number_end_within(s: Seq<char>, from: int)
    requires
        0 <= from <= s.len(),
        number_end(s, from) is Some,
    ensures
        from < number_end(s, from).unwrap() <= s.len(),
        is_json_number(s.subrange(from, number_end(s, from).unwrap())),
{
    let end = number_end(s, from).unwrap();
    let int_start = integer_start(s, from);
    let int_end = digits_end(s, int_start);
    lemma_digits_end_run(s, int_start);
    let frac_end = fraction_end(s, int_end);
    if int_end < s.len() && s[int_end] == '.' {
        lemma_digits_end_run(s, int_end + 1);
    }
    if has_exponent(s, frac_end) {
        lemma_digits_end_run(s, exponent_start(s, frac_end));
    }
    let t = s.subrange(from, end);
    assert forall|k: int| 0 <= k < t.len() implies t[k] == s[from + k] by {}
    assert(integer_start(t, 0) == int_start - from);
    lemma_digits_end_within(s, from, end, int_start);
    assert(t[int_start - from] == s[int_start]);
    if int_end < s.len() && s[int_end] == '.' {
        lemma_digits_end_within(s, from, end, int_end + 1);
        assert(t[int_end - from] == s[int_end]);
    }
    assert(fraction_end(t, int_end - from) == frac_end - from);
    if has_exponent(s, frac_end) {
        let exp_start = exponent_start(s, frac_end);
        assert(t[frac_end - from] == s[frac_end]);
        assert(exponent_start(t, frac_end - from) == exp_start - from) by {
            if frac_end + 1 < end {
                assert(t[frac_end + 1 - from] == s[frac_end + 1]);
            }
        }
        lemma_digits_end_within(s, from, end, exp_start);
    } else {
        assert(!has_exponent(t, frac_end - from));
    }
}

/// Tells where the JSON number that starts at `from` ends.
pub fn scan_number(chars: &Vec<char>, from: usize) -> (r: Option<usize>)
    ensures
        match r {
            Some(end) => number_end(chars@, from as int) == Some(end as int) && from < end
                <= chars.len(),
            None => number_end(chars@, from as int) is None,
        },
{
    let n = chars.len();
    if from > n {
        return None;
    }
    let int_start = if from < n && chars[from] == '-' {
        from + 1
    } else {
        from
    };
    let int_end = scan_digits(chars, int_start);
    if int_end == int_start {
        return None;
    }
    if chars[int_start] == '0' && int_end > int_start + 1 {
        return None;
    }
    let frac_end = if int_end < n && chars[int_end] == '.' {
        let after_point = scan_digits(chars, int_end + 1);
        if after_point == int_end + 1 {
            return None;
        }
        after_point
    } else {
        int_end
    };
    if frac_end < n && (chars[frac_end] == 'e' || chars[frac_end] == 'E') {
        let exp_start = if frac_end + 1 < n && (chars[frac_end + 1] == '+' || chars[frac_end + 1]
            == '-') {
            frac_end + 2
        } else {
            frac_end + 1
        };
        let exp_end = scan_digits(chars, exp_start);
        if exp_end == exp_start {
            None
        } else {
            Some(exp_end)
        }
    } else {
        Some(frac_end)
    }
}

/// Tells whether the whole of `s` is one JSON number.
pub fn is_number_text(s: &str) -> (r: bool)
    ensures
        r == is_json_number(s@),
{
    let chars = to_chars(s);
    match scan_number(&chars, 0) {
        Some(end) => end == chars.len(),
        None => false,
    }
}

} // verus!
