//! Numbers written as text and read from it.

use vstd::prelude::*;

use crate::text::chars_of;

verus! {

/// The character of a decimal digit.
pub open spec fn digit(d: nat) -> char {
    (48 + d) as char
}

/// The decimal digits of a number.
pub open spec fn decimal(n: nat) -> Seq<char>
    decreases n,
{
    if n < 10 {
        seq![digit(n)]
    } else {
        decimal(n / 10).push(digit(n % 10))
    }
}

/// Whether a character is a decimal digit.
pub open spec fn is_digit(c: char) -> bool {
    48 <= c as u32 <= 57
}

/// The number that a sequence of decimal digits stands for.
pub open spec fn value(s: Seq<char>) -> int
    decreases s.len(),
{
    if s.len() == 0 {
        0
    } else {
        value(s.drop_last()) * 10 + (s.last() as u32 - 48)
    }
}

/// Whether a text is one or more decimal digits.
pub open spec fn all_digits(s: Seq<char>) -> bool {
    s.len() > 0 && forall|i: int| 0 <= i < s.len() ==> is_digit(#[trigger] s[i])
}

/// The unsigned number that a text writes, where it is at most `max`: decimal
/// digits, which a plus sign may precede.
pub open spec fn parse_unsigned(s: Seq<char>, max: int) -> Option<int> {
    let digits = if s.len() > 0 && s[0] == '+' {
        s.drop_first()
    } else {
        s
    };
    if all_digits(digits) && value(digits) <= max {
        Some(value(digits))
    } else {
        None
    }
}

fn digit_char(d: u64) -> (c: char)
    requires
        d < 10,
    ensures
        c == digit(d as nat),
{
    if d == 0 {
        '0'
    } else if d == 1 {
        '1'
    } else if d == 2 {
        '2'
    } else if d == 3 {
        '3'
    } else if d == 4 {
        '4'
    } else if d == 5 {
        '5'
    } else if d == 6 {
        '6'
    } else if d == 7 {
        '7'
    } else if d == 8 {
        '8'
    } else {
        '9'
    }
}

/// The decimal digits of a number.
pub fn decimal_text(n: u64) -> (r: String)
    ensures
        r@ == decimal(n as nat),
    decreases n,
{
    if n < 10 {
        let mut r = String::new();
        r.push(digit_char(n));
        assert(r@ =~= decimal(n as nat));
        r
    } else {
        let mut r = decimal_text(n / 10);
        r.push(digit_char(n % 10));
        r
    }
}

/// The decimal digits of a count.
pub fn count_text(n: usize) -> (r: String)
    ensures
        r@ == decimal(n as nat),
{
    decimal_text(n as u64)
}

proof fn lemma_value_nonnegative(s: Seq<char>)
    requires
        forall|i: int| 0 <= i < s.len() ==> is_digit(#[trigger] s[i]),
    ensures
        value(s) >= 0,
    decreases s.len(),
{
    if s.len() > 0 {
        assert forall|i: int| 0 <= i < s.drop_last().len() implies is_digit(
            #[trigger] s.drop_last()[i],
        ) by {
            assert(s.drop_last()[i] == s[i]);
        }
        lemma_value_nonnegative(s.drop_last());
        assert(is_digit(s[s.len() - 1]));
    }
}

proof fn lemma_value_grows(s: Seq<char>, k: int)
    requires
        forall|i: int| 0 <= i < s.len() ==> is_digit(#[trigger] s[i]),
        0 <= k <= s.len(),
    ensures
        value(s.take(k)) <= value(s),
    decreases s.len() - k,
{
    if k == s.len() {
        assert(s.take(k) =~= s);
    } else {
        let t = s.take(k + 1);
        assert(t.drop_last() =~= s.take(k));
        assert(is_digit(s[k]));
        lemma_value_nonnegative(s.take(k));
        lemma_value_grows(s, k + 1);
    }
}

/// Reads an unsigned number of at most `max`: decimal digits, which a plus
/// sign may precede.
pub fn read_unsigned(s: &str, max: u64) -> (r: Option<u64>)
    ensures
        match r {
            Some(n) => parse_unsigned(s@, max as int) == Some(n as int),
            None => parse_unsigned(s@, max as int) is None,
        },
{
    let v = chars_of(s);
    let start: usize = if v.len() > 0 && v[0] == '+' { 1 } else { 0 };
    let ghost digits = v@.skip(start as int);
    assert(digits =~= if v@.len() > 0 && v@[0] == '+' {
        v@.drop_first()
    } else {
        v@
    });
    if start == v.len() {
        return None;
    }
    let mut n: u64 = 0;
    let mut i: usize = start;
    assert(digits.take(0).len() == 0);
    while i < v.len()
        invariant
            v@ == s@,
            start <= i <= v@.len(),
            start <= 1,
            digits == v@.skip(start as int),
            digits == (if s@.len() > 0 && s@[0] == '+' {
                s@.drop_first()
            } else {
                s@
            }),
            digits.len() > 0,
            forall|j: int| 0 <= j < i - start ==> is_digit(#[trigger] digits[j]),
            n == value(digits.take(i - start)),
            n <= max,
        decreases v.len() - i,
    {
        let c: u32 = v[i] as u32;
        assert(digits[i - start] == v@[i as int]);
        if c < 48 || c > 57 {
            assert(!is_digit(digits[i - start]));
            return None;
        }
        let d: u64 = (c - 48) as u64;
        let wide: u128 = n as u128 * 10 + d as u128;
        assert(digits.take(i - start + 1).drop_last() =~= digits.take(i - start));
        assert(value(digits.take(i - start + 1)) == wide);
        if wide > max as u128 {
            proof {
                if all_digits(digits) {
                    lemma_value_grows(digits, i - start + 1);
                }
            }
            return None;
        }
        n = wide as u64;
        i += 1;
    }
    assert(digits.take(digits.len() as int) =~= digits);
    Some(n)
}

/// The digits of a number are digits.
pub proof fn lemma_decimal_digits(n: nat)
    ensures
        all_digits(decimal(n)),
        value(decimal(n)) == n,
    decreases n,
{
    if n >= 10 {
        lemma_decimal_digits(n / 10);
        let t = decimal(n / 10);
        assert(decimal(n).drop_last() =~= t);
        assert forall|i: int| 0 <= i < decimal(n).len() implies is_digit(
            #[trigger] decimal(n)[i],
        ) by {
            if i < t.len() {
                assert(decimal(n)[i] == t[i]);
            }
        }
    } else {
        assert(decimal(n).drop_last() =~= Seq::empty());
        assert(value(decimal(n).drop_last()) == 0);
    }
}

/// Reading back the digits of a number gives the number.
pub proof fn decimal_reads_back(n: nat, max: int)
    requires
        n <= max,
    ensures
        parse_unsigned(decimal(n), max) == Some(n as int),
{
    lemma_decimal_digits(n);
    assert(is_digit(decimal(n)[0]));
}

// ---------------------------------------------------------------------------
// Quotients in double precision
// ---------------------------------------------------------------------------

/// 2 to the power of 52.
pub const DOUBLE_UNIT: u128 = 4_503_599_627_370_496;

/// `x / y` rounded to the nearest integer, a half to the even one.
pub open spec fn round_half_even(x: nat, y: nat) -> nat {
    let q = x / y;
    let r = x % y;
    if 2 * r > y || (2 * r == y && q % 2 == 1) {
        q + 1
    } else {
        q
    }
}

/// The double that stands for an integer: a multiple of the step `s`, which is
/// doubled until 53 bits are enough; below 2 to the power of 53 it is 1.
pub open spec fn nearest_double(n: nat, s: nat) -> nat
    decreases n - s,
{
    if s > 0 && n >= 9_007_199_254_740_992 * s {
        nearest_double(n, 2 * s)
    } else {
        round_half_even(n, s) * s
    }
}

/// The quotient `a / b` in double precision, times `tens`, rounded to an
/// integer. A quotient between two powers of two is a multiple of `1 / k`;
/// `bb` and `k` search the powers that enclose it.
pub open spec fn rounded_quotient(a: nat, b: nat, tens: nat, bb: nat, k: nat) -> nat
    decreases k,
{
    if a >= 2 * bb && k > 1 {
        rounded_quotient(a, b, tens, 2 * bb, k / 2)
    } else {
        round_half_even(round_half_even(a * k, b) * tens, k)
    }
}

/// The text of `n / scale`, divided in double precision and rounded to one
/// decimal or to none, as floating-point formatting writes it. It says so of
/// quotients that are at least 1 and below 2 to the power of 53.
pub open spec fn quotient_text(n: nat, scale: nat, one_decimal: bool) -> Seq<char>
    recommends
        0 < scale <= n < 9_007_199_254_740_992 * scale,
{
    let a = nearest_double(n, 1);
    if one_decimal {
        let t = rounded_quotient(a, scale, 10, scale, DOUBLE_UNIT as nat);
        decimal(t / 10) + "."@ + decimal(t % 10)
    } else {
        decimal(rounded_quotient(a, scale, 1, scale, DOUBLE_UNIT as nat))
    }
}

fn wide_decimal_text(n: u128) -> (r: String)
    ensures
        r@ == decimal(n as nat),
    decreases n,
{
    if n < 10 {
        decimal_text(n as u64)
    } else {
        let mut r = wide_decimal_text(n / 10);
        r.push(digit_char((n % 10) as u64));
        r
    }
}

fn round_div(x: u128, y: u128) -> (r: u128)
    requires
        0 < y <= u64::MAX,
        x <= 0x1000_0000_0000_0000_0000_0000_0000_0000,
    ensures
        r == round_half_even(x as nat, y as nat),
        r <= x + 1,
{
    let q: u128 = x / y;
    let rest: u128 = x % y;
    assert(q <= x) by (nonlinear_arith)
        requires
            q == x / y,
            y > 0,
    ;
    assert(rest < y) by (nonlinear_arith)
        requires
            rest == x % y,
            y > 0,
    ;
    if 2 * rest > y || (2 * rest == y && q % 2 == 1) {
        q + 1
    } else {
        q
    }
}

fn double_of(n: u64) -> (r: u128)
    ensures
        r == nearest_double(n as nat, 1),
        r <= 0x2_0000_0000_0000_0000,
{
    let mut s: u128 = 1;
    while s <= 2048 && n as u128 >= 9_007_199_254_740_992u128 * s
        invariant
            1 <= s <= 4096,
            nearest_double(n as nat, 1) == nearest_double(n as nat, s as nat),
        decreases 4096 - s,
    {
        s = s * 2;
    }
    assert(n < 9_007_199_254_740_992 * s);
    let m: u128 = round_div(n as u128, s);
    proof {
        let q = (n as nat) / (s as nat);
        assert(q * s <= n) by (nonlinear_arith)
            requires
                q == (n as nat) / (s as nat),
                s > 0,
        ;
        assert(m <= q + 1);
        assert(m * s <= (q + 1) * s) by (nonlinear_arith)
            requires
                m <= q + 1,
                s > 0,
        ;
        assert((q + 1) * s == q * s + s) by (nonlinear_arith);
    }
    m * s
}

fn quotient(a: u128, b: u64, tens: u64) -> (r: u128)
    requires
        a <= 0x2_0000_0000_0000_0000,
        0 < b <= 0xffff_ffff,
        tens <= 10,
    ensures
        r == rounded_quotient(a as nat, b as nat, tens as nat, b as nat, DOUBLE_UNIT as nat),
{
    let mut bb: u128 = b as u128;
    let mut k: u128 = DOUBLE_UNIT;
    while k > 1 && a >= 2 * bb
        invariant
            a <= 0x2_0000_0000_0000_0000,
            0 < bb <= 0x4_0000_0000_0000_0000,
            0 < k <= DOUBLE_UNIT,
            rounded_quotient(a as nat, b as nat, tens as nat, b as nat, DOUBLE_UNIT as nat)
                == rounded_quotient(a as nat, b as nat, tens as nat, bb as nat, k as nat),
        decreases k,
    {
        bb = bb * 2;
        k = k / 2;
    }
    assert(a * k <= 0x2_0000_0000_0000_0000 * DOUBLE_UNIT) by (nonlinear_arith)
        requires
            0 <= a <= 0x2_0000_0000_0000_0000,
            0 < k <= DOUBLE_UNIT,
    ;
    let m: u128 = round_div(a * k, b as u128);
    assert(m * tens <= m * 10) by (nonlinear_arith)
        requires
            0 <= tens <= 10,
            0 <= m,
    ;
    assert(m * tens >= 0) by (nonlinear_arith)
        requires
            0 <= tens,
            0 <= m,
    ;
    round_div(m * tens as u128, k)
}

/// The text of `n / scale`, divided in double precision and rounded to one
/// decimal or to none.
pub fn float_quotient_text(n: u64, scale: u64, one_decimal: bool) -> (r: String)
    requires
        0 < scale <= 0xffff_ffff,
        scale <= n < 9_007_199_254_740_992 * scale,
    ensures
        r@ == quotient_text(n as nat, scale as nat, one_decimal),
{
    let a: u128 = double_of(n);
    if one_decimal {
        let t: u128 = quotient(a, scale, 10);
        let mut r = wide_decimal_text(t / 10);
        r.append(".");
        r.append(wide_decimal_text(t % 10).as_str());
        r
    } else {
        wide_decimal_text(quotient(a, scale, 1))
    }
}

} // verus!
