//! What a shown number is: the nearest one that its text can show.

use vstd::prelude::*;

use vstd::arithmetic::mul::{lemma_mul_inequality, lemma_mul_strict_inequality};

use crate::numbers::{
    decimal, nearest_double, quotient_text, round_half_even, rounded_quotient, DOUBLE_UNIT,
};

verus! {

/// How far two numbers are apart.
pub open spec fn apart(x: nat, y: nat) -> int {
    if x > y {
        x - y
    } else {
        y - x
    }
}

/// A rounded quotient is at most half a unit away from the exact one; a quotient that
/// lies halfway is rounded to the even number.
pub proof fn rounding_goes_to_the_nearest(x: nat, y: nat)
    requires
        y > 0,
    ensures
        2 * apart(round_half_even(x, y) * y, x) <= y,
        2 * apart(round_half_even(x, y) * y, x) == y ==> round_half_even(x, y) % 2 == 0,
{
    let q = x / y;
    let r = x % y;
    assert(x == q * y + r && 0 <= r < y) by (nonlinear_arith)
        requires
            y > 0,
            q == x / y,
            r == x % y,
    ;
    assert((q + 1) * y == q * y + y) by (nonlinear_arith);
}

/// An integer below two to the power of 53 is a double as it is.
pub proof fn a_small_integer_is_a_double(n: nat)
    requires
        n < 9_007_199_254_740_992,
    ensures
        nearest_double(n, 1) == n,
{
    rounding_goes_to_the_nearest(n, 1);
}

/// From there up to the next power of two a double is the nearest even integer.
pub proof fn a_large_integer_becomes_even(n: nat)
    requires
        9_007_199_254_740_992 <= n < 18_014_398_509_481_984,
    ensures
        nearest_double(n, 1) % 2 == 0,
        apart(nearest_double(n, 1), n) <= 1,
{
    reveal_with_fuel(nearest_double, 3);
    rounding_goes_to_the_nearest(n, 2);
}

spec fn doubled(e: nat) -> nat
    decreases e,
{
    if e == 0 {
        1
    } else {
        2 * doubled((e - 1) as nat)
    }
}

proof fn lemma_doubled(e: nat)
    ensures
        doubled(e) >= 1,
    decreases e,
{
    if e > 0 {
        lemma_doubled((e - 1) as nat);
    }
}

proof fn lemma_nearest(a: nat, b: nat, tens: nat, bb: nat, k: nat, e: nat)
    requires
        0 < b <= bb <= a,
        k == doubled(e),
        bb * k == b * DOUBLE_UNIT,
        tens * a < DOUBLE_UNIT,
    ensures
        2 * apart(rounded_quotient(a, b, tens, bb, k) * b, tens * a) <= b,
    decreases e,
{
    lemma_doubled(e);
    if a >= 2 * bb && k > 1 {
        let half = doubled((e - 1) as nat);
        assert(k / 2 == half);
        assert((2 * bb) * half == bb * k) by (nonlinear_arith)
            requires
                k == 2 * half,
        ;
        lemma_nearest(a, b, tens, 2 * bb, half, (e - 1) as nat);
    } else {
        let m = round_half_even(a * k, b);
        let t = round_half_even(m * tens, k);
        rounding_goes_to_the_nearest(a * k, b);
        rounding_goes_to_the_nearest(m * tens, k);
        lemma_fine_enough(
            a as int,
            b as int,
            tens as int,
            bb as int,
            k as int,
            DOUBLE_UNIT as int,
        );
        lemma_two_roundings(
            a as int,
            b as int,
            tens as int,
            k as int,
            m as int,
            t as int,
        );
    }
}

proof fn lemma_fine_enough(a: int, b: int, tens: int, bb: int, k: int, unit: int)
    requires
        0 < b,
        0 <= tens,
        bb <= a,
        1 <= k,
        0 < unit,
        bb * k == b * unit,
        tens * a < unit,
    ensures
        tens * b < k,
{
    lemma_mul_inequality(bb, a, k);
    lemma_mul_inequality(b * unit, a * k, tens);
    assert((b * unit) * tens == (tens * b) * unit) by (nonlinear_arith);
    assert((a * k) * tens == (tens * a) * k) by (nonlinear_arith);
    lemma_mul_strict_inequality(tens * a, unit, k);
    assert(unit * k == k * unit) by (nonlinear_arith);
    if tens * b >= k {
        lemma_mul_inequality(k, tens * b, unit);
    }
}

proof fn lemma_two_roundings(a: int, b: int, tens: int, k: int, m: int, t: int)
    requires
        a >= 0,
        b > 0,
        tens >= 0,
        k >= 1,
        -b <= 2 * (m * b - a * k) <= b,
        -k <= 2 * (t * k - m * tens) <= k,
        tens * b < k,
    ensures
        -b <= 2 * (t * b - tens * a) <= b,
{
    let u = m * b - a * k;
    let v = t * k - m * tens;
    let d = t * b - tens * a;
    assert(k * d == v * b + tens * u) by (nonlinear_arith)
        requires
            u == m * b - a * k,
            v == t * k - m * tens,
            d == t * b - tens * a,
    ;
    assert(-(k * b) <= 2 * (v * b) <= k * b) by (nonlinear_arith)
        requires
            -k <= 2 * v <= k,
            b > 0,
    ;
    assert(-(tens * b) <= 2 * (tens * u) <= tens * b) by (nonlinear_arith)
        requires
            -b <= 2 * u <= b,
            tens >= 0,
    ;
    assert(-(k * b) - k < 2 * (k * d) < k * b + k);
    assert(-(b + 1) < 2 * d < b + 1) by (nonlinear_arith)
        requires
            -(k * b) - k < 2 * (k * d) < k * b + k,
            k >= 1,
    ;
}

/// A shown quotient is the exact one rounded to what is shown: to a tenth or to a
/// whole, at most half of that away.
pub proof fn a_shown_quotient_is_the_nearest(n: nat, scale: nat)
    requires
        0 < scale <= n,
        10 * n < 4_503_599_627_370_496,
    ensures
        exists|t: nat|
            #![trigger decimal(t / 10), decimal(t % 10)]
            2 * apart(t * scale, 10 * n) <= scale && quotient_text(n, scale, true) == decimal(
                t / 10,
            ) + "."@ + decimal(t % 10),
        exists|t: nat|
            2 * apart(t * scale, n) <= scale && quotient_text(n, scale, false)
                == #[trigger] decimal(t),
{
    a_small_integer_is_a_double(n);
    assert(doubled(52) == DOUBLE_UNIT) by {
        lemma_fifty_two();
    }
    let unit = DOUBLE_UNIT as nat;
    lemma_nearest(n, scale, 10, scale, unit, 52);
    lemma_nearest(n, scale, 1, scale, unit, 52);
    let t = rounded_quotient(n, scale, 10, scale, unit);
    assert(quotient_text(n, scale, true) == decimal(t / 10) + "."@ + decimal(t % 10));
    let w = rounded_quotient(n, scale, 1, scale, unit);
    assert(quotient_text(n, scale, false) == decimal(w));
}

proof fn lemma_fifty_two()
    ensures
        doubled(52) == 4_503_599_627_370_496,
{
    reveal_with_fuel(doubled, 14);
    assert(doubled(13) == 8_192);
    assert(doubled(26) == 67_108_864);
    assert(doubled(39) == 549_755_813_888);
    assert(doubled(52) == 4_503_599_627_370_496);
}

} // verus!
