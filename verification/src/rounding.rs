//! Rounded integer division, the arithmetic core of every register/physical
//! unit conversion: a register word scales by a rational step `num / den`,
//! and the inverse conversion divides back with rounding to the nearest
//! integer (ties away from zero).

use vstd::prelude::*;

verus! {

/// Quotient `a / d` rounded to the nearest integer, ties away from zero.
pub open spec fn round_div(a: int, d: int) -> int
    recommends
        d >= 1,
{
    if a >= 0 {
        (a + d / 2) / d
    } else {
        -(((-a) + d / 2) / d)
    }
}

/// Rounding never strays more than half a divisor from the exact quotient:
/// `round_div(a, d) * d` lies within `d` of `a`, and within `d/2` on the high side.
pub proof fn lemma_round_div_bounds(a: int, d: int)
    requires
        a >= 0,
        d >= 1,
    ensures
        round_div(a, d) >= 0,
        round_div(a, d) * d <= a + d / 2,
        a + d / 2 < (round_div(a, d) + 1) * d,
{
    let r = (a + d / 2) / d;
    vstd::arithmetic::div_mod::lemma_fundamental_div_mod(a + d / 2, d);
    let m = (a + d / 2) % d;
    vstd::arithmetic::div_mod::lemma_mod_bound(a + d / 2, d);
    assert(a + d / 2 == d * r + m);
    assert(r * d <= a + d / 2) by (nonlinear_arith)
        requires
            a + d / 2 == d * r + m,
            0 <= m,
    ;
    assert(a + d / 2 < (r + 1) * d) by (nonlinear_arith)
        requires
            a + d / 2 == d * r + m,
            m < d,
    ;
    assert(r >= 0) by {
        if r < 0 {
            assert(d * r + m < 0) by (nonlinear_arith)
                requires
                    r <= -1,
                    d >= 1,
                    m < d,
            ;
        }
    }
}

/// A rounded quotient never exceeds the dividend.
pub proof fn lemma_round_div_le_num(a: int, d: int)
    requires
        a >= 0,
        d >= 1,
    ensures
        0 <= round_div(a, d) <= a,
{
    let r = round_div(a, d);
    lemma_round_div_bounds(a, d);
    assert(r * d <= a + d / 2);
    assert(r <= a) by (nonlinear_arith)
        requires
            r * d <= a + d / 2,
            a >= 0,
            d >= 1,
            0 <= d / 2 < d,
            r >= 0,
    ;
}

/// A bound on the dividend bounds the rounded quotient.
pub proof fn lemma_round_div_upper(a: int, d: int, b: int)
    requires
        0 <= a <= b * d,
        d >= 1,
        b >= 0,
    ensures
        round_div(a, d) <= b,
{
    let r = round_div(a, d);
    lemma_round_div_bounds(a, d);
    assert(r * d <= a + d / 2);
    assert(r <= b) by (nonlinear_arith)
        requires
            r * d <= a + d / 2,
            a <= b * d,
            d >= 1,
            b >= 0,
            0 <= d / 2 < d,
    ;
}

/// Rounded division is exact on exact multiples.
pub proof fn lemma_round_div_exact(q: int, d: int)
    requires
        q >= 0,
        d >= 1,
    ensures
        round_div(q * d, d) == q,
{
    assert(q * d >= 0) by (nonlinear_arith)
        requires
            q >= 0,
            d >= 1,
    ;
    vstd::arithmetic::div_mod::lemma_fundamental_div_mod_converse(q * d + d / 2, d, q, d / 2);
}

/// Rounding away from zero is symmetric about zero.
pub proof fn lemma_round_div_neg(a: int, d: int)
    requires
        d >= 1,
    ensures
        round_div(-a, d) == -round_div(a, d),
{
    if a == 0 {
        assert((0 + d / 2) / d == 0) by (nonlinear_arith)
            requires
                d >= 1,
                0 <= d / 2 < d,
        ;
    }
}

/// Converting a register word to a physical quantity (scale by `num`, round
/// by `den`) and back recovers the word exactly, provided the step is at
/// least one output unit (`den <= num`).
pub proof fn lemma_register_round_trip(reg: int, num: int, den: int)
    requires
        reg >= 0,
        1 <= den <= num,
    ensures
        round_div(round_div(reg * num, den) * den, num) == reg,
{
    if den == num {
        lemma_round_div_exact(reg, den);
        assert(round_div(reg * num, den) == reg);
        lemma_round_div_exact(reg, num);
        assert(reg * den == reg * num) by (nonlinear_arith)
            requires
                den == num,
        ;
    } else {
        let q = round_div(reg * num, den);
        assert(reg * num >= 0) by (nonlinear_arith)
            requires
                reg >= 0,
                num >= 1,
        ;
        lemma_round_div_bounds(reg * num, den);
        assert(q * den <= reg * num + den / 2);
        assert(reg * num + den / 2 < (q + 1) * den);
        assert(q * den >= reg * num + den / 2 - den + 1) by (nonlinear_arith)
            requires
                reg * num + den / 2 < (q + 1) * den,
        ;
        let b = round_div(q * den, num);
        assert(q * den >= 0) by (nonlinear_arith)
            requires
                q >= 0,
                den >= 1,
        ;
        lemma_round_div_bounds(q * den, num);
        assert(b * num <= q * den + num / 2);
        assert(q * den + num / 2 < (b + 1) * num);
        assert(b * num >= q * den + num / 2 - num + 1) by (nonlinear_arith)
            requires
                q * den + num / 2 < (b + 1) * num,
        ;
        // With den < num, both deviations together stay strictly below one
        // register count in either direction.
        assert(den / 2 + num / 2 <= num - 1) by (nonlinear_arith)
            requires
                1 <= den < num,
        ;
        assert(b * num <= reg * num + num - 1);
        assert((num - den) + (num / 2 - num) + (den / 2 - den) + 2 >= 2 - num) by (nonlinear_arith)
            requires
                1 <= den < num,
        ;
        assert(b * num >= reg * num + den / 2 - den + num / 2 - num + 2);
        assert(num / 2 + 2 > den - den / 2) by (nonlinear_arith)
            requires
                1 <= den < num,
        ;
        assert(b * num > reg * num - num) by (nonlinear_arith)
            requires
                b * num >= reg * num + den / 2 - den + num / 2 - num + 2,
                num / 2 + 2 > den - den / 2,
        ;
        assert(b == reg) by (nonlinear_arith)
            requires
                b * num <= reg * num + num - 1,
                b * num > reg * num - num,
                num >= 1,
        ;
    }
}

/// Converting a physical quantity to a register word and back reproduces the
/// quantity to within one conversion step: the round trip differs from the
/// original by at most `(num + den) / (2 den)` output units, which is within
/// one step of `num / den` units per register count.
pub proof fn lemma_physical_round_trip(q: int, num: int, den: int)
    requires
        q >= 0,
        num >= 1,
        den >= 1,
    ensures
        round_div(round_div(q * den, num) * num, den) >= 0,
        2 * den * (round_div(round_div(q * den, num) * num, den) - q) <= num + den,
        2 * den * (q - round_div(round_div(q * den, num) * num, den)) <= num + den,
{
    let r = round_div(q * den, num);
    assert(q * den >= 0) by (nonlinear_arith)
        requires
            q >= 0,
            den >= 1,
    ;
    lemma_round_div_bounds(q * den, num);
    assert(r * num <= q * den + num / 2);
    assert(q * den + num / 2 < (r + 1) * num);
    let f = round_div(r * num, den);
    assert(r * num >= 0) by (nonlinear_arith)
        requires
            r >= 0,
            num >= 1,
    ;
    lemma_round_div_bounds(r * num, den);
    assert(f * den <= r * num + den / 2);
    assert(r * num + den / 2 < (f + 1) * den);
    assert(2 * den * (f - q) <= num + den) by (nonlinear_arith)
        requires
            f * den <= r * num + den / 2,
            r * num <= q * den + num / 2,
            num >= 1,
            den >= 1,
            num / 2 <= num - num / 2,
            den / 2 <= den - den / 2,
    ;
    assert(2 * den * (q - f) <= num + den) by (nonlinear_arith)
        requires
            q * den + num / 2 < (r + 1) * num,
            r * num + den / 2 < (f + 1) * den,
            num >= 1,
            den >= 1,
            num / 2 >= (num - 1) / 2,
            den / 2 >= (den - 1) / 2,
    ;
}

/// The physical round trip bound, extended to negative quantities by the
/// symmetry of rounding about zero.
pub proof fn lemma_physical_round_trip_signed(q: int, num: int, den: int)
    requires
        num >= 1,
        den >= 1,
    ensures
        2 * den * (round_div(round_div(q * den, num) * num, den) - q) <= num + den,
        2 * den * (q - round_div(round_div(q * den, num) * num, den)) <= num + den,
{
    if q >= 0 {
        lemma_physical_round_trip(q, num, den);
    } else {
        let p = -q;
        lemma_physical_round_trip(p, num, den);
        let g = round_div(p * den, num);
        assert(q * den == -(p * den)) by (nonlinear_arith)
            requires
                q == -p,
        ;
        lemma_round_div_neg(p * den, num);
        assert(round_div(q * den, num) == -g);
        assert((-g) * num == -(g * num)) by (nonlinear_arith);
        lemma_round_div_neg(g * num, den);
    }
}

/// Halving the divisor doubles the rounded quotient, up to one unit of
/// rounding; exactly, whenever the division by the doubled divisor is exact.
pub proof fn lemma_round_div_halving(a: int, d: int)
    requires
        a >= 0,
        d >= 1,
    ensures
        round_div(a, d) - 2 * round_div(a, 2 * d) <= 1,
        2 * round_div(a, 2 * d) - round_div(a, d) <= 1,
        a % (2 * d) == 0 ==> round_div(a, d) == 2 * round_div(a, 2 * d),
{
    let r1 = round_div(a, d);
    let r2 = round_div(a, 2 * d);
    lemma_round_div_bounds(a, d);
    lemma_round_div_bounds(a, 2 * d);
    assert(r1 * d <= a + d / 2);
    assert(a + d / 2 < (r1 + 1) * d);
    assert(r2 * (2 * d) <= a + (2 * d) / 2);
    assert(a + (2 * d) / 2 < (r2 + 1) * (2 * d));
    assert((2 * d) / 2 == d);
    assert(r1 - 2 * r2 <= 1 && 2 * r2 - r1 <= 1) by (nonlinear_arith)
        requires
            r1 * d <= a + d / 2,
            a + d / 2 < (r1 + 1) * d,
            r2 * (2 * d) <= a + d,
            a + d < (r2 + 1) * (2 * d),
            d >= 1,
            0 <= d / 2 <= d - d / 2,
    ;
    if a % (2 * d) == 0 {
        let k = a / (2 * d);
        vstd::arithmetic::div_mod::lemma_fundamental_div_mod(a, 2 * d);
        assert(a == 2 * d * k);
        assert(a == (2 * k) * d) by (nonlinear_arith)
            requires
                a == 2 * d * k,
        ;
        assert(k >= 0) by (nonlinear_arith)
            requires
                a == 2 * d * k,
                a >= 0,
                d >= 1,
        ;
        lemma_round_div_exact(2 * k, d);
        lemma_round_div_exact(k, 2 * d);
        assert(k * (2 * d) == a) by (nonlinear_arith)
            requires
                a == 2 * d * k,
        ;
    }
}

} // verus!
