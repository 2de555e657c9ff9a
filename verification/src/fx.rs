//! Fixed-point arithmetic base: samples, gains and parameters are `i64`
//! values in units of `1 / FX_ONE`. Everything the audio path computes is
//! built from the primitives here, so each carries an exact contract.

use vstd::prelude::*;

use crate::constants::FX_ONE;

verus! {

/// Truncating division (toward zero, as Rust's `/` on machine integers),
/// defined for a positive divisor.
pub open spec fn tdiv(n: int, d: int) -> int {
    if n >= 0 {
        n / d
    } else {
        -((-n) / d)
    }
}

/// Fixed-point product: `a * b` scaled back down, truncated toward zero.
pub open spec fn fx_mul_spec(a: int, b: int) -> int {
    tdiv(a * b, FX_ONE as int)
}

pub open spec fn clamp_spec(v: int, lo: int, hi: int) -> int {
    if v < lo {
        lo
    } else if v > hi {
        hi
    } else {
        v
    }
}

pub open spec fn abs_spec(v: int) -> int {
    if v >= 0 {
        v
    } else {
        -v
    }
}

pub fn clamp_i64(v: i64, lo: i64, hi: i64) -> (r: i64)
    requires
        lo <= hi,
    ensures
        r == clamp_spec(v as int, lo as int, hi as int),
{
    if v < lo {
        lo
    } else if v > hi {
        hi
    } else {
        v
    }
}

/// Quotient of a nonnegative value by a positive one.
pub fn div_pos(a: i64, b: i64) -> (r: i64)
    requires
        a >= 0,
        b > 0,
    ensures
        r == a as int / b as int,
        0 <= r <= a,
{
    let q = (a as u64) / (b as u64);
    proof {
        vstd::arithmetic::div_mod::lemma_div_nonincreasing(a as int, b as int);
        vstd::arithmetic::div_mod::lemma_div_pos_is_pos(a as int, b as int);
    }
    q as i64
}

/// Truncating division of any value by a positive one.
pub fn div_trunc(a: i64, b: i64) -> (r: i64)
    requires
        b > 0,
        a > i64::MIN,
    ensures
        r == tdiv(a as int, b as int),
        abs_spec(r as int) <= abs_spec(a as int),
{
    if a >= 0 {
        div_pos(a, b)
    } else {
        let n = -a;
        let q = div_pos(n, b);
        -q
    }
}

/// Fixed-point multiply.
pub fn fx_mul(a: i64, b: i64) -> (r: i64)
    requires
        -0x4000_0000_0000_0000 <= a as int * b as int <= 0x4000_0000_0000_0000,
    ensures
        r == fx_mul_spec(a as int, b as int),
        abs_spec(r as int) * FX_ONE <= abs_spec(a as int * b as int),
{
    let p: i64 = a * b;
    let r = div_trunc(p, FX_ONE);
    proof {
        if p >= 0 {
            vstd::arithmetic::div_mod::lemma_fundamental_div_mod(p as int, FX_ONE as int);
            vstd::arithmetic::mul::lemma_mul_is_commutative(
                FX_ONE as int,
                p as int / FX_ONE as int,
            );
        } else {
            vstd::arithmetic::div_mod::lemma_fundamental_div_mod(-p as int, FX_ONE as int);
            vstd::arithmetic::mul::lemma_mul_is_commutative(
                FX_ONE as int,
                -p as int / FX_ONE as int,
            );
        }
    }
    r
}

/// A piecewise-parabolic oscillator waveform over one cycle: zero at phase
/// 0 and 1/2, a positive arch peaking at 1 over the first half cycle and its
/// negated mirror over the second.
pub open spec fn osc_wave_spec(phase: int) -> int {
    if phase < 32768 {
        16 * phase * (32768 - phase) / (FX_ONE as int)
    } else {
        -(16 * (phase - 32768) * (FX_ONE - phase) / (FX_ONE as int))
    }
}

pub fn osc_wave(phase: i64) -> (r: i64)
    requires
        0 <= phase < FX_ONE,
    ensures
        r == osc_wave_spec(phase as int),
        -FX_ONE <= r <= FX_ONE,
        phase == 0 ==> r == 0,
{
    if phase < 32768 {
        proof {
            assert(0 <= 16 * (phase as int) * (32768 - phase as int)
                <= 0x1_0000_0000_0000) by (nonlinear_arith)
                requires
                    0 <= phase < 32768,
            ;
        }
        let num = 16 * phase * (32768 - phase);
        let r = div_pos(num, FX_ONE);
        proof {
            lemma_arch_bound(phase as int, 32768 - phase as int);
            vstd::arithmetic::div_mod::lemma_div_of0(FX_ONE as int);
            assert(phase == 0 ==> 16 * (phase as int) * (32768 - phase as int) == 0)
                by (nonlinear_arith);
        }
        r
    } else {
        proof {
            assert(0 <= 16 * (phase as int - 32768) * (FX_ONE - phase as int)
                <= 0x1_0000_0000_0000) by (nonlinear_arith)
                requires
                    32768 <= phase < FX_ONE,
            ;
        }
        let num = 16 * (phase - 32768) * (FX_ONE - phase);
        let r = div_pos(num, FX_ONE);
        proof {
            lemma_arch_bound(phase as int - 32768, FX_ONE - phase as int);
        }
        -r
    }
}

/// For two nonnegative halves `a + b == 32768`, the parabola `16ab/FX_ONE`
/// stays within `[0, FX_ONE]`.
proof fn lemma_arch_bound(a: int, b: int)
    requires
        0 <= a,
        0 <= b,
        a + b <= 32768,
    ensures
        0 <= 16 * a * b / (FX_ONE as int) <= FX_ONE,
{
    assert(0 <= 16 * a * b <= 0x1_0000_0000) by (nonlinear_arith)
        requires
            0 <= a && 0 <= b && a + b <= 32768,
    ;
    vstd::arithmetic::div_mod::lemma_div_pos_is_pos(16 * a * b, FX_ONE as int);
    vstd::arithmetic::div_mod::lemma_div_is_ordered(16 * a * b, 0x1_0000_0000, FX_ONE as int);
    assert(0x1_0000_0000int / (FX_ONE as int) == FX_ONE as int);
}

/// A smooth saturating waveshaper approximating a hyperbolic tangent: the
/// input is clamped to three times full scale and mapped through the
/// rational curve `x (27 + x^2) / (27 + 9 x^2)` (in units of full scale),
/// which is the identity near zero and flattens to full scale at the clamp.
pub open spec fn soft_sat_spec(x: int) -> int {
    let c = clamp_spec(x, -3 * FX_ONE as int, 3 * FX_ONE as int);
    tdiv(
        c * (27 * (FX_ONE as int) * (FX_ONE as int) + c * c),
        27 * (FX_ONE as int) * (FX_ONE as int) + 9 * c * c,
    )
}

pub fn soft_sat(x: i64) -> (r: i64)
    requires
        -0x1_0000_0000_0000 <= x <= 0x1_0000_0000_0000,
    ensures
        r == soft_sat_spec(x as int),
        -FX_ONE <= r <= FX_ONE,
        x == 0 ==> r == 0,
        x >= 0 ==> r >= 0,
        x <= 0 ==> r <= 0,
        x >= FX_ONE ==> r >= 1,
{
    let c = clamp_i64(x, -3 * FX_ONE, 3 * FX_ONE);
    proof {
        if x >= FX_ONE {
            assert((c as int) * (27 * (FX_ONE as int) * (FX_ONE as int) + (c as int) * (c as int))
                >= 27 * (FX_ONE as int) * (FX_ONE as int) + 9 * (c as int) * (c as int))
                by (nonlinear_arith)
                requires
                    FX_ONE <= c <= 3 * FX_ONE,
            ;
        }
    }
    proof {
        assert(-3 * FX_ONE <= c <= 3 * FX_ONE);
        assert(0 <= (c as int) * (c as int) <= 9 * (FX_ONE as int) * (FX_ONE as int))
            by (nonlinear_arith)
            requires
                -3 * FX_ONE <= c <= 3 * FX_ONE,
        ;
        assert((c as int) * (27 * (FX_ONE as int) * (FX_ONE as int) + (c as int) * (c as int))
            <= 3 * (FX_ONE as int) * 36 * (FX_ONE as int) * (FX_ONE as int) && (c as int) * (27 * (
        FX_ONE as int) * (FX_ONE as int) + (c as int) * (c as int)) >= -3 * (FX_ONE as int) * 36 * (
        FX_ONE as int) * (FX_ONE as int)) by (nonlinear_arith)
            requires
                -3 * FX_ONE <= c <= 3 * FX_ONE,
                0 <= (c as int) * (c as int) <= 9 * (FX_ONE as int) * (FX_ONE as int),
        ;
        lemma_soft_sat_bounded(c as int);
        assert(0 <= 9 * (c as int) * (c as int) <= 81 * (FX_ONE as int) * (FX_ONE as int))
            by (nonlinear_arith)
            requires
                -3 * FX_ONE <= c <= 3 * FX_ONE,
        ;
    }
    let num = c * (27 * FX_ONE * FX_ONE + c * c);
    let den = 27 * FX_ONE * FX_ONE + 9 * c * c;
    let r = div_trunc(num, den);
    proof {
        if num >= den {
            vstd::arithmetic::div_mod::lemma_div_is_ordered(den as int, num as int, den as int);
            vstd::arithmetic::div_mod::lemma_div_by_self(den as int);
        }
        assert(c <= 0 ==> (c as int) * (27 * (FX_ONE as int) * (FX_ONE as int) + (c as int) * (
        c as int)) <= 0) by (nonlinear_arith);
        assert(c >= 0 ==> (c as int) * (27 * (FX_ONE as int) * (FX_ONE as int) + (c as int) * (
        c as int)) >= 0) by (nonlinear_arith);
        if num <= 0 {
            vstd::arithmetic::div_mod::lemma_div_pos_is_pos(-(num as int), den as int);
        }
        if num >= 0 {
            vstd::arithmetic::div_mod::lemma_div_is_ordered(
                num as int,
                (FX_ONE as int) * (den as int),
                den as int,
            );
            vstd::arithmetic::div_mod::lemma_div_multiples_vanish(FX_ONE as int, den as int);
            assert((FX_ONE as int) * (den as int) == (den as int) * (FX_ONE as int));
        } else {
            vstd::arithmetic::div_mod::lemma_div_is_ordered(
                -num as int,
                (FX_ONE as int) * (den as int),
                den as int,
            );
            vstd::arithmetic::div_mod::lemma_div_multiples_vanish(FX_ONE as int, den as int);
            assert((FX_ONE as int) * (den as int) == (den as int) * (FX_ONE as int));
        }
    }
    r
}

/// The saturator's numerator never exceeds full scale times its denominator:
/// the margin is exactly the cube of the distance to the clamp point.
proof fn lemma_soft_sat_bounded(c: int)
    requires
        -3 * FX_ONE <= c <= 3 * FX_ONE,
    ensures
        c * (27 * (FX_ONE as int) * (FX_ONE as int) + c * c) <= (FX_ONE as int) * (27 * (
        FX_ONE as int) * (FX_ONE as int) + 9 * c * c),
        -(c * (27 * (FX_ONE as int) * (FX_ONE as int) + c * c)) <= (FX_ONE as int) * (27 * (
        FX_ONE as int) * (FX_ONE as int) + 9 * c * c),
{
    let f = FX_ONE as int;
    assert(f * (27 * f * f + 9 * c * c) - c * (27 * f * f + c * c) == (3 * f - c) * (3 * f - c) * (
    3 * f - c)) by (nonlinear_arith);
    assert((3 * f - c) * (3 * f - c) * (3 * f - c) >= 0) by (nonlinear_arith)
        requires
            c <= 3 * f,
    ;
    assert(f * (27 * f * f + 9 * c * c) + c * (27 * f * f + c * c) == (3 * f + c) * (3 * f + c) * (
    3 * f + c)) by (nonlinear_arith);
    assert((3 * f + c) * (3 * f + c) * (3 * f + c) >= 0) by (nonlinear_arith)
        requires
            -3 * f <= c,
    ;
}

/// Scaling by a fixed-point factor in `[0, 1]` contracts: the result is no
/// larger in magnitude than the scaled value, nor than the factor when the
/// value is itself within full scale, and it keeps the value's sign.
pub proof fn lemma_fx_mul_contract(a: int, b: int)
    requires
        0 <= b <= FX_ONE,
    ensures
        abs_spec(fx_mul_spec(a, b)) <= abs_spec(a),
        -FX_ONE <= a <= FX_ONE ==> abs_spec(fx_mul_spec(a, b)) <= b,
        a >= 0 ==> fx_mul_spec(a, b) >= 0,
        a <= 0 ==> fx_mul_spec(a, b) <= 0,
{
    let f = FX_ONE as int;
    if a >= 0 {
        assert(0 <= a * b && a * b <= a * f && (a <= f ==> a * b <= f * b)) by (nonlinear_arith)
            requires
                a >= 0 && 0 <= b <= f,
        ;
        vstd::arithmetic::div_mod::lemma_div_pos_is_pos(a * b, f);
        vstd::arithmetic::div_mod::lemma_div_is_ordered(a * b, a * f, f);
        vstd::arithmetic::div_mod::lemma_div_by_multiple(a, f);
        if a <= f {
            vstd::arithmetic::div_mod::lemma_div_is_ordered(a * b, f * b, f);
            vstd::arithmetic::div_mod::lemma_div_multiples_vanish(b, f);
        }
    } else {
        let n = -a;
        assert(-(a * b) == n * b && 0 <= n * b && n * b <= n * f && (n <= f ==> n * b <= f * b))
            by (nonlinear_arith)
            requires
                a < 0 && n == -a && 0 <= b <= f,
        ;
        vstd::arithmetic::div_mod::lemma_div_pos_is_pos(n * b, f);
        vstd::arithmetic::div_mod::lemma_div_is_ordered(n * b, n * f, f);
        vstd::arithmetic::div_mod::lemma_div_by_multiple(n, f);
        if n <= f {
            vstd::arithmetic::div_mod::lemma_div_is_ordered(n * b, f * b, f);
            vstd::arithmetic::div_mod::lemma_div_multiples_vanish(b, f);
        }
    }
}

/// Scaling a value in `[0, 1]` by a factor strictly below 1 strictly
/// decreases it while it is nonzero.
pub proof fn lemma_fx_scale_strict(a: int, b: int)
    requires
        1 <= a <= FX_ONE,
        0 <= b < FX_ONE,
    ensures
        fx_mul_spec(a, b) < a,
        fx_mul_spec(a, b) >= 0,
{
    let f = FX_ONE as int;
    assert(a * b <= a * f - a) by (nonlinear_arith)
        requires
            1 <= a && 0 <= b <= f - 1,
    ;
    assert(a * f - a == f * (a - 1) + (f - a)) by (nonlinear_arith);
    vstd::arithmetic::div_mod::lemma_div_pos_is_pos(a * b, f);
    vstd::arithmetic::div_mod::lemma_div_is_ordered(a * b, f * (a - 1) + (f - a), f);
    vstd::arithmetic::div_mod::lemma_div_multiples_vanish_fancy(a - 1, f - a, f);
}

/// The oscillator waveform stays within full scale.
pub proof fn lemma_osc_wave_bounds(phase: int)
    requires
        0 <= phase < FX_ONE,
    ensures
        -FX_ONE <= osc_wave_spec(phase) <= FX_ONE,
{
    if phase < 32768 {
        lemma_arch_bound(phase, 32768 - phase);
    } else {
        lemma_arch_bound(phase - 32768, FX_ONE - phase);
    }
}

/// A noise sample stays within full scale.
pub proof fn lemma_noise_bounds(state: u32)
    ensures
        -FX_ONE <= noise_of(state) <= FX_ONE,
{
    let num = (state as int) * 2 * (FX_ONE as int);
    assert(0 <= (state as int) * 2 * (FX_ONE as int) <= 0xFFFF_FFFFint * 2 * (FX_ONE as int))
        by (nonlinear_arith)
        requires
            0 <= state as int <= 0xFFFF_FFFF,
    ;
    vstd::arithmetic::div_mod::lemma_div_pos_is_pos(num, 0xFFFF_FFFF);
    vstd::arithmetic::div_mod::lemma_div_is_ordered(
        num,
        0xFFFF_FFFFint * 2 * (FX_ONE as int),
        0xFFFF_FFFF,
    );
    assert(0xFFFF_FFFFint * 2 * (FX_ONE as int) / 0xFFFF_FFFF == 2 * (FX_ONE as int)) by {
        vstd::arithmetic::div_mod::lemma_div_by_multiple(2 * (FX_ONE as int), 0xFFFF_FFFF);
        assert(0xFFFF_FFFFint * 2 * (FX_ONE as int) == 2 * (FX_ONE as int) * 0xFFFF_FFFF)
            by (nonlinear_arith);
    }
}

/// Scaling a value within full scale by any nonnegative factor gives a
/// result no larger in magnitude than the factor.
pub proof fn lemma_fx_mul_by_unit(a: int, b: int)
    requires
        -FX_ONE <= a <= FX_ONE,
        0 <= b,
    ensures
        abs_spec(fx_mul_spec(a, b)) <= b,
{
    let f = FX_ONE as int;
    if a >= 0 {
        assert(0 <= a * b && a * b <= f * b) by (nonlinear_arith)
            requires
                0 <= a <= f && 0 <= b,
        ;
        vstd::arithmetic::div_mod::lemma_div_pos_is_pos(a * b, f);
        vstd::arithmetic::div_mod::lemma_div_is_ordered(a * b, f * b, f);
        vstd::arithmetic::div_mod::lemma_div_multiples_vanish(b, f);
    } else {
        let n = -a;
        assert(-(a * b) == n * b && 0 <= n * b && n * b <= f * b) by (nonlinear_arith)
            requires
                a < 0 && n == -a && n <= f && 0 <= b,
        ;
        vstd::arithmetic::div_mod::lemma_div_pos_is_pos(n * b, f);
        vstd::arithmetic::div_mod::lemma_div_is_ordered(n * b, f * b, f);
        vstd::arithmetic::div_mod::lemma_div_multiples_vanish(b, f);
    }
}

/// The product of two bounded values stays within the fixed-point
/// multiplier's admitted range.
pub proof fn lemma_mul_fits(a: int, b: int, am: int, bm: int)
    requires
        abs_spec(a) <= am,
        abs_spec(b) <= bm,
        0 <= am,
        0 <= bm,
        am * bm <= 0x4000_0000_0000_0000,
    ensures
        -0x4000_0000_0000_0000 <= a * b <= 0x4000_0000_0000_0000,
{
    assert(-(am * bm) <= a * b <= am * bm) by (nonlinear_arith)
        requires
            abs_spec(a) <= am && abs_spec(b) <= bm && 0 <= am && 0 <= bm,
    ;
}

/// One step of the linear-congruential noise generator.
pub open spec fn lcg_next_spec(state: u32) -> u32 {
    (((state as int) * 1664525 + 1013904223) % 0x1_0000_0000) as u32
}

pub fn lcg_next(state: u32) -> (r: u32)
    ensures
        r == lcg_next_spec(state),
{
    let wide: u64 = (state as u64) * 1664525 + 1013904223;
    (wide % 0x1_0000_0000) as u32
}

/// The white-noise sample a generator state stands for, spread over
/// `[-1, 1]` in fixed-point units.
pub open spec fn noise_of(state: u32) -> int {
    (state as int) * 2 * (FX_ONE as int) / 0xFFFF_FFFF - FX_ONE
}

pub fn noise_sample(state: u32) -> (r: i64)
    ensures
        r == noise_of(state),
        -FX_ONE <= r <= FX_ONE,
{
    let num: i64 = (state as i64) * 2 * FX_ONE;
    let q = div_pos(num, 0xFFFF_FFFF);
    proof {
        vstd::arithmetic::div_mod::lemma_div_is_ordered(
            num as int,
            0xFFFF_FFFFint * 2 * (FX_ONE as int),
            0xFFFF_FFFF,
        );
        assert(0xFFFF_FFFFint * 2 * (FX_ONE as int) / 0xFFFF_FFFF == 2 * (FX_ONE as int)) by {
            vstd::arithmetic::div_mod::lemma_div_by_multiple(2 * (FX_ONE as int), 0xFFFF_FFFF);
            assert(0xFFFF_FFFFint * 2 * (FX_ONE as int) == 2 * (FX_ONE as int) * 0xFFFF_FFFF)
                by (nonlinear_arith);
        }
    }
    q - FX_ONE
}

} // verus!
