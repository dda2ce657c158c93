//! Q16.16 fixed-point arithmetic: the number format every signal value in
//! this crate is expressed in, together with the lemmas the other modules
//! need about scaled multiplication and division.

use vstd::prelude::*;

verus! {

use vstd::arithmetic::div_mod::{
    lemma_div_is_ordered, lemma_div_pos_is_pos, lemma_fundamental_div_mod_converse,
};
use vstd::arithmetic::mul::{lemma_mul_inequality, lemma_mul_is_commutative};

/// Unit value of the Q16.16 format: `SCALE` stands for 1.0, so a level of
/// 0.5 is `SCALE / 2` and a sample in [-1, 1] lies in `[-SCALE, SCALE]`.
pub const SCALE: i64 = 65536;

/// Half a turn (0.5) in Q16.16.
pub const HALF_SCALE: i64 = 32768;

/// A quarter turn (0.25) in Q16.16.
pub const QUARTER_SCALE: i64 = 16384;

/// Division rounding toward zero, which is what the executable `/` on
/// signed integers computes (spec-mode `/` alone is Euclidean).
pub open spec fn tdiv(p: int, d: int) -> int {
    if p >= 0 {
        p / d
    } else {
        -((-p) / d)
    }
}

/// The product of two Q16.16 values scaled back into Q16.16, rounding
/// toward zero as the executable code does.
pub open spec fn spec_mul_q(a: int, b: int) -> int {
    tdiv(a * b, SCALE as int)
}

pub open spec fn spec_clamp(x: int, lo: int, hi: int) -> int {
    if x < lo {
        lo
    } else if x > hi {
        hi
    } else {
        x
    }
}

pub open spec fn spec_min(a: int, b: int) -> int {
    if a < b {
        a
    } else {
        b
    }
}

pub open spec fn spec_abs(x: int) -> int {
    if x >= 0 {
        x
    } else {
        -x
    }
}

pub fn clamp_i64(x: i64, lo: i64, hi: i64) -> (r: i64)
    requires
        lo <= hi,
    ensures
        r == spec_clamp(x as int, lo as int, hi as int),
        lo <= r <= hi,
{
    if x < lo {
        lo
    } else if x > hi {
        hi
    } else {
        x
    }
}

/// Magnitude bound for truncating division: dividing cannot push a value
/// outside the interval `[-m/d, m/d]` that contains its numerator scaled.
pub proof fn lemma_tdiv_mag(p: int, d: int, m: int)
    requires
        0 < d,
        0 <= m,
        -m <= p <= m,
    ensures
        -(m / d) <= tdiv(p, d) <= m / d,
        p >= 0 ==> 0 <= tdiv(p, d),
        p <= 0 ==> tdiv(p, d) <= 0,
{
    if p >= 0 {
        lemma_div_is_ordered(p, m, d);
        lemma_div_pos_is_pos(p, d);
    } else {
        lemma_div_is_ordered(-p, m, d);
        lemma_div_pos_is_pos(-p, d);
    }
}

/// Multiplying both sides of `-m <= x <= m` by a nonnegative factor.
pub proof fn lemma_mul_abs_le(c: int, x: int, m: int)
    requires
        0 <= c,
        -m <= x <= m,
    ensures
        -(c * m) <= c * x <= c * m,
{
    lemma_mul_inequality(x, m, c);
    lemma_mul_inequality(-m, x, c);
    lemma_mul_is_commutative(x, c);
    lemma_mul_is_commutative(m, c);
    lemma_mul_is_commutative(-m, c);
    assert((-m) * c == -(m * c)) by (nonlinear_arith);
}

/// One relaxation step `v + (t - v) * q / SCALE` with a rate `q` in
/// `[0, SCALE]` lands between the current value `v` and the target `t`.
/// This single fact bounds every envelope and filter-stage update.
pub proof fn lemma_step_toward(v: int, t: int, q: int)
    requires
        0 <= q <= SCALE as int,
    ensures
        t >= v ==> v <= v + tdiv((t - v) * q, SCALE as int) <= t,
        t < v ==> t <= v + tdiv((t - v) * q, SCALE as int) <= v,
{
    let s = SCALE as int;
    if t >= v {
        lemma_mul_abs_le(t - v, q, s);
        assert((t - v) * q >= 0) by (nonlinear_arith)
            requires t - v >= 0 && q >= 0;
        assert((t - v) * q <= (t - v) * s) by {
            lemma_mul_inequality(q, s, t - v);
            lemma_mul_is_commutative(q, t - v);
            lemma_mul_is_commutative(s, t - v);
        }
        lemma_div_is_ordered((t - v) * q, (t - v) * s, s);
        assert(((t - v) * s) / s == t - v) by (nonlinear_arith)
            requires s > 0;
        lemma_div_pos_is_pos((t - v) * q, s);
    } else {
        let w = v - t;
        assert(w * q >= 0) by (nonlinear_arith)
            requires w >= 0 && q >= 0;
        assert(w * q <= w * s) by {
            lemma_mul_inequality(q, s, w);
            lemma_mul_is_commutative(q, w);
            lemma_mul_is_commutative(s, w);
        }
        lemma_div_is_ordered(w * q, w * s, s);
        assert((w * s) / s == w) by (nonlinear_arith)
            requires s > 0;
        lemma_div_pos_is_pos(w * q, s);
        assert((t - v) * q == -(w * q)) by (nonlinear_arith)
            requires w == v - t;
    }
}

/// Bound on a scaled product from bounds on its factors.
pub proof fn lemma_mul_q_mag(a: int, b: int, ma: int, mb: int)
    requires
        0 <= ma,
        0 <= mb,
        -ma <= a <= ma,
        -mb <= b <= mb,
    ensures
        -(ma * mb / SCALE as int) <= spec_mul_q(a, b) <= ma * mb / SCALE as int,
{
    assert(-(ma * mb) <= a * b <= ma * mb) by (nonlinear_arith)
        requires 0 <= ma && 0 <= mb && -ma <= a <= ma && -mb <= b <= mb;
    assert(ma * mb >= 0) by (nonlinear_arith)
        requires 0 <= ma && 0 <= mb;
    lemma_tdiv_mag(a * b, SCALE as int, ma * mb);
}

/// Scales a wide product back into Q16.16, rounding toward zero.
pub fn div_scale(p: i64) -> (r: i64)
    requires
        -0x7fff_ffff_ffff_ffff <= p,
    ensures
        r == tdiv(p as int, SCALE as int),
{
    if p >= 0 {
        p / SCALE
    } else {
        -((-p) / SCALE)
    }
}

/// Truncating division by an arbitrary positive divisor.
pub fn tdiv_i64(p: i64, d: i64) -> (r: i64)
    requires
        1 <= d,
        -0x7fff_ffff_ffff_ffff <= p,
    ensures
        r == tdiv(p as int, d as int),
{
    if p >= 0 {
        p / d
    } else {
        -((-p) / d)
    }
}

/// Scaled product of two Q16.16 values, rounding toward zero.
pub fn mul_q(a: i64, b: i64) -> (r: i64)
    requires
        -2_000_000_000 <= a <= 2_000_000_000,
        -2_000_000_000 <= b <= 2_000_000_000,
    ensures
        r == spec_mul_q(a as int, b as int),
{
    proof {
        assert(-(2_000_000_000int * 2_000_000_000) <= (a as int) * (b as int)
            <= 2_000_000_000int * 2_000_000_000) by (nonlinear_arith)
            requires -2_000_000_000 <= a <= 2_000_000_000 && -2_000_000_000 <= b
                <= 2_000_000_000;
        lemma_tdiv_mag((a as int) * (b as int), SCALE as int,
            2_000_000_000int * 2_000_000_000);
    }
    let p: i64 = a * b;
    if p >= 0 {
        p / SCALE
    } else {
        -((-p) / SCALE)
    }
}

/// Sine of a phase given in turns (Q16.16, one full cycle is `SCALE`),
/// as the piecewise parabola this crate uses in place of the
/// transcendental sine: exact at 0, 1/4, 1/2 and 3/4 of a turn and within
/// a few percent elsewhere, which is ample for an audio oscillator.
pub open spec fn spec_sin_q(p: int) -> int {
    if p <= HALF_SCALE as int {
        16 * p * (HALF_SCALE as int - p) / (SCALE as int)
    } else {
        -(16 * (p - HALF_SCALE as int) * (SCALE as int - p) / (SCALE as int))
    }
}

/// Product of two factors that sum to at most `HALF_SCALE` is at most
/// `QUARTER_SCALE` squared; gives the `[-SCALE, SCALE]` range of the sine.
proof fn lemma_parabola_peak(a: int, b: int)
    requires
        0 <= a,
        0 <= b,
        a + b == HALF_SCALE as int,
    ensures
        0 <= 16 * a * b <= SCALE as int * SCALE as int,
{
    assert(0 <= 16 * a * b && 16 * a * b <= SCALE as int * SCALE as int) by (nonlinear_arith)
        requires 0 <= a && 0 <= b && a + b == HALF_SCALE as int;
}

pub proof fn lemma_sin_q_bounds(p: int)
    requires
        0 <= p < SCALE as int,
    ensures
        -SCALE as int <= spec_sin_q(p) <= SCALE as int,
{
    let s = SCALE as int;
    if p <= HALF_SCALE as int {
        lemma_parabola_peak(p, HALF_SCALE as int - p);
        lemma_div_is_ordered(16 * p * (HALF_SCALE as int - p), s * s, s);
        lemma_div_pos_is_pos(16 * p * (HALF_SCALE as int - p), s);
        assert(s * s / s == s) by (nonlinear_arith)
            requires s > 0;
    } else {
        lemma_parabola_peak(p - HALF_SCALE as int, s - p);
        lemma_div_is_ordered(16 * (p - HALF_SCALE as int) * (s - p), s * s, s);
        lemma_div_pos_is_pos(16 * (p - HALF_SCALE as int) * (s - p), s);
        assert(s * s / s == s) by (nonlinear_arith)
            requires s > 0;
    }
}

pub fn sin_q(p: i64) -> (r: i64)
    requires
        0 <= p < SCALE,
    ensures
        r == spec_sin_q(p as int),
        -SCALE <= r <= SCALE,
{
    proof {
        lemma_sin_q_bounds(p as int);
    }
    if p <= HALF_SCALE {
        proof {
            lemma_parabola_peak(p as int, HALF_SCALE as int - p);
        }
        16 * p * (HALF_SCALE - p) / SCALE
    } else {
        proof {
            lemma_parabola_peak(p as int - HALF_SCALE as int, SCALE as int - p);
        }
        -(16 * (p - HALF_SCALE) * (SCALE - p) / SCALE)
    }
}

/// Cosine of a phase in turns: the sine a quarter turn later.
pub open spec fn spec_cos_q(p: int) -> int {
    spec_sin_q((p + QUARTER_SCALE as int) % (SCALE as int))
}

pub fn cos_q(p: i64) -> (r: i64)
    requires
        0 <= p < SCALE,
    ensures
        r == spec_cos_q(p as int),
        -SCALE <= r <= SCALE,
{
    let shifted = if p < SCALE - QUARTER_SCALE {
        p + QUARTER_SCALE
    } else {
        p + QUARTER_SCALE - SCALE
    };
    proof {
        let s = SCALE as int;
        let q = p as int + QUARTER_SCALE as int;
        if p < SCALE - QUARTER_SCALE {
            assert(q % s == q) by (nonlinear_arith)
                requires 0 <= q < s;
        } else {
            assert(q % s == q - s) by {
                lemma_fundamental_div_mod_converse(q, s, 1, q - s);
            }
        }
        lemma_sin_q_bounds(shifted as int);
    }
    sin_q(shifted)
}

/// 2 to the power `e`, for the small exponents the pitch model uses.
pub open spec fn spec_pow2(e: nat) -> int
    decreases e,
{
    if e == 0 {
        1
    } else {
        2 * spec_pow2((e - 1) as nat)
    }
}

pub proof fn lemma_pow2_pos(e: nat)
    ensures
        1 <= spec_pow2(e),
    decreases e,
{
    if e > 0 {
        lemma_pow2_pos((e - 1) as nat);
    }
}

pub proof fn lemma_pow2_mono(e1: nat, e2: nat)
    requires
        e1 <= e2,
    ensures
        spec_pow2(e1) <= spec_pow2(e2),
    decreases e2,
{
    if e1 < e2 {
        lemma_pow2_mono(e1, (e2 - 1) as nat);
        lemma_pow2_pos((e2 - 1) as nat);
    }
}

pub proof fn lemma_pow2_mul(e1: nat, e2: nat)
    ensures
        spec_pow2(e1) * spec_pow2(e2) == spec_pow2((e1 + e2) as nat),
    decreases e1,
{
    if e1 == 0 {
        assert(1 * spec_pow2(e2) == spec_pow2(e2)) by (nonlinear_arith);
    } else {
        lemma_pow2_mul((e1 - 1) as nat, e2);
        assert((2 * spec_pow2((e1 - 1) as nat)) * spec_pow2(e2)
            == 2 * (spec_pow2((e1 - 1) as nat) * spec_pow2(e2))) by (nonlinear_arith);
    }
}

pub proof fn lemma_pow2_bounds(e: nat)
    requires
        e <= 16,
    ensures
        1 <= spec_pow2(e) <= 65536,
{
    lemma_pow2_pos(e);
    lemma_pow2_mono(e, 16);
    assert(spec_pow2(16) == 65536) by {
        reveal_with_fuel(spec_pow2, 17);
    }
}

/// 2 to a small nonnegative power, executably.
pub fn pow2_i64(e: u32) -> (r: i64)
    requires
        e <= 16,
    ensures
        r == spec_pow2(e as nat),
        1 <= r <= 65536,
{
    let mut r: i64 = 1;
    let mut i: u32 = 0;
    while i < e
        invariant
            i <= e <= 16,
            r == spec_pow2(i as nat),
            1 <= r <= 65536,
        decreases e - i,
    {
        proof {
            lemma_pow2_bounds((i + 1) as nat);
        }
        r = 2 * r;
        i = i + 1;
    }
    r
}

/// 2 to a fractional exponent `x` in [0, 1) of a turn of the octave,
/// approximated by the quadratic `1 + x*(c1 + c2*x)` with `c1 + c2 = 1`
/// so the endpoints 2^0 = 1 and 2^1 = 2 are exact.
pub open spec fn spec_exp2_frac(x: int) -> int {
    SCALE as int + x * (43020 + x * 22516 / (SCALE as int)) / (SCALE as int)
}

pub proof fn lemma_exp2_frac_bounds(x: int)
    requires
        0 <= x < SCALE as int,
    ensures
        SCALE as int <= spec_exp2_frac(x) < 2 * SCALE as int,
{
    let s = SCALE as int;
    let inner = 43020 + x * 22516 / s;
    assert(0 <= x * 22516) by (nonlinear_arith)
        requires x >= 0;
    lemma_tdiv_mag(x * 22516, s, 22516 * (s - 1));
    assert(x * 22516 <= 22516 * (s - 1)) by (nonlinear_arith)
        requires x <= s - 1;
    assert(22516 * (s - 1) / s == 22515);
    assert(0 <= x * inner) by (nonlinear_arith)
        requires x >= 0 && inner >= 0;
    assert(x * inner <= (s - 1) * 65535) by {
        lemma_mul_inequality(x, s - 1, inner);
        lemma_mul_is_commutative(x, inner);
        lemma_mul_is_commutative(s - 1, inner);
        lemma_mul_abs_le(s - 1, inner, 65535);
    }
    lemma_div_is_ordered(x * inner, (s - 1) * 65535, s);
    assert((s - 1) * 65535 / s == 65534);
    lemma_div_pos_is_pos(x * inner, s);
}

pub fn exp2_frac(x: i64) -> (r: i64)
    requires
        0 <= x < SCALE,
    ensures
        r == spec_exp2_frac(x as int),
        SCALE <= r < 2 * SCALE,
{
    proof {
        lemma_exp2_frac_bounds(x as int);
        assert(0 <= x * 22516 <= 22516 * 65535) by (nonlinear_arith)
            requires 0 <= x <= 65535;
    }
    let inner: i64 = 43020 + x * 22516 / SCALE;
    proof {
        lemma_tdiv_mag(x as int * 22516, SCALE as int, 22516int * 65535);
        assert(22516 * 65535 / 65536 == 22515);
        assert(0 <= x * inner <= 65535 * 65535) by (nonlinear_arith)
            requires 0 <= x <= 65535 && 0 <= inner <= 65535;
    }
    SCALE + x * inner / SCALE
}

/// 2 to a nonnegative Q16.16 exponent: whole octaves shift exactly and
/// the fraction goes through `spec_exp2_frac`.
pub open spec fn spec_exp2_q(x: int) -> int {
    spec_exp2_frac(x % (SCALE as int)) * spec_pow2((x / (SCALE as int)) as nat)
}

pub fn exp2_q(x: i64) -> (r: i64)
    requires
        0 <= x <= 13 * SCALE,
    ensures
        r == spec_exp2_q(x as int),
        SCALE <= r <= 1_073_741_824,
{
    let oct = x / SCALE;
    let frac = x % SCALE;
    let e = exp2_frac(frac);
    let p = pow2_i64(oct as u32);
    proof {
        lemma_pow2_mono(oct as nat, 13);
        assert(spec_pow2(13) == 8192) by {
            reveal_with_fuel(spec_pow2, 14);
        }
        assert(SCALE as int <= (e as int) * (p as int) <= 131071int * 8192)
            by (nonlinear_arith)
            requires 65536 <= e <= 131071 && 1 <= p <= 8192;
    }
    e * p
}

} // verus!
