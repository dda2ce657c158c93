//! Four-stage ladder low-pass filter with resonance feedback and a
//! rational soft-clipping stage between poles, in Q16.16.

use vstd::prelude::*;

verus! {

use crate::fixed::{
    SCALE, tdiv, spec_abs, spec_clamp, clamp_i64, spec_mul_q, mul_q, lemma_mul_q_mag,
    lemma_tdiv_mag, lemma_step_toward,
};
use crate::adsr::DT_MAX_NS;
use vstd::arithmetic::div_mod::{
    lemma_div_is_ordered, lemma_div_pos_is_pos, lemma_multiply_divide_lt,
    lemma_div_multiples_vanish,
};

/// 2*pi in Q16.16, used to derive the per-tick pole coefficient.
pub const TWO_PI_Q16: i64 = 411775;

/// Ceiling of 0.99 on the pole coefficient `g`: the stability margin.
pub const G_MAX_Q16: i64 = 64880;

/// Lowest cutoff the filter accepts, in Hz.
pub const CUTOFF_MIN_HZ: i64 = 80;

/// Highest cutoff the filter accepts, in Hz.
pub const CUTOFF_MAX_HZ: i64 = 18000;

/// Largest input sample magnitude the filter accepts.
pub const FILTER_INPUT_LIMIT: i64 = 4194304;

/// Soft clipper `x / (1 + |x|)` in Q16.16: odd, sign- and
/// magnitude-shrinking, strictly inside (-1, 1).
pub open spec fn spec_soft_clip(x: int) -> int {
    tdiv(x * SCALE as int, SCALE as int + spec_abs(x))
}

pub proof fn lemma_soft_clip_props(x: int)
    ensures
        spec_abs(spec_soft_clip(x)) <= spec_abs(x),
        -(SCALE as int) < spec_soft_clip(x) && spec_soft_clip(x) < SCALE as int,
        x >= 0 ==> spec_soft_clip(x) >= 0,
        x <= 0 ==> spec_soft_clip(x) <= 0,
{
    let s = SCALE as int;
    if x >= 0 {
        let d = s + x;
        assert(x * s <= x * d) by (nonlinear_arith)
            requires x >= 0 && s <= d;
        lemma_div_is_ordered(x * s, x * d, d);
        assert((x * d) / d == x) by {
            lemma_div_multiples_vanish(x, d);
            assert(x * d == d * x) by (nonlinear_arith);
        }
        assert(x * s < d * s) by (nonlinear_arith)
            requires x < d && s > 0;
        lemma_multiply_divide_lt(x * s, d, s);
        lemma_div_pos_is_pos(x * s, d);
        assert(x * s >= 0) by (nonlinear_arith)
            requires x >= 0 && s > 0;
    } else {
        let y = -x;
        let d = s + y;
        assert(y * s <= y * d) by (nonlinear_arith)
            requires y >= 0 && s <= d;
        lemma_div_is_ordered(y * s, y * d, d);
        assert((y * d) / d == y) by {
            lemma_div_multiples_vanish(y, d);
            assert(y * d == d * y) by (nonlinear_arith);
        }
        assert(y * s < d * s) by (nonlinear_arith)
            requires y < d && s > 0;
        lemma_multiply_divide_lt(y * s, d, s);
        lemma_div_pos_is_pos(y * s, d);
        assert(y * s >= 0) by (nonlinear_arith)
            requires y >= 0 && s > 0;
        assert(x * s == -(y * s)) by (nonlinear_arith)
            requires y == -x;
    }
}

pub fn soft_clip(x: i64) -> (r: i64)
    requires
        -100_000_000 <= x <= 100_000_000,
    ensures
        r == spec_soft_clip(x as int),
        -SCALE < r < SCALE,
        spec_abs(r as int) <= spec_abs(x as int),
{
    proof {
        lemma_soft_clip_props(x as int);
    }
    if x >= 0 {
        x * SCALE / (SCALE + x)
    } else {
        -((-x) * SCALE / (SCALE - x))
    }
}

/// The pole coefficient for one tick: `2*pi*cutoff*dt` clamped to
/// `[0, 0.99]`, in Q16.16.
pub open spec fn spec_pole_gain(cutoff: int, dt: int) -> int {
    spec_clamp(tdiv(TWO_PI_Q16 as int * cutoff * dt, 1_000_000_000), 0, G_MAX_Q16 as int)
}

pub fn pole_gain(cutoff: i64, dt: i64) -> (r: i64)
    requires
        CUTOFF_MIN_HZ <= cutoff <= CUTOFF_MAX_HZ,
        1 <= dt <= DT_MAX_NS,
    ensures
        r == spec_pole_gain(cutoff as int, dt as int),
        0 <= r <= G_MAX_Q16,
{
    proof {
        assert(0 <= TWO_PI_Q16 as int * cutoff * dt
            <= 411775int * 18000 * 1_000_000_000) by (nonlinear_arith)
            requires 80 <= cutoff <= 18000 && 1 <= dt <= 1_000_000_000;
        lemma_tdiv_mag(TWO_PI_Q16 as int * cutoff * dt, 1_000_000_000,
            411775int * 18000 * 1_000_000_000);
    }
    let raw = TWO_PI_Q16 * cutoff * dt / 1_000_000_000;
    clamp_i64(raw, 0, G_MAX_Q16)
}

/// The four cascaded one-pole stages. Every stage stays in [-1, 1].
#[derive(Clone, Copy, Debug)]
pub struct LadderFilter {
    pub stage0: i64,
    pub stage1: i64,
    pub stage2: i64,
    pub stage3: i64,
}

/// One tick of the ladder: resonance feedback from the last stage is
/// subtracted from the input, the result is soft-clipped into the first
/// pole, and each later pole relaxes toward the clipped output of the
/// stage before it at rate `g`.
pub open spec fn spec_ladder_step(
    f: LadderFilter,
    input: int,
    cutoff: int,
    emphasis: int,
    dt: int,
) -> LadderFilter {
    let s = SCALE as int;
    let g = spec_pole_gain(cutoff, dt);
    let feedback = spec_mul_q(f.stage3 as int, 4 * emphasis);
    let drive = spec_soft_clip(input - feedback);
    let s0 = f.stage0 + tdiv((drive - f.stage0) * g, s);
    let s1 = f.stage1 + tdiv((spec_soft_clip(s0) - f.stage1) * g, s);
    let s2 = f.stage2 + tdiv((spec_soft_clip(s1) - f.stage2) * g, s);
    let s3 = f.stage3 + tdiv((spec_soft_clip(s2) - f.stage3) * g, s);
    LadderFilter { stage0: s0 as i64, stage1: s1 as i64, stage2: s2 as i64, stage3: s3 as i64 }
}

impl LadderFilter {
    pub open spec fn wf(self) -> bool {
        &&& -SCALE <= self.stage0 <= SCALE
        &&& -SCALE <= self.stage1 <= SCALE
        &&& -SCALE <= self.stage2 <= SCALE
        &&& -SCALE <= self.stage3 <= SCALE
    }

    pub fn new() -> (r: LadderFilter)
        ensures
            r.wf(),
            r.stage0 == 0 && r.stage1 == 0 && r.stage2 == 0 && r.stage3 == 0,
    {
        LadderFilter { stage0: 0, stage1: 0, stage2: 0, stage3: 0 }
    }

    /// Runs one tick and returns the new last-stage value, the filter
    /// output, always in [-1, 1].
    pub fn process(&mut self, input: i64, cutoff: i64, emphasis: i64, dt: i64) -> (r: i64)
        requires
            old(self).wf(),
            -FILTER_INPUT_LIMIT <= input <= FILTER_INPUT_LIMIT,
            CUTOFF_MIN_HZ <= cutoff <= CUTOFF_MAX_HZ,
            0 <= emphasis <= SCALE,
            1 <= dt <= DT_MAX_NS,
        ensures
            final(self).wf(),
            *final(self) == spec_ladder_step(*old(self), input as int, cutoff as int,
                emphasis as int, dt as int),
            r == final(self).stage3,
            -SCALE <= r <= SCALE,
    {
        let g = pole_gain(cutoff, dt);
        proof {
            lemma_mul_q_mag(self.stage3 as int, 4 * emphasis as int, SCALE as int,
                4 * SCALE as int);
        }
        let feedback = mul_q(self.stage3, 4 * emphasis);
        let drive = soft_clip(input - feedback);
        proof {
            lemma_mul_q_mag(drive as int - self.stage0 as int, g as int, 2 * SCALE as int,
                SCALE as int);
            lemma_step_toward(self.stage0 as int, drive as int, g as int);
        }
        let s0 = self.stage0 + mul_q(drive - self.stage0, g);
        let c0 = soft_clip(s0);
        proof {
            lemma_mul_q_mag(c0 as int - self.stage1 as int, g as int, 2 * SCALE as int,
                SCALE as int);
            lemma_step_toward(self.stage1 as int, c0 as int, g as int);
        }
        let s1 = self.stage1 + mul_q(c0 - self.stage1, g);
        let c1 = soft_clip(s1);
        proof {
            lemma_mul_q_mag(c1 as int - self.stage2 as int, g as int, 2 * SCALE as int,
                SCALE as int);
            lemma_step_toward(self.stage2 as int, c1 as int, g as int);
        }
        let s2 = self.stage2 + mul_q(c1 - self.stage2, g);
        let c2 = soft_clip(s2);
        proof {
            lemma_mul_q_mag(c2 as int - self.stage3 as int, g as int, 2 * SCALE as int,
                SCALE as int);
            lemma_step_toward(self.stage3 as int, c2 as int, g as int);
        }
        let s3 = self.stage3 + mul_q(c2 - self.stage3, g);
        self.stage0 = s0;
        self.stage1 = s1;
        self.stage2 = s2;
        self.stage3 = s3;
        s3
    }
}

/// Stability: with the resonance at zero and no input, one tick never
/// increases any stage's magnitude beyond the largest stage magnitude,
/// and the first stage's own magnitude never grows — the response to an
/// impulse cannot run away while `g <= 0.99`.
pub proof fn lemma_filter_stability(f: LadderFilter, cutoff: int, dt: int, m: int)
    requires
        f.wf(),
        CUTOFF_MIN_HZ as int <= cutoff <= CUTOFF_MAX_HZ as int,
        1 <= dt <= DT_MAX_NS as int,
        0 <= m <= SCALE as int,
        spec_abs(f.stage0 as int) <= m,
        spec_abs(f.stage1 as int) <= m,
        spec_abs(f.stage2 as int) <= m,
        spec_abs(f.stage3 as int) <= m,
    ensures
        spec_abs(spec_ladder_step(f, 0, cutoff, 0, dt).stage0 as int)
            <= spec_abs(f.stage0 as int),
        spec_abs(spec_ladder_step(f, 0, cutoff, 0, dt).stage0 as int) <= m,
        spec_abs(spec_ladder_step(f, 0, cutoff, 0, dt).stage1 as int) <= m,
        spec_abs(spec_ladder_step(f, 0, cutoff, 0, dt).stage2 as int) <= m,
        spec_abs(spec_ladder_step(f, 0, cutoff, 0, dt).stage3 as int) <= m,
{
    let s = SCALE as int;
    let g = spec_pole_gain(cutoff, dt);
    assert(0 <= g <= G_MAX_Q16 as int) by {
        assert(0 <= TWO_PI_Q16 as int * cutoff * dt) by (nonlinear_arith)
            requires cutoff >= 0 && dt >= 0;
        lemma_tdiv_mag(TWO_PI_Q16 as int * cutoff * dt, 1_000_000_000,
            TWO_PI_Q16 as int * cutoff * dt);
    }
    assert(spec_mul_q(f.stage3 as int, 0) == 0);
    assert(spec_soft_clip(0) == 0);
    let s0 = f.stage0 + tdiv((0 - f.stage0) * g, s);
    lemma_step_toward(f.stage0 as int, 0, g);
    lemma_soft_clip_props(s0);
    let s1 = f.stage1 + tdiv((spec_soft_clip(s0) - f.stage1) * g, s);
    lemma_step_toward(f.stage1 as int, spec_soft_clip(s0), g);
    lemma_soft_clip_props(s1);
    let s2 = f.stage2 + tdiv((spec_soft_clip(s1) - f.stage2) * g, s);
    lemma_step_toward(f.stage2 as int, spec_soft_clip(s1), g);
    lemma_soft_clip_props(s2);
    let s3 = f.stage3 + tdiv((spec_soft_clip(s2) - f.stage3) * g, s);
    lemma_step_toward(f.stage3 as int, spec_soft_clip(s2), g);
}

} // verus!
