//! ADSR envelope state machines: a five-stage automaton whose value
//! relaxes toward the current stage's target by `min(dt/time, 1)` of the
//! remaining distance per tick, with snap thresholds exactly as the
//! envelope law states them.

use vstd::prelude::*;

verus! {

use crate::fixed::{
    SCALE, tdiv, spec_min, spec_abs, mul_q, lemma_mul_q_mag, lemma_step_toward,
    lemma_tdiv_mag,
};

/// Snap threshold of 0.001 in Q16.16: a stage ends once the value is
/// closer than this to its target.
pub const ENV_EPSILON: i64 = 66;

/// Floor of 0.0001 s on a segment time before it divides the tick.
pub const ENV_MIN_TIME_NS: i64 = 100_000;

/// Longest tick the envelope accepts: one second, in nanoseconds.
pub const DT_MAX_NS: i64 = 1_000_000_000;

#[derive(Clone, Copy, Debug, PartialEq, Eq, Structural)]
pub enum EnvStage {
    Idle,
    Attack,
    Decay,
    Sustain,
    Release,
}

/// Segment times in nanoseconds and the sustain level in Q16.16.
#[derive(Clone, Copy, Debug)]
pub struct EnvelopeParams {
    pub attack: i64,
    pub decay: i64,
    pub sustain: i64,
    pub release: i64,
}

impl EnvelopeParams {
    pub open spec fn wf(self) -> bool {
        &&& 0 <= self.attack
        &&& 0 <= self.decay
        &&& 0 <= self.release
        &&& 0 <= self.sustain <= SCALE
    }
}

impl Default for EnvelopeParams {
    /// 10 ms attack, 200 ms decay and release, sustain 0.7.
    fn default() -> (r: EnvelopeParams)
        ensures
            r.wf(),
            r.attack == 10_000_000,
            r.decay == 200_000_000,
            r.sustain == 45875,
            r.release == 200_000_000,
    {
        EnvelopeParams {
            attack: 10_000_000,
            decay: 200_000_000,
            sustain: 45875,
            release: 200_000_000,
        }
    }
}

/// The fraction of the remaining distance one tick covers:
/// `min(dt / max(time, 0.0001 s), 1)` in Q16.16.
pub open spec fn spec_step_fraction(dt: int, time_ns: int) -> int {
    let denom = if time_ns < ENV_MIN_TIME_NS as int {
        ENV_MIN_TIME_NS as int
    } else {
        time_ns
    };
    spec_min(tdiv(dt * SCALE as int, denom), SCALE as int)
}

pub fn step_fraction(dt: i64, time_ns: i64) -> (r: i64)
    requires
        0 <= dt <= DT_MAX_NS,
        0 <= time_ns,
    ensures
        r == spec_step_fraction(dt as int, time_ns as int),
        0 <= r <= SCALE,
{
    let denom = if time_ns < ENV_MIN_TIME_NS {
        ENV_MIN_TIME_NS
    } else {
        time_ns
    };
    proof {
        lemma_tdiv_mag(dt as int * SCALE as int, denom as int,
            DT_MAX_NS as int * SCALE as int);
        assert(0 <= dt as int * SCALE as int <= DT_MAX_NS as int * SCALE as int)
            by (nonlinear_arith)
            requires 0 <= dt <= DT_MAX_NS;
    }
    let q = dt * SCALE / denom;
    if q > SCALE {
        SCALE
    } else {
        q
    }
}

/// One envelope automaton: the current stage and the current value.
#[derive(Clone, Copy, Debug)]
pub struct AdsrEnvelope {
    pub value: i64,
    pub stage: EnvStage,
}

/// A gate rising edge: enter Attack from whatever value the envelope
/// currently holds (legato retrigger, no reset to zero).
pub open spec fn spec_trigger(e: AdsrEnvelope) -> AdsrEnvelope {
    AdsrEnvelope { stage: EnvStage::Attack, ..e }
}

/// A gate falling edge: enter Release, unless the envelope is Idle.
pub open spec fn spec_release(e: AdsrEnvelope) -> AdsrEnvelope {
    if e.stage == EnvStage::Idle {
        e
    } else {
        AdsrEnvelope { stage: EnvStage::Release, ..e }
    }
}

/// One relaxation step of the value toward `target`: the truncated
/// `q`-fraction of the remaining distance, but never zero while the
/// distance and the rate are both nonzero — so the value reaches its
/// snap threshold in finitely many ticks instead of stalling on
/// integer truncation.
pub open spec fn spec_env_step(v: int, target: int, q: int) -> int {
    let t = tdiv((target - v) * q, SCALE as int);
    if t != 0 || q == 0 || target == v {
        v + t
    } else if target > v {
        v + 1
    } else {
        v - 1
    }
}

/// One tick of the envelope automaton.
pub open spec fn spec_advance(e: AdsrEnvelope, dt: int, p: EnvelopeParams) -> AdsrEnvelope {
    match e.stage {
        EnvStage::Idle => AdsrEnvelope { value: 0, stage: EnvStage::Idle },
        EnvStage::Attack => {
            let q = spec_step_fraction(dt, p.attack as int);
            let v = spec_env_step(e.value as int, SCALE as int, q);
            if SCALE as int - v < ENV_EPSILON as int {
                AdsrEnvelope { value: SCALE, stage: EnvStage::Decay }
            } else {
                AdsrEnvelope { value: v as i64, stage: EnvStage::Attack }
            }
        }
        EnvStage::Decay => {
            let q = spec_step_fraction(dt, p.decay as int);
            let v = spec_env_step(e.value as int, p.sustain as int, q);
            if spec_abs(v - p.sustain) < ENV_EPSILON as int {
                AdsrEnvelope { value: p.sustain, stage: EnvStage::Sustain }
            } else {
                AdsrEnvelope { value: v as i64, stage: EnvStage::Decay }
            }
        }
        EnvStage::Sustain => AdsrEnvelope { value: p.sustain, stage: EnvStage::Sustain },
        EnvStage::Release => {
            let q = spec_step_fraction(dt, p.release as int);
            let v = spec_env_step(e.value as int, 0, q);
            if v < ENV_EPSILON as int {
                AdsrEnvelope { value: 0, stage: EnvStage::Idle }
            } else {
                AdsrEnvelope { value: v as i64, stage: EnvStage::Release }
            }
        }
    }
}

/// An envelope step lands between the current value and its target.
pub proof fn lemma_env_step_between(v: int, target: int, q: int)
    requires
        0 <= q <= SCALE as int,
    ensures
        target >= v ==> v <= spec_env_step(v, target, q) <= target,
        target < v ==> target <= spec_env_step(v, target, q) <= v,
{
    lemma_step_toward(v, target, q);
}

/// The envelope value never leaves [0, 1], whatever the stage, tick
/// length or (well-formed) parameters: one tick preserves the bound.
pub proof fn lemma_advance_stays_bounded(e: AdsrEnvelope, dt: int, p: EnvelopeParams)
    requires
        0 <= e.value <= SCALE,
        p.wf(),
        0 <= dt <= DT_MAX_NS as int,
    ensures
        0 <= spec_advance(e, dt, p).value <= SCALE,
{
    let s = SCALE as int;
    match e.stage {
        EnvStage::Idle => {}
        EnvStage::Attack => {
            let q = spec_step_fraction(dt, p.attack as int);
            lemma_step_fraction_bounds(dt, p.attack as int);
            lemma_env_step_between(e.value as int, s, q);
        }
        EnvStage::Decay => {
            let q = spec_step_fraction(dt, p.decay as int);
            lemma_step_fraction_bounds(dt, p.decay as int);
            lemma_env_step_between(e.value as int, p.sustain as int, q);
        }
        EnvStage::Sustain => {}
        EnvStage::Release => {
            let q = spec_step_fraction(dt, p.release as int);
            lemma_step_fraction_bounds(dt, p.release as int);
            lemma_env_step_between(e.value as int, 0, q);
        }
    }
}

/// The step fraction is a rate in [0, 1].
pub proof fn lemma_step_fraction_bounds(dt: int, time_ns: int)
    requires
        0 <= dt,
        0 <= time_ns,
    ensures
        0 <= spec_step_fraction(dt, time_ns) <= SCALE as int,
{
    let denom = if time_ns < ENV_MIN_TIME_NS as int {
        ENV_MIN_TIME_NS as int
    } else {
        time_ns
    };
    assert(0 <= dt * SCALE as int) by (nonlinear_arith)
        requires 0 <= dt;
    lemma_tdiv_mag(dt * SCALE as int, denom, dt * SCALE as int);
}

/// One executable relaxation step toward `target`.
fn env_step(v: i64, target: i64, q: i64) -> (r: i64)
    requires
        0 <= v <= SCALE,
        0 <= target <= SCALE,
        0 <= q <= SCALE,
    ensures
        r == spec_env_step(v as int, target as int, q as int),
        target >= v ==> v <= r <= target,
        target < v ==> target <= r <= v,
{
    proof {
        lemma_mul_q_mag(target as int - v as int, q as int, SCALE as int, SCALE as int);
        lemma_env_step_between(v as int, target as int, q as int);
    }
    let delta = mul_q(target - v, q);
    if delta != 0 || q == 0 || target == v {
        v + delta
    } else if target > v {
        v + 1
    } else {
        v - 1
    }
}

impl AdsrEnvelope {
    pub open spec fn wf(self) -> bool {
        0 <= self.value <= SCALE
    }

    pub fn new() -> (r: AdsrEnvelope)
        ensures
            r.wf(),
            r.value == 0,
            r.stage == EnvStage::Idle,
    {
        AdsrEnvelope { value: 0, stage: EnvStage::Idle }
    }

    pub fn trigger(&mut self)
        requires
            old(self).wf(),
        ensures
            final(self).wf(),
            *final(self) == spec_trigger(*old(self)),
    {
        self.stage = EnvStage::Attack;
    }

    pub fn release(&mut self)
        requires
            old(self).wf(),
        ensures
            final(self).wf(),
            *final(self) == spec_release(*old(self)),
    {
        if !matches!(self.stage, EnvStage::Idle) {
            self.stage = EnvStage::Release;
        }
    }

    /// Advances the automaton by one tick of `dt` nanoseconds and
    /// returns the new envelope value, always in [0, 1].
    pub fn advance(&mut self, dt: i64, params: &EnvelopeParams) -> (r: i64)
        requires
            old(self).wf(),
            params.wf(),
            0 <= dt <= DT_MAX_NS,
        ensures
            final(self).wf(),
            *final(self) == spec_advance(*old(self), dt as int, *params),
            r == final(self).value,
            0 <= r <= SCALE,
    {
        proof {
            lemma_advance_stays_bounded(*old(self), dt as int, *params);
        }
        match self.stage {
            EnvStage::Idle => {
                self.value = 0;
            }
            EnvStage::Attack => {
                let q = step_fraction(dt, params.attack);
                let v = env_step(self.value, SCALE, q);
                if SCALE - v < ENV_EPSILON {
                    self.value = SCALE;
                    self.stage = EnvStage::Decay;
                } else {
                    self.value = v;
                }
            }
            EnvStage::Decay => {
                let q = step_fraction(dt, params.decay);
                let v = env_step(self.value, params.sustain, q);
                let dist = if v >= params.sustain {
                    v - params.sustain
                } else {
                    params.sustain - v
                };
                if dist < ENV_EPSILON {
                    self.value = params.sustain;
                    self.stage = EnvStage::Sustain;
                } else {
                    self.value = v;
                }
            }
            EnvStage::Sustain => {
                self.value = params.sustain;
            }
            EnvStage::Release => {
                let q = step_fraction(dt, params.release);
                let v = env_step(self.value, 0, q);
                if v < ENV_EPSILON {
                    self.value = 0;
                    self.stage = EnvStage::Idle;
                } else {
                    self.value = v;
                }
            }
        }
        self.value
    }
}

/// The envelope value stays in [0, 1] under any interleaving of the
/// three operations: triggering and releasing keep the value untouched
/// and one tick keeps it in range, so every reachable state is in
/// range.
pub proof fn lemma_envelope_value_invariant(e: AdsrEnvelope, dt: int, p: EnvelopeParams)
    requires
        e.wf(),
        p.wf(),
        0 <= dt <= DT_MAX_NS as int,
    ensures
        spec_trigger(e).wf(),
        spec_release(e).wf(),
        spec_advance(e, dt, p).wf(),
{
    lemma_advance_stays_bounded(e, dt, p);
}

/// Triggering and then releasing before the attack completes moves the
/// automaton straight from Attack to Release — Decay and Sustain are
/// never visited — and the value carried into Release is untouched.
pub proof fn lemma_attack_to_release_direct(e: AdsrEnvelope)
    ensures
        spec_trigger(e).stage == EnvStage::Attack,
        spec_release(spec_trigger(e)) == (AdsrEnvelope {
            value: e.value,
            stage: EnvStage::Release,
        }),
{
}

} // verus!
