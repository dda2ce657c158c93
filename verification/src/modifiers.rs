//! The modifier stage: a gate-driven pair of independent ADSR envelopes
//! (filter contour and loudness), a contour-modulated cutoff, and the
//! ladder filter, combined once per tick.

use vstd::prelude::*;

verus! {

use crate::fixed::{
    SCALE, tdiv, spec_clamp, clamp_i64, spec_mul_q, mul_q, lemma_mul_q_mag,
    lemma_tdiv_mag, spec_exp2_q, exp2_q,
};
use crate::adsr::{
    AdsrEnvelope, EnvelopeParams, EnvStage, DT_MAX_NS, spec_trigger, spec_release,
    spec_advance,
};
use crate::filter::{
    LadderFilter, spec_ladder_step, CUTOFF_MIN_HZ, CUTOFF_MAX_HZ, FILTER_INPUT_LIMIT,
};
use vstd::arithmetic::div_mod::{lemma_div_is_ordered, lemma_div_multiples_vanish};

/// Shortest filter-envelope attack, 1.5 ms in nanoseconds; the knob
/// range spans a ratio of 2000 (to 3 s), whose log2 in Q16.16 follows.
pub const FILTER_ATTACK_MIN_NS: i64 = 1_500_000;

/// log2(2000) in Q16.16: the filter attack knob's exponential span.
pub const FILTER_ATTACK_LOG2_RANGE: i64 = 718654;

/// Shortest filter-envelope decay, 5 ms; the range ratio is 800 (to 4 s).
pub const FILTER_DECAY_MIN_NS: i64 = 5_000_000;

/// log2(800) in Q16.16: the filter decay knob's exponential span.
pub const FILTER_DECAY_LOG2_RANGE: i64 = 632020;

/// Shortest loudness attack, 1 ms; the range ratio is 4500 (to 4.5 s).
pub const LOUD_ATTACK_MIN_NS: i64 = 1_000_000;

/// log2(4500) in Q16.16: the loudness attack knob's exponential span.
pub const LOUD_ATTACK_LOG2_RANGE: i64 = 795325;

/// Shortest loudness decay, 10 ms; the range ratio is 600 (to 6 s).
pub const LOUD_DECAY_MIN_NS: i64 = 10_000_000;

/// log2(600) in Q16.16: the loudness decay knob's exponential span.
pub const LOUD_DECAY_LOG2_RANGE: i64 = 604820;

/// Maps a knob value in [0, 1] onto an exponential time range:
/// `min * ratio^knob` where `log2_range` is log2(ratio) in Q16.16.
pub open spec fn spec_map_env_time(value: int, min_ns: int, log2_range: int) -> int {
    let x = tdiv(spec_clamp(value, 0, SCALE as int) * log2_range, SCALE as int);
    tdiv(min_ns * spec_exp2_q(x), SCALE as int)
}

pub fn map_env_time(value: i64, min_ns: i64, log2_range: i64) -> (r: i64)
    requires
        1 <= min_ns <= 10_000_000,
        0 <= log2_range <= 13 * SCALE,
    ensures
        r == spec_map_env_time(value as int, min_ns as int, log2_range as int),
        min_ns <= r <= 200_000_000_000,
{
    let knob = clamp_i64(value, 0, SCALE);
    proof {
        assert(0 <= (knob as int) * (log2_range as int) <= 65536int * (13 * 65536))
            by (nonlinear_arith)
            requires 0 <= knob <= 65536 && 0 <= log2_range <= 13 * 65536;
        lemma_tdiv_mag((knob as int) * (log2_range as int), SCALE as int,
            65536int * (13 * 65536));
    }
    let x = knob * log2_range / SCALE;
    let e = exp2_q(x);
    proof {
        assert(min_ns as int * (e as int) <= 10_000_000int * 1_073_741_824)
            by (nonlinear_arith)
            requires 1 <= min_ns <= 10_000_000 && 0 <= e <= 1_073_741_824;
        assert(min_ns as int * 65536 <= min_ns as int * (e as int)) by (nonlinear_arith)
            requires min_ns >= 0 && e >= 65536;
        lemma_tdiv_mag(min_ns as int * (e as int), SCALE as int,
            10_000_000int * 1_073_741_824);
        lemma_div_is_ordered(min_ns as int * 65536, min_ns as int * (e as int),
            SCALE as int);
        assert((min_ns as int * 65536) / 65536 == min_ns as int) by {
            lemma_div_multiples_vanish(min_ns as int, 65536);
            assert(min_ns as int * 65536 == 65536 * (min_ns as int)) by (nonlinear_arith);
        }
    }
    min_ns * e / SCALE
}

pub struct Modifiers {
    pub gate_open: bool,
    pub cutoff_hz: i64,
    pub emphasis: i64,
    pub contour_amount: i64,
    pub filter_params: EnvelopeParams,
    pub loud_params: EnvelopeParams,
    pub filter_env: AdsrEnvelope,
    pub loud_env: AdsrEnvelope,
    pub ladder: LadderFilter,
}

/// A gate edge: a rising edge triggers both envelopes, a falling edge
/// releases both, a repeated level changes nothing but the stored gate.
pub open spec fn spec_set_gate(m: Modifiers, gate: bool) -> Modifiers {
    if gate && !m.gate_open {
        Modifiers {
            gate_open: true,
            filter_env: spec_trigger(m.filter_env),
            loud_env: spec_trigger(m.loud_env),
            ..m
        }
    } else if !gate && m.gate_open {
        Modifiers {
            gate_open: false,
            filter_env: spec_release(m.filter_env),
            loud_env: spec_release(m.loud_env),
            ..m
        }
    } else {
        Modifiers { gate_open: gate, ..m }
    }
}

/// The dynamic cutoff for one tick: the base cutoff swollen by up to
/// four times the filter envelope, clamped back into the filter range.
pub open spec fn spec_dynamic_cutoff(m: Modifiers, filter_env_value: int) -> int {
    let contour_scale = SCALE as int + 4 * spec_mul_q(m.contour_amount as int,
        filter_env_value);
    spec_clamp(tdiv(m.cutoff_hz * contour_scale, SCALE as int), CUTOFF_MIN_HZ as int,
        CUTOFF_MAX_HZ as int)
}

/// One tick of the whole modifier stage: both envelopes advance, the
/// cutoff follows the filter envelope, the ladder filters the input,
/// and the loudness envelope scales the result.
pub open spec fn spec_modifiers_process(m: Modifiers, input: int, dt: int) -> (Modifiers, int) {
    let filter_env = spec_advance(m.filter_env, dt, m.filter_params);
    let loud_env = spec_advance(m.loud_env, dt, m.loud_params);
    let cutoff = spec_dynamic_cutoff(m, filter_env.value as int);
    let ladder = spec_ladder_step(m.ladder, input, cutoff, m.emphasis as int, dt);
    let out = spec_mul_q(ladder.stage3 as int, loud_env.value as int);
    (Modifiers { filter_env, loud_env, ladder, ..m }, out)
}

impl Modifiers {
    pub open spec fn wf(self) -> bool {
        &&& CUTOFF_MIN_HZ <= self.cutoff_hz <= CUTOFF_MAX_HZ
        &&& 0 <= self.emphasis <= SCALE
        &&& 0 <= self.contour_amount <= SCALE
        &&& self.filter_params.wf()
        &&& self.loud_params.wf()
        &&& self.filter_env.wf()
        &&& self.loud_env.wf()
        &&& self.ladder.wf()
    }

    /// Gate closed, 2 kHz cutoff, no emphasis or contour, default
    /// envelopes, quiet filter.
    pub fn new() -> (r: Modifiers)
        ensures
            r.wf(),
            !r.gate_open,
            r.cutoff_hz == 2000,
            r.emphasis == 0,
            r.contour_amount == 0,
            r.filter_env.value == 0 && r.filter_env.stage == EnvStage::Idle,
            r.loud_env.value == 0 && r.loud_env.stage == EnvStage::Idle,
            r.ladder.stage0 == 0 && r.ladder.stage1 == 0 && r.ladder.stage2 == 0
                && r.ladder.stage3 == 0,
            r.filter_params == (EnvelopeParams {
                attack: 10_000_000i64,
                decay: 200_000_000i64,
                sustain: 45875i64,
                release: 200_000_000i64,
            }),
            r.loud_params == r.filter_params,
    {
        Modifiers {
            gate_open: false,
            cutoff_hz: 2000,
            emphasis: 0,
            contour_amount: 0,
            filter_params: EnvelopeParams::default(),
            loud_params: EnvelopeParams::default(),
            filter_env: AdsrEnvelope::new(),
            loud_env: AdsrEnvelope::new(),
            ladder: LadderFilter::new(),
        }
    }

    /// Applies a gate level; only edges move the envelopes.
    pub fn set_gate(&mut self, gate: bool)
        requires
            old(self).wf(),
        ensures
            final(self).wf(),
            *final(self) == spec_set_gate(*old(self), gate),
    {
        if gate && !self.gate_open {
            self.filter_env.trigger();
            self.loud_env.trigger();
        } else if !gate && self.gate_open {
            self.filter_env.release();
            self.loud_env.release();
        }
        self.gate_open = gate;
    }

    /// Stores the base cutoff, clamped into the filter's range.
    pub fn set_cutoff(&mut self, hz: i64)
        requires
            old(self).wf(),
        ensures
            final(self).wf(),
            final(self).cutoff_hz == spec_clamp(hz as int, CUTOFF_MIN_HZ as int,
                CUTOFF_MAX_HZ as int),
            *final(self) == (Modifiers { cutoff_hz: final(self).cutoff_hz, ..*old(self) }),
    {
        self.cutoff_hz = clamp_i64(hz, CUTOFF_MIN_HZ, CUTOFF_MAX_HZ);
    }

    /// Stores the resonance amount, clamped into [0, 1].
    pub fn set_emphasis(&mut self, value: i64)
        requires
            old(self).wf(),
        ensures
            final(self).wf(),
            final(self).emphasis == spec_clamp(value as int, 0, SCALE as int),
            *final(self) == (Modifiers { emphasis: final(self).emphasis, ..*old(self) }),
    {
        self.emphasis = clamp_i64(value, 0, SCALE);
    }

    /// Stores the contour depth, clamped into [0, 1].
    pub fn set_contour_amount(&mut self, value: i64)
        requires
            old(self).wf(),
        ensures
            final(self).wf(),
            final(self).contour_amount == spec_clamp(value as int, 0, SCALE as int),
            *final(self) == (Modifiers {
                contour_amount: final(self).contour_amount,
                ..*old(self)
            }),
    {
        self.contour_amount = clamp_i64(value, 0, SCALE);
    }

    /// Maps the three filter-envelope knobs onto envelope parameters;
    /// the release time reuses the decay mapping.
    pub fn set_filter_envelope(&mut self, attack: i64, decay: i64, sustain: i64)
        requires
            old(self).wf(),
        ensures
            final(self).wf(),
            final(self).filter_params == (EnvelopeParams {
                attack: spec_map_env_time(attack as int, FILTER_ATTACK_MIN_NS as int,
                    FILTER_ATTACK_LOG2_RANGE as int) as i64,
                decay: spec_map_env_time(decay as int, FILTER_DECAY_MIN_NS as int,
                    FILTER_DECAY_LOG2_RANGE as int) as i64,
                sustain: spec_clamp(sustain as int, 0, SCALE as int) as i64,
                release: spec_map_env_time(decay as int, FILTER_DECAY_MIN_NS as int,
                    FILTER_DECAY_LOG2_RANGE as int) as i64,
            }),
            *final(self) == (Modifiers {
                filter_params: final(self).filter_params,
                ..*old(self)
            }),
    {
        let mapped_decay = map_env_time(decay, FILTER_DECAY_MIN_NS, FILTER_DECAY_LOG2_RANGE);
        self.filter_params = EnvelopeParams {
            attack: map_env_time(attack, FILTER_ATTACK_MIN_NS, FILTER_ATTACK_LOG2_RANGE),
            decay: mapped_decay,
            sustain: clamp_i64(sustain, 0, SCALE),
            release: mapped_decay,
        };
    }

    /// Maps the three loudness-envelope knobs onto envelope parameters;
    /// the release time reuses the decay mapping.
    pub fn set_loudness_envelope(&mut self, attack: i64, decay: i64, sustain: i64)
        requires
            old(self).wf(),
        ensures
            final(self).wf(),
            final(self).loud_params == (EnvelopeParams {
                attack: spec_map_env_time(attack as int, LOUD_ATTACK_MIN_NS as int,
                    LOUD_ATTACK_LOG2_RANGE as int) as i64,
                decay: spec_map_env_time(decay as int, LOUD_DECAY_MIN_NS as int,
                    LOUD_DECAY_LOG2_RANGE as int) as i64,
                sustain: spec_clamp(sustain as int, 0, SCALE as int) as i64,
                release: spec_map_env_time(decay as int, LOUD_DECAY_MIN_NS as int,
                    LOUD_DECAY_LOG2_RANGE as int) as i64,
            }),
            *final(self) == (Modifiers {
                loud_params: final(self).loud_params,
                ..*old(self)
            }),
    {
        let mapped_decay = map_env_time(decay, LOUD_DECAY_MIN_NS, LOUD_DECAY_LOG2_RANGE);
        self.loud_params = EnvelopeParams {
            attack: map_env_time(attack, LOUD_ATTACK_MIN_NS, LOUD_ATTACK_LOG2_RANGE),
            decay: mapped_decay,
            sustain: clamp_i64(sustain, 0, SCALE),
            release: mapped_decay,
        };
    }

    /// Runs the whole modifier stage for one tick of `dt` nanoseconds
    /// on one input sample; the result is always in [-1, 1].
    pub fn process(&mut self, input: i64, dt: i64) -> (r: i64)
        requires
            old(self).wf(),
            -FILTER_INPUT_LIMIT <= input <= FILTER_INPUT_LIMIT,
            1 <= dt <= DT_MAX_NS,
        ensures
            final(self).wf(),
            *final(self) == spec_modifiers_process(*old(self), input as int, dt as int).0,
            r == spec_modifiers_process(*old(self), input as int, dt as int).1,
            -SCALE <= r <= SCALE,
    {
        let filter_env_value = self.filter_env.advance(dt, &self.filter_params);
        let loud_env_value = self.loud_env.advance(dt, &self.loud_params);
        proof {
            lemma_mul_q_mag(self.contour_amount as int, filter_env_value as int,
                SCALE as int, SCALE as int);
        }
        let contour_scale = SCALE + 4 * mul_q(self.contour_amount, filter_env_value);
        proof {
            assert(0 <= (self.cutoff_hz as int) * (contour_scale as int)
                <= 18000int * 327680) by (nonlinear_arith)
                requires 80 <= self.cutoff_hz <= 18000 && 0 <= contour_scale <= 327680;
            lemma_tdiv_mag((self.cutoff_hz as int) * (contour_scale as int), SCALE as int,
                18000int * 327680);
        }
        let dynamic_cutoff = clamp_i64(self.cutoff_hz * contour_scale / SCALE,
            CUTOFF_MIN_HZ, CUTOFF_MAX_HZ);
        let filtered = self.ladder.process(input, dynamic_cutoff, self.emphasis, dt);
        proof {
            lemma_mul_q_mag(filtered as int, loud_env_value as int, SCALE as int,
                SCALE as int);
        }
        mul_q(filtered, loud_env_value)
    }
}

} // verus!
