//! The oscillator bank: an ordered set of voices, each a VCO control
//! state with its private phase accumulator, advanced together once per
//! audio tick.

use vstd::prelude::*;

verus! {

use crate::fixed::{SCALE, tdiv, lemma_tdiv_mag};
use crate::vco::{VcoState, spec_waveform_sample, FREQ_MAX_Q16};
use vstd::arithmetic::div_mod::{
    lemma_div_is_ordered, lemma_div_pos_is_pos, lemma_mod_division_less_than_divisor,
};

/// One full turn of the phase accumulator: the phase is kept in Q32
/// turns, so it always lies in `[0, PHASE_MODULUS)`, that is `[0, 1)`.
pub const PHASE_MODULUS: i64 = 4294967296;

/// The phase advance law: the accumulator moves by `frequency / rate`
/// of a turn and wraps, so it stays in `[0, 1)` for any frequency >= 0
/// and any sample rate >= 1.
pub open spec fn spec_phase_step(phase: int, freq: int, rate: int) -> int {
    (phase + tdiv(freq * SCALE as int, rate)) % (PHASE_MODULUS as int)
}

/// Wrapping keeps the accumulator inside the unit interval.
pub proof fn lemma_phase_in_unit_interval(phase: int, freq: int, rate: int)
    requires
        0 <= phase,
        0 <= freq,
        1 <= rate,
    ensures
        0 <= spec_phase_step(phase, freq, rate) < PHASE_MODULUS as int,
{
    assert(0 <= freq * SCALE as int) by (nonlinear_arith)
        requires freq >= 0;
    lemma_div_pos_is_pos(freq * SCALE as int, rate);
    lemma_mod_division_less_than_divisor(phase + tdiv(freq * SCALE as int, rate),
        PHASE_MODULUS as int);
}

/// One voice: its shared control state and its private phase.
#[derive(Clone, Copy, Debug)]
pub struct OscillatorVoice {
    pub state: VcoState,
    pub phase: i64,
}

/// The voice after one tick: control state untouched, phase advanced.
pub open spec fn spec_voice_step(v: OscillatorVoice, rate: int) -> OscillatorVoice {
    OscillatorVoice {
        state: v.state,
        phase: spec_phase_step(v.phase as int, v.state.frequency as int, rate) as i64,
    }
}

/// The sample one tick emits: the waveform read at the advanced phase,
/// reduced from Q32 turns to the sampler's Q16 turns.
pub open spec fn spec_voice_output(v: OscillatorVoice, rate: int) -> int {
    spec_waveform_sample(v.state.waveform,
        spec_voice_step(v, rate).phase as int / SCALE as int)
}

impl OscillatorVoice {
    pub open spec fn wf(self) -> bool {
        &&& self.state.wf()
        &&& 0 <= self.phase < PHASE_MODULUS
    }

    pub fn new(state: VcoState) -> (r: OscillatorVoice)
        requires
            state.wf(),
        ensures
            r.wf(),
            r.state == state,
            r.phase == 0,
    {
        OscillatorVoice { state, phase: 0 }
    }

    /// Advances the phase by one tick at the given sample rate and
    /// samples the voice's waveform there.
    pub fn sample(&mut self, sample_rate: i64) -> (r: i64)
        requires
            old(self).wf(),
            1 <= sample_rate,
        ensures
            final(self).wf(),
            *final(self) == spec_voice_step(*old(self), sample_rate as int),
            r == spec_voice_output(*old(self), sample_rate as int),
            -SCALE <= r <= SCALE,
    {
        proof {
            lemma_phase_in_unit_interval(self.phase as int, self.state.frequency as int,
                sample_rate as int);
            assert(0 <= (self.state.frequency as int) * (SCALE as int)
                <= (FREQ_MAX_Q16 as int) * (SCALE as int)) by (nonlinear_arith)
                requires 0 <= self.state.frequency <= FREQ_MAX_Q16;
            lemma_tdiv_mag((self.state.frequency as int) * (SCALE as int),
                sample_rate as int, (FREQ_MAX_Q16 as int) * (SCALE as int));
            lemma_div_is_ordered((self.state.frequency as int) * (SCALE as int),
                (FREQ_MAX_Q16 as int) * (SCALE as int), 1);
        }
        let delta = self.state.frequency * SCALE / sample_rate;
        proof {
            lemma_div_is_ordered((self.state.frequency as int) * (SCALE as int),
                (FREQ_MAX_Q16 as int) * (SCALE as int), sample_rate as int);
            lemma_div_is_ordered_by_denominator_helper(
                (FREQ_MAX_Q16 as int) * (SCALE as int), sample_rate as int);
        }
        self.phase = (self.phase + delta) % PHASE_MODULUS;
        let p16 = self.phase / SCALE;
        proof {
            lemma_div_is_ordered(self.phase as int, PHASE_MODULUS as int - 1, SCALE as int);
            lemma_div_pos_is_pos(self.phase as int, SCALE as int);
        }
        self.state.waveform.sample(p16)
    }
}

/// Dividing by at least 1 cannot exceed the numerator itself.
proof fn lemma_div_is_ordered_by_denominator_helper(x: int, d: int)
    requires
        0 <= x,
        1 <= d,
    ensures
        x / d <= x,
{
    vstd::arithmetic::div_mod::lemma_div_is_ordered_by_denominator(x, 1, d);
    vstd::arithmetic::div_mod::lemma_div_basics(x);
}

/// The ordered collection of voices.
pub struct OscillatorBank {
    pub voices: Vec<OscillatorVoice>,
}

impl OscillatorBank {
    pub open spec fn wf(self) -> bool {
        forall|i: int| 0 <= i < self.voices@.len() ==> (#[trigger] self.voices@[i]).wf()
    }

    /// Builds one voice, at phase zero, for each given control state.
    pub fn new(states: Vec<VcoState>) -> (r: OscillatorBank)
        requires
            forall|i: int| 0 <= i < states@.len() ==> (#[trigger] states@[i]).wf(),
        ensures
            r.wf(),
            r.voices@.len() == states@.len(),
            forall|i: int| 0 <= i < states@.len()
                ==> (#[trigger] r.voices@[i]).state == states@[i] && r.voices@[i].phase == 0,
    {
        let mut voices: Vec<OscillatorVoice> = Vec::new();
        let mut i: usize = 0;
        while i < states.len()
            invariant
                i <= states@.len(),
                voices@.len() == i as int,
                forall|j: int| 0 <= j < states@.len() ==> (#[trigger] states@[j]).wf(),
                forall|j: int| 0 <= j < i as int
                    ==> (#[trigger] voices@[j]).state == states@[j]
                        && voices@[j].phase == 0 && voices@[j].wf(),
            decreases states@.len() - i,
        {
            voices.push(OscillatorVoice::new(states[i]));
            i = i + 1;
        }
        OscillatorBank { voices }
    }

    pub fn len(&self) -> (r: usize)
        ensures
            r == self.voices@.len(),
    {
        self.voices.len()
    }

    /// Advances every voice that has a slot in `out` by one tick and
    /// writes its sample there; voices beyond `out` and slots beyond
    /// the voice count are left untouched.
    pub fn fill_sample(&mut self, sample_rate: i64, out: &mut Vec<i64>)
        requires
            old(self).wf(),
            1 <= sample_rate,
        ensures
            final(self).wf(),
            final(self).voices@.len() == old(self).voices@.len(),
            final(out)@.len() == old(out)@.len(),
            forall|i: int| 0 <= i < old(self).voices@.len() ==> #[trigger] final(self).voices@[i]
                == if i < old(out)@.len() {
                    spec_voice_step(old(self).voices@[i], sample_rate as int)
                } else {
                    old(self).voices@[i]
                },
            forall|i: int| 0 <= i < old(out)@.len() ==> #[trigger] final(out)@[i]
                == if i < old(self).voices@.len() {
                    spec_voice_output(old(self).voices@[i], sample_rate as int) as i64
                } else {
                    old(out)@[i]
                },
            forall|i: int| 0 <= i < old(out)@.len() && i < old(self).voices@.len()
                ==> -SCALE <= #[trigger] final(out)@[i] <= SCALE,
    {
        let mut i: usize = 0;
        while i < self.voices.len()
            invariant
                old(self).wf(),
                1 <= sample_rate,
                i <= self.voices@.len(),
                self.voices@.len() == old(self).voices@.len(),
                out@.len() == old(out)@.len(),
                forall|j: int| 0 <= j < self.voices@.len()
                    ==> (#[trigger] self.voices@[j]).wf(),
                forall|j: int| 0 <= j < self.voices@.len() ==> #[trigger] self.voices@[j]
                    == if j < i as int && j < old(out)@.len() {
                        spec_voice_step(old(self).voices@[j], sample_rate as int)
                    } else {
                        old(self).voices@[j]
                    },
                forall|j: int| 0 <= j < out@.len() ==> #[trigger] out@[j]
                    == if j < i as int && j < old(self).voices@.len() {
                        spec_voice_output(old(self).voices@[j], sample_rate as int) as i64
                    } else {
                        old(out)@[j]
                    },
                forall|j: int| 0 <= j < out@.len() && j < i as int
                    && j < old(self).voices@.len()
                    ==> -SCALE <= #[trigger] out@[j] <= SCALE,
            decreases self.voices@.len() - i,
        {
            if i < out.len() {
                let mut voice = self.voices[i];
                let sample = voice.sample(sample_rate);
                self.voices[i] = voice;
                out[i] = sample;
            }
            i = i + 1;
        }
    }
}

} // verus!
