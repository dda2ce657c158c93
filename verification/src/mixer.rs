//! Per-tick signal mixing: three voice channels and one noise channel,
//! each with an enable switch and a level in [0, 1], summed and scaled
//! by a master level.

use vstd::prelude::*;

verus! {

use crate::fixed::{SCALE, spec_mul_q, spec_clamp, clamp_i64, mul_q, lemma_mul_q_mag};

/// Largest sample magnitude the mixer accepts on any input channel.
pub const MIX_INPUT_LIMIT: i64 = 1048576;

/// Largest magnitude a mixed sample can reach: three voices plus noise,
/// each at most `MIX_INPUT_LIMIT`, through a master level of at most 1.
pub const MIX_OUTPUT_LIMIT: i64 = 4194304;

pub struct Mixer {
    pub levels: [i64; 3],
    pub osc_enabled: [bool; 3],
    pub noise_level: i64,
    pub noise_enabled: bool,
    pub master: i64,
}

impl Mixer {
    pub open spec fn wf(self) -> bool {
        &&& forall|i: int| 0 <= i < 3 ==> 0 <= #[trigger] self.levels@[i] <= SCALE
        &&& 0 <= self.noise_level <= SCALE
        &&& 0 <= self.master <= SCALE
    }

    /// Contribution of voice `i`: its sample scaled by its level if the
    /// channel is enabled and a sample was provided, otherwise silence.
    pub open spec fn spec_voice_term(self, samples: Seq<i64>, i: int) -> int {
        if i < samples.len() && self.osc_enabled@[i] {
            spec_mul_q(self.levels@[i] as int, samples[i] as int)
        } else {
            0
        }
    }

    /// Contribution of the noise channel.
    pub open spec fn spec_noise_term(self, noise: int) -> int {
        if self.noise_enabled {
            spec_mul_q(self.noise_level as int, noise)
        } else {
            0
        }
    }

    /// The mixing law: the enabled, levelled channels summed, then
    /// scaled by the master level.
    pub open spec fn spec_mix(self, samples: Seq<i64>, noise: int) -> int {
        spec_mul_q(
            self.spec_voice_term(samples, 0) + self.spec_voice_term(samples, 1)
                + self.spec_voice_term(samples, 2) + self.spec_noise_term(noise),
            self.master as int,
        )
    }

    /// Starts with all three voices enabled at equal levels, noise
    /// enabled but silent, and the master at 0.7.
    pub fn new() -> (r: Mixer)
        ensures
            r.wf(),
            r.levels@ == seq![21627i64, 21627i64, 21627i64],
            r.osc_enabled@ == seq![true, true, true],
            r.noise_level == 0,
            r.noise_enabled,
            r.master == 45875,
    {
        let r = Mixer {
            levels: [21627, 21627, 21627],
            osc_enabled: [true, true, true],
            noise_level: 0,
            noise_enabled: true,
            master: 45875,
        };
        proof {
            assert(r.levels@ =~= seq![21627i64, 21627i64, 21627i64]);
            assert(r.osc_enabled@ =~= seq![true, true, true]);
        }
        r
    }

    /// Stores a voice level, clamped into [0, 1]; an index outside the
    /// three channels is a no-op.
    pub fn set_level(&mut self, index: usize, value: i64)
        requires
            old(self).wf(),
        ensures
            final(self).wf(),
            index < 3 ==> final(self).levels@ == old(self).levels@.update(index as int,
                spec_clamp(value as int, 0, SCALE as int) as i64),
            index >= 3 ==> final(self).levels@ == old(self).levels@,
            final(self).osc_enabled == old(self).osc_enabled,
            final(self).noise_level == old(self).noise_level,
            final(self).noise_enabled == old(self).noise_enabled,
            final(self).master == old(self).master,
    {
        if index < 3 {
            self.levels[index] = clamp_i64(value, 0, SCALE);
        }
    }

    /// Switches a voice channel on or off; an index outside the three
    /// channels is a no-op.
    pub fn set_osc_enabled(&mut self, index: usize, enabled: bool)
        requires
            old(self).wf(),
        ensures
            final(self).wf(),
            index < 3 ==> final(self).osc_enabled@ == old(self).osc_enabled@.update(
                index as int, enabled),
            index >= 3 ==> final(self).osc_enabled@ == old(self).osc_enabled@,
            final(self).levels == old(self).levels,
            final(self).noise_level == old(self).noise_level,
            final(self).noise_enabled == old(self).noise_enabled,
            final(self).master == old(self).master,
    {
        if index < 3 {
            self.osc_enabled[index] = enabled;
        }
    }

    pub fn set_noise_level(&mut self, value: i64)
        requires
            old(self).wf(),
        ensures
            final(self).wf(),
            final(self).noise_level == spec_clamp(value as int, 0, SCALE as int),
            final(self).levels == old(self).levels,
            final(self).osc_enabled == old(self).osc_enabled,
            final(self).noise_enabled == old(self).noise_enabled,
            final(self).master == old(self).master,
    {
        self.noise_level = clamp_i64(value, 0, SCALE);
    }

    pub fn set_noise_enabled(&mut self, enabled: bool)
        requires
            old(self).wf(),
        ensures
            final(self).wf(),
            final(self).noise_enabled == enabled,
            final(self).levels == old(self).levels,
            final(self).osc_enabled == old(self).osc_enabled,
            final(self).noise_level == old(self).noise_level,
            final(self).master == old(self).master,
    {
        self.noise_enabled = enabled;
    }

    /// Mixes one tick of voice samples and one noise sample down to a
    /// single output sample, by the mixing law `spec_mix`.
    pub fn mix(&self, oscillator_samples: &[i64], noise_sample: i64) -> (r: i64)
        requires
            self.wf(),
            forall|i: int| 0 <= i < oscillator_samples@.len() && i < 3
                ==> -MIX_INPUT_LIMIT <= #[trigger] oscillator_samples@[i]
                    <= MIX_INPUT_LIMIT,
            -MIX_INPUT_LIMIT <= noise_sample <= MIX_INPUT_LIMIT,
        ensures
            r == self.spec_mix(oscillator_samples@, noise_sample as int),
            -MIX_OUTPUT_LIMIT <= r <= MIX_OUTPUT_LIMIT,
    {
        let n = oscillator_samples.len();
        let mut sum: i64 = 0;
        if n > 0 && self.osc_enabled[0] {
            proof {
                lemma_mul_q_mag(self.levels@[0] as int, oscillator_samples@[0] as int,
                    SCALE as int, MIX_INPUT_LIMIT as int);
            }
            sum = sum + mul_q(self.levels[0], oscillator_samples[0]);
        }
        assert(sum == self.spec_voice_term(oscillator_samples@, 0));
        assert(-MIX_INPUT_LIMIT <= sum <= MIX_INPUT_LIMIT);
        if n > 1 && self.osc_enabled[1] {
            proof {
                lemma_mul_q_mag(self.levels@[1] as int, oscillator_samples@[1] as int,
                    SCALE as int, MIX_INPUT_LIMIT as int);
            }
            sum = sum + mul_q(self.levels[1], oscillator_samples[1]);
        }
        assert(sum == self.spec_voice_term(oscillator_samples@, 0)
            + self.spec_voice_term(oscillator_samples@, 1));
        assert(-2 * MIX_INPUT_LIMIT <= sum <= 2 * MIX_INPUT_LIMIT);
        if n > 2 && self.osc_enabled[2] {
            proof {
                lemma_mul_q_mag(self.levels@[2] as int, oscillator_samples@[2] as int,
                    SCALE as int, MIX_INPUT_LIMIT as int);
            }
            sum = sum + mul_q(self.levels[2], oscillator_samples[2]);
        }
        assert(-3 * MIX_INPUT_LIMIT <= sum <= 3 * MIX_INPUT_LIMIT);
        let noise = if self.noise_enabled {
            mul_q(self.noise_level, noise_sample)
        } else {
            0
        };
        proof {
            lemma_mul_q_mag(self.noise_level as int, noise_sample as int, SCALE as int,
                MIX_INPUT_LIMIT as int);
            lemma_mul_q_mag(sum as int + noise as int, self.master as int,
                4 * MIX_INPUT_LIMIT as int, SCALE as int);
        }
        mul_q(sum + noise, self.master)
    }
}

/// With every voice channel disabled and the noise channel disabled, the
/// mix is exactly zero, whatever the master level and input samples.
pub proof fn lemma_mix_all_disabled(m: Mixer, samples: Seq<i64>, noise: int)
    requires
        m.wf(),
        forall|i: int| 0 <= i < 3 ==> !(#[trigger] m.osc_enabled@[i]),
        !m.noise_enabled,
    ensures
        m.spec_mix(samples, noise) == 0,
{
    assert(m.spec_voice_term(samples, 0) == 0);
    assert(m.spec_voice_term(samples, 1) == 0);
    assert(m.spec_voice_term(samples, 2) == 0);
    assert(m.spec_noise_term(noise) == 0);
    assert(spec_mul_q(0, m.master as int) == 0) by {
        assert(0 * (m.master as int) == 0) by (nonlinear_arith);
    }
}

} // verus!
