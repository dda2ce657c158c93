//! The per-sample pipeline — oscillator bank, mixer, noise source and
//! modifier stage behind one set of control operations — and the
//! fixed-capacity diagnostic ring buffer its output is mirrored into.

use vstd::prelude::*;

verus! {

use crate::fixed::{SCALE, spec_clamp, clamp_i64};
use crate::vco::{Waveform, VcoCommand, spec_apply_command};
use crate::mixer::Mixer;
use crate::noise::{NoiseGenerator, NoiseColor, spec_step, spec_color_value};
use crate::modifiers::{Modifiers, spec_modifiers_process};
use crate::oscillatorbank::{OscillatorBank, OscillatorVoice, spec_voice_step,
    spec_voice_output};

/// Highest sample rate the pipeline accepts, in Hz: one tick is then
/// still at least one nanosecond long.
pub const SAMPLE_RATE_MAX_HZ: i64 = 1_000_000_000;

/// The single authority producing one output sample per call: it owns
/// the oscillator bank, the mixer, the noise source with its selected
/// color, the modifier stage, the sample rate and the per-tick scratch
/// buffer (one slot per voice, so no allocation happens per tick).
pub struct SynthPipeline {
    pub bank: OscillatorBank,
    pub mixer: Mixer,
    pub noise: NoiseGenerator,
    pub noise_color: NoiseColor,
    pub modifiers: Modifiers,
    pub sample_rate: i64,
    pub voice_buffer: Vec<i64>,
}

impl SynthPipeline {
    pub open spec fn wf(self) -> bool {
        &&& self.bank.wf()
        &&& self.mixer.wf()
        &&& self.noise.wf()
        &&& self.modifiers.wf()
        &&& 1 <= self.sample_rate <= SAMPLE_RATE_MAX_HZ
        &&& self.voice_buffer@.len() == self.bank.voices@.len()
        &&& forall|i: int| 0 <= i < self.voice_buffer@.len()
            ==> -SCALE <= #[trigger] self.voice_buffer@[i] <= SCALE
    }

    /// The tick length in nanoseconds at the current sample rate.
    pub open spec fn spec_dt(self) -> int {
        1_000_000_000int / self.sample_rate as int
    }

    /// The sample the mixer hands the modifier stage this tick, given
    /// the freshly sampled voice buffer.
    pub open spec fn spec_mixed(self, samples: Seq<i64>) -> int {
        self.mixer.spec_mix(samples, spec_color_value(self.noise, self.noise_color))
    }

    pub fn new(bank: OscillatorBank, mixer: Mixer, noise: NoiseGenerator,
        modifiers: Modifiers) -> (r: SynthPipeline)
        requires
            bank.wf(),
            mixer.wf(),
            noise.wf(),
            modifiers.wf(),
        ensures
            r.wf(),
            r.bank == bank,
            r.mixer == mixer,
            r.noise == noise,
            r.noise_color == NoiseColor::White,
            r.modifiers == modifiers,
            r.sample_rate == 44100,
    {
        let count = bank.len();
        let mut voice_buffer: Vec<i64> = Vec::new();
        let mut i: usize = 0;
        while i < count
            invariant
                i <= count,
                voice_buffer@.len() == i as int,
                forall|j: int| 0 <= j < i as int ==> #[trigger] voice_buffer@[j] == 0i64,
            decreases count - i,
        {
            voice_buffer.push(0);
            i = i + 1;
        }
        SynthPipeline {
            bank,
            mixer,
            noise,
            noise_color: NoiseColor::White,
            modifiers,
            sample_rate: 44100,
            voice_buffer,
        }
    }

    /// Stores the device's sample rate, clamped to at least 1 Hz; the
    /// output adapter calls this exactly once, at stream start.
    pub fn set_sample_rate(&mut self, rate: i64)
        requires
            old(self).wf(),
        ensures
            final(self).wf(),
            final(self).sample_rate == spec_clamp(rate as int, 1, SAMPLE_RATE_MAX_HZ as int),
            *final(self) == (SynthPipeline {
                sample_rate: final(self).sample_rate,
                ..*old(self)
            }),
    {
        self.sample_rate = clamp_i64(rate, 1, SAMPLE_RATE_MAX_HZ);
    }

    pub fn set_gate(&mut self, gate: bool)
        requires
            old(self).wf(),
        ensures
            final(self).wf(),
            final(self).modifiers == crate::modifiers::spec_set_gate(old(self).modifiers,
                gate),
            *final(self) == (SynthPipeline {
                modifiers: final(self).modifiers,
                ..*old(self)
            }),
    {
        self.modifiers.set_gate(gate);
    }

    /// Applies one command to the addressed voice's control state; a
    /// voice index outside the bank is a no-op.
    pub fn apply_voice_command(&mut self, index: usize, cmd: VcoCommand)
        requires
            old(self).wf(),
        ensures
            final(self).wf(),
            index < old(self).bank.voices@.len() ==> final(self).bank.voices@
                == old(self).bank.voices@.update(index as int, OscillatorVoice {
                    state: spec_apply_command(old(self).bank.voices@[index as int].state,
                        cmd),
                    phase: old(self).bank.voices@[index as int].phase,
                }),
            index >= old(self).bank.voices@.len() ==> final(self).bank.voices@
                == old(self).bank.voices@,
            final(self).mixer == old(self).mixer,
            final(self).noise == old(self).noise,
            final(self).noise_color == old(self).noise_color,
            final(self).modifiers == old(self).modifiers,
            final(self).sample_rate == old(self).sample_rate,
            final(self).voice_buffer == old(self).voice_buffer,
    {
        if index < self.bank.voices.len() {
            let mut voice = self.bank.voices[index];
            voice.state.apply_command(cmd);
            self.bank.voices[index] = voice;
        }
    }

    pub fn set_voltage(&mut self, index: usize, voltage: i64)
        requires
            old(self).wf(),
        ensures
            final(self).wf(),
            index < old(self).bank.voices@.len() ==> final(self).bank.voices@
                == old(self).bank.voices@.update(index as int, OscillatorVoice {
                    state: spec_apply_command(old(self).bank.voices@[index as int].state,
                        VcoCommand::SetVoltage(voltage)),
                    phase: old(self).bank.voices@[index as int].phase,
                }),
            index >= old(self).bank.voices@.len() ==> final(self).bank.voices@
                == old(self).bank.voices@,
            final(self).mixer == old(self).mixer,
            final(self).noise == old(self).noise,
            final(self).noise_color == old(self).noise_color,
            final(self).modifiers == old(self).modifiers,
            final(self).sample_rate == old(self).sample_rate,
            final(self).voice_buffer == old(self).voice_buffer,
    {
        self.apply_voice_command(index, VcoCommand::SetVoltage(voltage));
    }

    pub fn set_detune(&mut self, index: usize, detune: i64)
        requires
            old(self).wf(),
        ensures
            final(self).wf(),
            index < old(self).bank.voices@.len() ==> final(self).bank.voices@
                == old(self).bank.voices@.update(index as int, OscillatorVoice {
                    state: spec_apply_command(old(self).bank.voices@[index as int].state,
                        VcoCommand::SetDetune(detune)),
                    phase: old(self).bank.voices@[index as int].phase,
                }),
            index >= old(self).bank.voices@.len() ==> final(self).bank.voices@
                == old(self).bank.voices@,
            final(self).mixer == old(self).mixer,
            final(self).noise == old(self).noise,
            final(self).noise_color == old(self).noise_color,
            final(self).modifiers == old(self).modifiers,
            final(self).sample_rate == old(self).sample_rate,
            final(self).voice_buffer == old(self).voice_buffer,
    {
        self.apply_voice_command(index, VcoCommand::SetDetune(detune));
    }

    pub fn set_waveform(&mut self, index: usize, waveform: Waveform)
        requires
            old(self).wf(),
        ensures
            final(self).wf(),
            index < old(self).bank.voices@.len() ==> final(self).bank.voices@
                == old(self).bank.voices@.update(index as int, OscillatorVoice {
                    state: spec_apply_command(old(self).bank.voices@[index as int].state,
                        VcoCommand::SetWaveform(waveform)),
                    phase: old(self).bank.voices@[index as int].phase,
                }),
            index >= old(self).bank.voices@.len() ==> final(self).bank.voices@
                == old(self).bank.voices@,
            final(self).mixer == old(self).mixer,
            final(self).noise == old(self).noise,
            final(self).noise_color == old(self).noise_color,
            final(self).modifiers == old(self).modifiers,
            final(self).sample_rate == old(self).sample_rate,
            final(self).voice_buffer == old(self).voice_buffer,
    {
        self.apply_voice_command(index, VcoCommand::SetWaveform(waveform));
    }

    pub fn set_mix_level(&mut self, index: usize, level: i64)
        requires
            old(self).wf(),
        ensures
            final(self).wf(),
            index < 3 ==> final(self).mixer.levels@ == old(self).mixer.levels@.update(
                index as int, spec_clamp(level as int, 0, SCALE as int) as i64),
            index >= 3 ==> final(self).mixer.levels@ == old(self).mixer.levels@,
            final(self).mixer.osc_enabled == old(self).mixer.osc_enabled,
            final(self).mixer.noise_level == old(self).mixer.noise_level,
            final(self).mixer.noise_enabled == old(self).mixer.noise_enabled,
            final(self).mixer.master == old(self).mixer.master,
            *final(self) == (SynthPipeline { mixer: final(self).mixer, ..*old(self) }),
    {
        self.mixer.set_level(index, level);
    }

    pub fn set_osc_enabled(&mut self, index: usize, enabled: bool)
        requires
            old(self).wf(),
        ensures
            final(self).wf(),
            index < 3 ==> final(self).mixer.osc_enabled@
                == old(self).mixer.osc_enabled@.update(index as int, enabled),
            index >= 3 ==> final(self).mixer.osc_enabled@ == old(self).mixer.osc_enabled@,
            final(self).mixer.levels == old(self).mixer.levels,
            final(self).mixer.noise_level == old(self).mixer.noise_level,
            final(self).mixer.noise_enabled == old(self).mixer.noise_enabled,
            final(self).mixer.master == old(self).mixer.master,
            *final(self) == (SynthPipeline { mixer: final(self).mixer, ..*old(self) }),
    {
        self.mixer.set_osc_enabled(index, enabled);
    }

    pub fn set_noise_level(&mut self, level: i64)
        requires
            old(self).wf(),
        ensures
            final(self).wf(),
            final(self).mixer.noise_level == spec_clamp(level as int, 0, SCALE as int),
            final(self).mixer.levels == old(self).mixer.levels,
            final(self).mixer.osc_enabled == old(self).mixer.osc_enabled,
            final(self).mixer.noise_enabled == old(self).mixer.noise_enabled,
            final(self).mixer.master == old(self).mixer.master,
            *final(self) == (SynthPipeline { mixer: final(self).mixer, ..*old(self) }),
    {
        self.mixer.set_noise_level(level);
    }

    pub fn set_noise_enabled(&mut self, enabled: bool)
        requires
            old(self).wf(),
        ensures
            final(self).wf(),
            final(self).mixer.noise_enabled == enabled,
            final(self).mixer.levels == old(self).mixer.levels,
            final(self).mixer.osc_enabled == old(self).mixer.osc_enabled,
            final(self).mixer.noise_level == old(self).mixer.noise_level,
            final(self).mixer.master == old(self).mixer.master,
            *final(self) == (SynthPipeline { mixer: final(self).mixer, ..*old(self) }),
    {
        self.mixer.set_noise_enabled(enabled);
    }

    pub fn set_noise_color(&mut self, color: NoiseColor)
        requires
            old(self).wf(),
        ensures
            final(self).wf(),
            *final(self) == (SynthPipeline { noise_color: color, ..*old(self) }),
    {
        self.noise_color = color;
    }

    pub fn set_master_level(&mut self, value: i64)
        requires
            old(self).wf(),
        ensures
            final(self).wf(),
            final(self).mixer.master == spec_clamp(value as int, 0, SCALE as int),
            final(self).mixer.levels == old(self).mixer.levels,
            final(self).mixer.osc_enabled == old(self).mixer.osc_enabled,
            final(self).mixer.noise_level == old(self).mixer.noise_level,
            final(self).mixer.noise_enabled == old(self).mixer.noise_enabled,
            *final(self) == (SynthPipeline { mixer: final(self).mixer, ..*old(self) }),
    {
        self.mixer.master = clamp_i64(value, 0, SCALE);
    }

    pub fn set_cutoff(&mut self, hz: i64)
        requires
            old(self).wf(),
        ensures
            final(self).wf(),
            final(self).modifiers.cutoff_hz == spec_clamp(hz as int,
                crate::filter::CUTOFF_MIN_HZ as int, crate::filter::CUTOFF_MAX_HZ as int),
            final(self).modifiers == (Modifiers {
                cutoff_hz: final(self).modifiers.cutoff_hz,
                ..old(self).modifiers
            }),
            *final(self) == (SynthPipeline {
                modifiers: final(self).modifiers,
                ..*old(self)
            }),
    {
        self.modifiers.set_cutoff(hz);
    }

    pub fn set_emphasis(&mut self, value: i64)
        requires
            old(self).wf(),
        ensures
            final(self).wf(),
            final(self).modifiers.emphasis == spec_clamp(value as int, 0, SCALE as int),
            final(self).modifiers == (Modifiers {
                emphasis: final(self).modifiers.emphasis,
                ..old(self).modifiers
            }),
            *final(self) == (SynthPipeline {
                modifiers: final(self).modifiers,
                ..*old(self)
            }),
    {
        self.modifiers.set_emphasis(value);
    }

    pub fn set_contour_amount(&mut self, value: i64)
        requires
            old(self).wf(),
        ensures
            final(self).wf(),
            final(self).modifiers.contour_amount == spec_clamp(value as int, 0,
                SCALE as int),
            final(self).modifiers == (Modifiers {
                contour_amount: final(self).modifiers.contour_amount,
                ..old(self).modifiers
            }),
            *final(self) == (SynthPipeline {
                modifiers: final(self).modifiers,
                ..*old(self)
            }),
    {
        self.modifiers.set_contour_amount(value);
    }

    pub fn set_filter_envelope(&mut self, attack: i64, decay: i64, sustain: i64)
        requires
            old(self).wf(),
        ensures
            final(self).wf(),
            final(self).modifiers == (Modifiers {
                filter_params: final(self).modifiers.filter_params,
                ..old(self).modifiers
            }),
            *final(self) == (SynthPipeline {
                modifiers: final(self).modifiers,
                ..*old(self)
            }),
    {
        self.modifiers.set_filter_envelope(attack, decay, sustain);
    }

    pub fn set_loudness_envelope(&mut self, attack: i64, decay: i64, sustain: i64)
        requires
            old(self).wf(),
        ensures
            final(self).wf(),
            final(self).modifiers == (Modifiers {
                loud_params: final(self).modifiers.loud_params,
                ..old(self).modifiers
            }),
            *final(self) == (SynthPipeline {
                modifiers: final(self).modifiers,
                ..*old(self)
            }),
    {
        self.modifiers.set_loudness_envelope(attack, decay, sustain);
    }

    /// Generates one output sample: every voice is sampled into the
    /// scratch buffer, the mixer combines them with the current noise
    /// color's sample, and the modifier stage filters and shapes the
    /// result, which is always in [-1, 1].
    #[verifier::rlimit(80)]
    pub fn next_sample(&mut self) -> (r: i64)
        requires
            old(self).wf(),
        ensures
            final(self).wf(),
            final(self).bank.voices@.len() == old(self).bank.voices@.len(),
            forall|i: int| 0 <= i < old(self).bank.voices@.len()
                ==> #[trigger] final(self).bank.voices@[i]
                    == spec_voice_step(old(self).bank.voices@[i],
                        old(self).sample_rate as int),
            final(self).voice_buffer@.len() == old(self).voice_buffer@.len(),
            forall|i: int| 0 <= i < old(self).voice_buffer@.len()
                ==> #[trigger] final(self).voice_buffer@[i]
                    == spec_voice_output(old(self).bank.voices@[i],
                        old(self).sample_rate as int) as i64,
            final(self).noise == spec_step(old(self).noise),
            final(self).modifiers == spec_modifiers_process(old(self).modifiers,
                old(self).spec_mixed(final(self).voice_buffer@), old(self).spec_dt()).0,
            r == spec_modifiers_process(old(self).modifiers,
                old(self).spec_mixed(final(self).voice_buffer@), old(self).spec_dt()).1,
            final(self).mixer == old(self).mixer,
            final(self).noise_color == old(self).noise_color,
            final(self).sample_rate == old(self).sample_rate,
            -SCALE <= r <= SCALE,
    {
        let rate = self.sample_rate;
        proof {
            vstd::arithmetic::div_mod::lemma_div_is_ordered_by_denominator(
                1_000_000_000, rate as int, 1_000_000_000);
            vstd::arithmetic::div_mod::lemma_div_is_ordered_by_denominator(
                1_000_000_000, 1, rate as int);
            vstd::arithmetic::div_mod::lemma_div_basics(1_000_000_000);
            assert(1_000_000_000int / 1_000_000_000 == 1);
        }
        let dt = 1_000_000_000 / rate;
        self.bank.fill_sample(rate, &mut self.voice_buffer);
        let noise_value = self.noise.sample(self.noise_color);
        let mixed = self.mixer.mix(self.voice_buffer.as_slice(), noise_value);
        self.modifiers.process(mixed, dt)
    }
}

/// Fixed-capacity circular history of output samples: writes are O(1)
/// and overwrite the oldest entry once the buffer has filled; reads
/// return the surviving history oldest-first.
pub struct DebugData {
    pub buffer: Vec<i64>,
    pub cursor: usize,
    pub filled: bool,
}

/// What one push does to the surviving history: append, dropping the
/// oldest entry once the capacity is reached.
pub open spec fn spec_ring_push(s: Seq<i64>, cap: int, v: i64) -> Seq<i64> {
    if s.len() < cap {
        s.push(v)
    } else {
        s.drop_first().push(v)
    }
}

/// The history left after pushing a whole sequence of samples.
pub open spec fn spec_ring_push_all(s: Seq<i64>, cap: int, vs: Seq<i64>) -> Seq<i64>
    decreases vs.len(),
{
    if vs.len() == 0 {
        s
    } else {
        spec_ring_push_all(spec_ring_push(s, cap, vs[0]), cap, vs.drop_first())
    }
}

impl DebugData {
    pub open spec fn capacity(self) -> int {
        self.buffer@.len() as int
    }

    pub open spec fn wf(self) -> bool {
        &&& 1 <= self.buffer@.len()
        &&& self.cursor < self.buffer@.len()
    }

    /// The surviving samples, oldest first: before the first wrap the
    /// prefix up to the cursor, afterwards the tail from the cursor
    /// followed by the head before it.
    pub open spec fn contents(self) -> Seq<i64> {
        if self.filled {
            self.buffer@.subrange(self.cursor as int, self.buffer@.len() as int)
                + self.buffer@.subrange(0, self.cursor as int)
        } else {
            self.buffer@.subrange(0, self.cursor as int)
        }
    }

    /// An empty history with the given fixed capacity.
    pub fn new(size: usize) -> (r: DebugData)
        requires
            1 <= size,
        ensures
            r.wf(),
            r.capacity() == size,
            r.contents() == Seq::<i64>::empty(),
    {
        let mut buffer: Vec<i64> = Vec::new();
        let mut i: usize = 0;
        while i < size
            invariant
                i <= size,
                buffer@.len() == i as int,
            decreases size - i,
        {
            buffer.push(0);
            i = i + 1;
        }
        let r = DebugData { buffer, cursor: 0, filled: false };
        proof {
            assert(r.contents() =~= Seq::<i64>::empty());
        }
        r
    }

    /// Records one sample in O(1), overwriting the oldest once full.
    pub fn push(&mut self, value: i64)
        requires
            old(self).wf(),
        ensures
            final(self).wf(),
            final(self).capacity() == old(self).capacity(),
            final(self).contents() == spec_ring_push(old(self).contents(),
                old(self).capacity(), value),
    {
        let len = self.buffer.len();
        self.buffer[self.cursor] = value;
        let was_filled = self.filled;
        let ghost old_cursor = self.cursor as int;
        self.cursor = (self.cursor + 1) % len;
        if self.cursor == 0 {
            self.filled = true;
        }
        proof {
            let oldd = *old(self);
            let c = old_cursor;
            let n = oldd.buffer@.len() as int;
            if c + 1 < n {
                vstd::arithmetic::div_mod::lemma_small_mod((c + 1) as nat, n as nat);
                assert(self.cursor == c + 1);
            } else {
                vstd::arithmetic::div_mod::lemma_mod_self_0(n);
                assert(self.cursor == 0 && self.filled);
            }
            if !was_filled {
                assert(oldd.contents().len() == c < n);
                assert(self.contents() =~= spec_ring_push(oldd.contents(), n, value));
            } else {
                assert(oldd.contents().len() == n);
                assert(self.contents() =~= spec_ring_push(oldd.contents(), n, value));
            }
        }
    }

    /// Copies the surviving history out, oldest first.
    pub fn snapshot(&self) -> (r: Vec<i64>)
        requires
            self.wf(),
        ensures
            r@ == self.contents(),
    {
        let mut data: Vec<i64> = Vec::new();
        if !self.filled {
            let mut i: usize = 0;
            while i < self.cursor
                invariant
                    self.wf(),
                    i <= self.cursor,
                    data@ =~= self.buffer@.subrange(0, i as int),
                decreases self.cursor - i,
            {
                data.push(self.buffer[i]);
                i = i + 1;
            }
            proof {
                assert(data@ =~= self.contents());
            }
            return data;
        }
        let len = self.buffer.len();
        let mut i: usize = self.cursor;
        while i < len
            invariant
                self.wf(),
                self.filled,
                self.cursor <= i <= len,
                len == self.buffer@.len(),
                data@ =~= self.buffer@.subrange(self.cursor as int, i as int),
            decreases len - i,
        {
            data.push(self.buffer[i]);
            i = i + 1;
        }
        let mut j: usize = 0;
        while j < self.cursor
            invariant
                self.wf(),
                self.filled,
                j <= self.cursor,
                len == self.buffer@.len(),
                data@ =~= self.buffer@.subrange(self.cursor as int, len as int)
                    + self.buffer@.subrange(0, j as int),
            decreases self.cursor - j,
        {
            data.push(self.buffer[j]);
            j = j + 1;
        }
        proof {
            assert(data@ =~= self.contents());
        }
        data
    }
}

/// Pushing any sequence onto any valid history leaves exactly the last
/// `capacity` samples once at least `capacity` samples went in — the
/// general shape of the history after a run of pushes.
pub proof fn lemma_ring_push_all_shape(s: Seq<i64>, cap: int, vs: Seq<i64>)
    requires
        1 <= cap,
        s.len() <= cap,
    ensures
        spec_ring_push_all(s, cap, vs) == if s.len() + vs.len() <= cap {
            s + vs
        } else {
            (s + vs).subrange(s.len() + vs.len() - cap, (s + vs).len() as int)
        },
    decreases vs.len(),
{
    if vs.len() == 0 {
        assert(spec_ring_push_all(s, cap, vs) =~= s + vs);
        if s.len() + vs.len() > cap {
            assert(false);
        }
    } else {
        let s1 = spec_ring_push(s, cap, vs[0]);
        let vs1 = vs.drop_first();
        lemma_ring_push_all_shape(s1, cap, vs1);
        if s.len() < cap {
            assert(s1 + vs1 =~= s + vs);
        } else {
            assert(s1 + vs1 =~= (s + vs).subrange(1, (s + vs).len() as int));
            if s1.len() + vs1.len() > cap {
                assert(spec_ring_push_all(s1, cap, vs1)
                    =~= (s + vs).subrange(s.len() + vs.len() - cap, (s + vs).len() as int));
            }
        }
        if s.len() + vs.len() <= cap {
            assert(spec_ring_push_all(s, cap, vs) =~= s + vs);
        } else {
            assert(spec_ring_push_all(s, cap, vs)
                =~= (s + vs).subrange(s.len() + vs.len() - cap, (s + vs).len() as int));
        }
    }
}

/// Pushing `capacity + k` samples (k > 0) and taking a snapshot yields
/// exactly the most recent `capacity` samples, oldest first.
pub proof fn lemma_ring_keeps_latest(s: Seq<i64>, cap: int, vs: Seq<i64>)
    requires
        1 <= cap,
        s.len() <= cap,
        vs.len() >= cap,
    ensures
        spec_ring_push_all(s, cap, vs) == vs.subrange(vs.len() - cap, vs.len() as int),
{
    lemma_ring_push_all_shape(s, cap, vs);
    assert((s + vs).subrange(s.len() + vs.len() - cap, (s + vs).len() as int)
        =~= vs.subrange(vs.len() - cap, vs.len() as int));
}

} // verus!
