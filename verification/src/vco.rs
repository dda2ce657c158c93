//! Voltage-controlled oscillator model: waveform shapes, the
//! volts-per-octave pitch law `frequency = 55 Hz * 2^(voltage + detune)`,
//! and the per-voice control state.

use vstd::prelude::*;

verus! {

use crate::fixed::{
    SCALE, HALF_SCALE, spec_sin_q, sin_q, spec_clamp, clamp_i64, spec_pow2, pow2_i64,
    spec_exp2_frac, exp2_frac, lemma_pow2_bounds, lemma_exp2_frac_bounds,
};
use vstd::arithmetic::div_mod::{
    lemma_div_is_ordered, lemma_div_is_ordered_by_denominator,
    lemma_fundamental_div_mod_converse, lemma_mod_add_multiples_vanish,
};

/// Largest pitch control magnitude the model accepts: ten octaves up or
/// down from the 55 Hz reference, in Q16.16 volts.
pub const VOLT_LIMIT: i64 = 655360;

/// 55 Hz, the frequency of a 0 V pitch control, in Q16.16 Hz.
pub const REFERENCE_FREQ_Q16: i64 = 3604480;

/// Lowest frequency the pitch law can produce (-10 V), in Q16.16 Hz.
pub const FREQ_MIN_Q16: i64 = 3520;

/// Highest frequency the pitch law can produce (+10 V), in Q16.16 Hz.
pub const FREQ_MAX_Q16: i64 = 3690987520;

#[derive(Clone, Copy, Debug, PartialEq, Eq, Structural)]
pub enum Waveform {
    Saw,
    Pulse,
    Triangle,
    Sine,
}

/// Pure waveform lookup: maps a phase in turns (Q16.16, `[0, SCALE)`) to
/// a sample in `[-SCALE, SCALE]`.
pub open spec fn spec_waveform_sample(w: Waveform, p: int) -> int {
    match w {
        Waveform::Saw => 2 * (p - HALF_SCALE as int),
        Waveform::Pulse => if p < HALF_SCALE as int {
            SCALE as int
        } else {
            -(SCALE as int)
        },
        Waveform::Triangle => 4 * (if p >= HALF_SCALE as int {
            p - HALF_SCALE as int
        } else {
            HALF_SCALE as int - p
        }) - SCALE as int,
        Waveform::Sine => spec_sin_q(p),
    }
}

impl Waveform {
    pub fn label(&self) -> (r: &'static str)
        ensures
            *self == Waveform::Saw ==> r@ == "SAW"@,
            *self == Waveform::Pulse ==> r@ == "PULSE"@,
            *self == Waveform::Triangle ==> r@ == "TRI"@,
            *self == Waveform::Sine ==> r@ == "SINE"@,
    {
        match self {
            Waveform::Saw => "SAW",
            Waveform::Pulse => "PULSE",
            Waveform::Triangle => "TRI",
            Waveform::Sine => "SINE",
        }
    }

    /// One sample of this shape at the given phase, in `[-SCALE, SCALE]`.
    pub fn sample(&self, phase: i64) -> (r: i64)
        requires
            0 <= phase < SCALE,
        ensures
            r == spec_waveform_sample(*self, phase as int),
            -SCALE <= r <= SCALE,
    {
        match self {
            Waveform::Saw => 2 * (phase - HALF_SCALE),
            Waveform::Pulse => {
                if phase < HALF_SCALE {
                    SCALE
                } else {
                    -SCALE
                }
            }
            Waveform::Triangle => {
                let folded = if phase >= HALF_SCALE {
                    phase - HALF_SCALE
                } else {
                    HALF_SCALE - phase
                };
                4 * folded - SCALE
            }
            Waveform::Sine => sin_q(phase),
        }
    }
}

/// Floor division of a voltage by `SCALE`: the octave number, defined for
/// negative voltages too (spec `/` is already Euclidean).
pub open spec fn spec_octave_of(v: int) -> int {
    v / (SCALE as int)
}

/// The fractional part of a voltage within its octave, in `[0, SCALE)`.
pub open spec fn spec_octave_frac(v: int) -> int {
    v % (SCALE as int)
}

/// The pitch law: `55 Hz * 2^(v)` with `v` in Q16.16 volts, one volt per
/// octave. Whole octaves shift exactly; the fraction goes through the
/// quadratic `spec_exp2_frac` approximation.
pub open spec fn spec_freq_of(v: int) -> int {
    let base = 55 * spec_exp2_frac(spec_octave_frac(v));
    if spec_octave_of(v) >= 0 {
        base * spec_pow2(spec_octave_of(v) as nat)
    } else {
        base / spec_pow2((-spec_octave_of(v)) as nat)
    }
}

/// Derives the oscillator frequency from a pitch voltage:
/// `0 V` gives exactly 55 Hz and each whole volt doubles the result.
pub fn voltage_to_frequency(voltage: i64) -> (r: i64)
    requires
        -VOLT_LIMIT <= voltage <= VOLT_LIMIT,
    ensures
        r == spec_freq_of(voltage as int),
        FREQ_MIN_Q16 <= r <= FREQ_MAX_Q16,
{
    let s = SCALE;
    let (oct, frac): (i64, i64) = if voltage >= 0 {
        (voltage / s, voltage % s)
    } else {
        let m = -voltage;
        let q = m / s;
        let rem = m % s;
        if rem == 0 {
            (-q, 0)
        } else {
            (-q - 1, s - rem)
        }
    };
    proof {
        let v = voltage as int;
        let si = SCALE as int;
        if voltage >= 0 {
            assert(oct == spec_octave_of(v) && frac == spec_octave_frac(v));
        } else {
            let m = -v;
            assert(m == si * (m / si) + (m % si)) by {
                vstd::arithmetic::div_mod::lemma_fundamental_div_mod(m, si);
            }
            if m % si == 0 {
                lemma_fundamental_div_mod_converse(v, si, oct as int, 0);
            } else {
                assert(v == si * (oct as int) + (frac as int)) by (nonlinear_arith)
                    requires
                        m == si * (m / si) + (m % si) && v == -m && oct == -(m / si) - 1
                            && frac == si - (m % si);
                lemma_fundamental_div_mod_converse(v, si, oct as int, frac as int);
            }
        }
        assert(-10 <= oct <= 10);
        lemma_exp2_frac_bounds(frac as int);
    }
    let base = 55 * exp2_frac(frac);
    if oct >= 0 {
        let p = pow2_i64(oct as u32);
        proof {
            let v = voltage as int;
            let si = SCALE as int;
            assert(spec_pow2(10) == 1024 && spec_pow2(9) == 512) by {
                reveal_with_fuel(spec_pow2, 11);
            }
            vstd::arithmetic::div_mod::lemma_fundamental_div_mod(v, si);
            if oct == 10 {
                assert(frac == 0);
                assert((base as int) * (p as int) == 3690987520) by (nonlinear_arith)
                    requires base == 3604480 && p == 1024;
            } else {
                crate::fixed::lemma_pow2_mono(oct as nat, 9);
                assert(3604480 <= (base as int) * (p as int) <= 3690959360)
                    by (nonlinear_arith)
                    requires 3604480 <= base <= 7208905 && 1 <= p <= 512;
            }
        }
        base * p
    } else {
        let p = pow2_i64((-oct) as u32);
        proof {
            crate::fixed::lemma_pow2_mono((-oct) as nat, 10);
            assert(spec_pow2(10) == 1024) by {
                reveal_with_fuel(spec_pow2, 11);
            }
            lemma_div_is_ordered_by_denominator(base as int, p as int, 1024);
            lemma_div_is_ordered(REFERENCE_FREQ_Q16 as int, base as int, 1024);
            vstd::arithmetic::div_mod::lemma_div_nonincreasing(base as int, p as int);
        }
        base / p
    }
}

/// Maps a MIDI note number onto a pitch voltage: note 33 (A1, 55 Hz) is
/// 0 V and each octave of twelve notes spans one whole volt, so the
/// result feeds the pitch law directly.
pub fn midi_to_voltage(midi_note: i64) -> (r: i64)
    requires
        -1_000_000 <= midi_note <= 1_000_000,
    ensures
        r == crate::fixed::tdiv((midi_note - 33) * SCALE as int, 12),
{
    let shifted = midi_note - 33;
    if shifted >= 0 {
        shifted * SCALE / 12
    } else {
        -((-shifted) * SCALE / 12)
    }
}

/// Raising a pitch control by one whole volt exactly doubles the derived
/// frequency, for any nonnegative voltage that stays within range.
pub proof fn lemma_octave_doubling(v: int)
    requires
        0 <= v,
        v + SCALE as int <= VOLT_LIMIT as int,
    ensures
        spec_freq_of(v + SCALE as int) == 2 * spec_freq_of(v),
{
    let si = SCALE as int;
    assert((v + si) % si == v % si) by {
        lemma_mod_add_multiples_vanish(v, si);
    }
    assert((v + si) / si == v / si + 1) by {
        vstd::arithmetic::div_mod::lemma_hoist_over_denominator(v, 1, SCALE as nat);
    }
    let base = 55 * spec_exp2_frac(v % si);
    let e = (v / si) as nat;
    assert(spec_pow2(e + 1) == 2 * spec_pow2(e));
    assert(base * (2 * spec_pow2(e)) == 2 * (base * spec_pow2(e))) by (nonlinear_arith);
}

/// Control state of one oscillator voice. The derived `frequency` field
/// always honours the pitch law for the clamped sum of voltage and
/// detune, which `wf` states and every setter re-establishes.
#[derive(Clone, Copy, Debug)]
pub struct VcoState {
    pub waveform: Waveform,
    pub voltage: i64,
    pub detune: i64,
    pub frequency: i64,
}

impl VcoState {
    /// The clamped pitch control this voice currently plays at.
    pub open spec fn spec_pitch(self) -> int {
        spec_clamp(self.voltage + self.detune, -VOLT_LIMIT as int, VOLT_LIMIT as int)
    }

    pub open spec fn wf(self) -> bool {
        &&& -VOLT_LIMIT <= self.voltage <= VOLT_LIMIT
        &&& -VOLT_LIMIT <= self.detune <= VOLT_LIMIT
        &&& self.frequency == spec_freq_of(self.spec_pitch())
        &&& FREQ_MIN_Q16 <= self.frequency <= FREQ_MAX_Q16
    }

    pub fn new() -> (r: VcoState)
        ensures
            r.wf(),
            r.waveform == Waveform::Saw,
            r.voltage == 0,
            r.detune == 0,
            r.frequency == spec_freq_of(0),
    {
        VcoState {
            waveform: Waveform::Saw,
            voltage: 0,
            detune: 0,
            frequency: voltage_to_frequency(0),
        }
    }

    pub fn set_waveform(&mut self, waveform: Waveform)
        requires
            old(self).wf(),
        ensures
            final(self).wf(),
            *final(self) == (VcoState { waveform, ..*old(self) }),
    {
        self.waveform = waveform;
    }

    /// Stores the pitch voltage, clamped into range, and recomputes the
    /// derived frequency immediately.
    pub fn set_voltage(&mut self, voltage: i64)
        requires
            old(self).wf(),
        ensures
            final(self).wf(),
            final(self).voltage == spec_clamp(voltage as int, -VOLT_LIMIT as int,
                VOLT_LIMIT as int),
            final(self).detune == old(self).detune,
            final(self).waveform == old(self).waveform,
            final(self).frequency == spec_freq_of(final(self).spec_pitch()),
    {
        self.voltage = clamp_i64(voltage, -VOLT_LIMIT, VOLT_LIMIT);
        let pitch = clamp_i64(self.voltage + self.detune, -VOLT_LIMIT, VOLT_LIMIT);
        self.frequency = voltage_to_frequency(pitch);
    }

    /// Stores the detune offset, clamped into range, and recomputes the
    /// derived frequency immediately.
    pub fn set_detune(&mut self, detune: i64)
        requires
            old(self).wf(),
        ensures
            final(self).wf(),
            final(self).detune == spec_clamp(detune as int, -VOLT_LIMIT as int,
                VOLT_LIMIT as int),
            final(self).voltage == old(self).voltage,
            final(self).waveform == old(self).waveform,
            final(self).frequency == spec_freq_of(final(self).spec_pitch()),
    {
        self.detune = clamp_i64(detune, -VOLT_LIMIT, VOLT_LIMIT);
        let pitch = clamp_i64(self.voltage + self.detune, -VOLT_LIMIT, VOLT_LIMIT);
        self.frequency = voltage_to_frequency(pitch);
    }
}

/// A control command addressed to one voice, as delivered over the
/// per-voice command channel.
#[derive(Clone, Copy, Debug)]
pub enum VcoCommand {
    SetVoltage(i64),
    SetDetune(i64),
    SetWaveform(Waveform),
}

/// What one command does to a voice's control state: the addressed field
/// is stored clamped and the derived frequency follows the pitch law.
pub open spec fn spec_apply_command(state: VcoState, cmd: VcoCommand) -> VcoState {
    let moved = match cmd {
        VcoCommand::SetVoltage(v) => VcoState {
            voltage: spec_clamp(v as int, -VOLT_LIMIT as int, VOLT_LIMIT as int) as i64,
            ..state
        },
        VcoCommand::SetDetune(d) => VcoState {
            detune: spec_clamp(d as int, -VOLT_LIMIT as int, VOLT_LIMIT as int) as i64,
            ..state
        },
        VcoCommand::SetWaveform(w) => VcoState { waveform: w, ..state },
    };
    match cmd {
        VcoCommand::SetWaveform(_) => moved,
        _ => VcoState { frequency: spec_freq_of(moved.spec_pitch()) as i64, ..moved },
    }
}

impl VcoState {
    /// Applies one channel command: the decision step of the voice's
    /// command-consumer loop.
    pub fn apply_command(&mut self, cmd: VcoCommand)
        requires
            old(self).wf(),
        ensures
            final(self).wf(),
            *final(self) == spec_apply_command(*old(self), cmd),
    {
        match cmd {
            VcoCommand::SetVoltage(v) => self.set_voltage(v),
            VcoCommand::SetDetune(d) => self.set_detune(d),
            VcoCommand::SetWaveform(w) => self.set_waveform(w),
        }
    }
}

} // verus!
