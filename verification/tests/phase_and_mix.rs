//! Phase accumulator range and mixer behaviour.

use synth_core::fixed::SCALE;
use synth_core::mixer::Mixer;
use synth_core::oscillatorbank::{OscillatorBank, OscillatorVoice, PHASE_MODULUS};
use synth_core::vco::VcoState;

#[test]
fn phase_stays_in_unit_interval() {
    // An extreme pitch against a pathologically low sample rate still
    // leaves the accumulator inside [0, 1) after every tick.
    let mut state = VcoState::new();
    state.set_voltage(10 * SCALE);
    let mut voice = OscillatorVoice::new(state);
    for rate in [1i64, 7, 44100, 1_000_000_000] {
        for _ in 0..200 {
            voice.sample(rate);
            assert!(0 <= voice.phase && voice.phase < PHASE_MODULUS);
        }
    }
}

#[test]
fn mix_is_zero_when_everything_is_disabled() {
    let mut mixer = Mixer::new();
    mixer.set_osc_enabled(0, false);
    mixer.set_osc_enabled(1, false);
    mixer.set_osc_enabled(2, false);
    mixer.set_noise_enabled(false);
    for master in [0i64, 13, 32768, SCALE] {
        mixer.master = master;
        assert_eq!(mixer.mix(&[SCALE, -SCALE, 12345], 54321), 0);
    }
}

#[test]
fn mix_scales_by_level_and_master() {
    let mut mixer = Mixer::new();
    mixer.set_osc_enabled(1, false);
    mixer.set_osc_enabled(2, false);
    mixer.set_level(0, SCALE);
    mixer.set_noise_enabled(false);
    mixer.master = SCALE;
    assert_eq!(mixer.mix(&[32768, 999, 999], 0), 32768);
    mixer.set_level(0, 32768);
    assert_eq!(mixer.mix(&[32768, 999, 999], 0), 16384);
    mixer.master = 32768;
    assert_eq!(mixer.mix(&[32768, 999, 999], 0), 8192);
}

#[test]
fn noise_channel_mixes_like_a_voice() {
    let mut mixer = Mixer::new();
    mixer.set_osc_enabled(0, false);
    mixer.set_osc_enabled(1, false);
    mixer.set_osc_enabled(2, false);
    mixer.set_noise_enabled(true);
    mixer.set_noise_level(SCALE);
    mixer.master = SCALE;
    assert_eq!(mixer.mix(&[0, 0, 0], 4096), 4096);
    mixer.set_noise_level(32768);
    assert_eq!(mixer.mix(&[0, 0, 0], 4096), 2048);
}

#[test]
fn levels_are_clamped_on_write() {
    let mut mixer = Mixer::new();
    mixer.set_level(0, 9 * SCALE);
    mixer.set_level(1, -5);
    mixer.set_noise_level(7 * SCALE);
    assert_eq!(mixer.levels[0], SCALE);
    assert_eq!(mixer.levels[1], 0);
    assert_eq!(mixer.noise_level, SCALE);
}

#[test]
fn out_of_range_voice_index_is_a_no_op() {
    let mut mixer = Mixer::new();
    let before = mixer.levels;
    mixer.set_level(3, 123);
    mixer.set_level(99, 123);
    mixer.set_osc_enabled(3, false);
    assert_eq!(mixer.levels, before);
    assert_eq!(mixer.osc_enabled, [true, true, true]);
}

#[test]
fn extra_samples_beyond_three_voices_are_ignored() {
    let mut mixer = Mixer::new();
    mixer.set_osc_enabled(0, false);
    mixer.set_osc_enabled(1, false);
    mixer.set_osc_enabled(2, false);
    mixer.set_noise_enabled(false);
    mixer.master = SCALE;
    assert_eq!(mixer.mix(&[0, 0, 0, SCALE, SCALE], 0), 0);
}

#[test]
fn bank_fills_one_slot_per_voice() {
    let mut states = Vec::new();
    for _ in 0..3 {
        states.push(VcoState::new());
    }
    let mut bank = OscillatorBank::new(states);
    assert_eq!(bank.len(), 3);
    let mut out = vec![99i64; 3];
    bank.fill_sample(44100, &mut out);
    for s in out {
        assert!(-SCALE <= s && s <= SCALE);
        assert_ne!(s, 99);
    }
}
