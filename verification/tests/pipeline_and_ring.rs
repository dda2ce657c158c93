//! The per-sample pipeline end to end, and the diagnostic ring buffer.

use synth_core::fixed::SCALE;
use synth_core::mixer::Mixer;
use synth_core::modifiers::Modifiers;
use synth_core::noise::{NoiseColor, NoiseGenerator};
use synth_core::oscillatorbank::OscillatorBank;
use synth_core::output::{DebugData, SynthPipeline};
use synth_core::vco::{VcoState, Waveform};

fn pipeline_with(voices: usize) -> SynthPipeline {
    let mut states = Vec::new();
    for _ in 0..voices {
        states.push(VcoState::new());
    }
    SynthPipeline::new(
        OscillatorBank::new(states),
        Mixer::new(),
        NoiseGenerator::with_seed(2024),
        Modifiers::new(),
    )
}

#[test]
fn every_output_sample_is_normalized() {
    let mut p = pipeline_with(3);
    p.set_gate(true);
    p.set_noise_enabled(true);
    p.set_noise_level(SCALE);
    p.set_noise_color(NoiseColor::Pink);
    for _ in 0..5_000 {
        let s = p.next_sample();
        assert!(-SCALE <= s && s <= SCALE);
    }
}

#[test]
fn gate_on_produces_sound_and_gate_off_silences_it() {
    let mut p = pipeline_with(3);
    p.set_noise_enabled(false);
    p.set_master_level(SCALE);
    p.set_mix_level(0, SCALE);
    p.set_waveform(0, Waveform::Saw);
    p.set_gate(true);
    let mut loudest: i64 = 0;
    for _ in 0..4_410 {
        loudest = loudest.max(p.next_sample().abs());
    }
    assert!(loudest > SCALE / 10);
    p.set_gate(false);
    // Two release times (0.2 s each) of silence drain the envelope.
    for _ in 0..44_100 {
        p.next_sample();
    }
    let mut residue: i64 = 0;
    for _ in 0..1_000 {
        residue = residue.max(p.next_sample().abs());
    }
    assert!(residue < SCALE / 50);
}

#[test]
fn sample_rate_is_clamped_to_at_least_one() {
    let mut p = pipeline_with(1);
    p.set_sample_rate(0);
    assert_eq!(p.sample_rate, 1);
    p.set_sample_rate(48_000);
    assert_eq!(p.sample_rate, 48_000);
}

#[test]
fn voice_commands_out_of_range_are_no_ops() {
    let mut p = pipeline_with(2);
    p.set_voltage(5, SCALE);
    p.set_waveform(9, Waveform::Sine);
    let s = p.next_sample();
    assert!(-SCALE <= s && s <= SCALE);
}

#[test]
fn pipeline_voltage_reaches_the_voice() {
    let mut p = pipeline_with(2);
    p.set_voltage(1, SCALE);
    assert_eq!(p.bank.voices[1].state.frequency, 110 * SCALE);
    assert_eq!(p.bank.voices[0].state.frequency, 55 * SCALE);
}

#[test]
fn snapshot_is_empty_before_any_push() {
    let ring = DebugData::new(16);
    assert!(ring.snapshot().is_empty());
}

#[test]
fn snapshot_before_wraparound_returns_what_was_pushed() {
    let mut ring = DebugData::new(8);
    for v in [10i64, 20, 30] {
        ring.push(v);
    }
    assert_eq!(ring.snapshot(), vec![10, 20, 30]);
}

#[test]
fn overfilling_keeps_the_most_recent_capacity_oldest_first() {
    // capacity + k pushes (k = 3): exactly the last 8 survive, in order.
    let mut ring = DebugData::new(8);
    for v in 1..=11i64 {
        ring.push(v * 100);
    }
    assert_eq!(ring.snapshot(), vec![400, 500, 600, 700, 800, 900, 1000, 1100]);
}

#[test]
fn exactly_full_ring_returns_everything() {
    let mut ring = DebugData::new(4);
    for v in [1i64, 2, 3, 4] {
        ring.push(v);
    }
    assert_eq!(ring.snapshot(), vec![1, 2, 3, 4]);
}

#[test]
fn ring_of_capacity_one_holds_the_latest() {
    let mut ring = DebugData::new(1);
    ring.push(7);
    ring.push(8);
    assert_eq!(ring.snapshot(), vec![8]);
}
