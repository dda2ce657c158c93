//! ADSR envelope: stage transitions, value range, and timing under
//! gate edges.

use synth_core::adsr::{AdsrEnvelope, EnvStage, EnvelopeParams};
use synth_core::fixed::SCALE;

fn params(attack: i64, decay: i64, sustain: i64, release: i64) -> EnvelopeParams {
    EnvelopeParams { attack, decay, sustain, release }
}

#[test]
fn release_before_decay_goes_straight_to_release() {
    // 10 ms attack: a 0.1 ms tick leaves the attack far from complete.
    let p = params(10_000_000, 200_000_000, 45875, 200_000_000);
    let mut env = AdsrEnvelope::new();
    env.trigger();
    assert_eq!(env.stage, EnvStage::Attack);
    env.advance(100_000, &p);
    assert_eq!(env.stage, EnvStage::Attack);
    env.release();
    assert_eq!(env.stage, EnvStage::Release);
}

#[test]
fn release_keeps_the_current_value() {
    let p = params(10_000_000, 200_000_000, 45875, 200_000_000);
    let mut env = AdsrEnvelope::new();
    env.trigger();
    env.advance(1_000_000, &p);
    let held = env.value;
    assert!(held > 0);
    env.release();
    assert_eq!(env.value, held);
}

#[test]
fn release_in_idle_is_a_no_op() {
    let mut env = AdsrEnvelope::new();
    env.release();
    assert_eq!(env.stage, EnvStage::Idle);
}

#[test]
fn retrigger_is_legato() {
    // A second gate-on resumes the attack from the value the envelope
    // holds, without resetting to zero.
    let p = params(10_000_000, 200_000_000, 45875, 100_000_000);
    let mut env = AdsrEnvelope::new();
    env.trigger();
    env.advance(5_000_000, &p);
    env.release();
    env.advance(5_000_000, &p);
    let resumed_from = env.value;
    assert!(resumed_from > 0);
    env.trigger();
    assert_eq!(env.stage, EnvStage::Attack);
    assert_eq!(env.value, resumed_from);
}

#[test]
fn full_cycle_reaches_sustain_then_idle() {
    let p = params(10_000_000, 50_000_000, 32768, 50_000_000);
    let mut env = AdsrEnvelope::new();
    env.trigger();
    for _ in 0..6_000 {
        env.advance(100_000, &p);
    }
    assert_eq!(env.stage, EnvStage::Sustain);
    assert_eq!(env.value, 32768);
    env.release();
    for _ in 0..6_000 {
        env.advance(100_000, &p);
    }
    assert_eq!(env.stage, EnvStage::Idle);
    assert_eq!(env.value, 0);
}

#[test]
fn value_stays_in_unit_range_for_arbitrary_gate_sequences() {
    let p = params(1_000, 3_000, 60_000, 2_000);
    let mut env = AdsrEnvelope::new();
    let mut step: i64 = 1;
    for i in 0..5_000 {
        match i % 7 {
            0 => env.trigger(),
            3 => env.release(),
            _ => {}
        }
        step = (step * 37 + 11) % 1_000_000_000;
        env.advance(step, &p);
        assert!(0 <= env.value && env.value <= SCALE);
    }
}

#[test]
fn gate_on_for_twice_the_attack_time_gets_loud() {
    // 10 ms attack; advancing 20 ms of simulated time exceeds 0.9.
    let p = params(10_000_000, 200_000_000, 45875, 100_000_000);
    let mut env = AdsrEnvelope::new();
    env.trigger();
    let v = env.advance(20_000_000, &p);
    assert!(v > 9 * SCALE / 10);
}

#[test]
fn gate_off_for_twice_the_release_time_gets_quiet() {
    // 100 ms release; advancing 200 ms of simulated time falls under 0.01.
    let p = params(10_000_000, 200_000_000, 45875, 100_000_000);
    let mut env = AdsrEnvelope::new();
    env.trigger();
    env.advance(20_000_000, &p);
    env.release();
    let v = env.advance(200_000_000, &p);
    assert!(v < SCALE / 100);
}

#[test]
fn defaults_match_the_documented_times() {
    let p = EnvelopeParams::default();
    assert_eq!(p.attack, 10_000_000);
    assert_eq!(p.decay, 200_000_000);
    assert_eq!(p.sustain, 45875);
    assert_eq!(p.release, 200_000_000);
}
