//! Ladder filter stability and the combined modifier stage.

use synth_core::filter::LadderFilter;
use synth_core::fixed::SCALE;
use synth_core::modifiers::{map_env_time, Modifiers, LOUD_ATTACK_LOG2_RANGE};

const DT_44100_NS: i64 = 22675;

#[test]
fn impulse_response_decays_monotonically() {
    // Unit impulse, no emphasis, cutoff at the top of the range: the
    // output magnitude never grows from one tick to the next.
    let mut f = LadderFilter::new();
    let mut prev = f.process(SCALE, 18000, 0, DT_44100_NS).abs();
    for _ in 0..80 {
        let y = f.process(0, 18000, 0, DT_44100_NS).abs();
        assert!(y <= prev);
        prev = y;
    }
    assert!(prev < 16);
}

#[test]
fn filter_output_stays_normalized_under_resonance() {
    let mut f = LadderFilter::new();
    let mut x: i64 = SCALE;
    for i in 0..2_000 {
        let y = f.process(x, 800, SCALE, DT_44100_NS);
        assert!(-SCALE <= y && y <= SCALE);
        x = if i % 2 == 0 { -SCALE } else { SCALE };
    }
}

#[test]
fn quiet_filter_passes_silence() {
    let mut f = LadderFilter::new();
    for _ in 0..10 {
        assert_eq!(f.process(0, 2000, 0, DT_44100_NS), 0);
    }
}

#[test]
fn modifiers_output_is_silent_while_idle() {
    // The loudness envelope holds zero until a rising gate edge, and
    // it multiplies the output.
    let mut m = Modifiers::new();
    for _ in 0..50 {
        assert_eq!(m.process(SCALE, DT_44100_NS), 0);
    }
}

#[test]
fn gate_edges_move_the_envelopes() {
    let mut m = Modifiers::new();
    m.set_gate(true);
    for _ in 0..5_000 {
        m.process(SCALE / 2, DT_44100_NS);
    }
    assert!(m.loud_env.value > 9 * SCALE / 10);
    m.set_gate(false);
    for _ in 0..40_000 {
        m.process(SCALE / 2, DT_44100_NS);
    }
    assert!(m.loud_env.value < SCALE / 100);
}

#[test]
fn repeated_gate_level_is_not_an_edge() {
    let mut m = Modifiers::new();
    m.set_gate(true);
    m.process(0, DT_44100_NS);
    let stage_before = m.loud_env.stage;
    m.set_gate(true);
    assert_eq!(m.loud_env.stage, stage_before);
}

#[test]
fn modifier_output_stays_normalized() {
    let mut m = Modifiers::new();
    m.set_gate(true);
    m.set_emphasis(SCALE);
    m.set_contour_amount(SCALE);
    m.set_cutoff(18_000);
    for i in 0..2_000 {
        let input = if i % 3 == 0 { 4 * SCALE } else { -4 * SCALE };
        let y = m.process(input, DT_44100_NS);
        assert!(-SCALE <= y && y <= SCALE);
    }
}

#[test]
fn parameter_setters_clamp() {
    let mut m = Modifiers::new();
    m.set_cutoff(1_000_000);
    assert_eq!(m.cutoff_hz, 18_000);
    m.set_cutoff(1);
    assert_eq!(m.cutoff_hz, 80);
    m.set_emphasis(5 * SCALE);
    assert_eq!(m.emphasis, SCALE);
    m.set_contour_amount(-3);
    assert_eq!(m.contour_amount, 0);
    m.set_filter_envelope(0, 0, 2 * SCALE);
    assert_eq!(m.filter_params.sustain, SCALE);
}

#[test]
fn env_time_mapping_is_exponential() {
    // Knob at zero gives the minimum exactly; knob at one lands close
    // to minimum * ratio (4500 for the loudness attack).
    assert_eq!(map_env_time(0, 1_000_000, LOUD_ATTACK_LOG2_RANGE), 1_000_000);
    let t = map_env_time(SCALE, 1_000_000, LOUD_ATTACK_LOG2_RANGE);
    assert!(4_400_000_000 < t && t < 4_600_000_000);
    let quarter = map_env_time(SCALE / 4, 1_000_000, LOUD_ATTACK_LOG2_RANGE);
    let half = map_env_time(SCALE / 2, 1_000_000, LOUD_ATTACK_LOG2_RANGE);
    assert!(quarter < half && half < t);
}

#[test]
fn release_time_tracks_the_decay_knob() {
    let mut m = Modifiers::new();
    m.set_loudness_envelope(0, SCALE / 2, 32768);
    assert_eq!(m.loud_params.release, m.loud_params.decay);
    assert!(m.loud_params.decay > 10_000_000);
}
