//! Pitch law and waveform sampler checks, all in Q16.16 (65536 = 1.0).

use synth_core::fixed::SCALE;
use synth_core::vco::{midi_to_voltage, voltage_to_frequency, VcoCommand, VcoState, Waveform};

#[test]
fn frequency_at_zero_volts_is_55_hz() {
    assert_eq!(voltage_to_frequency(0), 55 * SCALE);
}

#[test]
fn frequency_at_one_volt_is_110_hz() {
    assert_eq!(voltage_to_frequency(SCALE), 110 * SCALE);
}

#[test]
fn frequency_doubles_per_whole_volt() {
    assert_eq!(voltage_to_frequency(2 * SCALE), 220 * SCALE);
    assert_eq!(voltage_to_frequency(3 * SCALE), 440 * SCALE);
    let f4 = voltage_to_frequency(4 * SCALE + 12345);
    let f5 = voltage_to_frequency(5 * SCALE + 12345);
    assert_eq!(f5, 2 * f4);
}

#[test]
fn frequency_below_zero_volts_halves() {
    assert_eq!(voltage_to_frequency(-SCALE), 55 * SCALE / 2);
}

#[test]
fn voltage_is_clamped_to_ten_octaves() {
    assert_eq!(voltage_to_frequency(655360), 55 * SCALE * 1024);
}

#[test]
fn midi_notes_map_onto_the_volt_per_octave_scale() {
    assert_eq!(midi_to_voltage(33), 0);
    assert_eq!(midi_to_voltage(45), SCALE);
    assert_eq!(midi_to_voltage(21), -SCALE);
    assert_eq!(midi_to_voltage(34), SCALE / 12);
    assert_eq!(voltage_to_frequency(midi_to_voltage(45)), 110 * SCALE);
}

#[test]
fn saw_is_a_rising_ramp() {
    assert_eq!(Waveform::Saw.sample(0), -SCALE);
    assert_eq!(Waveform::Saw.sample(32768), 0);
    assert_eq!(Waveform::Saw.sample(49152), 32768);
}

#[test]
fn pulse_is_high_then_low() {
    assert_eq!(Waveform::Pulse.sample(0), SCALE);
    assert_eq!(Waveform::Pulse.sample(32767), SCALE);
    assert_eq!(Waveform::Pulse.sample(32768), -SCALE);
    assert_eq!(Waveform::Pulse.sample(65535), -SCALE);
}

#[test]
fn triangle_folds_through_the_cycle() {
    assert_eq!(Waveform::Triangle.sample(0), SCALE);
    assert_eq!(Waveform::Triangle.sample(16384), 0);
    assert_eq!(Waveform::Triangle.sample(32768), -SCALE);
    assert_eq!(Waveform::Triangle.sample(49152), 0);
}

#[test]
fn sine_hits_the_quarter_points_exactly() {
    assert_eq!(Waveform::Sine.sample(0), 0);
    assert_eq!(Waveform::Sine.sample(16384), SCALE);
    assert_eq!(Waveform::Sine.sample(32768), 0);
    assert_eq!(Waveform::Sine.sample(49152), -SCALE);
}

#[test]
fn waveform_samples_stay_normalized() {
    for w in [Waveform::Saw, Waveform::Pulse, Waveform::Triangle, Waveform::Sine] {
        let mut phase: i64 = 0;
        while phase < SCALE {
            let s = w.sample(phase);
            assert!(-SCALE <= s && s <= SCALE);
            phase += 997;
        }
    }
}

#[test]
fn waveform_labels() {
    assert_eq!(Waveform::Saw.label(), "SAW");
    assert_eq!(Waveform::Pulse.label(), "PULSE");
    assert_eq!(Waveform::Triangle.label(), "TRI");
    assert_eq!(Waveform::Sine.label(), "SINE");
}

#[test]
fn setters_recompute_frequency_immediately() {
    let mut vco = VcoState::new();
    assert_eq!(vco.frequency, 55 * SCALE);
    vco.set_voltage(SCALE);
    assert_eq!(vco.frequency, 110 * SCALE);
    vco.set_detune(SCALE);
    assert_eq!(vco.frequency, 220 * SCALE);
    vco.set_detune(0);
    assert_eq!(vco.frequency, 110 * SCALE);
}

#[test]
fn commands_drive_the_same_setters() {
    let mut vco = VcoState::new();
    vco.apply_command(VcoCommand::SetVoltage(2 * SCALE));
    assert_eq!(vco.frequency, 220 * SCALE);
    vco.apply_command(VcoCommand::SetWaveform(Waveform::Sine));
    assert_eq!(vco.waveform, Waveform::Sine);
    assert_eq!(vco.frequency, 220 * SCALE);
    vco.apply_command(VcoCommand::SetDetune(-SCALE));
    assert_eq!(vco.frequency, 110 * SCALE);
}
