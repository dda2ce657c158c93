//! The magnitude-spectrum transform.

use synth_core::fixed::SCALE;
use synth_core::spectrum::compute_spectrum;

#[test]
fn empty_input_yields_empty_spectrum() {
    assert!(compute_spectrum(&[]).is_empty());
}

#[test]
fn short_input_is_padded_to_eight() {
    let spectrum = compute_spectrum(&[SCALE, SCALE, SCALE]);
    assert_eq!(spectrum.len(), 4);
}

#[test]
fn dc_signal_concentrates_in_bin_zero() {
    // A constant signal of length 64: all magnitude lands in bin 0 and
    // every other bin cancels exactly.
    let samples = vec![SCALE / 2; 64];
    let spectrum = compute_spectrum(&samples);
    assert_eq!(spectrum.len(), 32);
    assert_eq!(spectrum[0], SCALE / 2);
    for bin in &spectrum[1..] {
        assert_eq!(*bin, 0);
    }
}

#[test]
fn silence_has_an_empty_magnitude_everywhere() {
    let samples = vec![0i64; 64];
    let spectrum = compute_spectrum(&samples);
    for bin in spectrum {
        assert_eq!(bin, 0);
    }
}

#[test]
fn full_cycle_sine_peaks_in_bin_one() {
    // One full cycle of the crate's sine across 64 samples: bin 1 should
    // dominate every other bin.
    let mut samples = Vec::new();
    for k in 0..64i64 {
        samples.push(synth_core::vco::Waveform::Sine.sample(k * 1024));
    }
    let spectrum = compute_spectrum(&samples);
    let peak = spectrum[1];
    assert!(peak > SCALE / 4);
    for (i, bin) in spectrum.iter().enumerate() {
        if i != 1 {
            assert!(*bin < peak / 4);
        }
    }
}

#[test]
fn spectrum_size_is_the_next_power_of_two() {
    assert_eq!(compute_spectrum(&vec![0i64; 100]).len(), 64);
    assert_eq!(compute_spectrum(&vec![0i64; 128]).len(), 64);
    assert_eq!(compute_spectrum(&vec![0i64; 129]).len(), 128);
}
