//! Signal-generation core of a monophonic subtractive synthesizer.
//!
//! Every signal value is an integer in the Q16.16 fixed-point format of
//! [`fixed::SCALE`]: oscillators, mixer, colored noise, envelopes, ladder
//! filter, the per-sample pipeline, the diagnostic ring buffer and the
//! spectrum transform all compute on plain integers, so their behaviour
//! is stated and proved exactly.

pub mod adsr;
pub mod fixed;
pub mod filter;
pub mod mixer;
pub mod modifiers;
pub mod noise;
pub mod oscillatorbank;
pub mod output;
pub mod spectrum;
pub mod vco;

use vstd::prelude::*;

verus! {

} // verus!
