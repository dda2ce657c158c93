//! Colored-noise source: one 64-bit linear congruential generator feeds
//! a seven-tap pink filter bank, a brown integrator and two-sample white
//! history, and every color is advanced on every tick so that switching
//! the selected color is click-free.

use std::time::{SystemTime, UNIX_EPOCH};

use vstd::prelude::*;

verus! {

use crate::fixed::{SCALE, tdiv, spec_clamp, clamp_i64, div_scale, lemma_tdiv_mag};

#[derive(Clone, Copy, Debug, PartialEq, Eq, Structural)]
pub enum NoiseColor {
    White,
    Pink,
    Brown,
    Blue,
    Violet,
    Grey,
}

/// The successor in the fixed color cycle.
pub open spec fn spec_next_color(c: NoiseColor) -> NoiseColor {
    match c {
        NoiseColor::White => NoiseColor::Pink,
        NoiseColor::Pink => NoiseColor::Brown,
        NoiseColor::Brown => NoiseColor::Blue,
        NoiseColor::Blue => NoiseColor::Violet,
        NoiseColor::Violet => NoiseColor::Grey,
        NoiseColor::Grey => NoiseColor::White,
    }
}

impl NoiseColor {
    /// Cycles to the next color, wrapping from Grey back to White.
    pub fn next(self) -> (r: NoiseColor)
        ensures
            r == spec_next_color(self),
    {
        match self {
            NoiseColor::White => NoiseColor::Pink,
            NoiseColor::Pink => NoiseColor::Brown,
            NoiseColor::Brown => NoiseColor::Blue,
            NoiseColor::Blue => NoiseColor::Violet,
            NoiseColor::Violet => NoiseColor::Grey,
            NoiseColor::Grey => NoiseColor::White,
        }
    }

    pub fn label(&self) -> (r: &'static str)
        ensures
            *self == NoiseColor::White ==> r@ == "WHITE"@,
            *self == NoiseColor::Pink ==> r@ == "PINK"@,
            *self == NoiseColor::Brown ==> r@ == "BROWN"@,
            *self == NoiseColor::Blue ==> r@ == "BLUE"@,
            *self == NoiseColor::Violet ==> r@ == "VIOLET"@,
            *self == NoiseColor::Grey ==> r@ == "GREY"@,
    {
        match self {
            NoiseColor::White => "WHITE",
            NoiseColor::Pink => "PINK",
            NoiseColor::Brown => "BROWN",
            NoiseColor::Blue => "BLUE",
            NoiseColor::Violet => "VIOLET",
            NoiseColor::Grey => "GREY",
        }
    }
}

/// Relies on std::time::SystemTime::now for a seed that differs from run
/// to run; nothing is promised of the value, and a clock before the
/// epoch falls back to a fixed seed.
#[verifier::external_body]
pub fn random_seed() -> u64 {
    match SystemTime::now().duration_since(UNIX_EPOCH) {
        Ok(d) => d.as_nanos() as u64,
        Err(_) => 0x5EED,
    }
}

/// Largest magnitude any color can emit (the pink bound; every other
/// color is clamped to 1.5 or tighter).
pub const NOISE_OUTPUT_LIMIT: i64 = 510000;

/// One LCG step, modulo 2^64.
pub open spec fn spec_lcg(s: int) -> int {
    (s * 6364136223846793005 + 1) % 0x10000000000000000
}

/// A white sample from a seed: the top 17 bits shifted into
/// `[-SCALE, SCALE - 1]`, a uniform value in [-1, 1).
pub open spec fn spec_white_of(s: int) -> int {
    s / 0x800000000000 - SCALE as int
}

/// State of the noise source after one tick.
pub struct NoiseGenerator {
    pub seed: u64,
    pub pink0: i64,
    pub pink1: i64,
    pub pink2: i64,
    pub pink3: i64,
    pub pink4: i64,
    pub pink5: i64,
    pub pink6: i64,
    pub brown: i64,
    pub white_last: i64,
    pub white_prev: i64,
}

impl Clone for NoiseGenerator {
    fn clone(&self) -> (r: NoiseGenerator)
        ensures
            r == *self,
    {
        NoiseGenerator {
            seed: self.seed,
            pink0: self.pink0,
            pink1: self.pink1,
            pink2: self.pink2,
            pink3: self.pink3,
            pink4: self.pink4,
            pink5: self.pink5,
            pink6: self.pink6,
            brown: self.brown,
            white_last: self.white_last,
            white_prev: self.white_prev,
        }
    }
}

/// The seed advanced, then the white sample the new seed encodes.
pub open spec fn spec_new_white(g: NoiseGenerator) -> int {
    spec_white_of(spec_lcg(g.seed as int))
}

/// The pink filter taps after one tick, fed by the new white sample
/// `w`: six one-pole sections plus one direct tap, with the classic
/// seven-pole pink-approximation coefficients in Q16.16.
pub open spec fn spec_new_pink0(g: NoiseGenerator, w: int) -> int {
    tdiv(65461 * g.pink0 + 3639 * w, SCALE as int)
}

pub open spec fn spec_new_pink1(g: NoiseGenerator, w: int) -> int {
    tdiv(65098 * g.pink1 + 4920 * w, SCALE as int)
}

pub open spec fn spec_new_pink2(g: NoiseGenerator, w: int) -> int {
    tdiv(63504 * g.pink2 + 10084 * w, SCALE as int)
}

pub open spec fn spec_new_pink3(g: NoiseGenerator, w: int) -> int {
    tdiv(56788 * g.pink3 + 20348 * w, SCALE as int)
}

pub open spec fn spec_new_pink4(g: NoiseGenerator, w: int) -> int {
    tdiv(36045 * g.pink4 + 34928 * w, SCALE as int)
}

pub open spec fn spec_new_pink5(g: NoiseGenerator, w: int) -> int {
    tdiv(-49916 * g.pink5 - 1108 * w, SCALE as int)
}

pub open spec fn spec_new_pink6(w: int) -> int {
    tdiv(7597 * w, SCALE as int)
}

/// The pink output: the seven advanced taps plus a direct white bias,
/// scaled by 0.11.
pub open spec fn spec_pink_value(g: NoiseGenerator, w: int) -> int {
    tdiv(
        (spec_new_pink0(g, w) + spec_new_pink1(g, w) + spec_new_pink2(g, w)
            + spec_new_pink3(g, w) + spec_new_pink4(g, w) + spec_new_pink5(g, w)
            + spec_new_pink6(w) + tdiv(35141 * w, SCALE as int)) * 7209,
        SCALE as int,
    )
}

/// The brown integrator after one tick: walks by 0.02 of the white
/// sample, clamped to [-1.5, 1.5].
pub open spec fn spec_new_brown(g: NoiseGenerator, w: int) -> int {
    spec_clamp(g.brown + tdiv(1311 * w, SCALE as int), -98304, 98304)
}

/// The full generator state after one tick.
pub open spec fn spec_step(g: NoiseGenerator) -> NoiseGenerator {
    let w = spec_new_white(g);
    NoiseGenerator {
        seed: spec_lcg(g.seed as int) as u64,
        pink0: spec_new_pink0(g, w) as i64,
        pink1: spec_new_pink1(g, w) as i64,
        pink2: spec_new_pink2(g, w) as i64,
        pink3: spec_new_pink3(g, w) as i64,
        pink4: spec_new_pink4(g, w) as i64,
        pink5: spec_new_pink5(g, w) as i64,
        pink6: spec_new_pink6(w) as i64,
        brown: spec_new_brown(g, w) as i64,
        white_last: w as i64,
        white_prev: g.white_last,
    }
}

/// The value a tick emits for each selectable color. Blue and violet
/// are first differences of the white stream, grey blends white and
/// pink; all three are clamped to [-1, 1].
pub open spec fn spec_color_value(g: NoiseGenerator, color: NoiseColor) -> int {
    let w = spec_new_white(g);
    match color {
        NoiseColor::White => w,
        NoiseColor::Pink => spec_pink_value(g, w),
        NoiseColor::Brown => spec_new_brown(g, w),
        NoiseColor::Blue => spec_clamp(w - g.white_last, -(SCALE as int), SCALE as int),
        NoiseColor::Violet => spec_clamp(w - 2 * g.white_last + g.white_prev,
            -(SCALE as int), SCALE as int),
        NoiseColor::Grey => spec_clamp(
            tdiv(22938 * w, SCALE as int) + tdiv(42598 * spec_pink_value(g, w), SCALE as int),
            -(SCALE as int), SCALE as int),
    }
}

impl NoiseGenerator {
    /// Tap magnitudes each stay under their geometric-series bound, the
    /// brown integrator under 1.5 and the white history under 1.
    pub open spec fn wf(self) -> bool {
        &&& -3200000 <= self.pink0 <= 3200000
        &&& -740000 <= self.pink1 <= 740000
        &&& -330000 <= self.pink2 <= 330000
        &&& -153000 <= self.pink3 <= 153000
        &&& -78000 <= self.pink4 <= 78000
        &&& -4700 <= self.pink5 <= 4700
        &&& -7597 <= self.pink6 <= 7597
        &&& -98304 <= self.brown <= 98304
        &&& -SCALE <= self.white_last <= SCALE
        &&& -SCALE <= self.white_prev <= SCALE
    }

    /// A generator seeded from the clock.
    pub fn new() -> (r: NoiseGenerator)
        ensures
            r.wf(),
            r.seed >= 1,
            r.pink0 == 0 && r.pink1 == 0 && r.pink2 == 0 && r.pink3 == 0 && r.pink4 == 0
                && r.pink5 == 0 && r.pink6 == 0,
            r.brown == 0 && r.white_last == 0 && r.white_prev == 0,
    {
        let seed = random_seed();
        Self::with_seed(seed)
    }

    /// A generator with a fixed seed (0 is replaced by 1 so the LCG has
    /// a nonzero start): the same seed reproduces the same stream.
    pub fn with_seed(seed: u64) -> (r: NoiseGenerator)
        ensures
            r.wf(),
            r.seed == if seed == 0 { 1u64 } else { seed },
            r.seed >= 1,
            r.pink0 == 0 && r.pink1 == 0 && r.pink2 == 0 && r.pink3 == 0 && r.pink4 == 0
                && r.pink5 == 0 && r.pink6 == 0,
            r.brown == 0 && r.white_last == 0 && r.white_prev == 0,
    {
        NoiseGenerator {
            seed: if seed == 0 { 1 } else { seed },
            pink0: 0,
            pink1: 0,
            pink2: 0,
            pink3: 0,
            pink4: 0,
            pink5: 0,
            pink6: 0,
            brown: 0,
            white_last: 0,
            white_prev: 0,
        }
    }

    /// One tick: advances the seed and every filter regardless of the
    /// selected color, and returns that color's sample.
    #[verifier::rlimit(80)]
    pub fn sample(&mut self, color: NoiseColor) -> (r: i64)
        requires
            old(self).wf(),
        ensures
            final(self).wf(),
            *final(self) == spec_step(*old(self)),
            r == spec_color_value(*old(self), color),
            -NOISE_OUTPUT_LIMIT <= r <= NOISE_OUTPUT_LIMIT,
            color == NoiseColor::White ==> -SCALE <= r <= SCALE,
    {
        let next_seed = lcg_next(self.seed);
        let w = white_from(next_seed);
        proof {
            let s = SCALE as int;
            lemma_tdiv_mag(65461 * self.pink0 as int + 3639 * w as int, s,
                65461int * 3200000 + 3639 * 65536);
            lemma_tdiv_mag(65098 * self.pink1 as int + 4920 * w as int, s,
                65098int * 740000 + 4920 * 65536);
            lemma_tdiv_mag(63504 * self.pink2 as int + 10084 * w as int, s,
                63504int * 330000 + 10084 * 65536);
            lemma_tdiv_mag(56788 * self.pink3 as int + 20348 * w as int, s,
                56788int * 153000 + 20348 * 65536);
            lemma_tdiv_mag(36045 * self.pink4 as int + 34928 * w as int, s,
                36045int * 78000 + 34928 * 65536);
            lemma_tdiv_mag(-49916 * self.pink5 as int - 1108 * w as int, s,
                49916int * 4700 + 1108 * 65536);
            lemma_tdiv_mag(7597 * w as int, s, 7597int * 65536);
            lemma_tdiv_mag(35141 * w as int, s, 35141int * 65536);
            lemma_tdiv_mag(1311 * w as int, s, 1311int * 65536);
        }
        let b0 = div_scale(65461 * self.pink0 + 3639 * w);
        let b1 = div_scale(65098 * self.pink1 + 4920 * w);
        let b2 = div_scale(63504 * self.pink2 + 10084 * w);
        let b3 = div_scale(56788 * self.pink3 + 20348 * w);
        let b4 = div_scale(36045 * self.pink4 + 34928 * w);
        let b5 = div_scale(-49916 * self.pink5 - 1108 * w);
        let b6 = div_scale(7597 * w);
        let bias = div_scale(35141 * w);
        let tap_sum = b0 + b1 + b2 + b3 + b4 + b5 + b6 + bias;
        proof {
            lemma_tdiv_mag(tap_sum as int * 7209, SCALE as int, 4600000int * 7209);
        }
        let pink = div_scale(tap_sum * 7209);
        let brown = clamp_i64(self.brown + div_scale(1311 * w), -98304, 98304);
        let blue = clamp_i64(w - self.white_last, -SCALE, SCALE);
        let violet = clamp_i64(w - 2 * self.white_last + self.white_prev, -SCALE, SCALE);
        proof {
            lemma_tdiv_mag(22938 * w as int, SCALE as int, 22938int * 65536);
            lemma_tdiv_mag(42598 * pink as int, SCALE as int, 42598int * 510000);
        }
        let grey = clamp_i64(div_scale(22938 * w) + div_scale(42598 * pink), -SCALE, SCALE);
        let previous_last = self.white_last;
        self.seed = next_seed;
        self.pink0 = b0;
        self.pink1 = b1;
        self.pink2 = b2;
        self.pink3 = b3;
        self.pink4 = b4;
        self.pink5 = b5;
        self.pink6 = b6;
        self.brown = brown;
        self.white_prev = previous_last;
        self.white_last = w;
        match color {
            NoiseColor::White => w,
            NoiseColor::Pink => pink,
            NoiseColor::Brown => brown,
            NoiseColor::Blue => blue,
            NoiseColor::Violet => violet,
            NoiseColor::Grey => grey,
        }
    }
}

/// Two generators in the same state emit the same sample and move to
/// the same state, for every color: the stream is a pure function of
/// the seed and the call sequence.
pub proof fn lemma_noise_deterministic(a: NoiseGenerator, b: NoiseGenerator, color: NoiseColor)
    requires
        a == b,
    ensures
        spec_step(a) == spec_step(b),
        spec_color_value(a, color) == spec_color_value(b, color),
{
}

/// One LCG step of the seed.
fn lcg_next(seed: u64) -> (r: u64)
    ensures
        r == spec_lcg(seed as int),
{
    let wide: u128 = seed as u128 * 6364136223846793005u128 + 1;
    let reduced = wide % 0x10000000000000000u128;
    proof {
        vstd::arithmetic::div_mod::lemma_mod_division_less_than_divisor(wide as int,
            0x10000000000000000);
    }
    reduced as u64
}

/// The white sample held in a seed's top bits.
fn white_from(seed: u64) -> (r: i64)
    ensures
        r == spec_white_of(seed as int),
        -SCALE <= r < SCALE,
{
    let top = seed / 0x800000000000u64;
    proof {
        assert(0x800000000000int * 0x20000 == 0x10000000000000000int) by (nonlinear_arith);
        vstd::arithmetic::div_mod::lemma_multiply_divide_lt(seed as int, 0x800000000000,
            0x20000);
        vstd::arithmetic::div_mod::lemma_div_pos_is_pos(seed as int, 0x800000000000);
    }
    top as i64 - SCALE
}

} // verus!
