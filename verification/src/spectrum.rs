//! Magnitude-spectrum transform for the visualization path: a forward
//! discrete Fourier transform over a zero-padded snapshot, returning
//! `|X_j| / N` for the first half of the bins, all in Q16.16 integers
//! with the crate's quarter-exact sine as the twiddle source.

use vstd::prelude::*;

verus! {

use crate::fixed::{
    SCALE, tdiv, spec_sin_q, spec_cos_q, sin_q, cos_q, div_scale, tdiv_i64, spec_pow2,
    lemma_pow2_mul, lemma_tdiv_mag,
};
use vstd::arithmetic::div_mod::{
    lemma_mod_division_less_than_divisor, lemma_div_multiples_vanish,
    lemma_fundamental_div_mod_converse,
};

/// Longest snapshot the transform accepts: the transform size must
/// divide `SCALE` so twiddle phases are exact.
pub const SPECTRUM_MAX_LEN: usize = 65536;

/// The transform size for an input length: the smallest power of two
/// that is at least the length and at least 8.
pub open spec fn spec_fft_size_from(acc: int, n: int) -> int
    decreases (if acc < n { n - acc } else { 0int }) when 1 <= acc
{
    if acc >= n {
        acc
    } else {
        spec_fft_size_from(2 * acc, n)
    }
}

pub open spec fn spec_fft_size(n: int) -> int {
    spec_fft_size_from(8, n)
}

/// The zero-padded sample the transform reads at position `k`.
pub open spec fn spec_sample_at(s: Seq<i64>, k: int) -> int {
    if 0 <= k < s.len() {
        s[k] as int
    } else {
        0
    }
}

/// The twiddle phase of term `k` in bin `j`, in turns: `j*k/size` of a
/// turn, expressed on the Q16.16 circle (`size` divides `SCALE`).
pub open spec fn spec_twiddle(j: int, k: int, size: int) -> int {
    ((j * k) % size) * (SCALE as int / size)
}

/// The real part of bin `j` after the first `terms` terms: each term is
/// the sample times the cosine of its twiddle phase.
pub open spec fn spec_dft_re(s: Seq<i64>, size: int, j: int, terms: int) -> int
    decreases terms,
{
    if terms <= 0 {
        0
    } else {
        spec_dft_re(s, size, j, terms - 1) + tdiv(
            spec_sample_at(s, terms - 1) * spec_cos_q(spec_twiddle(j, terms - 1, size)),
            SCALE as int)
    }
}

/// The imaginary part of bin `j` (forward transform, so the sine terms
/// enter negated).
pub open spec fn spec_dft_im(s: Seq<i64>, size: int, j: int, terms: int) -> int
    decreases terms,
{
    if terms <= 0 {
        0
    } else {
        spec_dft_im(s, size, j, terms - 1) - tdiv(
            spec_sample_at(s, terms - 1) * spec_sin_q(spec_twiddle(j, terms - 1, size)),
            SCALE as int)
    }
}

/// The squared magnitude of bin `j`, normalized by the transform size.
pub open spec fn spec_bin_power(s: Seq<i64>, size: int, j: int) -> int {
    let a = tdiv(spec_dft_re(s, size, j, size), size);
    let b = tdiv(spec_dft_im(s, size, j, size), size);
    a * a + b * b
}

/// Integer square root: the unique `r >= 0` with `r^2 <= v < (r+1)^2`.
pub fn isqrt_i64(v: i64) -> (r: i64)
    requires
        0 <= v <= 0x4_0000_0000,
    ensures
        0 <= r,
        r * r <= v,
        v < (r + 1) * (r + 1),
{
    let mut r: i64 = 0;
    loop
        invariant_except_break
            0 <= r <= 131072,
            r * r <= v,
            0 <= v <= 0x4_0000_0000,
        ensures
            0 <= r,
            r * r <= v,
            v < (r + 1) * (r + 1),
        decreases 131073 - r,
    {
        proof {
            assert(((r + 1) as int) * ((r + 1) as int) <= 131073int * 131073)
                by (nonlinear_arith)
                requires 0 <= r <= 131072;
        }
        let q = (r + 1) * (r + 1);
        if q > v {
            break;
        }
        proof {
            assert((r + 1) <= 131072) by (nonlinear_arith)
                requires ((r + 1) as int) * ((r + 1) as int) <= 0x4_0000_0000int && r >= 0;
        }
        r = r + 1;
    }
    r
}

/// The magnitude spectrum of a snapshot: the input is zero-padded to
/// the next power-of-two length of at least 8, a forward DFT is taken,
/// and the first half of the bins is returned as `|X_j| / N` (each bin
/// is pinned by its squared value, the integer square root being exact).
/// An empty snapshot yields an empty spectrum.
pub fn compute_spectrum(samples: &[i64]) -> (r: Vec<i64>)
    requires
        samples@.len() <= SPECTRUM_MAX_LEN,
        forall|i: int| 0 <= i < samples@.len() ==> -SCALE <= #[trigger] samples@[i] <= SCALE,
    ensures
        samples@.len() == 0 ==> r@.len() == 0,
        samples@.len() > 0 ==> r@.len() == spec_fft_size(samples@.len() as int) / 2,
        forall|j: int| 0 <= j < r@.len() ==> 0 <= #[trigger] r@[j],
        forall|j: int| 0 <= j < r@.len() ==> (#[trigger] r@[j]) * r@[j]
            <= spec_bin_power(samples@, spec_fft_size(samples@.len() as int), j),
        forall|j: int| 0 <= j < r@.len()
            ==> spec_bin_power(samples@, spec_fft_size(samples@.len() as int), j)
                < ((#[trigger] r@[j]) + 1) * (r@[j] + 1),
{
    let len = samples.len();
    if len == 0 {
        return Vec::new();
    }
    let ghost n = len as int;
    let mut size: usize = 8;
    let ghost mut e: nat = 3nat;
    proof {
        assert(spec_pow2(3) == 8) by {
            reveal_with_fuel(spec_pow2, 4);
        }
    }
    while size < len
        invariant
            8 <= size <= 65536,
            len <= 65536,
            size == spec_pow2(e),
            3 <= e <= 16,
            spec_fft_size(n) == spec_fft_size_from(size as int, n),
            n == len as int,
        decreases 65536 - size,
    {
        proof {
            assert(spec_pow2(16) == 65536) by {
                reveal_with_fuel(spec_pow2, 17);
            }
            if e >= 16 {
                crate::fixed::lemma_pow2_mono(16nat, e);
                assert(false);
            }
            e = (e + 1) as nat;
            crate::fixed::lemma_pow2_bounds(e);
        }
        size = 2 * size;
    }
    proof {
        assert(spec_fft_size(n) == size as int);
        lemma_pow2_mul(e, (16 - e) as nat);
        assert(spec_pow2(16) == 65536) by {
            reveal_with_fuel(spec_pow2, 17);
        }
        crate::fixed::lemma_pow2_pos((16 - e) as nat);
        crate::fixed::lemma_pow2_bounds((16 - e) as nat);
        assert((size as int) * spec_pow2((16 - e) as nat) == 65536);
        lemma_fundamental_div_mod_converse(65536, size as int, spec_pow2((16 - e) as nat),
            0);
    }
    let size_i: i64 = size as i64;
    let step: i64 = SCALE / size_i;
    proof {
        assert(step as int == spec_pow2((16 - e) as nat));
        assert((size as int) * (step as int) == 65536);
    }
    let half = size / 2;
    let mut out: Vec<i64> = Vec::new();
    let mut j: usize = 0;
    while j < half
        invariant
            out@.len() == j as int,
            j <= half,
            half == size / 2,
            8 <= size <= 65536,
            size_i == size as i64,
            1 <= step,
            step as int == SCALE as int / (size as int),
            (size as int) * (step as int) == 65536,
            n == samples@.len(),
            1 <= n <= 65536,
            size as int == spec_fft_size(n),
            forall|i: int| 0 <= i < samples@.len()
                ==> -SCALE <= #[trigger] samples@[i] <= SCALE,
            forall|jj: int| 0 <= jj < j as int ==> 0 <= #[trigger] out@[jj],
            forall|jj: int| 0 <= jj < j as int ==> (#[trigger] out@[jj]) * out@[jj]
                <= spec_bin_power(samples@, size as int, jj),
            forall|jj: int| 0 <= jj < j as int
                ==> spec_bin_power(samples@, size as int, jj)
                    < ((#[trigger] out@[jj]) + 1) * (out@[jj] + 1),
        decreases half - j,
    {
        let mut re: i64 = 0;
        let mut im: i64 = 0;
        let mut k: usize = 0;
        while k < size
            invariant
                k <= size,
                8 <= size <= 65536,
                size_i == size as i64,
                j < size,
                1 <= step,
                step as int == SCALE as int / (size as int),
                (size as int) * (step as int) == 65536,
                n == samples@.len(),
                forall|i: int| 0 <= i < samples@.len()
                    ==> -SCALE <= #[trigger] samples@[i] <= SCALE,
                re == spec_dft_re(samples@, size as int, j as int, k as int),
                im == spec_dft_im(samples@, size as int, j as int, k as int),
                -(k as int) * SCALE as int <= re as int <= (k as int) * SCALE as int,
                -(k as int) * SCALE as int <= im as int <= (k as int) * SCALE as int,
            decreases size - k,
        {
            let x: i64 = if k < samples.len() {
                samples[k]
            } else {
                0
            };
            let ji = j as i64;
            let ki = k as i64;
            proof {
                assert(0 <= (ji as int) * (ki as int) <= 65536int * 65536)
                    by (nonlinear_arith)
                    requires 0 <= ji <= 65536 && 0 <= ki <= 65536;
                lemma_mod_division_less_than_divisor((ji as int) * (ki as int),
                    size_i as int);
            }
            let t: i64 = (ji * ki) % size_i;
            proof {
                assert(0 <= (t as int) * (step as int)
                    && (t as int) * (step as int) <= ((size as int) - 1) * (step as int))
                    by (nonlinear_arith)
                    requires 0 <= t <= (size as int) - 1 && step >= 1;
                assert(((size as int) - 1) * (step as int)
                    == (size as int) * (step as int) - (step as int)) by (nonlinear_arith);
            }
            let idx: i64 = t * step;
            let c = cos_q(idx);
            let sn = sin_q(idx);
            proof {
                assert(-(65536int * 65536) <= (x as int) * (c as int) <= 65536int * 65536)
                    by (nonlinear_arith)
                    requires -65536 <= x <= 65536 && -65536 <= c <= 65536;
                assert(-(65536int * 65536) <= (x as int) * (sn as int) <= 65536int * 65536)
                    by (nonlinear_arith)
                    requires -65536 <= x <= 65536 && -65536 <= sn <= 65536;
                lemma_tdiv_mag((x as int) * (c as int), SCALE as int, 65536int * 65536);
                lemma_tdiv_mag((x as int) * (sn as int), SCALE as int, 65536int * 65536);
                assert(((k + 1) as int) * SCALE as int
                    == (k as int) * SCALE as int + SCALE as int) by (nonlinear_arith);
            }
            proof {
                assert(idx as int == spec_twiddle(j as int, k as int, size as int));
                assert(x as int == spec_sample_at(samples@, k as int));
                assert(spec_dft_re(samples@, size as int, j as int, k as int + 1)
                    == spec_dft_re(samples@, size as int, j as int, k as int) + tdiv(
                        spec_sample_at(samples@, k as int)
                            * spec_cos_q(spec_twiddle(j as int, k as int, size as int)),
                        SCALE as int));
                assert(spec_dft_im(samples@, size as int, j as int, k as int + 1)
                    == spec_dft_im(samples@, size as int, j as int, k as int) - tdiv(
                        spec_sample_at(samples@, k as int)
                            * spec_sin_q(spec_twiddle(j as int, k as int, size as int)),
                        SCALE as int));
            }
            re = re + div_scale(x * c);
            im = im - div_scale(x * sn);
            k = k + 1;
        }
        proof {
            assert(-(65536int * 65536) <= re as int <= 65536int * 65536) by (nonlinear_arith)
                requires
                    -(size as int) * 65536 <= re as int <= (size as int) * 65536
                        && size <= 65536;
            assert(-(65536int * 65536) <= im as int <= 65536int * 65536) by (nonlinear_arith)
                requires
                    -(size as int) * 65536 <= im as int <= (size as int) * 65536
                        && size <= 65536;
            lemma_tdiv_mag(re as int, size as int, (size as int) * 65536);
            lemma_tdiv_mag(im as int, size as int, (size as int) * 65536);
            assert(((size as int) * 65536) / (size as int) == 65536) by {
                lemma_div_multiples_vanish(65536, size as int);
                assert((size as int) * 65536 == 65536 * (size as int)) by (nonlinear_arith);
            }
        }
        let a = tdiv_i64(re, size_i);
        let b = tdiv_i64(im, size_i);
        proof {
            assert(0 <= (a as int) * (a as int) && (a as int) * (a as int)
                <= 0x2_0000_0000int && 0 <= (b as int) * (b as int)
                && (b as int) * (b as int) <= 0x2_0000_0000int) by (nonlinear_arith)
                requires -65536 <= a <= 65536 && -65536 <= b <= 65536;
        }
        let power = a * a + b * b;
        let mag = isqrt_i64(power);
        proof {
            assert(power as int == spec_bin_power(samples@, size as int, j as int));
        }
        out.push(mag);
        j = j + 1;
    }
    out
}

} // verus!
