//! Waveform generators: phase-accumulator oscillators for the four basic
//! wave shapes, in fixed-point arithmetic.
//!
//! A phase is a position within one cycle of the wave, scaled so that
//! `PHASE_ONE` nano-cycles are one full cycle.  Sample values are
//! micro-units: `AMP_ONE` stands for a signal level of 1.0.

use vstd::prelude::*;
use vstd::arithmetic::div_mod::{
    lemma_add_mod_noop, lemma_div_is_ordered, lemma_mod_bound, lemma_mod_twice,
};

verus! {

/// A signal level of 1.0, in micro-units.
pub const AMP_ONE: i64 = 1_000_000;

/// Output gain applied to every voice before the effects chain:
/// 0.25 in micro-units.
pub const AMPLITUDE: i64 = 250_000;

/// One full oscillator cycle, in nano-cycles.
pub const PHASE_ONE: u64 = 1_000_000_000;

/// Half an oscillator cycle, in nano-cycles.
pub const PHASE_HALF: u64 = 500_000_000;

/// The wave shapes the synthesizer can produce.
#[derive(Clone, Copy, Debug, PartialEq, Eq, Structural)]
pub enum Waveform {
    SINE,
    SQUARE,
    TRIANGLE,
    SAWTOOTH,
}

/// Quadratic half-wave used as the sine shape: a parabola through 0 at
/// `p == 0` and `p == PHASE_HALF`, peaking at `AMP_ONE` in the middle.
pub open spec fn parabola_micro(p: int) -> int {
    16 * p * (500_000_000 - p) / 1_000_000_000 * 1_000_000 / 1_000_000_000
}

/// Sample value of a waveform at a given phase, in micro-units.
pub open spec fn wave_value(w: Waveform, phase: u64) -> int {
    match w {
        Waveform::SINE => if phase < PHASE_HALF {
            parabola_micro(phase as int)
        } else {
            -parabola_micro(phase - 500_000_000)
        },
        Waveform::SQUARE => if phase < PHASE_HALF {
            1_000_000
        } else {
            -1_000_000
        },
        Waveform::TRIANGLE => if phase < PHASE_HALF {
            4_000_000 * phase / 1_000_000_000 - 1_000_000
        } else {
            3_000_000 - 4_000_000 * phase / 1_000_000_000
        },
        Waveform::SAWTOOTH => 2_000_000 * phase / 1_000_000_000 - 1_000_000,
    }
}

/// The quadratic sine half-wave stays within `[0, AMP_ONE]`.
pub proof fn lemma_parabola_bounds(p: int)
    requires
        0 <= p < PHASE_HALF,
    ensures
        0 <= parabola_micro(p) <= AMP_ONE,
{
    assert(0 <= 16 * p * (500_000_000 - p) <= 1_000_000_000_000_000_000) by (nonlinear_arith)
        requires 0 <= p < 500_000_000;
    lemma_div_is_ordered(0, 16 * p * (500_000_000 - p), 1_000_000_000);
    lemma_div_is_ordered(
        16 * p * (500_000_000 - p),
        1_000_000_000_000_000_000,
        1_000_000_000,
    );
    let q = 16 * p * (500_000_000 - p) / 1_000_000_000;
    lemma_div_is_ordered(0, q * 1_000_000, 1_000_000_000);
    lemma_div_is_ordered(q * 1_000_000, 1_000_000_000_000_000, 1_000_000_000);
}

/// Every waveform is bounded in `[-AMP_ONE, AMP_ONE]`: the generator
/// never leaves the unit signal range.
pub proof fn lemma_wave_value_bounded(w: Waveform, phase: u64)
    requires
        phase < PHASE_ONE,
    ensures
        -AMP_ONE <= wave_value(w, phase) <= AMP_ONE,
{
    match w {
        Waveform::SINE => {
            if phase < PHASE_HALF {
                lemma_parabola_bounds(phase as int);
            } else {
                lemma_parabola_bounds(phase - 500_000_000);
            }
        }
        Waveform::SQUARE => {}
        Waveform::TRIANGLE => {
            lemma_div_is_ordered(0, 4_000_000 * phase, 1_000_000_000);
            lemma_div_is_ordered(4_000_000 * phase, 3_999_999_996_000_000, 1_000_000_000);
            if phase < PHASE_HALF {
                lemma_div_is_ordered(4_000_000 * phase, 1_999_999_996_000_000, 1_000_000_000);
            } else {
                lemma_div_is_ordered(2_000_000_000_000_000, 4_000_000 * phase, 1_000_000_000);
            }
        }
        Waveform::SAWTOOTH => {
            lemma_div_is_ordered(0, 2_000_000 * phase, 1_000_000_000);
            lemma_div_is_ordered(2_000_000 * phase, 1_999_999_998_000_000, 1_000_000_000);
        }
    }
}

/// Computes the sample of a waveform at a phase.
pub fn wave_sample(w: Waveform, phase: u64) -> (s: i64)
    requires
        phase < PHASE_ONE,
    ensures
        s == wave_value(w, phase),
        -AMP_ONE <= s <= AMP_ONE,
{
    proof {
        lemma_wave_value_bounded(w, phase);
    }
    match w {
        Waveform::SINE => {
            let p: u64 = if phase < PHASE_HALF {
                phase
            } else {
                phase - PHASE_HALF
            };
            proof {
                assert(0 <= 16 * (p as int) * (500_000_000 - p) <= 1_000_000_000_000_000_000)
                    by (nonlinear_arith)
                    requires 0 <= p < 500_000_000;
            }
            let prod: u64 = 16 * p * (500_000_000 - p);
            let v: u64 = prod / 1_000_000_000 * 1_000_000 / 1_000_000_000;
            proof {
                lemma_parabola_bounds(p as int);
            }
            if phase < PHASE_HALF {
                v as i64
            } else {
                -(v as i64)
            }
        }
        Waveform::SQUARE => {
            if phase < PHASE_HALF {
                AMP_ONE
            } else {
                -AMP_ONE
            }
        }
        Waveform::TRIANGLE => {
            let ramp: u64 = 4_000_000 * phase / 1_000_000_000;
            proof {
                lemma_div_is_ordered(0, 4_000_000 * phase, 1_000_000_000);
                lemma_div_is_ordered(4_000_000 * phase, 3_999_999_996_000_000, 1_000_000_000);
            }
            if phase < PHASE_HALF {
                -1_000_000 + ramp as i64
            } else {
                3_000_000 - ramp as i64
            }
        }
        Waveform::SAWTOOTH => {
            let ramp: u64 = 2_000_000 * phase / 1_000_000_000;
            proof {
                lemma_div_is_ordered(0, 2_000_000 * phase, 1_000_000_000);
                lemma_div_is_ordered(2_000_000 * phase, 1_999_999_998_000_000, 1_000_000_000);
            }
            -1_000_000 + ramp as i64
        }
    }
}

/// Phase-increment per output sample for a pitch, as a fraction of one
/// cycle in nano-cycles: `frequency / sample_rate` cycles per sample.
pub open spec fn step_spec(freq_millihz: u64, sample_rate: u32) -> u64 {
    (freq_millihz * 1_000_000_000 / (sample_rate as int * 1000)) as u64
}

/// Phase reached after `n` samples from a starting phase.
pub open spec fn phase_at(start: u64, step: u64, n: nat) -> u64 {
    ((start + n * step) % 1_000_000_000) as u64
}

/// Advancing one more sample moves the phase by one step, wrapped into a
/// cycle: links `phase_at` to the per-sample phase update.
pub proof fn lemma_phase_at_unfold(start: u64, step: u64, n: nat)
    ensures
        phase_at(start, step, n + 1) == ((phase_at(start, step, n) + step) % 1_000_000_000) as u64,
{
    let m: int = 1_000_000_000;
    let a: int = start + n * step;
    let s: int = step as int;
    assert((n + 1) * step == n * step + step) by (nonlinear_arith);
    lemma_add_mod_noop(a, s, m);
    lemma_mod_twice(a, m);
    assert((a % m + s % m) % m == (a % m + s) % m) by {
        lemma_add_mod_noop(a % m, s, m);
        lemma_mod_twice(s, m);
        lemma_add_mod_noop(a % m, s % m, m);
        lemma_mod_twice(a % m + s, m);
    }
    lemma_mod_bound(a % m + s, m);
}

/// The oscillator's sample sequence is periodic: whenever `p` steps add up
/// to a whole number of cycles, the phase after `n + p` samples equals the
/// phase after `n` samples, so the samples repeat with period `p`.  With an
/// exact step `f / R` of cycles per sample this makes the period `R / f`
/// samples, as for a pitch whose frequency divides the sample rate.
pub proof fn lemma_phase_periodic(start: u64, step: u64, n: nat, p: nat)
    requires
        (p * step) % 1_000_000_000 == 0,
    ensures
        phase_at(start, step, n + p) == phase_at(start, step, n),
{
    let m: int = 1_000_000_000;
    let a: int = start + n * step;
    let b: int = (p * step) as int;
    assert((n + p) * step == n * step + p * step) by (nonlinear_arith);
    lemma_add_mod_noop(a, b, m);
    lemma_mod_twice(a, m);
    lemma_mod_twice(a % m, m);
}

/// A waveform oscillator: a phase accumulator advanced by
/// `frequency / sample_rate` of a cycle per sample.
pub struct Oscillator {
    /// The wave shape produced.
    pub waveform: Waveform,
    /// Phase advance per sample, in nano-cycles.
    pub step: u64,
    /// Current position within the cycle, in nano-cycles.
    pub phase: u64,
}

impl Oscillator {
    /// The phase and the step always stay within one cycle.
    pub open spec fn wf(self) -> bool {
        self.phase < PHASE_ONE && self.step < PHASE_ONE
    }

    /// Builds an oscillator for a pitch at a sample rate.  The pitch must
    /// lie below one cycle per sample.
    pub fn new(waveform: Waveform, freq_millihz: u64, sample_rate: u32) -> (r: Oscillator)
        requires
            0 < freq_millihz,
            freq_millihz < sample_rate as u64 * 1000,
            sample_rate <= 1_000_000,
        ensures
            r.wf(),
            r.waveform == waveform,
            r.phase == 0,
            r.step == step_spec(freq_millihz, sample_rate),
    {
        let denom: u64 = sample_rate as u64 * 1000;
        let step: u64 = freq_millihz * 1_000_000_000 / denom;
        proof {
            assert(freq_millihz * 1_000_000_000 / (denom as int) < 1_000_000_000)
                by (nonlinear_arith)
                requires 0 < freq_millihz < denom;
        }
        Oscillator { waveform, step, phase: 0 }
    }

    /// Produces the sample at the current phase, then advances the phase
    /// by one step, wrapping at a full cycle.
    pub fn next_sample(&mut self) -> (s: i64)
        requires
            old(self).wf(),
        ensures
            final(self).wf(),
            s == wave_value(old(self).waveform, old(self).phase),
            -AMP_ONE <= s <= AMP_ONE,
            final(self).phase == ((old(self).phase + old(self).step) % 1_000_000_000) as u64,
            final(self).step == old(self).step,
            final(self).waveform == old(self).waveform,
    {
        let s = wave_sample(self.waveform, self.phase);
        self.phase = (self.phase + self.step) % PHASE_ONE;
        s
    }
}

} // verus!
