//! The ADSR envelope stage: wraps an oscillator and shapes its samples by
//! the envelope amplitude, advancing a small lifecycle state machine from
//! attack through decay and sustain to release and done.
//!
//! The stage is self-terminating: a release starts automatically once the
//! sustain phase has lasted `MAX_SUSTAIN_US`, and a hard lifetime cap ends
//! the stream unconditionally, so a voice can never play forever.

use vstd::prelude::*;
use crate::envelope::adsr_amplitude;
use crate::envelope::adsr_amplitude_at;
use crate::effects::div_micro;
use crate::effects::div_micro_spec;
use crate::effects::lemma_div_micro_bound;
use crate::waveforms::Oscillator;
use crate::waveforms::wave_value;

verus! {

/// Longest time the sustain phase may hold before a release is started
/// automatically: 5 seconds.
pub const MAX_SUSTAIN_US: u64 = 5_000_000;

/// Hard cap on a voice's lifetime, in seconds of samples: longer than any
/// possible attack + decay + sustain + release.
pub const MAX_LIFETIME_SECS: u64 = 12;

/// An oscillator shaped by an ADSR envelope over its lifetime.
pub struct ADSREnvelope {
    /// The wrapped waveform generator.
    pub osc: Oscillator,
    /// Attack duration in microseconds, at most 2 seconds.
    pub attack_us: u64,
    /// Decay duration in microseconds, at most 2 seconds.
    pub decay_us: u64,
    /// Release duration in microseconds, at most 2 seconds.
    pub release_us: u64,
    /// Sustain level in micro-units.
    pub sustain_level: i64,
    /// Output sample rate in hertz.
    pub sample_rate: u32,
    /// Samples produced so far.
    pub samples_elapsed: u64,
    /// Sample index at which the release began, once signaled.
    pub release_start: Option<u64>,
    /// Whether the stream has ended.
    pub done: bool,
}

/// Time since the stage started, in microseconds.
pub open spec fn env_elapsed_us(e: ADSREnvelope) -> int {
    e.samples_elapsed * 1_000_000 / (e.sample_rate as int)
}

/// Time since the release began, in microseconds.
pub open spec fn env_release_elapsed_us(e: ADSREnvelope, rs: u64) -> int {
    (e.samples_elapsed - rs) * 1_000_000 / (e.sample_rate as int)
}

/// The release marker after this step's auto-release check: an existing
/// release is kept; otherwise a release begins as soon as the envelope has
/// been past its attack and decay for `MAX_SUSTAIN_US`.
pub open spec fn env_auto_release(e: ADSREnvelope) -> Option<u64> {
    match e.release_start {
        Option::Some(rs) => Option::Some(rs),
        Option::None => if env_elapsed_us(e) >= e.attack_us + e.decay_us + 5_000_000 {
            Option::Some(e.samples_elapsed)
        } else {
            Option::None
        },
    }
}

/// State and output of one envelope step.  The stage first honours `done`
/// and the lifetime cap, then checks for the release having completed,
/// and otherwise emits the oscillator sample scaled by the envelope
/// amplitude.
pub open spec fn env_next(e: ADSREnvelope) -> (ADSREnvelope, Option<i64>) {
    if e.done {
        (e, Option::None)
    } else if e.samples_elapsed >= 12 * e.sample_rate {
        (ADSREnvelope { done: true, ..e }, Option::None)
    } else {
        let rs1 = env_auto_release(e);
        match rs1 {
            Option::Some(rs) => {
                let rt = env_release_elapsed_us(e, rs);
                if e.release_us == 0 || rt >= e.release_us {
                    (ADSREnvelope { release_start: rs1, done: true, ..e }, Option::None)
                } else {
                    env_step_emit(e, rs1, Option::Some(rt as u64))
                }
            }
            Option::None => env_step_emit(e, Option::None, Option::None),
        }
    }
}

/// One emitting step: the oscillator advances, the sample counter grows,
/// and the output is the oscillator sample scaled by the envelope
/// amplitude at this instant.
pub open spec fn env_step_emit(
    e: ADSREnvelope,
    rs1: Option<u64>,
    rel: Option<u64>,
) -> (ADSREnvelope, Option<i64>) {
    let amp = adsr_amplitude(
        e.attack_us,
        e.decay_us,
        e.sustain_level,
        e.release_us,
        env_elapsed_us(e) as u64,
        rel,
    );
    let out = div_micro_spec(wave_value(e.osc.waveform, e.osc.phase) * amp);
    (
        ADSREnvelope {
            osc: Oscillator {
                waveform: e.osc.waveform,
                step: e.osc.step,
                phase: ((e.osc.phase + e.osc.step) % 1_000_000_000) as u64,
            },
            samples_elapsed: (e.samples_elapsed + 1) as u64,
            release_start: rs1,
            ..e
        },
        Option::Some(out as i64),
    )
}

impl ADSREnvelope {
    /// The oscillator is in range, the durations and the sustain level
    /// are within their scales, the sample rate is supported, and the
    /// lifetime bookkeeping is consistent.
    pub open spec fn wf(self) -> bool {
        &&& self.osc.wf()
        &&& self.attack_us <= 2_000_000
        &&& self.decay_us <= 2_000_000
        &&& self.release_us <= 2_000_000
        &&& 0 <= self.sustain_level <= 1_000_000
        &&& 8000 <= self.sample_rate <= 192_000
        &&& self.samples_elapsed <= 12 * self.sample_rate
        &&& match self.release_start {
            Option::Some(rs) => rs <= self.samples_elapsed,
            Option::None => true,
        }
    }

    /// Builds an envelope stage around an oscillator.
    pub fn new(
        osc: Oscillator,
        attack_us: u64,
        decay_us: u64,
        sustain_level: i64,
        release_us: u64,
        sample_rate: u32,
    ) -> (r: ADSREnvelope)
        requires
            osc.wf(),
            attack_us <= 2_000_000,
            decay_us <= 2_000_000,
            release_us <= 2_000_000,
            0 <= sustain_level <= 1_000_000,
            8000 <= sample_rate <= 192_000,
        ensures
            r.wf(),
            r.osc == osc,
            r.attack_us == attack_us,
            r.decay_us == decay_us,
            r.release_us == release_us,
            r.sustain_level == sustain_level,
            r.sample_rate == sample_rate,
            r.samples_elapsed == 0,
            (r.release_start is None),
            !r.done,
    {
        ADSREnvelope {
            osc,
            attack_us,
            decay_us,
            release_us,
            sustain_level,
            sample_rate,
            samples_elapsed: 0,
            release_start: Option::None,
            done: false,
        }
    }

    /// Signals a release now, if none has been signaled yet: the envelope
    /// starts fading from the sustain level.
    pub fn signal_release(&mut self)
        requires
            old(self).wf(),
        ensures
            final(self).wf(),
            final(self).release_start == match old(self).release_start {
                Option::Some(rs) => Option::Some(rs),
                Option::None => Option::Some(old(self).samples_elapsed),
            },
            *final(self) == (ADSREnvelope {
                release_start: final(self).release_start,
                ..*old(self)
            }),
    {
        if self.release_start.is_none() {
            self.release_start = Option::Some(self.samples_elapsed);
        }
    }

    /// Produces the next shaped sample, or `None` once the stream has
    /// ended.  The stream always ends: the release completing ends it,
    /// and the hard lifetime cap ends it even if no release ever fires.
    pub fn next_sample(&mut self) -> (r: Option<i64>)
        requires
            old(self).wf(),
        ensures
            final(self).wf(),
            *final(self) == env_next(*old(self)).0,
            r == env_next(*old(self)).1,
            (r matches Option::Some(v) ==> -1_000_000 <= v <= 1_000_000),
            old(self).done ==> (r is None),
    {
        if self.done {
            return Option::None;
        }
        let cap: u64 = 12 * self.sample_rate as u64;
        if self.samples_elapsed >= cap {
            self.done = true;
            return Option::None;
        }
        let elapsed: u64 = self.samples_elapsed * 1_000_000 / self.sample_rate as u64;
        if self.release_start.is_none() && elapsed >= self.attack_us + self.decay_us + 5_000_000 {
            self.release_start = Option::Some(self.samples_elapsed);
        }
        let rel: Option<u64> = match self.release_start {
            Option::Some(rs) => Option::Some(
                (self.samples_elapsed - rs) * 1_000_000 / self.sample_rate as u64,
            ),
            Option::None => Option::None,
        };
        if let Option::Some(rt) = rel {
            if self.release_us == 0 || rt >= self.release_us {
                self.done = true;
                return Option::None;
            }
        }
        let amp = adsr_amplitude_at(
            self.attack_us,
            self.decay_us,
            self.sustain_level,
            self.release_us,
            elapsed,
            rel,
        );
        let s = self.osc.next_sample();
        proof {
            assert(-1_000_000_000_000 <= s * amp <= 1_000_000_000_000) by (nonlinear_arith)
                requires -1_000_000 <= s <= 1_000_000 && 0 <= amp <= 1_000_000;
            lemma_div_micro_bound(s * amp, 1_000_000);
        }
        self.samples_elapsed = self.samples_elapsed + 1;
        Option::Some(div_micro(s * amp))
    }
}

/// The envelope's lifecycle only moves forward: a finished stream stays
/// finished, a signaled release stays signaled at the same instant, and
/// every emitted sample advances the sample counter — so a stage emits at
/// most its lifetime cap of samples and the stream is finite.
pub proof fn lemma_env_lifecycle_monotone(e: ADSREnvelope)
    requires
        e.wf(),
    ensures
        e.done ==> env_next(e).0.done,
        (e.release_start matches Option::Some(rs) ==> env_next(e).0.release_start
            == Option::Some(rs)),
        ((env_next(e).1 is Some) ==> env_next(e).0.samples_elapsed == e.samples_elapsed + 1),
        env_next(e).0.done ==> (env_next(e).1 is None),
{
}

} // verus!
