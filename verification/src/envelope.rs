//! The ADSR amplitude function: attack, decay, sustain and release as
//! piecewise-linear ramps over elapsed time, in fixed-point micro-units.
//!
//! Control values run from 0 to 99.  Attack, decay and release scale
//! linearly to durations in `[0, 2]` seconds; sustain scales linearly to a
//! loudness fraction in `[0, 1]`.

use vstd::prelude::*;
use vstd::arithmetic::div_mod::{
    lemma_div_by_multiple, lemma_div_is_ordered, lemma_div_multiples_vanish,
};

verus! {

/// Largest ADSR control value.
pub const CONTROL_MAX: u8 = 99;

/// Duration, in microseconds, that the largest control value maps to:
/// 2 seconds.
pub const CONTROL_SCALE_US: u64 = 2_000_000;

/// Duration in microseconds that an attack, decay or release control value
/// in `0..=99` scales to: linear up to 2 seconds.
pub open spec fn control_duration_us(v: u8) -> int {
    v * 2_000_000 / 99
}

/// Loudness fraction in micro-units that a sustain control value in
/// `0..=99` scales to: linear up to 1.0.
pub open spec fn control_level_micro(v: u8) -> int {
    v * 1_000_000 / 99
}

/// Converts an attack, decay or release control value to its duration in
/// microseconds.
pub fn duration_from_control(v: u8) -> (r: u64)
    requires
        v <= CONTROL_MAX,
    ensures
        r == control_duration_us(v),
        r <= CONTROL_SCALE_US,
{
    proof {
        lemma_div_is_ordered(v * 2_000_000, 198_000_000, 99);
        lemma_div_is_ordered(0, v * 2_000_000, 99);
    }
    v as u64 * 2_000_000 / 99
}

/// Converts a sustain control value to its loudness fraction in
/// micro-units.
pub fn level_from_control(v: u8) -> (r: i64)
    requires
        v <= CONTROL_MAX,
    ensures
        r == control_level_micro(v),
        0 <= r <= 1_000_000,
{
    proof {
        lemma_div_is_ordered(v * 1_000_000, 99_000_000, 99);
        lemma_div_is_ordered(0, v * 1_000_000, 99);
    }
    (v as i64) * 1_000_000 / 99
}

/// Envelope amplitude in micro-units at a point in a voice's life.
///
/// `a_us`, `d_us` and `r_us` are the attack, decay and release durations in
/// microseconds; `s_level` is the sustain fraction in micro-units.
/// `elapsed_us` is the time since the voice started.  Once a release has
/// been signaled, `release_elapsed_us` carries the time since that signal
/// and the amplitude fades linearly from the sustain level to zero — or is
/// zero at once when the release duration is zero.
pub open spec fn adsr_amplitude(
    a_us: u64,
    d_us: u64,
    s_level: i64,
    r_us: u64,
    elapsed_us: u64,
    release_elapsed_us: Option<u64>,
) -> int {
    match release_elapsed_us {
        Option::Some(rt) => if r_us == 0 || rt >= r_us {
            0
        } else {
            s_level * (1_000_000 - rt * 1_000_000 / (r_us as int)) / 1_000_000
        },
        Option::None => if elapsed_us <= a_us {
            if a_us == 0 {
                1_000_000
            } else {
                elapsed_us * 1_000_000 / (a_us as int)
            }
        } else if elapsed_us <= a_us + d_us {
            if d_us == 0 {
                s_level as int
            } else {
                1_000_000 - (1_000_000 - s_level) * (elapsed_us - a_us) / (d_us as int)
            }
        } else {
            s_level as int
        },
    }
}

/// The envelope amplitude always stays within `[0, 1]`, for every valid
/// sustain level and every point in the voice's life.
pub proof fn lemma_adsr_amplitude_bounds(
    a_us: u64,
    d_us: u64,
    s_level: i64,
    r_us: u64,
    elapsed_us: u64,
    release_elapsed_us: Option<u64>,
)
    requires
        0 <= s_level <= 1_000_000,
    ensures
        0 <= adsr_amplitude(a_us, d_us, s_level, r_us, elapsed_us, release_elapsed_us) <= 1_000_000,
{
    match release_elapsed_us {
        Option::Some(rt) => {
            if r_us == 0 || rt >= r_us {
            } else {
                lemma_release_progress_bounds(r_us, rt);
                let p = rt * 1_000_000 / (r_us as int);
                assert(0 <= s_level * (1_000_000 - p) <= 1_000_000_000_000) by (nonlinear_arith)
                    requires 0 <= s_level <= 1_000_000 && 0 <= p <= 1_000_000;
                lemma_div_is_ordered(0, s_level * (1_000_000 - p), 1_000_000);
                lemma_div_is_ordered(s_level * (1_000_000 - p), 1_000_000_000_000, 1_000_000);
            }
        }
        Option::None => {
            if elapsed_us <= a_us {
                if a_us == 0 {
                } else {
                    lemma_div_is_ordered(0, elapsed_us * 1_000_000, a_us as int);
                    lemma_div_is_ordered(elapsed_us * 1_000_000, a_us * 1_000_000, a_us as int);
                    lemma_div_multiples_vanish(1_000_000, a_us as int);
                }
            } else if elapsed_us <= a_us + d_us {
                if d_us == 0 {
                } else {
                    let k = 1_000_000 - s_level;
                    assert(0 <= k * (elapsed_us - a_us) && k * (elapsed_us - a_us) <= k * (
                    d_us as int)) by (nonlinear_arith)
                        requires 0 <= k && 0 < elapsed_us - a_us <= d_us;
                    lemma_div_is_ordered(0, k * (elapsed_us - a_us), d_us as int);
                    lemma_div_is_ordered(k * (elapsed_us - a_us), k * (d_us as int), d_us as int);
                    lemma_div_by_multiple(k, d_us as int);
                }
            } else {
            }
        }
    }
}

/// Helper: while a release is under way, the fade progress fraction stays
/// within `[0, 1]`.
proof fn lemma_release_progress_bounds(r_us: u64, rt: u64)
    requires
        0 < r_us,
        rt < r_us,
    ensures
        0 <= rt * 1_000_000 / (r_us as int) <= 1_000_000,
{
    lemma_div_is_ordered(0, rt * 1_000_000, r_us as int);
    lemma_div_is_ordered(rt * 1_000_000, r_us * 1_000_000, r_us as int);
    lemma_div_multiples_vanish(1_000_000, r_us as int);
}

/// During the attack phase the amplitude is monotonically non-decreasing,
/// and it reaches exactly 1.0 at the end of the attack.
pub proof fn lemma_attack_monotone(a_us: u64, d_us: u64, s_level: i64, r_us: u64, t1: u64, t2: u64)
    requires
        t1 <= t2 <= a_us,
    ensures
        adsr_amplitude(a_us, d_us, s_level, r_us, t1, Option::None)
            <= adsr_amplitude(a_us, d_us, s_level, r_us, t2, Option::None),
        adsr_amplitude(a_us, d_us, s_level, r_us, a_us, Option::None) == 1_000_000,
{
    if a_us != 0 {
        lemma_div_is_ordered(t1 * 1_000_000, t2 * 1_000_000, a_us as int);
        lemma_div_multiples_vanish(1_000_000, a_us as int);
        lemma_div_is_ordered(0, t1 * 1_000_000, a_us as int);
        lemma_div_is_ordered(t2 * 1_000_000, a_us * 1_000_000, a_us as int);
    }
}

/// The attack ramp is continuous at the fixed-point granularity: between
/// any two instants of the attack, the amplitude moves by no more than
/// the ramp slope times the gap, up to one rounding unit.
pub proof fn lemma_attack_continuous(
    a_us: u64,
    d_us: u64,
    s_level: i64,
    r_us: u64,
    t1: u64,
    t2: u64,
)
    requires
        0 < a_us,
        t1 <= t2 <= a_us,
    ensures
        adsr_amplitude(a_us, d_us, s_level, r_us, t2, Option::None) - adsr_amplitude(
            a_us,
            d_us,
            s_level,
            r_us,
            t1,
            Option::None,
        ) <= (t2 - t1) * 1_000_000 / (a_us as int) + 1,
{
    let d = a_us as int;
    let x = t1 * 1_000_000;
    let c = (t2 - t1) * 1_000_000;
    assert((x + c) / d <= x / d + c / d + 1) by (nonlinear_arith)
        requires 0 < d && 0 <= x && 0 <= c;
    assert(t2 * 1_000_000 == x + c);
}

/// During the decay phase the amplitude is monotonically non-increasing,
/// and at the end of the decay it reaches exactly the sustain level, which
/// it then holds: the envelope is continuous across the decay-to-sustain
/// boundary.
pub proof fn lemma_decay_monotone(a_us: u64, d_us: u64, s_level: i64, r_us: u64, t1: u64, t2: u64)
    requires
        0 <= s_level <= 1_000_000,
        a_us <= 2_000_000,
        d_us <= 2_000_000,
        a_us < t1 <= t2 <= a_us + d_us,
    ensures
        adsr_amplitude(a_us, d_us, s_level, r_us, t1, Option::None)
            >= adsr_amplitude(a_us, d_us, s_level, r_us, t2, Option::None),
        d_us > 0 ==> adsr_amplitude(a_us, d_us, s_level, r_us, (a_us + d_us) as u64, Option::None)
            == s_level,
{
    if d_us != 0 {
        let k = 1_000_000 - s_level;
        assert(k * (t1 - a_us) <= k * (t2 - a_us)) by (nonlinear_arith)
            requires 0 <= k && t1 - a_us <= t2 - a_us;
        lemma_div_is_ordered(k * (t1 - a_us), k * (t2 - a_us), d_us as int);
        lemma_div_by_multiple(k, d_us as int);
        assert(((a_us + d_us) as u64) - a_us == d_us as int);
    }
}

/// During the release phase the amplitude is monotonically non-increasing
/// in the time since the release was signaled.
pub proof fn lemma_release_monotone(
    a_us: u64,
    d_us: u64,
    s_level: i64,
    r_us: u64,
    elapsed_us: u64,
    rt1: u64,
    rt2: u64,
)
    requires
        0 <= s_level,
        rt1 <= rt2,
    ensures
        adsr_amplitude(a_us, d_us, s_level, r_us, elapsed_us, Option::Some(rt1))
            >= adsr_amplitude(a_us, d_us, s_level, r_us, elapsed_us, Option::Some(rt2)),
{
    if r_us == 0 || rt1 >= r_us {
        assert(r_us == 0 || rt2 >= r_us);
    } else if rt2 >= r_us {
        lemma_release_progress_bounds(r_us, rt1);
        let p1 = rt1 * 1_000_000 / (r_us as int);
        assert(s_level * (1_000_000 - p1) >= 0) by (nonlinear_arith)
            requires 0 <= s_level && p1 <= 1_000_000;
        lemma_div_is_ordered(0, s_level * (1_000_000 - p1), 1_000_000);
    } else {
        lemma_div_is_ordered(rt1 * 1_000_000, rt2 * 1_000_000, r_us as int);
        let p1 = rt1 * 1_000_000 / (r_us as int);
        let p2 = rt2 * 1_000_000 / (r_us as int);
        assert(s_level * (1_000_000 - p1) >= s_level * (1_000_000 - p2)) by (nonlinear_arith)
            requires 0 <= s_level && p1 <= p2;
        lemma_div_is_ordered(
            s_level * (1_000_000 - p2),
            s_level * (1_000_000 - p1),
            1_000_000,
        );
    }
}

/// Instant attack: with attack and decay zero and sustain at full level,
/// the amplitude is already 1.0 at every instant from the very start of
/// the voice, until a release is signaled.
pub proof fn lemma_instant_attack(r_us: u64, elapsed_us: u64)
    ensures
        adsr_amplitude(0, 0, 1_000_000, r_us, elapsed_us, Option::None) == 1_000_000,
{
}

/// Instant release: with a release duration of zero, the amplitude is zero
/// from the moment the release is signaled.
pub proof fn lemma_instant_release(
    a_us: u64,
    d_us: u64,
    s_level: i64,
    elapsed_us: u64,
    rt: u64,
)
    ensures
        adsr_amplitude(a_us, d_us, s_level, 0, elapsed_us, Option::Some(rt)) == 0,
{
}

/// Computes the envelope amplitude in micro-units.
pub fn adsr_amplitude_at(
    a_us: u64,
    d_us: u64,
    s_level: i64,
    r_us: u64,
    elapsed_us: u64,
    release_elapsed_us: Option<u64>,
) -> (amp: i64)
    requires
        a_us <= 2_000_000,
        d_us <= 2_000_000,
        r_us <= 2_000_000,
        0 <= s_level <= 1_000_000,
    ensures
        amp == adsr_amplitude(a_us, d_us, s_level, r_us, elapsed_us, release_elapsed_us),
        0 <= amp <= 1_000_000,
{
    proof {
        lemma_adsr_amplitude_bounds(a_us, d_us, s_level, r_us, elapsed_us, release_elapsed_us);
    }
    match release_elapsed_us {
        Option::Some(rt) => {
            if r_us == 0 || rt >= r_us {
                0
            } else {
                proof {
                    lemma_release_progress_bounds(r_us, rt);
                }
                let progress: i64 = (rt as i64) * 1_000_000 / (r_us as i64);
                proof {
                    assert(0 <= s_level * (1_000_000 - progress) <= 1_000_000_000_000)
                        by (nonlinear_arith)
                        requires 0 <= s_level <= 1_000_000 && 0 <= progress <= 1_000_000;
                    lemma_div_is_ordered(0, s_level * (1_000_000 - progress), 1_000_000);
                }
                s_level * (1_000_000 - progress) / 1_000_000
            }
        }
        Option::None => {
            if elapsed_us <= a_us {
                if a_us == 0 {
                    1_000_000
                } else {
                    proof {
                        lemma_div_is_ordered(elapsed_us * 1_000_000, 2_000_000_000_000, a_us as int);
                    }
                    ((elapsed_us as i64) * 1_000_000 / (a_us as i64)) as i64
                }
            } else if elapsed_us <= a_us + d_us {
                if d_us == 0 {
                    s_level
                } else {
                    let dt: i64 = (elapsed_us - a_us) as i64;
                    proof {
                        assert(0 <= (1_000_000 - s_level) * (elapsed_us - a_us)
                            <= 2_000_000_000_000) by (nonlinear_arith)
                            requires
                                0 <= s_level <= 1_000_000
                                    && 0 < elapsed_us - a_us <= d_us
                                    && d_us <= 2_000_000;
                        lemma_div_is_ordered(
                            0,
                            (1_000_000 - s_level) * (elapsed_us - a_us),
                            d_us as int,
                        );
                        lemma_div_is_ordered(
                            (1_000_000 - s_level) * (elapsed_us - a_us),
                            2_000_000_000_000,
                            d_us as int,
                        );
                    }
                    1_000_000 - (1_000_000 - s_level) * dt / (d_us as i64)
                }
            } else {
                s_level
            }
        }
    }
}

} // verus!
