use synth_core::adsr_envelope::{ADSREnvelope, MAX_LIFETIME_SECS};
use synth_core::envelope::{
    adsr_amplitude_at, duration_from_control, level_from_control,
};
use synth_core::waveforms::{Oscillator, Waveform};

#[test]
fn control_values_scale_linearly() {
    assert_eq!(duration_from_control(0), 0);
    assert_eq!(duration_from_control(99), 2_000_000);
    assert_eq!(duration_from_control(50), 50 * 2_000_000 / 99);
    assert_eq!(level_from_control(0), 0);
    assert_eq!(level_from_control(99), 1_000_000);
    assert_eq!(level_from_control(33), 333_333);
}

#[test]
fn attack_ramps_linearly_from_zero_to_one() {
    // One-second attack: halfway through, the amplitude is one half.
    let a = 1_000_000;
    assert_eq!(adsr_amplitude_at(a, 0, 800_000, 2_000_000, 0, None), 0);
    assert_eq!(adsr_amplitude_at(a, 0, 800_000, 2_000_000, 500_000, None), 500_000);
    assert_eq!(adsr_amplitude_at(a, 0, 800_000, 2_000_000, 1_000_000, None), 1_000_000);
}

#[test]
fn decay_interpolates_down_to_sustain() {
    // No attack, one-second decay to sustain 0.4: halfway through the
    // decay the amplitude is 0.7.
    let amp = adsr_amplitude_at(0, 1_000_000, 400_000, 2_000_000, 500_000, None);
    assert_eq!(amp, 700_000);
    let amp_end = adsr_amplitude_at(0, 1_000_000, 400_000, 2_000_000, 1_000_000, None);
    assert_eq!(amp_end, 400_000);
    let amp_sustain = adsr_amplitude_at(0, 1_000_000, 400_000, 2_000_000, 5_000_000, None);
    assert_eq!(amp_sustain, 400_000);
}

#[test]
fn instant_attack_is_full_volume_at_once() {
    // Attack 0, decay 0, sustain at the top of the control range: the
    // amplitude is 1.0 from the very first instant.
    assert_eq!(adsr_amplitude_at(0, 0, 1_000_000, 2_000_000, 0, None), 1_000_000);
    assert_eq!(adsr_amplitude_at(0, 0, 1_000_000, 2_000_000, 1, None), 1_000_000);
    assert_eq!(adsr_amplitude_at(0, 0, 1_000_000, 2_000_000, 9_999_999, None), 1_000_000);
}

#[test]
fn zero_release_is_silent_at_once() {
    assert_eq!(adsr_amplitude_at(0, 0, 1_000_000, 0, 50_000, Some(0)), 0);
    assert_eq!(adsr_amplitude_at(500_000, 500_000, 700_000, 0, 123, Some(1)), 0);
}

#[test]
fn release_fades_from_sustain_to_zero() {
    // Two-second release from sustain 0.8: halfway through the release
    // the amplitude is 0.4, and past the end it is 0.
    let r = 2_000_000;
    assert_eq!(adsr_amplitude_at(0, 0, 800_000, r, 0, Some(0)), 800_000);
    assert_eq!(adsr_amplitude_at(0, 0, 800_000, r, 0, Some(1_000_000)), 400_000);
    assert_eq!(adsr_amplitude_at(0, 0, 800_000, r, 0, Some(2_000_000)), 0);
    assert_eq!(adsr_amplitude_at(0, 0, 800_000, r, 0, Some(9_000_000)), 0);
}

#[test]
fn envelope_stage_shapes_the_oscillator() {
    // Square wave with instant attack at full sustain: the first sample
    // is the full positive square level.
    let osc = Oscillator::new(Waveform::SQUARE, 441_000, 44_100);
    let mut env = ADSREnvelope::new(osc, 0, 0, 1_000_000, 2_000_000, 44_100);
    assert_eq!(env.next_sample(), Some(1_000_000));
}

#[test]
fn signaled_release_with_zero_duration_ends_stream() {
    let osc = Oscillator::new(Waveform::SQUARE, 441_000, 44_100);
    let mut env = ADSREnvelope::new(osc, 0, 0, 1_000_000, 0, 44_100);
    assert!(env.next_sample().is_some());
    env.signal_release();
    assert_eq!(env.next_sample(), None);
    assert_eq!(env.next_sample(), None);
}

#[test]
fn stream_terminates_without_any_release_signal() {
    // The auto-release safety net plus the lifetime cap guarantee a
    // finite stream even when no release is ever signaled.
    let osc = Oscillator::new(Waveform::SINE, 441_000, 8_000);
    let mut env = ADSREnvelope::new(osc, 0, 0, 1_000_000, 2_000_000, 8_000);
    let mut produced = 0u64;
    while env.next_sample().is_some() {
        produced += 1;
        assert!(produced <= MAX_LIFETIME_SECS * 8_000 + 1);
    }
    // Five seconds of sustain plus two of release at 8 kHz.
    assert_eq!(produced, 5 * 8_000 + 2 * 8_000);
}
