use synth_core::music_theory::Note;
use synth_core::waveforms::{wave_sample, Oscillator, Waveform, AMP_ONE, PHASE_HALF};

#[test]
fn square_wave_levels() {
    assert_eq!(wave_sample(Waveform::SQUARE, 0), AMP_ONE);
    assert_eq!(wave_sample(Waveform::SQUARE, PHASE_HALF - 1), AMP_ONE);
    assert_eq!(wave_sample(Waveform::SQUARE, PHASE_HALF), -AMP_ONE);
    assert_eq!(wave_sample(Waveform::SQUARE, 999_999_999), -AMP_ONE);
}

#[test]
fn sawtooth_ramps_once_per_cycle() {
    assert_eq!(wave_sample(Waveform::SAWTOOTH, 0), -1_000_000);
    assert_eq!(wave_sample(Waveform::SAWTOOTH, 500_000_000), 0);
    assert_eq!(wave_sample(Waveform::SAWTOOTH, 750_000_000), 500_000);
}

#[test]
fn triangle_peaks_at_half_cycle() {
    assert_eq!(wave_sample(Waveform::TRIANGLE, 0), -1_000_000);
    assert_eq!(wave_sample(Waveform::TRIANGLE, 250_000_000), 0);
    assert_eq!(wave_sample(Waveform::TRIANGLE, 500_000_000), 1_000_000);
    assert_eq!(wave_sample(Waveform::TRIANGLE, 750_000_000), 0);
}

#[test]
fn sine_crosses_zero_and_peaks() {
    assert_eq!(wave_sample(Waveform::SINE, 0), 0);
    assert_eq!(wave_sample(Waveform::SINE, 250_000_000), 1_000_000);
    assert_eq!(wave_sample(Waveform::SINE, 500_000_000), 0);
    assert_eq!(wave_sample(Waveform::SINE, 750_000_000), -1_000_000);
}

#[test]
fn sine_generator_is_periodic_and_bounded() {
    // 441 Hz at 44100 Hz: the frequency divides the sample rate, so the
    // phase step is exactly one hundredth of a cycle and the sample
    // sequence repeats with period 100 samples.
    let mut osc = Oscillator::new(Waveform::SINE, 441_000, 44_100);
    assert_eq!(osc.step, 10_000_000);
    let mut samples = Vec::new();
    for _ in 0..300 {
        let s = osc.next_sample();
        assert!(-AMP_ONE <= s && s <= AMP_ONE);
        samples.push(s);
    }
    for i in 0..200 {
        assert_eq!(samples[i], samples[i + 100]);
    }
}

#[test]
fn every_waveform_stays_in_unit_range() {
    for kind in [
        Waveform::SINE,
        Waveform::SQUARE,
        Waveform::TRIANGLE,
        Waveform::SAWTOOTH,
    ] {
        let mut osc = Oscillator::new(kind, 439_871, 44_100);
        for _ in 0..2000 {
            let s = osc.next_sample();
            assert!(-AMP_ONE <= s && s <= AMP_ONE);
        }
    }
}

#[test]
fn standard_pitch_and_octave_doubling() {
    assert_eq!(Note::A.frequency(4), 440_000);
    assert_eq!(Note::A.frequency(5), 880_000);
    assert_eq!(Note::A.frequency(0), 27_500);
    assert_eq!(Note::C.frequency(0), 16_352);
    assert_eq!(Note::B.frequency(8), 30_868 * 256);
    for octave in 0..8 {
        assert_eq!(Note::E.frequency(octave + 1), 2 * Note::E.frequency(octave));
    }
}

#[test]
fn chromatic_indices_cover_the_octave() {
    assert_eq!(Note::C.chromatic_index(), 0);
    assert_eq!(Note::FSharp.chromatic_index(), 6);
    assert_eq!(Note::B.chromatic_index(), 11);
}
