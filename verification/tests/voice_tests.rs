use synth_core::voice::Voice;
use synth_core::waveforms::Waveform;

#[test]
fn assembled_voice_snapshots_its_configuration() {
    let v = Voice::assemble(
        Waveform::TRIANGLE,
        440_000,
        10,
        20,
        99,
        30,
        true,
        false,
        true,
        44_100,
    );
    assert_eq!(v.env.osc.waveform, Waveform::TRIANGLE);
    assert_eq!(v.env.osc.phase, 0);
    assert_eq!(v.env.attack_us, 10 * 2_000_000 / 99);
    assert_eq!(v.env.decay_us, 20 * 2_000_000 / 99);
    assert_eq!(v.env.sustain_level, 1_000_000);
    assert_eq!(v.env.release_us, 30 * 2_000_000 / 99);
    assert!(v.chain.delay_enabled);
    assert!(!v.chain.reverb_enabled);
    assert!(v.chain.flanger_enabled);
    assert!(v.use_effects);
}

#[test]
fn square_voice_opens_at_the_output_gain() {
    // Instant attack at full sustain, no effects: the first sample is
    // the full square level scaled by the 0.25 output gain.
    let mut v = Voice::assemble(
        Waveform::SQUARE,
        441_000,
        0,
        0,
        99,
        99,
        false,
        false,
        false,
        44_100,
    );
    assert_eq!(v.next_sample(), Some(250_000));
}

#[test]
fn sine_voice_opens_at_zero_crossing() {
    let mut v = Voice::assemble(
        Waveform::SINE,
        441_000,
        0,
        0,
        99,
        99,
        false,
        false,
        false,
        44_100,
    );
    assert_eq!(v.next_sample(), Some(0));
}

#[test]
fn released_voice_fades_and_ends() {
    let mut v = Voice::assemble(
        Waveform::SQUARE,
        441_000,
        0,
        0,
        99,
        0,
        false,
        false,
        false,
        44_100,
    );
    assert!(v.next_sample().is_some());
    v.signal_release();
    assert_eq!(v.next_sample(), None);
}

#[test]
fn voice_samples_stay_within_the_output_range() {
    let mut v = Voice::assemble(
        Waveform::SAWTOOTH,
        523_000,
        5,
        5,
        80,
        40,
        false,
        false,
        false,
        44_100,
    );
    for _ in 0..10_000 {
        match v.next_sample() {
            Some(s) => assert!(-250_000 <= s && s <= 250_000),
            None => break,
        }
    }
}
