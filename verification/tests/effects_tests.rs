use synth_core::effects::{
    clamp_input, DelayEffect, EffectsChain, FlangerEffect, ReverbEffect,
};

#[test]
fn input_clamp_bounds_loud_samples() {
    assert_eq!(clamp_input(0), 0);
    assert_eq!(clamp_input(1_999_999), 1_999_999);
    assert_eq!(clamp_input(5_000_000), 2_000_000);
    assert_eq!(clamp_input(-5_000_000), -2_000_000);
}

#[test]
fn delay_with_no_feedback_and_full_mix_is_a_pure_fixed_delay() {
    // An 8-sample line (1 ms at 8 kHz): with feedback 0 and wet mix 1.0
    // the output at time t is exactly the input at time t - 8.
    let mut d = DelayEffect::new(1, 0, 1_000_000, 8_000);
    let inputs: Vec<i64> = (1..=40).map(|i| i * 10_000).collect();
    let mut outputs = Vec::new();
    for &x in &inputs {
        outputs.push(d.process_sample(x));
    }
    for i in 0..8 {
        assert_eq!(outputs[i], 0);
    }
    for i in 8..40 {
        assert_eq!(outputs[i], inputs[i - 8]);
    }
}

#[test]
fn delay_with_dry_mix_passes_the_input_through() {
    let mut d = DelayEffect::new(1, 500_000, 0, 8_000);
    for x in [-1_500_000i64, 0, 700_000] {
        assert_eq!(d.process_sample(x), x);
    }
}

#[test]
fn delay_clamps_its_input_at_the_effect_bound() {
    let mut d = DelayEffect::new(1, 0, 1_000_000, 8_000);
    for _ in 0..8 {
        d.process_sample(9_000_000);
    }
    assert_eq!(d.process_sample(0), 2_000_000);
}

#[test]
fn delay_feedback_recirculates_the_line() {
    // One-sample impulse into a short line with feedback one half and a
    // fully wet mix: the impulse comes back every 8 samples, halved.
    let mut d = DelayEffect::new(1, 500_000, 1_000_000, 8_000);
    let mut outputs = Vec::new();
    outputs.push(d.process_sample(1_000_000));
    for _ in 0..24 {
        outputs.push(d.process_sample(0));
    }
    assert_eq!(outputs[8], 1_000_000);
    assert_eq!(outputs[16], 500_000);
    assert_eq!(outputs[24], 250_000);
}

#[test]
fn reverb_with_dry_mix_passes_the_input_through() {
    let mut r = ReverbEffect::new(700_000, 400_000, 0, 8_000);
    for x in [-900_000i64, 0, 1_200_000] {
        assert_eq!(r.process_sample(x), x);
    }
}

#[test]
fn reverb_wet_signal_starts_silent() {
    // A fully wet reverb with silent delay lines outputs silence first.
    let mut r = ReverbEffect::new(700_000, 0, 1_000_000, 8_000);
    assert_eq!(r.process_sample(1_000_000), 0);
}

#[test]
fn flanger_with_dry_mix_passes_the_input_through() {
    let mut f = FlangerEffect::new(500, 700_000, 100, 0, 8_000);
    for x in [-800_000i64, 0, 600_000] {
        assert_eq!(f.process_sample(x), x);
    }
}

#[test]
fn disabled_chain_is_a_pure_pass_through() {
    let mut c = EffectsChain::new(false, false, false, 44_100);
    for x in [i64::MIN / 4, -3, 0, 123_456_789] {
        assert_eq!(c.process_sample(x), x);
    }
}

#[test]
fn chain_snapshots_its_enabled_flags() {
    let c = EffectsChain::new(true, false, true, 44_100);
    assert!(c.delay_enabled);
    assert!(!c.reverb_enabled);
    assert!(c.flanger_enabled);
}

#[test]
fn chain_applies_the_delay_stage_when_enabled() {
    // Only the delay enabled, with the standard parameters (300 ms at
    // 8 kHz is a 2400-sample line, wet mix one half): the first output
    // blends the dry input with a silent line.
    let mut c = EffectsChain::new(true, false, false, 8_000);
    let out = c.process_sample(1_000_000);
    assert_eq!(out, 500_000);
}

#[test]
fn flanger_wet_signal_starts_silent() {
    let mut f = FlangerEffect::new(500, 700_000, 100, 1_000_000, 8_000);
    assert_eq!(f.process_sample(1_000_000), 0);
}

#[test]
fn reverb_room_size_lengthens_the_tail() {
    // A larger room recirculates more energy: after the same impulse,
    // the big-room comb bank returns a louder echo than the dead room.
    let mut dead = ReverbEffect::new(0, 0, 1_000_000, 8_000);
    let mut big = ReverbEffect::new(1_000_000, 0, 1_000_000, 8_000);
    let mut dead_energy: i64 = 0;
    let mut big_energy: i64 = 0;
    dead.process_sample(1_000_000);
    big.process_sample(1_000_000);
    for _ in 0..2_000 {
        dead_energy += dead.process_sample(0).abs();
        big_energy += big.process_sample(0).abs();
    }
    assert!(big_energy > dead_energy);
}
