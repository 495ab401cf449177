use synth_core::keymap::{create_tangent_map, get_key_position, get_note_sprite_index};
use synth_core::music_theory::Note;
use synth_core::playback::handle_playback;
use synth_core::state::{
    handle_key_press, handle_key_release, handle_musical_note, EffectKind, RecordingState, State,
};
use synth_core::waveforms::Waveform;

#[test]
fn fresh_state_has_the_documented_defaults() {
    let s = State::new();
    assert_eq!(s.octave, 4);
    assert_eq!(s.waveform, Waveform::SINE);
    assert_eq!(s.attack, 0);
    assert_eq!(s.decay, 0);
    assert_eq!(s.sustain, 99);
    assert_eq!(s.release, 20);
    assert_eq!(s.recording_state, RecordingState::Stopped);
    assert!(s.recorded_notes.is_empty());
    assert!(!s.delay_enabled && !s.reverb_enabled && !s.flanger_enabled);
}

#[test]
fn octave_steps_saturate_at_the_bounds() {
    let mut s = State::new();
    for _ in 0..20 {
        s.increase_octave();
    }
    assert_eq!(s.get_current_octave(), 8);
    for _ in 0..20 {
        s.decrease_octave();
    }
    assert_eq!(s.get_current_octave(), 0);
}

#[test]
fn waveform_toggle_cycles_through_all_four() {
    let mut s = State::new();
    s.toggle_waveform();
    assert_eq!(s.waveform, Waveform::SQUARE);
    s.toggle_waveform();
    assert_eq!(s.waveform, Waveform::TRIANGLE);
    s.toggle_waveform();
    assert_eq!(s.waveform, Waveform::SAWTOOTH);
    s.toggle_waveform();
    assert_eq!(s.waveform, Waveform::SINE);
}

#[test]
fn adsr_controls_saturate_at_their_range() {
    let mut s = State::new();
    for _ in 0..150 {
        s.increase_attack();
        s.increase_release();
    }
    assert_eq!(s.attack, 99);
    assert_eq!(s.release, 99);
    for _ in 0..150 {
        s.decrease_attack();
        s.decrease_sustain();
    }
    assert_eq!(s.attack, 0);
    assert_eq!(s.sustain, 0);
    assert_eq!(s.attack_normalized(), 0);
    s.increase_attack();
    assert_eq!(s.attack_normalized(), 1_000_000 / 99);
}

#[test]
fn lowpass_scales_by_sevenths() {
    let mut s = State::new();
    assert_eq!(s.apply_lpf(7_000_000), 7_000_000);
    s.toggle_lpf();
    s.decrease_filter_cutoff();
    assert_eq!(s.apply_lpf(7_000_000), 6_000_000);
    for _ in 0..10 {
        s.decrease_filter_cutoff();
    }
    assert_eq!(s.apply_lpf(7_000_000), 1_000_000);
    s.toggle_lpf();
    assert_eq!(s.apply_lpf(7_000_000), 7_000_000);
}

#[test]
fn display_amplitude_is_zero_without_a_key_or_release() {
    let s = State::new();
    assert_eq!(s.calculate_adsr_amplitude(123_456, false, None), 0);
    assert_eq!(s.calculate_adsr_amplitude(0, true, None), 1_000_000);
}

#[test]
fn recording_then_stopping_without_notes_is_empty() {
    let mut s = State::new();
    s.start_recording(1_000);
    assert_eq!(s.recording_state, RecordingState::Recording);
    s.stop_recording(2_000);
    assert_eq!(s.recording_state, RecordingState::Stopped);
    assert!(s.recorded_notes.is_empty());
}

#[test]
fn recording_captures_timestamps_and_durations() {
    let mut s = State::new();
    s.start_recording(0);
    handle_key_press(&mut s, Note::A, 0);
    handle_key_press(&mut s, Note::B, 500_000);
    s.stop_recording(800_000);
    assert_eq!(s.recorded_notes.len(), 2);
    assert_eq!(s.recorded_notes[0].note, Note::A);
    assert_eq!(s.recorded_notes[0].timestamp, 0);
    assert_eq!(s.recorded_notes[0].duration, 500_000);
    assert_eq!(s.recorded_notes[1].note, Note::B);
    assert_eq!(s.recorded_notes[1].timestamp, 500_000);
    assert_eq!(s.recorded_notes[1].duration, 300_000);
}

#[test]
fn playback_with_nothing_recorded_is_a_no_op() {
    let mut s = State::new();
    s.start_playback(5_000);
    assert_eq!(s.recording_state, RecordingState::Stopped);
    let voices = handle_playback(&mut s, 6_000);
    assert!(voices.is_empty());
}

#[test]
fn playback_replays_the_two_notes_and_loops() {
    // Record note A at 0 held half a second and note B at half a second
    // held three tenths: the loop is 0.8 seconds long, A fires at its
    // head, B fires at half a second, and the cycle repeats.
    let mut s = State::new();
    s.start_recording(0);
    handle_key_press(&mut s, Note::A, 0);
    handle_key_press(&mut s, Note::B, 500_000);
    s.stop_recording(800_000);
    s.start_playback(1_000_000);

    // Just after the start: only A is due, inside the leading window.
    let v1 = handle_playback(&mut s, 1_010_000);
    assert_eq!(v1.len(), 1);
    assert_eq!(s.pressed_key, Some(Note::A));

    // Nothing new between the two notes.
    let v2 = handle_playback(&mut s, 1_200_000);
    assert_eq!(v2.len(), 0);

    // At half a second: B is due.
    let v3 = handle_playback(&mut s, 1_500_000);
    assert_eq!(v3.len(), 1);
    assert_eq!(s.pressed_key, Some(Note::B));

    // One full loop later the position wraps and A fires again.
    let v4 = handle_playback(&mut s, 1_810_000);
    assert_eq!(v4.len(), 1);
    assert_eq!(s.pressed_key, Some(Note::A));

    // In the second cycle B comes due at its offset again.
    let v5 = handle_playback(&mut s, 2_310_000);
    assert_eq!(v5.len(), 1);
    assert_eq!(s.pressed_key, Some(Note::B));

    // And at the next wrap A fires once more: the cycle repeats every
    // 0.8 seconds.
    let v6 = handle_playback(&mut s, 2_605_000);
    assert_eq!(v6.len(), 1);
    assert_eq!(s.pressed_key, Some(Note::A));
}

#[test]
fn playback_restores_the_live_octave() {
    // Record a note at octave 4, then change the live octave to 6:
    // replay triggers the voice at the recorded octave, and the live
    // octave setting is untouched afterwards.
    let mut s = State::new();
    s.start_recording(0);
    handle_key_press(&mut s, Note::A, 0);
    s.stop_recording(100_000);
    s.increase_octave();
    s.increase_octave();
    assert_eq!(s.get_current_octave(), 6);
    s.start_playback(1_000_000);
    let voices = handle_playback(&mut s, 1_010_000);
    assert_eq!(voices.len(), 1);
    // The replayed voice carries the recorded octave's pitch: A4 is
    // 440 Hz, so the phase step at 44100 Hz is 440000 * 1e9 / 44100000.
    assert_eq!(voices[0].env.osc.step, 440_000_000_000_000 / 44_100_000);
    // The temporary override leaked nowhere: the live octave stands.
    assert_eq!(s.get_current_octave(), 6);
    // A live trigger after playback uses the live octave: A6 is 1760 Hz.
    let mut s2 = s;
    let v = handle_musical_note(&mut s2, Note::A, 2_000_000);
    assert_eq!(v.env.osc.step, 1_760_000_000_000_000 / 44_100_000);
}

#[test]
fn toggling_an_effect_spares_the_existing_voice() {
    // A voice assembled before the toggle keeps its snapshot; only a
    // voice assembled afterwards carries the new flag.
    let mut s = State::new();
    let v1 = handle_musical_note(&mut s, Note::C, 0);
    assert!(!v1.chain.delay_enabled);
    s.toggle_effect(EffectKind::Delay);
    assert!(!v1.chain.delay_enabled);
    assert!(!v1.use_effects);
    let v2 = handle_musical_note(&mut s, Note::C, 1_000);
    assert!(v2.chain.delay_enabled);
    assert!(v2.use_effects);
    // The toggle changed nothing else about later voices.
    assert_eq!(v2.env.osc.step, v1.env.osc.step);
    assert_eq!(v2.chain.reverb_enabled, v1.chain.reverb_enabled);
    assert_eq!(v2.chain.flanger_enabled, v1.chain.flanger_enabled);
    s.toggle_effect(EffectKind::Delay);
    let v3 = handle_musical_note(&mut s, Note::C, 2_000);
    assert!(!v3.chain.delay_enabled);
}

#[test]
fn key_release_latches_and_clears_the_display() {
    let mut s = State::new();
    handle_key_press(&mut s, Note::D, 0);
    assert!(s.current_frequency.is_some());
    // Release control 20 is above the hard-stop threshold.
    let hard = handle_key_release(&mut s, 10_000, false);
    assert!(!hard);
    assert_eq!(s.key_release_time, Some(10_000));
    // Before the clear time nothing is cleared.
    let _ = handle_key_release(&mut s, 20_000, false);
    assert!(s.current_frequency.is_some());
    // Past the clear time the display observables are cleared.
    let _ = handle_key_release(&mut s, 10_000 + 500_000, false);
    assert!(s.current_frequency.is_none());
    assert!(s.key_release_time.is_none());
}

#[test]
fn quick_release_asks_for_a_hard_stop() {
    let mut s = State::new();
    for _ in 0..15 {
        s.decrease_release();
    }
    assert!(s.release <= 10);
    handle_key_press(&mut s, Note::E, 0);
    let hard = handle_key_release(&mut s, 1_000, false);
    assert!(hard);
}

#[test]
fn key_positions_and_sprites() {
    assert_eq!(get_key_position(&Note::C), Some(1));
    assert_eq!(get_key_position(&Note::CSharp), Some(1));
    assert_eq!(get_key_position(&Note::B), Some(7));
    assert_eq!(get_note_sprite_index(&Note::A), Some(9));
    assert_eq!(get_note_sprite_index(&Note::C), Some(0));
}

#[test]
fn tangent_map_covers_the_five_sharps() {
    let m = create_tangent_map();
    assert_eq!(m.len(), 5);
    assert_eq!(m.get(&2), Some(&1));
    assert_eq!(m.get(&3), Some(&3));
    assert_eq!(m.get(&5), Some(&6));
    assert_eq!(m.get(&6), Some(&8));
    assert_eq!(m.get(&7), Some(&10));
}

#[test]
fn trigger_stores_the_base_pitch_but_plays_the_filtered_one() {
    // With the lowpass a seventh down, the display shows the note's
    // true pitch while the voice oscillates at the scaled one.
    let mut s = State::new();
    s.toggle_lpf();
    s.decrease_filter_cutoff();
    let v = handle_musical_note(&mut s, Note::A, 0);
    assert_eq!(s.current_frequency, Some(440_000));
    let filtered = 440_000u64 * 6 / 7;
    assert_eq!(v.env.osc.step, filtered * 1_000_000_000 / 44_100_000);
}

#[test]
fn pressing_a_key_replaces_the_pressed_note() {
    let mut s = State::new();
    handle_key_press(&mut s, Note::F, 0);
    assert_eq!(s.pressed_key, Some(Note::F));
    handle_key_press(&mut s, Note::G, 1_000);
    assert_eq!(s.pressed_key, Some(Note::G));
}

#[test]
fn display_fades_out_over_two_seconds_after_release() {
    let mut s = State::new();
    handle_key_press(&mut s, Note::A, 0);
    assert_eq!(s.display_params(100_000), (440_000, 1_000_000));
    for _ in 0..15 {
        s.increase_release();
    }
    let _ = handle_key_release(&mut s, 200_000, false);
    // Half a fade later the brightness is half.
    assert_eq!(s.display_params(1_200_000), (440_000, 500_000));
    // Past two seconds the waveform is dark.
    assert_eq!(s.display_params(2_300_000).1, 0);
}
