//! The synthesizer state: global configuration, the note-trigger
//! controller, and the recording bookkeeping.
//!
//! All times are microsecond timestamps handed in by the caller from a
//! monotonic clock; the state never reads a clock itself, which keeps
//! every transition a pure function of its explicit inputs.

use vstd::prelude::*;
use crate::envelope::adsr_amplitude;
use crate::envelope::adsr_amplitude_at;
use crate::envelope::control_duration_us;
use crate::envelope::control_level_micro;
use crate::envelope::duration_from_control;
use crate::envelope::level_from_control;
use crate::music_theory::Note;
use crate::music_theory::OCTAVE_LOWER_BOUND;
use crate::music_theory::OCTAVE_UPPER_BOUND;
use crate::music_theory::frequency_spec;
use crate::music_theory::lemma_frequency_bounds;
use crate::voice::Voice;
use crate::waveforms::Waveform;
use vstd::arithmetic::div_mod::lemma_div_is_ordered;
use vstd::arithmetic::div_mod::lemma_div_by_multiple;

verus! {

/// Sprite index of the sine waveform on the display.
pub const WAVEFORM_SINE: usize = 0;

/// Sprite index of the square waveform on the display.
pub const WAVEFORM_SQUARE: usize = 1;

/// Sprite index of the triangle waveform on the display.
pub const WAVEFORM_TRIANGLE: usize = 2;

/// Sprite index of the sawtooth waveform on the display.
pub const WAVEFORM_SAWTOOTH: usize = 3;

/// Latest timestamp the state accepts, in microseconds: far beyond any
/// session length, it keeps every duration sum inside a `u64`.
pub const TIME_MAX_US: u64 = 4_000_000_000_000_000;

/// One note of a recorded performance, immutable once appended.
#[derive(Clone, Copy, Debug, PartialEq, Eq, Structural)]
pub struct RecordedNote {
    /// The note that was played.
    pub note: Note,
    /// The octave it was played at.
    pub octave: i32,
    /// Microseconds from the start of the recording to the note's start.
    pub timestamp: u64,
    /// Microseconds the note was held.
    pub duration: u64,
}

/// Lifecycle of the recording and playback session.  Recording and
/// playing are mutually exclusive.
#[derive(Clone, Copy, Debug, PartialEq, Eq, Structural)]
pub enum RecordingState {
    /// Neither recording nor playing.
    Stopped,
    /// Capturing triggered notes into the recorded sequence.
    Recording,
    /// Replaying the recorded sequence in a loop.
    Playing,
}

/// A recorded sequence is well formed when its timestamps are
/// non-decreasing in append order, every octave is in range, and all
/// times stay below the session bound.
pub open spec fn notes_wf(s: Seq<RecordedNote>) -> bool {
    &&& forall|i: int| 0 <= i < s.len() ==> OCTAVE_LOWER_BOUND <= (#[trigger] s[i]).octave
        <= OCTAVE_UPPER_BOUND
    &&& forall|i: int| 0 <= i < s.len() ==> (#[trigger] s[i]).timestamp <= TIME_MAX_US
        && s[i].duration <= TIME_MAX_US
    &&& forall|i: int, j: int| 0 <= i <= j < s.len() ==> (#[trigger] s[i]).timestamp
        <= (#[trigger] s[j]).timestamp
}

/// The synthesizer state.
pub struct State {
    /// Current octave, within the supported bounds.
    pub octave: i32,
    /// Waveform used for the next triggered voice.
    pub waveform: Waveform,
    /// The note whose key is held, if any.
    pub pressed_key: Option<Note>,
    /// Sprite index of the current waveform on the display.
    pub waveform_sprite_index: usize,
    /// Lowpass scaling as a count of sevenths: 7 is a factor of 1.0 and
    /// each step moves the factor by one seventh.
    pub filter_sevenths: u8,
    /// Whether the lowpass scaling responds to cutoff changes: 0 or 1.
    pub lpf_active: usize,
    /// Frequency of the playing note in milli-hertz, for the display.
    pub current_frequency: Option<u64>,
    /// When the display animation started, in microseconds.
    pub animation_start_time: u64,
    /// When the held key was released, in microseconds, while the display
    /// fades out.
    pub key_release_time: Option<u64>,
    /// Attack control value, 0 to 99.
    pub attack: u8,
    /// Decay control value, 0 to 99.
    pub decay: u8,
    /// Sustain control value, 0 to 99.
    pub sustain: u8,
    /// Release control value, 0 to 99.
    pub release: u8,
    /// Whether the delay effect is enabled for the next voice.
    pub delay_enabled: bool,
    /// Whether the reverb effect is enabled for the next voice.
    pub reverb_enabled: bool,
    /// Whether the flanger effect is enabled for the next voice.
    pub flanger_enabled: bool,
    /// Lifecycle of the recording and playback session.
    pub recording_state: RecordingState,
    /// The recorded performance, in temporal order.
    pub recorded_notes: Vec<RecordedNote>,
    /// When the recording started, in microseconds.
    pub recording_start_time: Option<u64>,
    /// When the playback started, in microseconds.
    pub playback_start_time: Option<u64>,
    /// The note currently held while recording: start instant, note and
    /// octave, not yet finalized.
    pub current_note_start: Option<(u64, Note, i32)>,
    /// Playback watermark: the replay position examined last, owned by
    /// this session and reset when playback starts.
    pub last_loop_time: Option<u64>,
    /// Output sample rate in hertz.
    pub sample_rate: u32,
}

impl State {
    /// Configuration and session bookkeeping are all within their
    /// ranges, and the recording fields are consistent with the
    /// lifecycle state.
    pub open spec fn wf(self) -> bool {
        &&& OCTAVE_LOWER_BOUND <= self.octave <= OCTAVE_UPPER_BOUND
        &&& self.attack <= 99
        &&& self.decay <= 99
        &&& self.sustain <= 99
        &&& self.release <= 99
        &&& 1 <= self.filter_sevenths <= 7
        &&& self.lpf_active <= 1
        &&& 8000 <= self.sample_rate <= 192_000
        &&& notes_wf(self.recorded_notes@)
        &&& (self.recording_state == RecordingState::Recording ==> (self.recording_start_time
            is Some))
        &&& (self.recording_state == RecordingState::Playing ==> (self.playback_start_time
            is Some) && self.recorded_notes@.len() > 0)
        &&& (self.recording_state == RecordingState::Recording ==> ((self.current_note_start
            is Some) || self.recorded_notes@.len() == 0))
        &&& (match self.recording_start_time {
            Option::Some(rs) => rs <= TIME_MAX_US,
            Option::None => true,
        })
        &&& (match self.current_note_start {
            Option::Some((st, n, o)) => {
                &&& (match self.recording_start_time {
                    Option::Some(rs) => rs <= st && (self.recorded_notes@.len() == 0
                        || self.recorded_notes@.last().timestamp <= st - rs),
                    Option::None => false,
                })
                &&& st <= TIME_MAX_US
                &&& OCTAVE_LOWER_BOUND <= o <= OCTAVE_UPPER_BOUND
            },
            Option::None => true,
        })
    }

    /// A fresh synthesizer: octave 4, sine waveform, instant attack and
    /// decay, full sustain, quick release, no effects, no session.
    pub fn new() -> (s: State)
        ensures
            s.wf(),
            s.octave == 4,
            s.waveform == Waveform::SINE,
            (s.pressed_key is None),
            s.waveform_sprite_index == WAVEFORM_SINE,
            s.filter_sevenths == 7,
            s.lpf_active == 0,
            (s.current_frequency is None),
            s.animation_start_time == 0,
            (s.key_release_time is None),
            s.attack == 0,
            s.decay == 0,
            s.sustain == 99,
            s.release == 20,
            !s.delay_enabled,
            !s.reverb_enabled,
            !s.flanger_enabled,
            s.recording_state == RecordingState::Stopped,
            s.recorded_notes@.len() == 0,
            (s.recording_start_time is None),
            (s.playback_start_time is None),
            (s.current_note_start is None),
            (s.last_loop_time is None),
            s.sample_rate == 44_100,
    {
        State {
            octave: 4,
            waveform: Waveform::SINE,
            pressed_key: Option::None,
            waveform_sprite_index: WAVEFORM_SINE,
            filter_sevenths: 7,
            lpf_active: 0,
            current_frequency: Option::None,
            animation_start_time: 0,
            key_release_time: Option::None,
            attack: 0,
            decay: 0,
            sustain: 99,
            release: 20,
            delay_enabled: false,
            reverb_enabled: false,
            flanger_enabled: false,
            recording_state: RecordingState::Stopped,
            recorded_notes: Vec::new(),
            recording_start_time: Option::None,
            playback_start_time: Option::None,
            current_note_start: Option::None,
            last_loop_time: Option::None,
            sample_rate: 44_100,
        }
    }

    /// Scales a frequency by the lowpass factor: `filter_sevenths / 7`.
    pub fn apply_lpf(&mut self, freq_millihz: u64) -> (r: u64)
        requires
            old(self).wf(),
            freq_millihz <= 10_000_000,
        ensures
            *final(self) == *old(self),
            r == apply_lpf_spec(freq_millihz, old(self).filter_sevenths),
            r <= freq_millihz,
            freq_millihz >= 7 ==> r >= freq_millihz / 7,
    {
        proof {
            assert(freq_millihz <= freq_millihz * self.filter_sevenths
                && freq_millihz * self.filter_sevenths <= freq_millihz * 7) by (nonlinear_arith)
                requires 1 <= self.filter_sevenths <= 7 && 0 <= freq_millihz;
            lemma_div_is_ordered(
                freq_millihz * self.filter_sevenths,
                freq_millihz * 7,
                7,
            );
            lemma_div_by_multiple(freq_millihz as int, 7);
            if freq_millihz >= 7 {
                lemma_div_is_ordered(
                    freq_millihz as int,
                    freq_millihz * self.filter_sevenths,
                    7,
                );
            }
        }
        freq_millihz * self.filter_sevenths as u64 / 7
    }

    /// Raises the octave by one, saturating at the upper bound.
    pub fn increase_octave(&mut self)
        requires
            old(self).wf(),
        ensures
            final(self).wf(),
            final(self).octave == if old(self).octave < OCTAVE_UPPER_BOUND {
                (old(self).octave + 1) as i32
            } else {
                old(self).octave
            },
            *final(self) == (State { octave: final(self).octave, ..*old(self) }),
    {
        if self.octave < OCTAVE_UPPER_BOUND {
            self.octave = self.octave + 1;
        }
    }

    /// Lowers the octave by one, saturating at the lower bound.
    pub fn decrease_octave(&mut self)
        requires
            old(self).wf(),
        ensures
            final(self).wf(),
            final(self).octave == if old(self).octave > OCTAVE_LOWER_BOUND {
                (old(self).octave - 1) as i32
            } else {
                old(self).octave
            },
            *final(self) == (State { octave: final(self).octave, ..*old(self) }),
    {
        if self.octave > OCTAVE_LOWER_BOUND {
            self.octave = self.octave - 1;
        }
    }

    /// Toggles the lowpass scaling on or off and resets the factor to
    /// 1.0.
    pub fn toggle_lpf(&mut self)
        requires
            old(self).wf(),
        ensures
            final(self).wf(),
            final(self).lpf_active == if old(self).lpf_active == 1 {
                0usize
            } else {
                1usize
            },
            final(self).filter_sevenths == 7,
            *final(self) == (State {
                lpf_active: final(self).lpf_active,
                filter_sevenths: 7,
                ..*old(self)
            }),
    {
        self.lpf_active = if self.lpf_active == 1 {
            0
        } else {
            1
        };
        self.filter_sevenths = 7;
    }

    /// Raises the lowpass cutoff by one seventh, while the factor stays
    /// at most 0.9 and the filter is active.
    pub fn increase_filter_cutoff(&mut self)
        requires
            old(self).wf(),
        ensures
            final(self).wf(),
            final(self).filter_sevenths == if old(self).lpf_active == 1
                && old(self).filter_sevenths <= 6 {
                (old(self).filter_sevenths + 1) as u8
            } else {
                old(self).filter_sevenths
            },
            *final(self) == (State {
                filter_sevenths: final(self).filter_sevenths,
                ..*old(self)
            }),
    {
        if self.lpf_active == 1 && self.filter_sevenths <= 6 {
            self.filter_sevenths = self.filter_sevenths + 1;
        }
    }

    /// Lowers the lowpass cutoff by one seventh, while the factor stays
    /// at least 0.15 and the filter is active.
    pub fn decrease_filter_cutoff(&mut self)
        requires
            old(self).wf(),
        ensures
            final(self).wf(),
            final(self).filter_sevenths == if old(self).lpf_active == 1
                && old(self).filter_sevenths >= 2 {
                (old(self).filter_sevenths - 1) as u8
            } else {
                old(self).filter_sevenths
            },
            *final(self) == (State {
                filter_sevenths: final(self).filter_sevenths,
                ..*old(self)
            }),
    {
        if self.lpf_active == 1 && self.filter_sevenths >= 2 {
            self.filter_sevenths = self.filter_sevenths - 1;
        }
    }

    /// The current octave.
    pub fn get_current_octave(&self) -> (o: i32)
        ensures
            o == self.octave,
    {
        self.octave
    }

    /// Cycles the waveform through sine, square, triangle and sawtooth,
    /// keeping the display sprite in step.
    pub fn toggle_waveform(&mut self)
        requires
            old(self).wf(),
        ensures
            final(self).wf(),
            final(self).waveform == toggle_waveform_spec(old(self).waveform),
            final(self).waveform_sprite_index == waveform_sprite_spec(final(self).waveform),
            *final(self) == (State {
                waveform: final(self).waveform,
                waveform_sprite_index: final(self).waveform_sprite_index,
                ..*old(self)
            }),
    {
        self.waveform = match self.waveform {
            Waveform::SINE => {
                self.waveform_sprite_index = WAVEFORM_SQUARE;
                Waveform::SQUARE
            }
            Waveform::SQUARE => {
                self.waveform_sprite_index = WAVEFORM_TRIANGLE;
                Waveform::TRIANGLE
            }
            Waveform::TRIANGLE => {
                self.waveform_sprite_index = WAVEFORM_SAWTOOTH;
                Waveform::SAWTOOTH
            }
            Waveform::SAWTOOTH => {
                self.waveform_sprite_index = WAVEFORM_SINE;
                Waveform::SINE
            }
        };
    }

    /// Raises the attack control by one, saturating at 99.
    pub fn increase_attack(&mut self)
        requires
            old(self).wf(),
        ensures
            final(self).wf(),
            final(self).attack == if old(self).attack < 99 {
                (old(self).attack + 1) as u8
            } else {
                99u8
            },
            *final(self) == (State { attack: final(self).attack, ..*old(self) }),
    {
        if self.attack < 99 {
            self.attack = self.attack + 1;
        }
    }

    /// Lowers the attack control by one, saturating at zero.
    pub fn decrease_attack(&mut self)
        requires
            old(self).wf(),
        ensures
            final(self).wf(),
            final(self).attack == if old(self).attack > 0 {
                (old(self).attack - 1) as u8
            } else {
                0u8
            },
            *final(self) == (State { attack: final(self).attack, ..*old(self) }),
    {
        if self.attack > 0 {
            self.attack = self.attack - 1;
        }
    }

    /// Raises the decay control by one, saturating at 99.
    pub fn increase_decay(&mut self)
        requires
            old(self).wf(),
        ensures
            final(self).wf(),
            final(self).decay == if old(self).decay < 99 {
                (old(self).decay + 1) as u8
            } else {
                99u8
            },
            *final(self) == (State { decay: final(self).decay, ..*old(self) }),
    {
        if self.decay < 99 {
            self.decay = self.decay + 1;
        }
    }

    /// Lowers the decay control by one, saturating at zero.
    pub fn decrease_decay(&mut self)
        requires
            old(self).wf(),
        ensures
            final(self).wf(),
            final(self).decay == if old(self).decay > 0 {
                (old(self).decay - 1) as u8
            } else {
                0u8
            },
            *final(self) == (State { decay: final(self).decay, ..*old(self) }),
    {
        if self.decay > 0 {
            self.decay = self.decay - 1;
        }
    }

    /// Raises the sustain control by one, saturating at 99.
    pub fn increase_sustain(&mut self)
        requires
            old(self).wf(),
        ensures
            final(self).wf(),
            final(self).sustain == if old(self).sustain < 99 {
                (old(self).sustain + 1) as u8
            } else {
                99u8
            },
            *final(self) == (State { sustain: final(self).sustain, ..*old(self) }),
    {
        if self.sustain < 99 {
            self.sustain = self.sustain + 1;
        }
    }

    /// Lowers the sustain control by one, saturating at zero.
    pub fn decrease_sustain(&mut self)
        requires
            old(self).wf(),
        ensures
            final(self).wf(),
            final(self).sustain == if old(self).sustain > 0 {
                (old(self).sustain - 1) as u8
            } else {
                0u8
            },
            *final(self) == (State { sustain: final(self).sustain, ..*old(self) }),
    {
        if self.sustain > 0 {
            self.sustain = self.sustain - 1;
        }
    }

    /// Raises the release control by one, saturating at 99.
    pub fn increase_release(&mut self)
        requires
            old(self).wf(),
        ensures
            final(self).wf(),
            final(self).release == if old(self).release < 99 {
                (old(self).release + 1) as u8
            } else {
                99u8
            },
            *final(self) == (State { release: final(self).release, ..*old(self) }),
    {
        if self.release < 99 {
            self.release = self.release + 1;
        }
    }

    /// Lowers the release control by one, saturating at zero.
    pub fn decrease_release(&mut self)
        requires
            old(self).wf(),
        ensures
            final(self).wf(),
            final(self).release == if old(self).release > 0 {
                (old(self).release - 1) as u8
            } else {
                0u8
            },
            *final(self) == (State { release: final(self).release, ..*old(self) }),
    {
        if self.release > 0 {
            self.release = self.release - 1;
        }
    }

    /// The attack control as a fraction of its range, in micro-units.
    pub fn attack_normalized(&self) -> (r: u64)
        requires
            self.wf(),
        ensures
            r == self.attack * 1_000_000 / 99,
            r <= 1_000_000,
    {
        proof {
            lemma_div_is_ordered(self.attack * 1_000_000, 99_000_000, 99);
        }
        self.attack as u64 * 1_000_000 / 99
    }

    /// The decay control as a fraction of its range, in micro-units.
    pub fn decay_normalized(&self) -> (r: u64)
        requires
            self.wf(),
        ensures
            r == self.decay * 1_000_000 / 99,
            r <= 1_000_000,
    {
        proof {
            lemma_div_is_ordered(self.decay * 1_000_000, 99_000_000, 99);
        }
        self.decay as u64 * 1_000_000 / 99
    }

    /// The sustain control as a fraction of its range, in micro-units.
    pub fn sustain_normalized(&self) -> (r: u64)
        requires
            self.wf(),
        ensures
            r == self.sustain * 1_000_000 / 99,
            r <= 1_000_000,
    {
        proof {
            lemma_div_is_ordered(self.sustain * 1_000_000, 99_000_000, 99);
        }
        self.sustain as u64 * 1_000_000 / 99
    }

    /// The release control as a fraction of its range, in micro-units.
    pub fn release_normalized(&self) -> (r: u64)
        requires
            self.wf(),
        ensures
            r == self.release * 1_000_000 / 99,
            r <= 1_000_000,
    {
        proof {
            lemma_div_is_ordered(self.release * 1_000_000, 99_000_000, 99);
        }
        self.release as u64 * 1_000_000 / 99
    }

    /// Envelope amplitude for the display, in micro-units: the ADSR curve
    /// of the current control values at the given point in a note's life,
    /// or zero when no key is held and no release is fading.
    pub fn calculate_adsr_amplitude(
        &self,
        time_since_start_us: u64,
        is_key_pressed: bool,
        time_since_release_us: Option<u64>,
    ) -> (amp: i64)
        requires
            self.wf(),
        ensures
            amp == calculate_adsr_amplitude_spec(
                *self,
                time_since_start_us,
                is_key_pressed,
                time_since_release_us,
            ),
            0 <= amp <= 1_000_000,
    {
        match time_since_release_us {
            Option::Some(rt) => adsr_amplitude_at(
                duration_from_control(self.attack),
                duration_from_control(self.decay),
                level_from_control(self.sustain),
                duration_from_control(self.release),
                time_since_start_us,
                Option::Some(rt),
            ),
            Option::None => {
                if !is_key_pressed {
                    0
                } else {
                    adsr_amplitude_at(
                        duration_from_control(self.attack),
                        duration_from_control(self.decay),
                        level_from_control(self.sustain),
                        duration_from_control(self.release),
                        time_since_start_us,
                        Option::None,
                    )
                }
            }
        }
    }
}

/// The three toggleable effects.
#[derive(Clone, Copy, Debug, PartialEq, Eq, Structural)]
pub enum EffectKind {
    /// The delay stage.
    Delay,
    /// The reverb stage.
    Reverb,
    /// The flanger stage.
    Flanger,
}

/// State after toggling one effect: only that effect's flag flips.
pub open spec fn toggle_effect_spec(s: State, kind: EffectKind) -> State {
    match kind {
        EffectKind::Delay => State { delay_enabled: !s.delay_enabled, ..s },
        EffectKind::Reverb => State { reverb_enabled: !s.reverb_enabled, ..s },
        EffectKind::Flanger => State { flanger_enabled: !s.flanger_enabled, ..s },
    }
}

/// The note a recording in progress would finalize into, as a sequence:
/// empty when no note is in progress.  The timestamp is the note's start
/// relative to the recording start; the duration is how long it was held.
pub open spec fn finalized_note_seq(s: State, now_us: u64) -> Seq<RecordedNote> {
    match s.current_note_start {
        Option::Some((st, n, o)) => match s.recording_start_time {
            Option::Some(rs) => seq![
                RecordedNote {
                    note: n,
                    octave: o,
                    timestamp: (st - rs) as u64,
                    duration: (now_us - st) as u64,
                },
            ],
            Option::None => seq![
                RecordedNote { note: n, octave: o, timestamp: 0, duration: (now_us - st) as u64 },
            ],
        },
        Option::None => Seq::empty(),
    }
}

impl State {
    /// Flips one effect's enabled flag for voices assembled afterwards.
    /// Nothing else changes — in particular no existing voice.
    pub fn toggle_effect(&mut self, kind: EffectKind)
        requires
            old(self).wf(),
        ensures
            final(self).wf(),
            *final(self) == toggle_effect_spec(*old(self), kind),
    {
        match kind {
            EffectKind::Delay => {
                self.delay_enabled = !self.delay_enabled;
            }
            EffectKind::Reverb => {
                self.reverb_enabled = !self.reverb_enabled;
            }
            EffectKind::Flanger => {
                self.flanger_enabled = !self.flanger_enabled;
            }
        }
    }

    /// Starts a recording session now: the recorded sequence is cleared
    /// and triggered notes are captured from here on.
    pub fn start_recording(&mut self, now_us: u64)
        requires
            old(self).wf(),
            now_us <= TIME_MAX_US,
        ensures
            final(self).wf(),
            final(self).recording_state == RecordingState::Recording,
            final(self).recording_start_time == Option::Some(now_us),
            final(self).recorded_notes@.len() == 0,
            (final(self).current_note_start is None),
            *final(self) == (State {
                recording_state: RecordingState::Recording,
                recording_start_time: Option::Some(now_us),
                recorded_notes: final(self).recorded_notes,
                current_note_start: Option::None,
                ..*old(self)
            }),
    {
        self.recording_state = RecordingState::Recording;
        self.recording_start_time = Option::Some(now_us);
        self.recorded_notes = Vec::new();
        self.current_note_start = Option::None;
    }

    /// Stops the recording: a note still in progress is finalized into
    /// the recorded sequence with its start-relative timestamp and held
    /// duration, and the session returns to stopped.
    pub fn stop_recording(&mut self, now_us: u64)
        requires
            old(self).wf(),
            now_us <= TIME_MAX_US,
            (old(self).current_note_start matches Option::Some((st, n, o)) ==> st <= now_us),
        ensures
            final(self).wf(),
            final(self).recording_state == RecordingState::Stopped,
            (final(self).recording_start_time is None),
            (final(self).current_note_start is None),
            final(self).recorded_notes@ == old(self).recorded_notes@ + finalized_note_seq(
                *old(self),
                now_us,
            ),
            *final(self) == (State {
                recording_state: RecordingState::Stopped,
                recording_start_time: Option::None,
                recorded_notes: final(self).recorded_notes,
                current_note_start: Option::None,
                ..*old(self)
            }),
    {
        if let Option::Some((st, n, o)) = self.current_note_start {
            let ts: u64 = match self.recording_start_time {
                Option::Some(rs) => st - rs,
                Option::None => 0,
            };
            self.recorded_notes.push(
                RecordedNote { note: n, octave: o, timestamp: ts, duration: now_us - st },
            );
        }
        self.current_note_start = Option::None;
        self.recording_state = RecordingState::Stopped;
        self.recording_start_time = Option::None;
    }

    /// Starts looping playback of the recorded sequence now, with a
    /// fresh watermark.  With nothing recorded this is a silent no-op.
    pub fn start_playback(&mut self, now_us: u64)
        requires
            old(self).wf(),
            now_us <= TIME_MAX_US,
        ensures
            final(self).wf(),
            old(self).recorded_notes@.len() == 0 ==> *final(self) == *old(self),
            old(self).recorded_notes@.len() > 0 ==> *final(self) == (State {
                recording_state: RecordingState::Playing,
                playback_start_time: Option::Some(now_us),
                last_loop_time: Option::None,
                ..*old(self)
            }),
    {
        if self.recorded_notes.len() > 0 {
            self.recording_state = RecordingState::Playing;
            self.playback_start_time = Option::Some(now_us);
            self.last_loop_time = Option::None;
        }
    }

    /// Stops playback and returns the session to stopped.
    pub fn stop_playback(&mut self)
        requires
            old(self).wf(),
        ensures
            final(self).wf(),
            *final(self) == (State {
                recording_state: RecordingState::Stopped,
                playback_start_time: Option::None,
                ..*old(self)
            }),
    {
        self.recording_state = RecordingState::Stopped;
        self.playback_start_time = Option::None;
    }
}

/// What the waveform display shows at an instant: the frequency drawn
/// and the brightness.  Full brightness while a note plays; after a key
/// release the brightness fades linearly to zero over two seconds while
/// the last frequency stays on screen; dark at the standard pitch when
/// idle.
pub open spec fn display_params_spec(s: State, now_us: u64) -> (u64, i64) {
    if (s.current_frequency is Some) || (s.key_release_time is Some) {
        let amplitude: i64 = match s.key_release_time {
            Option::Some(rt) => if now_us - rt >= 2_000_000 {
                0
            } else {
                (1_000_000 - (now_us - rt) * 1_000_000 / 2_000_000) as i64
            },
            Option::None => 1_000_000,
        };
        let frequency: u64 = match s.current_frequency {
            Option::Some(f) => f,
            Option::None => 440_000,
        };
        (frequency, amplitude)
    } else {
        (440_000, 0)
    }
}

impl State {
    /// Computes what the waveform display shows now: the frequency to
    /// draw and the fade brightness in micro-units.  The caller renders
    /// these; a brightness of zero draws no waveform.
    pub fn display_params(&self, now_us: u64) -> (r: (u64, i64))
        requires
            self.wf(),
            (self.key_release_time matches Option::Some(t) ==> t <= now_us),
        ensures
            r == display_params_spec(*self, now_us),
            0 <= r.1 <= 1_000_000,
    {
        if self.current_frequency.is_some() || self.key_release_time.is_some() {
            let amplitude: i64 = match self.key_release_time {
                Option::Some(rt) => {
                    let fade = now_us - rt;
                    if fade >= 2_000_000 {
                        0
                    } else {
                        proof {
                            lemma_div_is_ordered(fade * 1_000_000, 2_000_000_000_000, 2_000_000);
                        }
                        (1_000_000 - fade * 1_000_000 / 2_000_000) as i64
                    }
                }
                Option::None => 1_000_000,
            };
            let frequency: u64 = match self.current_frequency {
                Option::Some(f) => f,
                Option::None => 440_000,
            };
            (frequency, amplitude)
        } else {
            (440_000, 0)
        }
    }
}

/// Lowpass scaling: the frequency is multiplied by `sevenths / 7`.
pub open spec fn apply_lpf_spec(freq_millihz: u64, sevenths: u8) -> int {
    freq_millihz * sevenths / 7
}

/// The next waveform in the toggle cycle.
pub open spec fn toggle_waveform_spec(w: Waveform) -> Waveform {
    match w {
        Waveform::SINE => Waveform::SQUARE,
        Waveform::SQUARE => Waveform::TRIANGLE,
        Waveform::TRIANGLE => Waveform::SAWTOOTH,
        Waveform::SAWTOOTH => Waveform::SINE,
    }
}

/// Sprite index of each waveform.
pub open spec fn waveform_sprite_spec(w: Waveform) -> usize {
    match w {
        Waveform::SINE => WAVEFORM_SINE,
        Waveform::SQUARE => WAVEFORM_SQUARE,
        Waveform::TRIANGLE => WAVEFORM_TRIANGLE,
        Waveform::SAWTOOTH => WAVEFORM_SAWTOOTH,
    }
}

/// Frequency a voice for this note and octave is generated at: the
/// equal-tempered pitch scaled by the lowpass factor.
pub open spec fn filtered_frequency_spec(s: State, note: Note, octave: i32) -> u64 {
    apply_lpf_spec(frequency_spec(note, octave as int), s.filter_sevenths) as u64
}

/// A voice freshly assembled from a state's configuration for a note at
/// an octave: the oscillator sits at the filtered pitch with the state's
/// waveform, the envelope carries the state's control values, and the
/// chain snapshots the state's effect flags.
pub open spec fn is_fresh_voice_for(v: Voice, s: State, note: Note, octave: i32) -> bool {
    &&& v.wf()
    &&& v.env.osc.waveform == s.waveform
    &&& v.env.osc.step == crate::waveforms::step_spec(
        filtered_frequency_spec(s, note, octave),
        s.sample_rate,
    )
    &&& v.env.osc.phase == 0
    &&& v.env.attack_us == control_duration_us(s.attack)
    &&& v.env.decay_us == control_duration_us(s.decay)
    &&& v.env.sustain_level == control_level_micro(s.sustain)
    &&& v.env.release_us == control_duration_us(s.release)
    &&& v.env.sample_rate == s.sample_rate
    &&& v.env.samples_elapsed == 0
    &&& (v.env.release_start is None)
    &&& !v.env.done
    &&& v.chain.delay_enabled == s.delay_enabled
    &&& v.chain.reverb_enabled == s.reverb_enabled
    &&& v.chain.flanger_enabled == s.flanger_enabled
    &&& v.use_effects == (s.delay_enabled || s.reverb_enabled || s.flanger_enabled)
    &&& crate::effects::chain_fresh(v.chain, s.sample_rate)
}

/// Assembles a fresh voice for a note at an explicit octave and records
/// the trigger in the display observables.
pub(crate) fn trigger_voice(state: &mut State, note: Note, octave: i32, now_us: u64) -> (v: Voice)
    requires
        old(state).wf(),
        OCTAVE_LOWER_BOUND <= octave <= OCTAVE_UPPER_BOUND,
    ensures
        final(state).wf(),
        is_fresh_voice_for(v, *old(state), note, octave),
        *final(state) == (State {
            current_frequency: Option::Some(frequency_spec(note, octave as int)),
            animation_start_time: now_us,
            key_release_time: Option::None,
            ..*old(state)
        }),
{
    proof {
        lemma_frequency_bounds(note, octave as int);
    }
    let base = note.frequency(octave);
    let filtered = state.apply_lpf(base);
    proof {
        lemma_div_is_ordered(16352, base as int, 7);
    }
    state.current_frequency = Option::Some(base);
    state.animation_start_time = now_us;
    state.key_release_time = Option::None;
    Voice::assemble(
        state.waveform,
        filtered,
        state.attack,
        state.decay,
        state.sustain,
        state.release,
        state.delay_enabled,
        state.reverb_enabled,
        state.flanger_enabled,
        state.sample_rate,
    )
}

/// Triggers a musical note at the state's current octave: assembles the
/// whole pipeline — generator, envelope, gain and effects snapshot — as a
/// fresh voice that replaces whatever is playing, and updates the
/// display observables.  The caller hands the voice to the audio
/// consumer.
pub fn handle_musical_note(state: &mut State, note: Note, now_us: u64) -> (v: Voice)
    requires
        old(state).wf(),
    ensures
        final(state).wf(),
        is_fresh_voice_for(v, *old(state), note, old(state).octave),
        *final(state) == (State {
            current_frequency: Option::Some(
                frequency_spec(note, old(state).octave as int),
            ),
            animation_start_time: now_us,
            key_release_time: Option::None,
            ..*old(state)
        }),
{
    let octave = state.octave;
    trigger_voice(state, note, octave, now_us)
}

/// Handles a key press for a note: triggers the voice and, while
/// recording, finalizes the note previously in progress and begins
/// tracking this one.
pub fn handle_key_press(state: &mut State, note: Note, now_us: u64) -> (v: Voice)
    requires
        old(state).wf(),
        now_us <= TIME_MAX_US,
        (old(state).current_note_start matches Option::Some((st, n, o)) ==> st <= now_us),
        (old(state).recording_start_time matches Option::Some(rs) ==> rs <= now_us),
    ensures
        final(state).wf(),
        is_fresh_voice_for(v, *old(state), note, old(state).octave),
        final(state).pressed_key == Option::Some(note),
        final(state).recorded_notes@ == old(state).recorded_notes@ + (
        if old(state).recording_state == RecordingState::Recording {
            finalized_note_seq(*old(state), now_us)
        } else {
            Seq::empty()
        }),
        final(state).current_note_start == (
        if old(state).recording_state == RecordingState::Recording {
            Option::Some((now_us, note, old(state).octave))
        } else {
            old(state).current_note_start
        }),
        *final(state) == (State {
            pressed_key: Option::Some(note),
            current_frequency: Option::Some(
                frequency_spec(note, old(state).octave as int),
            ),
            animation_start_time: now_us,
            key_release_time: Option::None,
            recorded_notes: final(state).recorded_notes,
            current_note_start: final(state).current_note_start,
            ..*old(state)
        }),
{
    let v = handle_musical_note(state, note, now_us);
    state.pressed_key = Option::Some(note);
    if self_is_recording(state) {
        if let Option::Some((st, pn, po)) = state.current_note_start {
            let ts: u64 = match state.recording_start_time {
                Option::Some(rs) => st - rs,
                Option::None => 0,
            };
            state.recorded_notes.push(
                RecordedNote { note: pn, octave: po, timestamp: ts, duration: now_us - st },
            );
        }
        let octave = state.get_current_octave();
        state.current_note_start = Option::Some((now_us, note, octave));
    }
    v
}

/// Whether the state is capturing notes.
fn self_is_recording(state: &State) -> (r: bool)
    ensures
        r == (state.recording_state == RecordingState::Recording),
{
    match state.recording_state {
        RecordingState::Recording => true,
        _ => false,
    }
}

/// Time after a key release until the display clears: the release
/// duration, at least a tenth of a second.
pub open spec fn clear_after_spec(release: u8) -> int {
    if control_duration_us(release) > 100_000 {
        control_duration_us(release)
    } else {
        100_000
    }
}

/// State after the per-tick key-release check: when no key is down any
/// more, the release instant is latched; once the fade has lasted past
/// the clear time, the display observables are cleared.
pub open spec fn key_release_step(s: State, now_us: u64, any_key_down: bool) -> State {
    let s1 = if !any_key_down && (s.pressed_key is Some) && (s.key_release_time is None) {
        State { key_release_time: Option::Some(now_us), ..s }
    } else {
        s
    };
    match s1.key_release_time {
        Option::Some(t) => if now_us - t > clear_after_spec(s1.release) {
            State { current_frequency: Option::None, key_release_time: Option::None, ..s1 }
        } else {
            s1
        },
        Option::None => s1,
    }
}

/// Per-tick release handling: latches the release instant when the held
/// key was let go, clears the display once the fade is over, and says
/// whether the audio output must stop at once (a release control of 10
/// or below cuts the sound immediately).
pub fn handle_key_release(state: &mut State, now_us: u64, any_key_down: bool) -> (hard_stop: bool)
    requires
        old(state).wf(),
        (old(state).key_release_time matches Option::Some(t) ==> t <= now_us),
    ensures
        final(state).wf(),
        *final(state) == key_release_step(*old(state), now_us, any_key_down),
        hard_stop == (!any_key_down && (old(state).pressed_key is Some) && (old(
            state,
        ).key_release_time is None) && old(state).release <= 10),
{
    let mut hard_stop = false;
    if !any_key_down && state.pressed_key.is_some() && state.key_release_time.is_none() {
        if state.release <= 10 {
            hard_stop = true;
        }
        state.key_release_time = Option::Some(now_us);
    }
    if let Option::Some(t) = state.key_release_time {
        let clear_after = {
            let d = duration_from_control(state.release);
            if d > 100_000 {
                d
            } else {
                100_000
            }
        };
        if now_us - t > clear_after {
            state.current_frequency = Option::None;
            state.key_release_time = Option::None;
        }
    }
    hard_stop
}

/// Toggling an effect does not alter a voice assembled before the
/// toggle: the earlier voice still matches the configuration it was
/// assembled from.  A voice assembled afterwards differs from it exactly
/// in the toggled effect's enablement — pitch, waveform and envelope are
/// untouched.
pub proof fn lemma_toggle_spares_existing_voice(
    s: State,
    kind: EffectKind,
    v: Voice,
    v2: Voice,
    note: Note,
    octave: i32,
)
    requires
        is_fresh_voice_for(v, s, note, octave),
        is_fresh_voice_for(v2, toggle_effect_spec(s, kind), note, octave),
    ensures
        is_fresh_voice_for(v, s, note, octave),
        v2.env.osc == v.env.osc,
        v2.env.attack_us == v.env.attack_us,
        v2.env.decay_us == v.env.decay_us,
        v2.env.sustain_level == v.env.sustain_level,
        v2.env.release_us == v.env.release_us,
        v2.chain.delay_enabled == (
        if kind == EffectKind::Delay {
            !v.chain.delay_enabled
        } else {
            v.chain.delay_enabled
        }),
        v2.chain.reverb_enabled == (
        if kind == EffectKind::Reverb {
            !v.chain.reverb_enabled
        } else {
            v.chain.reverb_enabled
        }),
        v2.chain.flanger_enabled == (
        if kind == EffectKind::Flanger {
            !v.chain.flanger_enabled
        } else {
            v.chain.flanger_enabled
        }),
{
}

/// Display amplitude: the ADSR curve of the state's control values, or
/// zero when no key is held and no release is fading.
pub open spec fn calculate_adsr_amplitude_spec(
    s: State,
    time_since_start_us: u64,
    is_key_pressed: bool,
    time_since_release_us: Option<u64>,
) -> int {
    match time_since_release_us {
        Option::Some(rt) => adsr_amplitude(
            control_duration_us(s.attack) as u64,
            control_duration_us(s.decay) as u64,
            control_level_micro(s.sustain) as i64,
            control_duration_us(s.release) as u64,
            time_since_start_us,
            Option::Some(rt),
        ),
        Option::None => if !is_key_pressed {
            0
        } else {
            adsr_amplitude(
                control_duration_us(s.attack) as u64,
                control_duration_us(s.decay) as u64,
                control_level_micro(s.sustain) as i64,
                control_duration_us(s.release) as u64,
                time_since_start_us,
                Option::None,
            )
        },
    }
}

} // verus!
