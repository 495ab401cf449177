//! Core of a monophonic software synthesizer.
//!
//! The crate turns note-trigger events into a stream of audio samples shaped
//! by an attack-decay-sustain-release envelope and an optional serial effects
//! chain (delay, reverb, flanger), and records a performance as timestamped
//! note events for looped playback.
//!
//! All signal values are fixed-point integers: amplitudes are micro-units
//! (1_000_000 represents 1.0), frequencies are milli-hertz, oscillator phase
//! is nano-cycles (1_000_000_000 represents one full cycle) and time is
//! microseconds.  Window handling and the audio device are external
//! collaborators; they hand this crate plain values and take plain values
//! back.

pub mod adsr_envelope;
pub mod effects;
pub mod envelope;
pub mod keymap;
pub mod music_theory;
pub mod playback;
pub mod state;
pub mod voice;
pub mod waveforms;
