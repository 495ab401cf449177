//! The playback scheduler: replays a recorded performance in a loop,
//! re-triggering each note when the replay position crosses its
//! timestamp going forward.
//!
//! The watermark — the replay position examined last — is owned by the
//! session state and passed explicitly through every step, so the
//! scheduler is a pure function of its inputs.  A note is re-triggered
//! once per crossing: either the position moved past its timestamp since
//! the last pass, or a loop wrap put the position inside a small leading
//! window after the note's timestamp.

use vstd::prelude::*;
use crate::music_theory::frequency_spec;
use crate::state::RecordedNote;
use crate::state::RecordingState;
use crate::state::State;
use crate::state::TIME_MAX_US;
use crate::state::is_fresh_voice_for;
use crate::state::notes_wf;
use crate::state::trigger_voice;
use crate::voice::Voice;
use vstd::arithmetic::div_mod::lemma_mod_bound;
use vstd::arithmetic::div_mod::lemma_mod_multiples_vanish;

verus! {

/// Window after a note's timestamp within which a loop wrap still
/// triggers it: one scheduler tick at 20 Hz.
pub const LOOP_WINDOW_US: u64 = 50_000;

/// Total duration of a recorded performance: the latest end of any note,
/// or zero for an empty recording.
pub open spec fn loop_length(notes: Seq<RecordedNote>) -> int
    decreases notes.len(),
{
    if notes.len() == 0 {
        0
    } else {
        let rest = loop_length(notes.drop_last());
        let end = notes.last().timestamp + notes.last().duration;
        if end > rest {
            end
        } else {
            rest
        }
    }
}

/// Position within the loop that playback has reached after `elapsed_us`
/// microseconds: elapsed time modulo the loop length, or the raw elapsed
/// time when the loop is empty of duration.
pub open spec fn replay_position(elapsed_us: u64, len: int) -> int {
    if len > 0 {
        (elapsed_us as int) % len
    } else {
        elapsed_us as int
    }
}

/// The replay cycle repeats with the loop length as its period: the
/// replay position one whole loop later is the same, so the same notes
/// come due again.
pub proof fn lemma_replay_position_periodic(elapsed_us: u64, len: int)
    requires
        0 < len,
        elapsed_us + len <= u64::MAX,
    ensures
        replay_position((elapsed_us + len) as u64, len) == replay_position(elapsed_us, len),
{
    lemma_mod_multiples_vanish(1, elapsed_us as int, len);
}

/// Whether a note at timestamp `ts` comes due at replay position `pos`
/// given the watermark: the position crossed the timestamp since the
/// last pass, or — right after a loop wrap, when no watermark stands —
/// the position sits inside the small leading window after the
/// timestamp.  A note at the very start of the loop thus fires once per
/// loop and never twice.
pub open spec fn note_due(wm: Option<u64>, pos: int, ts: u64) -> bool {
    match wm {
        Option::Some(l) => l < ts && pos >= ts,
        Option::None => pos >= ts && pos < ts + 50_000,
    }
}

/// The notes that come due at this position, in recorded order.
pub open spec fn due_notes(notes: Seq<RecordedNote>, wm: Option<u64>, pos: int) -> Seq<
    RecordedNote,
>
    decreases notes.len(),
{
    if notes.len() == 0 {
        Seq::empty()
    } else {
        due_notes(notes.drop_last(), wm, pos) + (
        if note_due(wm, pos, notes.last().timestamp) {
            seq![notes.last()]
        } else {
            Seq::empty()
        })
    }
}

/// The watermark that governs this pass: an existing watermark is
/// dropped when the position wrapped below it, so notes at the start of
/// the new loop can fire.
pub open spec fn effective_watermark(wm: Option<u64>, pos: int) -> Option<u64> {
    match wm {
        Option::Some(l) => if pos < l {
            Option::None
        } else {
            Option::Some(l)
        },
        Option::None => Option::None,
    }
}

/// Whether the state is replaying a recording.
pub open spec fn playback_active(s: State) -> bool {
    &&& s.recording_state == RecordingState::Playing
    &&& (s.playback_start_time is Some)
    &&& s.recorded_notes@.len() > 0
}

/// One scheduler pass at time `now_us`: computes the replay position,
/// re-triggers every note that has newly come due — each with its
/// recorded octave, leaving the live octave untouched — and moves the
/// watermark to the position examined.  Returns the triggered voices in
/// recorded order; the caller hands them to the audio consumer.  When
/// playback is not active this is a no-op.
pub fn handle_playback(state: &mut State, now_us: u64) -> (voices: Vec<Voice>)
    requires
        old(state).wf(),
        now_us <= TIME_MAX_US,
        (old(state).playback_start_time matches Option::Some(ps) ==> ps <= now_us),
    ensures
        final(state).wf(),
        final(state).octave == old(state).octave,
        final(state).recorded_notes@ == old(state).recorded_notes@,
        !playback_active(*old(state)) ==> voices@.len() == 0 && *final(state) == *old(state),
        playback_active(*old(state)) ==> ({
            let elapsed = (now_us - old(state).playback_start_time->0) as u64;
            let len = loop_length(old(state).recorded_notes@);
            let pos = replay_position(elapsed, len);
            let wm = effective_watermark(old(state).last_loop_time, pos);
            let due = due_notes(old(state).recorded_notes@, wm, pos);
            &&& voices@.len() == due.len()
            &&& (forall|k: int| 0 <= k < due.len() ==> is_fresh_voice_for(
                #[trigger] voices@[k],
                *old(state),
                due[k].note,
                due[k].octave,
            ))
            &&& *final(state) == (State {
                pressed_key: if due.len() > 0 {
                    Option::Some(due.last().note)
                } else {
                    old(state).pressed_key
                },
                current_frequency: if due.len() > 0 {
                    Option::Some(frequency_spec(due.last().note, due.last().octave as int))
                } else {
                    old(state).current_frequency
                },
                animation_start_time: if due.len() > 0 {
                    now_us
                } else {
                    old(state).animation_start_time
                },
                key_release_time: if due.len() > 0 {
                    Option::None
                } else {
                    old(state).key_release_time
                },
                last_loop_time: Option::Some(pos as u64),
                ..*old(state)
            })
        }),
{
    let ghost pre = *old(state);
    let playing = match state.recording_state {
        RecordingState::Playing => true,
        _ => false,
    };
    if !playing {
        return Vec::new();
    }
    let ps = match state.playback_start_time {
        Option::Some(ps) => ps,
        Option::None => {
            return Vec::new();
        }
    };
    let n = state.recorded_notes.len();
    if n == 0 {
        return Vec::new();
    }
    let elapsed: u64 = now_us - ps;

    // Total duration of the recording: the latest end of any note.
    let mut max_end: u64 = 0;
    let mut i: usize = 0;
    while i < n
        invariant
            state == old(state),
            n == state.recorded_notes@.len(),
            i <= n,
            notes_wf(state.recorded_notes@),
            max_end == loop_length(state.recorded_notes@.take(i as int)),
            max_end <= 8_000_000_000_000_000,
        decreases n - i,
    {
        let rn = state.recorded_notes[i];
        let end: u64 = rn.timestamp + rn.duration;
        proof {
            assert(state.recorded_notes@.take(i + 1).drop_last() =~= state.recorded_notes@.take(
                i as int,
            ));
            assert(state.recorded_notes@.take(i + 1).last() == state.recorded_notes@[i as int]);
        }
        if end > max_end {
            max_end = end;
        }
        i = i + 1;
    }
    proof {
        assert(state.recorded_notes@.take(n as int) =~= state.recorded_notes@);
    }

    // Loop the playback: wrap the elapsed time into the loop, or let it
    // run on unbounded when the recording has no duration.
    let pos: u64 = if max_end > 0 {
        proof {
            lemma_mod_bound(elapsed as int, max_end as int);
        }
        elapsed % max_end
    } else {
        elapsed
    };

    // A wrap back below the watermark starts a fresh pass, so notes at
    // the head of the loop can fire again.
    match state.last_loop_time {
        Option::Some(l) => {
            if pos < l {
                state.last_loop_time = Option::None;
            }
        }
        Option::None => {}
    }
    let ghost wm = effective_watermark(pre.last_loop_time, pos as int);
    proof {
        assert(state.last_loop_time == wm);
    }

    let ghost notes = pre.recorded_notes@;
    let mut voices: Vec<Voice> = Vec::new();
    let mut i: usize = 0;
    while i < n
        invariant
            state.wf(),
            n == state.recorded_notes@.len(),
            i <= n,
            now_us <= TIME_MAX_US,
            notes == state.recorded_notes@,
            wm == state.last_loop_time,
            ({
                let due = due_notes(notes.take(i as int), wm, pos as int);
                &&& voices@.len() == due.len()
                &&& (forall|k: int| 0 <= k < due.len() ==> is_fresh_voice_for(
                    #[trigger] voices@[k],
                    pre,
                    due[k].note,
                    due[k].octave,
                ))
                &&& *state == (State {
                    pressed_key: if due.len() > 0 {
                        Option::Some(due.last().note)
                    } else {
                        pre.pressed_key
                    },
                    current_frequency: if due.len() > 0 {
                        Option::Some(frequency_spec(due.last().note, due.last().octave as int))
                    } else {
                        pre.current_frequency
                    },
                    animation_start_time: if due.len() > 0 {
                        now_us
                    } else {
                        pre.animation_start_time
                    },
                    key_release_time: if due.len() > 0 {
                        Option::None
                    } else {
                        pre.key_release_time
                    },
                    last_loop_time: wm,
                    ..pre
                })
            }),
        decreases n - i,
    {
        let rn = state.recorded_notes[i];
        let due = match state.last_loop_time {
            Option::Some(l) => l < rn.timestamp && pos >= rn.timestamp,
            Option::None => pos >= rn.timestamp && pos < rn.timestamp + 50_000,
        };
        proof {
            assert(notes.take(i + 1).drop_last() =~= notes.take(i as int));
            assert(notes.take(i + 1).last() == notes[i as int]);
            assert(due == note_due(wm, pos as int, rn.timestamp));
        }
        if due {
            let v = trigger_voice(state, rn.note, rn.octave, now_us);
            state.pressed_key = Option::Some(rn.note);
            voices.push(v);
        }
        i = i + 1;
    }
    proof {
        assert(notes.take(n as int) =~= notes);
    }
    state.last_loop_time = Option::Some(pos);
    voices
}

} // verus!
