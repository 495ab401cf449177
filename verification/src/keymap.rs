//! Key positions and note sprites for the on-screen keyboard: which key
//! of the drawn keyboard a note sits on, which sprite shows its name,
//! and where the tangent (sharp) keys sit between the natural keys.

use vstd::prelude::*;
use std::collections::HashMap;
use crate::music_theory::Note;
use crate::music_theory::chromatic_index_spec;

verus! {

broadcast use vstd::std_specs::hash::group_hash_axioms;

/// Sprite index of the C note name.
pub const NOTE_C: usize = 0;

/// Sprite index of the C sharp note name.
pub const NOTE_C_SHARP: usize = 1;

/// Sprite index of the D note name.
pub const NOTE_D: usize = 2;

/// Sprite index of the D sharp note name.
pub const NOTE_D_SHARP: usize = 3;

/// Sprite index of the E note name.
pub const NOTE_E: usize = 4;

/// Sprite index of the F note name.
pub const NOTE_F: usize = 5;

/// Sprite index of the F sharp note name.
pub const NOTE_F_SHARP: usize = 6;

/// Sprite index of the G note name.
pub const NOTE_G: usize = 7;

/// Sprite index of the G sharp note name.
pub const NOTE_G_SHARP: usize = 8;

/// Sprite index of the A note name.
pub const NOTE_A: usize = 9;

/// Sprite index of the A sharp note name.
pub const NOTE_A_SHARP: usize = 10;

/// Sprite index of the B note name.
pub const NOTE_B: usize = 11;

/// Position of a note's key on the drawn keyboard, 1 through 7.  A sharp
/// sits on the tangent above the natural key to its left, so it shares
/// that key's position.
pub open spec fn key_position_spec(note: Note) -> usize {
    match note {
        Note::C => 1,
        Note::CSharp => 1,
        Note::D => 2,
        Note::DSharp => 2,
        Note::E => 3,
        Note::F => 4,
        Note::FSharp => 4,
        Note::G => 5,
        Note::GSharp => 5,
        Note::A => 6,
        Note::ASharp => 6,
        Note::B => 7,
    }
}

/// Returns the position of the given musical note on the keyboard.
/// Every note has one, so the result is never `None`.
pub fn get_key_position(note: &Note) -> (r: Option<usize>)
    ensures
        r == Option::Some(key_position_spec(*note)),
{
    Option::Some(
        match note {
            Note::C => 1,
            Note::CSharp => 1,
            Note::D => 2,
            Note::DSharp => 2,
            Note::E => 3,
            Note::F => 4,
            Note::FSharp => 4,
            Note::G => 5,
            Note::GSharp => 5,
            Note::A => 6,
            Note::ASharp => 6,
            Note::B => 7,
        },
    )
}

/// Returns the sprite index for the given musical note's name: its
/// position in the chromatic scale.  Every note has one, so the result
/// is never `None`.
pub fn get_note_sprite_index(note: &Note) -> (r: Option<usize>)
    ensures
        r == Option::Some(chromatic_index_spec(*note)),
{
    Option::Some((*note).chromatic_index())
}

/// The tangent (sharp) keys by position: each maps the gap between two
/// natural keys to the sprite of the sharp that sits there.
pub open spec fn tangent_map_spec() -> Map<i32, usize> {
    map![
        2i32 => NOTE_C_SHARP,
        3i32 => NOTE_D_SHARP,
        5i32 => NOTE_F_SHARP,
        6i32 => NOTE_G_SHARP,
        7i32 => NOTE_A_SHARP,
    ]
}

/// Creates the map from tangent positions to note sprite indices for
/// the tangent (sharp) keys.
pub fn create_tangent_map() -> (r: HashMap<i32, usize>)
    ensures
        r@ == tangent_map_spec(),
{
    let mut m: HashMap<i32, usize> = HashMap::new();
    m.insert(2, NOTE_C_SHARP);
    m.insert(3, NOTE_D_SHARP);
    m.insert(5, NOTE_F_SHARP);
    m.insert(6, NOTE_G_SHARP);
    m.insert(7, NOTE_A_SHARP);
    proof {
        assert(m@ =~= tangent_map_spec());
    }
    m
}

} // verus!
