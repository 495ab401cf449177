//! Notes and equal-tempered pitch, in exact integer milli-hertz.

use vstd::prelude::*;

verus! {

/// Lowest octave the synthesizer supports.
pub const OCTAVE_LOWER_BOUND: i32 = 0;

/// Highest octave the synthesizer supports.
pub const OCTAVE_UPPER_BOUND: i32 = 8;

/// The twelve notes of one octave.
#[derive(Clone, Copy, Debug, PartialEq, Eq, Structural)]
pub enum Note {
    C,
    CSharp,
    D,
    DSharp,
    E,
    F,
    FSharp,
    G,
    GSharp,
    A,
    ASharp,
    B,
}

/// Frequency of each note in octave 0, in milli-hertz
/// (twelve-tone equal temperament referenced to A4 = 440 Hz,
/// so A0 is exactly 27.5 Hz = 27500 milli-hertz).
pub open spec fn base_millihz(note: Note) -> u64 {
    match note {
        Note::C => 16352,
        Note::CSharp => 17324,
        Note::D => 18354,
        Note::DSharp => 19445,
        Note::E => 20602,
        Note::F => 21827,
        Note::FSharp => 23125,
        Note::G => 24500,
        Note::GSharp => 25957,
        Note::A => 27500,
        Note::ASharp => 29135,
        Note::B => 30868,
    }
}

/// Power of two by which an octave-0 frequency is multiplied to reach
/// the given octave.
pub open spec fn octave_multiplier(octave: int) -> u64 {
    if octave == 0 {
        1
    } else if octave == 1 {
        2
    } else if octave == 2 {
        4
    } else if octave == 3 {
        8
    } else if octave == 4 {
        16
    } else if octave == 5 {
        32
    } else if octave == 6 {
        64
    } else if octave == 7 {
        128
    } else {
        256
    }
}

/// Frequency of a note at a given octave, in milli-hertz.
pub open spec fn frequency_spec(note: Note, octave: int) -> u64 {
    (base_millihz(note) * octave_multiplier(octave)) as u64
}

/// Pitch doubles with every octave step: the defining property of the
/// octave table.
pub proof fn lemma_frequency_doubles_per_octave(note: Note, octave: int)
    requires
        OCTAVE_LOWER_BOUND <= octave < OCTAVE_UPPER_BOUND,
    ensures
        frequency_spec(note, octave + 1) == 2 * frequency_spec(note, octave),
{
    lemma_frequency_bounds(note, octave);
    lemma_frequency_bounds(note, octave + 1);
    if octave == 0 {
    } else if octave == 1 {
    } else if octave == 2 {
    } else if octave == 3 {
    } else if octave == 4 {
    } else if octave == 5 {
    } else if octave == 6 {
    } else {
    }
}

/// Every supported pitch lies between C0 and B8.
pub proof fn lemma_frequency_bounds(note: Note, octave: int)
    requires
        OCTAVE_LOWER_BOUND <= octave <= OCTAVE_UPPER_BOUND,
    ensures
        16352 <= frequency_spec(note, octave) <= 7902208,
{
    assert(16352 <= base_millihz(note) <= 30868);
    if octave == 0 {
    } else if octave == 1 {
    } else if octave == 2 {
    } else if octave == 3 {
    } else if octave == 4 {
    } else if octave == 5 {
    } else if octave == 6 {
    } else if octave == 7 {
    } else {
    }
}

impl Note {
    /// Equal-tempered pitch of this note at the given octave, in
    /// milli-hertz.  Doubles exactly with each octave step.
    pub fn frequency(self, octave: i32) -> (f: u64)
        requires
            OCTAVE_LOWER_BOUND <= octave <= OCTAVE_UPPER_BOUND,
        ensures
            f == frequency_spec(self, octave as int),
            16352 <= f <= 7902208,
    {
        let base: u64 = match self {
            Note::C => 16352,
            Note::CSharp => 17324,
            Note::D => 18354,
            Note::DSharp => 19445,
            Note::E => 20602,
            Note::F => 21827,
            Note::FSharp => 23125,
            Note::G => 24500,
            Note::GSharp => 25957,
            Note::A => 27500,
            Note::ASharp => 29135,
            Note::B => 30868,
        };
        let mult: u64 = match octave {
            0 => 1,
            1 => 2,
            2 => 4,
            3 => 8,
            4 => 16,
            5 => 32,
            6 => 64,
            7 => 128,
            _ => 256,
        };
        base * mult
    }

    /// Index of this note within the chromatic scale, C = 0 through B = 11.
    pub fn chromatic_index(self) -> (i: usize)
        ensures
            i == chromatic_index_spec(self),
            i < 12,
    {
        match self {
            Note::C => 0,
            Note::CSharp => 1,
            Note::D => 2,
            Note::DSharp => 3,
            Note::E => 4,
            Note::F => 5,
            Note::FSharp => 6,
            Note::G => 7,
            Note::GSharp => 8,
            Note::A => 9,
            Note::ASharp => 10,
            Note::B => 11,
        }
    }
}

/// Position of a note within the chromatic scale, C = 0 through B = 11.
pub open spec fn chromatic_index_spec(note: Note) -> usize {
    match note {
        Note::C => 0,
        Note::CSharp => 1,
        Note::D => 2,
        Note::DSharp => 3,
        Note::E => 4,
        Note::F => 5,
        Note::FSharp => 6,
        Note::G => 7,
        Note::GSharp => 8,
        Note::A => 9,
        Note::ASharp => 10,
        Note::B => 11,
    }
}

} // verus!
