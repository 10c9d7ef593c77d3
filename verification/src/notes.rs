use vstd::prelude::*;

verus! {

/// One of the guitar-string pitches the tuner knows, across the supported
/// tunings: standard, half step down, full step down, drop D, and open E.
#[derive(Copy, Clone, PartialEq, Eq, Structural, Debug)]
pub enum Note {
    // Standard tuning
    E2,
    A2,
    D3,
    G3,
    B3,
    E4,
    // Half step down
    E2F,
    A2F,
    D3F,
    G3F,
    B3F,
    E4F,
    // Full step down (D2, G2, A3, D4 are shared with drop D)
    D2,
    G2,
    C3,
    F3,
    A3,
    D4,
    // Open E (the rest is shared with standard)
    B2,
    E3,
    G3S,
}

/// The fixed note-to-frequency table, in whole Hz.
pub open spec fn note_frequency(n: Note) -> u32 {
    match n {
        Note::E2 => 82,
        Note::A2 => 110,
        Note::D3 => 147,
        Note::G3 => 196,
        Note::B3 => 247,
        Note::E4 => 330,
        Note::E2F => 78,
        Note::A2F => 104,
        Note::D3F => 138,
        Note::G3F => 185,
        Note::B3F => 233,
        Note::E4F => 311,
        Note::D2 => 73,
        Note::G2 => 98,
        Note::C3 => 131,
        Note::F3 => 175,
        Note::A3 => 220,
        Note::D4 => 294,
        Note::B2 => 123,
        Note::E3 => 165,
        Note::G3S => 208,
    }
}

impl Note {
    /// The note's target frequency in Hz.
    pub fn frequency(&self) -> (f: u32)
        ensures
            f == note_frequency(*self),
    {
        match *self {
            Note::E2 => 82,
            Note::A2 => 110,
            Note::D3 => 147,
            Note::G3 => 196,
            Note::B3 => 247,
            Note::E4 => 330,
            Note::E2F => 78,
            Note::A2F => 104,
            Note::D3F => 138,
            Note::G3F => 185,
            Note::B3F => 233,
            Note::E4F => 311,
            Note::D2 => 73,
            Note::G2 => 98,
            Note::C3 => 131,
            Note::F3 => 175,
            Note::A3 => 220,
            Note::D4 => 294,
            Note::B2 => 123,
            Note::E3 => 165,
            Note::G3S => 208,
        }
    }
}

/// Every supported note's frequency lies in the observed 73..=330 Hz range;
/// in particular it is positive.
pub proof fn lemma_note_frequency_range(n: Note)
    ensures
        73 <= note_frequency(n) <= 330,
{
}

} // verus!
