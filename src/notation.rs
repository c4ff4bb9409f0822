//! Musical notation: pitch classes and note lengths.

use vstd::prelude::*;

verus! {

/// A note name with its accidental.
#[derive(Clone, Copy, Debug, PartialEq, Eq, Hash, Structural)]
pub enum PitchClass {
    C,
    CSharp,
    CFlat,
    D,
    DSharp,
    DFlat,
    E,
    ESharp,
    EFlat,
    F,
    FSharp,
    FFlat,
    G,
    GSharp,
    GFlat,
    A,
    ASharp,
    AFlat,
    B,
    BSharp,
    BFlat,
}

/// How a pitch class is written: its letter, then `#` for sharp or `b`
/// for flat.
pub open spec fn pitch_name(p: PitchClass) -> Seq<char> {
    match p {
        PitchClass::C => "C"@,
        PitchClass::CSharp => "C#"@,
        PitchClass::CFlat => "Cb"@,
        PitchClass::D => "D"@,
        PitchClass::DSharp => "D#"@,
        PitchClass::DFlat => "Db"@,
        PitchClass::E => "E"@,
        PitchClass::ESharp => "E#"@,
        PitchClass::EFlat => "Eb"@,
        PitchClass::F => "F"@,
        PitchClass::FSharp => "F#"@,
        PitchClass::FFlat => "Fb"@,
        PitchClass::G => "G"@,
        PitchClass::GSharp => "G#"@,
        PitchClass::GFlat => "Gb"@,
        PitchClass::A => "A"@,
        PitchClass::ASharp => "A#"@,
        PitchClass::AFlat => "Ab"@,
        PitchClass::B => "B"@,
        PitchClass::BSharp => "B#"@,
        PitchClass::BFlat => "Bb"@,
    }
}

impl PitchClass {
    /// The written name of the pitch class.
    pub fn name(&self) -> (r: &'static str)
        ensures
            r@ == pitch_name(*self),
    {
        match self {
            PitchClass::C => "C",
            PitchClass::CSharp => "C#",
            PitchClass::CFlat => "Cb",
            PitchClass::D => "D",
            PitchClass::DSharp => "D#",
            PitchClass::DFlat => "Db",
            PitchClass::E => "E",
            PitchClass::ESharp => "E#",
            PitchClass::EFlat => "Eb",
            PitchClass::F => "F",
            PitchClass::FSharp => "F#",
            PitchClass::FFlat => "Fb",
            PitchClass::G => "G",
            PitchClass::GSharp => "G#",
            PitchClass::GFlat => "Gb",
            PitchClass::A => "A",
            PitchClass::ASharp => "A#",
            PitchClass::AFlat => "Ab",
            PitchClass::B => "B",
            PitchClass::BSharp => "B#",
            PitchClass::BFlat => "Bb",
        }
    }
}

/// The written length of a note.
#[derive(Clone, Copy, Debug, PartialEq, Eq, Hash, Structural)]
pub enum Duration {
    Whole,
    Half,
    Quarter,
    Eighth,
    Sixteenth,
}

} // verus!
