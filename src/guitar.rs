//! Guitar parts: tunings, notes and playing techniques.

use vstd::prelude::*;

verus! {

/// The strings a guitar part was written for, each as its number of
/// semitones above E2: low E is 0, A2 is 5.
#[derive(Debug, PartialEq, Eq)]
pub struct GuitarTuning {
    pub string_offsets: Vec<i8>,
}

impl GuitarTuning {
    /// A tuning with the given string offsets, lowest string first.
    pub fn new(string_offsets: Vec<i8>) -> (r: GuitarTuning)
        ensures
            r.string_offsets@ == string_offsets@,
    {
        GuitarTuning { string_offsets }
    }
}

/// Tunings in common use.
#[derive(Clone, Copy, Debug, PartialEq, Eq, Structural)]
pub enum CommonTunings {
    EStandard,
}

/// The string offsets of a common tuning.
pub open spec fn tuning_offsets(t: CommonTunings) -> Seq<i8> {
    match t {
        CommonTunings::EStandard => seq![0i8, 5, 10, 15, 19, 24],
    }
}

impl CommonTunings {
    /// The string offsets of this tuning.
    pub fn to_tuning(&self) -> (r: GuitarTuning)
        ensures
            r.string_offsets@ == tuning_offsets(*self),
    {
        let offsets = match self {
            CommonTunings::EStandard => vec![0i8, 5, 10, 15, 19, 24],
        };
        GuitarTuning::new(offsets)
    }
}

/// How a note is played.
#[derive(Clone, Copy, Debug, PartialEq, Eq, Structural)]
pub enum GuitarTechnique {
    /// Played plainly.
    Plain,
    HammerOn,
    PullOff,
    PalmMute,
    FretHandMute,
    Slide,
    Bend,
    Tremolo,
    Vibrato,
    Harmonic,
    PinchHarmonic,
    Tap,
    Chord,
    ChordNote,
    Continued,
    Arpeggio,
    Slap,
    Pop,
}

/// One note of a guitar part. Times are microseconds.
#[derive(Clone, Copy, Debug, PartialEq, Eq, Structural)]
pub struct GuitarNote {
    /// The string the note is played on; 0 is the lowest string.
    pub string: u8,
    /// The fret the note is played at; 0 is the open string, 12 the octave.
    pub fret: u8,
    /// The finger that holds the string: 0 thumb, 1 index, 2 middle, 3
    /// ring, 4 little.
    pub finger: u8,
    /// When the note is played, from the start of the song.
    pub time: u64,
    /// How long the note is held.
    pub length: u64,
    pub technique: GuitarTechnique,
    /// The fret the note slides to.
    pub slide_to: u8,
}

/// The notes of a guitar part and how the guitar is set up for it.
#[derive(Debug)]
pub struct GuitarPart {
    pub notes: Vec<GuitarNote>,
    pub tuning: GuitarTuning,
    /// The fret the capo sits at; 0 means no capo.
    pub capo: u8,
}

/// The role a guitar part plays.
#[derive(Debug)]
pub enum InstrumentPartType {
    LeadGuitar(GuitarPart),
    RhythmGuitar(GuitarPart),
    BassGuitar(GuitarPart),
}

impl InstrumentPartType {
    /// The guitar part, whatever its role.
    pub fn part(&self) -> (r: &GuitarPart)
        ensures
            match self {
                InstrumentPartType::LeadGuitar(p) => r == p,
                InstrumentPartType::RhythmGuitar(p) => r == p,
                InstrumentPartType::BassGuitar(p) => r == p,
            },
    {
        match self {
            InstrumentPartType::LeadGuitar(p) => p,
            InstrumentPartType::RhythmGuitar(p) => p,
            InstrumentPartType::BassGuitar(p) => p,
        }
    }
}

/// A named part of a song.
#[derive(Debug)]
pub struct InstrumentPart {
    pub name: String,
    pub instrument_type: InstrumentPartType,
}

/// What a tab player shows of a song. `length` is in microseconds.
#[derive(Debug, PartialEq, Eq)]
pub struct Metadata {
    pub title: String,
    pub artist: String,
    pub album: String,
    pub year: u16,
    pub length: u64,
}

} // verus!
