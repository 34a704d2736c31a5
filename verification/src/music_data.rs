//! The harmonic tables of the application: sixteen chord types, fourteen
//! scales and the twelve root names, as spec functions and as executable
//! accessors proved equal to them.
use vstd::prelude::*;

verus! {

/// Number of chord types in the chord table.
pub const NUM_CHORDS: usize = 16;

/// Number of scales in the scale table.
pub const NUM_SCALES: usize = 14;

/// Number of root names (one per pitch class).
pub const NUM_ROOTS: usize = 12;

/// The semitone offsets of chord type `t` (its "chordStep" row).
pub open spec fn chord_row(t: int) -> Seq<i32> {
    if t == 0 {
        seq![0i32, 0, 0, 0]
    } else if t == 1 {
        seq![0i32, 4, 7, 12]
    } else if t == 2 {
        seq![0i32, 3, 7, 12]
    } else if t == 3 {
        seq![0i32, 4, 7, 11]
    } else if t == 4 {
        seq![0i32, 3, 7, 10]
    } else if t == 5 {
        seq![0i32, 4, 7, 10]
    } else if t == 6 {
        seq![0i32, 3, 6, 12]
    } else if t == 7 {
        seq![0i32, 3, 6, 9]
    } else if t == 8 {
        seq![0i32, 3, 6, 10]
    } else if t == 9 {
        seq![0i32, 4, 8, 12]
    } else if t == 10 {
        seq![0i32, 3, 7, 11]
    } else if t == 11 {
        seq![0i32, 4, 8, 10]
    } else if t == 12 {
        seq![0i32, 3, 7, 9]
    } else if t == 13 {
        seq![0i32, 5, 7, 12]
    } else if t == 14 {
        seq![0i32, 2, 7, 12]
    } else {
        seq![0i32, 4, 7, 9]
    }
}

/// The arpeggio offsets of chord type `t` (its "arpChordStep" row).
pub open spec fn arp_row(t: int) -> Seq<i32> {
    if t == 0 {
        seq![0i32]
    } else if t == 1 {
        seq![0i32, 4, 7, 12, 16, 19, 24]
    } else if t == 2 {
        seq![0i32, 3, 7, 12, 15, 19, 24]
    } else if t == 3 {
        seq![0i32, 4, 7, 11, 12, 16, 19, 23, 24]
    } else if t == 4 {
        seq![0i32, 3, 7, 10, 12, 15, 19, 22, 24]
    } else if t == 5 {
        seq![0i32, 4, 7, 10, 12, 16, 19, 22, 24]
    } else if t == 6 {
        seq![0i32, 3, 6, 12, 15, 18, 24]
    } else if t == 7 {
        seq![0i32, 3, 6, 9, 12, 15, 18, 21, 24]
    } else if t == 8 {
        seq![0i32, 3, 6, 10, 12, 15, 18, 22, 24]
    } else if t == 9 {
        seq![0i32, 4, 8, 12, 16, 20, 24]
    } else if t == 10 {
        seq![0i32, 3, 7, 11, 12, 15, 19, 23, 24]
    } else if t == 11 {
        seq![0i32, 4, 8, 10, 12, 16, 20, 22, 24]
    } else if t == 12 {
        seq![0i32, 3, 7, 9, 12, 15, 19, 21, 24]
    } else if t == 13 {
        seq![0i32, 5, 7, 12, 17, 19, 24]
    } else if t == 14 {
        seq![0i32, 2, 7, 12, 14, 19, 24]
    } else {
        seq![0i32, 4, 7, 9, 12, 16, 19, 21, 24]
    }
}

/// The semitone offsets of scale `t` (its "toneStep" row).
pub open spec fn scale_row(t: int) -> Seq<i32> {
    if t == 0 {
        seq![0i32, 1, 2, 3, 4, 5, 6, 7, 8, 9, 10, 11, 12]
    } else if t == 1 {
        seq![0i32, 2, 4, 5, 7, 9, 11, 12]
    } else if t == 2 {
        seq![0i32, 2, 3, 5, 7, 9, 10, 12]
    } else if t == 3 {
        seq![0i32, 1, 3, 5, 7, 8, 10, 12]
    } else if t == 4 {
        seq![0i32, 2, 4, 6, 7, 9, 11, 12]
    } else if t == 5 {
        seq![0i32, 2, 4, 5, 7, 9, 10, 12]
    } else if t == 6 {
        seq![0i32, 2, 3, 5, 7, 8, 10, 12]
    } else if t == 7 {
        seq![0i32, 1, 3, 5, 6, 8, 10, 12]
    } else if t == 8 {
        seq![0i32, 2, 4, 7, 9, 12]
    } else if t == 9 {
        seq![0i32, 3, 5, 7, 10, 12]
    } else if t == 10 {
        seq![0i32, 3, 5, 6, 7, 10, 12]
    } else if t == 11 {
        seq![0i32, 1, 5, 7, 8, 12]
    } else if t == 12 {
        seq![0i32, 2, 3, 7, 9, 12]
    } else {
        seq![0i32, 2, 6, 10, 5, 7, 9, 13]
    }
}

/// The display name of chord type `t`.
pub open spec fn chord_name_spec(t: int) -> Seq<char> {
    if t == 0 {
        "None"@
    } else if t == 1 {
        "Major"@
    } else if t == 2 {
        "Minor"@
    } else if t == 3 {
        "Major 7"@
    } else if t == 4 {
        "Minor 7"@
    } else if t == 5 {
        "Dominant 7"@
    } else if t == 6 {
        "Diminished"@
    } else if t == 7 {
        "Diminished 7"@
    } else if t == 8 {
        "Half Diminished"@
    } else if t == 9 {
        "Augmented"@
    } else if t == 10 {
        "Minor Major 7"@
    } else if t == 11 {
        "Augmented 7"@
    } else if t == 12 {
        "Minor 6"@
    } else if t == 13 {
        "Sus 4"@
    } else if t == 14 {
        "Sus 2"@
    } else {
        "Major 6"@
    }
}

/// The display name of scale `t`.
pub open spec fn scale_name_spec(t: int) -> Seq<char> {
    if t == 0 {
        "Chromatic"@
    } else if t == 1 {
        "Ionian"@
    } else if t == 2 {
        "Dorian"@
    } else if t == 3 {
        "Phrygian"@
    } else if t == 4 {
        "Lydian"@
    } else if t == 5 {
        "Mixolydian"@
    } else if t == 6 {
        "Aeolian"@
    } else if t == 7 {
        "Locrian"@
    } else if t == 8 {
        "Major Pentatonic"@
    } else if t == 9 {
        "Minor Pentatonic"@
    } else if t == 10 {
        "Blues"@
    } else if t == 11 {
        "Japanese"@
    } else if t == 12 {
        "Hawaiian"@
    } else {
        "Drums"@
    }
}

/// The name of pitch class `t` (0 is C).
pub open spec fn root_name_spec(t: int) -> Seq<char> {
    if t == 0 {
        "C"@
    } else if t == 1 {
        "C#"@
    } else if t == 2 {
        "D"@
    } else if t == 3 {
        "D#"@
    } else if t == 4 {
        "E"@
    } else if t == 5 {
        "F"@
    } else if t == 6 {
        "F#"@
    } else if t == 7 {
        "G"@
    } else if t == 8 {
        "G#"@
    } else if t == 9 {
        "A"@
    } else if t == 10 {
        "A#"@
    } else {
        "B"@
    }
}

/// The chord-step row of chord type `t`.
pub fn chord_row_vec(t: usize) -> (r: Vec<i32>)
    requires
        t < NUM_CHORDS,
    ensures
        r@ == chord_row(t as int),
{
    if t == 0 {
        vec![0i32, 0, 0, 0]
    } else if t == 1 {
        vec![0i32, 4, 7, 12]
    } else if t == 2 {
        vec![0i32, 3, 7, 12]
    } else if t == 3 {
        vec![0i32, 4, 7, 11]
    } else if t == 4 {
        vec![0i32, 3, 7, 10]
    } else if t == 5 {
        vec![0i32, 4, 7, 10]
    } else if t == 6 {
        vec![0i32, 3, 6, 12]
    } else if t == 7 {
        vec![0i32, 3, 6, 9]
    } else if t == 8 {
        vec![0i32, 3, 6, 10]
    } else if t == 9 {
        vec![0i32, 4, 8, 12]
    } else if t == 10 {
        vec![0i32, 3, 7, 11]
    } else if t == 11 {
        vec![0i32, 4, 8, 10]
    } else if t == 12 {
        vec![0i32, 3, 7, 9]
    } else if t == 13 {
        vec![0i32, 5, 7, 12]
    } else if t == 14 {
        vec![0i32, 2, 7, 12]
    } else {
        vec![0i32, 4, 7, 9]
    }
}

/// The arpeggio row of chord type `t`.
pub fn arp_row_vec(t: usize) -> (r: Vec<i32>)
    requires
        t < NUM_CHORDS,
    ensures
        r@ == arp_row(t as int),
{
    if t == 0 {
        vec![0i32]
    } else if t == 1 {
        vec![0i32, 4, 7, 12, 16, 19, 24]
    } else if t == 2 {
        vec![0i32, 3, 7, 12, 15, 19, 24]
    } else if t == 3 {
        vec![0i32, 4, 7, 11, 12, 16, 19, 23, 24]
    } else if t == 4 {
        vec![0i32, 3, 7, 10, 12, 15, 19, 22, 24]
    } else if t == 5 {
        vec![0i32, 4, 7, 10, 12, 16, 19, 22, 24]
    } else if t == 6 {
        vec![0i32, 3, 6, 12, 15, 18, 24]
    } else if t == 7 {
        vec![0i32, 3, 6, 9, 12, 15, 18, 21, 24]
    } else if t == 8 {
        vec![0i32, 3, 6, 10, 12, 15, 18, 22, 24]
    } else if t == 9 {
        vec![0i32, 4, 8, 12, 16, 20, 24]
    } else if t == 10 {
        vec![0i32, 3, 7, 11, 12, 15, 19, 23, 24]
    } else if t == 11 {
        vec![0i32, 4, 8, 10, 12, 16, 20, 22, 24]
    } else if t == 12 {
        vec![0i32, 3, 7, 9, 12, 15, 19, 21, 24]
    } else if t == 13 {
        vec![0i32, 5, 7, 12, 17, 19, 24]
    } else if t == 14 {
        vec![0i32, 2, 7, 12, 14, 19, 24]
    } else {
        vec![0i32, 4, 7, 9, 12, 16, 19, 21, 24]
    }
}

/// The tone-step row of scale `t`.
pub fn scale_row_vec(t: usize) -> (r: Vec<i32>)
    requires
        t < NUM_SCALES,
    ensures
        r@ == scale_row(t as int),
{
    if t == 0 {
        vec![0i32, 1, 2, 3, 4, 5, 6, 7, 8, 9, 10, 11, 12]
    } else if t == 1 {
        vec![0i32, 2, 4, 5, 7, 9, 11, 12]
    } else if t == 2 {
        vec![0i32, 2, 3, 5, 7, 9, 10, 12]
    } else if t == 3 {
        vec![0i32, 1, 3, 5, 7, 8, 10, 12]
    } else if t == 4 {
        vec![0i32, 2, 4, 6, 7, 9, 11, 12]
    } else if t == 5 {
        vec![0i32, 2, 4, 5, 7, 9, 10, 12]
    } else if t == 6 {
        vec![0i32, 2, 3, 5, 7, 8, 10, 12]
    } else if t == 7 {
        vec![0i32, 1, 3, 5, 6, 8, 10, 12]
    } else if t == 8 {
        vec![0i32, 2, 4, 7, 9, 12]
    } else if t == 9 {
        vec![0i32, 3, 5, 7, 10, 12]
    } else if t == 10 {
        vec![0i32, 3, 5, 6, 7, 10, 12]
    } else if t == 11 {
        vec![0i32, 1, 5, 7, 8, 12]
    } else if t == 12 {
        vec![0i32, 2, 3, 7, 9, 12]
    } else {
        vec![0i32, 2, 6, 10, 5, 7, 9, 13]
    }
}

/// The display name of chord type `t`.
pub fn chord_name(t: usize) -> (r: &'static str)
    requires
        t < NUM_CHORDS,
    ensures
        r@ == chord_name_spec(t as int),
{
    if t == 0 {
        "None"
    } else if t == 1 {
        "Major"
    } else if t == 2 {
        "Minor"
    } else if t == 3 {
        "Major 7"
    } else if t == 4 {
        "Minor 7"
    } else if t == 5 {
        "Dominant 7"
    } else if t == 6 {
        "Diminished"
    } else if t == 7 {
        "Diminished 7"
    } else if t == 8 {
        "Half Diminished"
    } else if t == 9 {
        "Augmented"
    } else if t == 10 {
        "Minor Major 7"
    } else if t == 11 {
        "Augmented 7"
    } else if t == 12 {
        "Minor 6"
    } else if t == 13 {
        "Sus 4"
    } else if t == 14 {
        "Sus 2"
    } else {
        "Major 6"
    }
}

/// The display name of scale `t`.
pub fn scale_name(t: usize) -> (r: &'static str)
    requires
        t < NUM_SCALES,
    ensures
        r@ == scale_name_spec(t as int),
{
    if t == 0 {
        "Chromatic"
    } else if t == 1 {
        "Ionian"
    } else if t == 2 {
        "Dorian"
    } else if t == 3 {
        "Phrygian"
    } else if t == 4 {
        "Lydian"
    } else if t == 5 {
        "Mixolydian"
    } else if t == 6 {
        "Aeolian"
    } else if t == 7 {
        "Locrian"
    } else if t == 8 {
        "Major Pentatonic"
    } else if t == 9 {
        "Minor Pentatonic"
    } else if t == 10 {
        "Blues"
    } else if t == 11 {
        "Japanese"
    } else if t == 12 {
        "Hawaiian"
    } else {
        "Drums"
    }
}

/// The name of pitch class `t`.
pub fn root_name(t: usize) -> (r: &'static str)
    requires
        t < NUM_ROOTS,
    ensures
        r@ == root_name_spec(t as int),
{
    if t == 0 {
        "C"
    } else if t == 1 {
        "C#"
    } else if t == 2 {
        "D"
    } else if t == 3 {
        "D#"
    } else if t == 4 {
        "E"
    } else if t == 5 {
        "F"
    } else if t == 6 {
        "F#"
    } else if t == 7 {
        "G"
    } else if t == 8 {
        "G#"
    } else if t == 9 {
        "A"
    } else if t == 10 {
        "A#"
    } else {
        "B"
    }
}

} // verus!
