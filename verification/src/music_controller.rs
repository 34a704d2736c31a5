//! Harmonic state: the chord and scale tables, the chord and scale cursors
//! (`ChordMatrix`, `ScalesMatrix`) and the `MusicController` that combines them
//! into absolute MIDI note numbers.
use vstd::prelude::*;
use vstd::string::*;
use crate::music_data::{
    arp_row, arp_row_vec, chord_name, chord_name_spec, chord_row, chord_row_vec, root_name,
    root_name_spec, scale_name, scale_name_spec, scale_row, scale_row_vec, NUM_CHORDS, NUM_ROOTS,
    NUM_SCALES,
};

verus! {

/// The chord table: names, chord steps and arpeggio steps of each chord type.
pub struct ChordsData {
    pub names: Vec<String>,
    pub chord_step: Vec<Vec<i32>>,
    pub arp_chord_step: Vec<Vec<i32>>,
}

/// The scale table: names, the twelve root names and the tone steps of each scale.
pub struct ScalesData {
    pub names: Vec<String>,
    pub root_names: Vec<String>,
    pub tone_step: Vec<Vec<i32>>,
}

impl ChordsData {
    /// The value holds exactly the chord table of `music_data`.
    pub open spec fn is_chord_table(&self) -> bool {
        &&& self.names@.len() == NUM_CHORDS
        &&& self.chord_step@.len() == NUM_CHORDS
        &&& self.arp_chord_step@.len() == NUM_CHORDS
        &&& forall|t: int| 0 <= t < NUM_CHORDS ==> #[trigger] self.names@[t]@ == chord_name_spec(t)
        &&& forall|t: int| 0 <= t < NUM_CHORDS ==> #[trigger] self.chord_step@[t]@ == chord_row(t)
        &&& forall|t: int| 0 <= t < NUM_CHORDS ==> #[trigger] self.arp_chord_step@[t]@ == arp_row(t)
    }
}

impl ScalesData {
    /// The value holds exactly the scale table of `music_data`.
    pub open spec fn is_scale_table(&self) -> bool {
        &&& self.names@.len() == NUM_SCALES
        &&& self.root_names@.len() == NUM_ROOTS
        &&& self.tone_step@.len() == NUM_SCALES
        &&& forall|t: int| 0 <= t < NUM_SCALES ==> #[trigger] self.names@[t]@ == scale_name_spec(t)
        &&& forall|t: int| 0 <= t < NUM_ROOTS ==> #[trigger] self.root_names@[t]@ == root_name_spec(t)
        &&& forall|t: int| 0 <= t < NUM_SCALES ==> #[trigger] self.tone_step@[t]@ == scale_row(t)
    }
}

/// The names of all chord types, in table order.
pub fn chord_names() -> (r: Vec<String>)
    ensures
        r@.len() == NUM_CHORDS,
        forall|t: int| 0 <= t < NUM_CHORDS ==> #[trigger] r@[t]@ == chord_name_spec(t),
{
    let mut r: Vec<String> = Vec::new();
    for t in 0..NUM_CHORDS
        invariant
            r@.len() == t,
            forall|k: int| 0 <= k < t ==> #[trigger] r@[k]@ == chord_name_spec(k),
    {
        r.push(String::from_str(chord_name(t)));
    }
    r
}

/// The twelve root names, C first.
pub fn root_names() -> (r: Vec<String>)
    ensures
        r@.len() == NUM_ROOTS,
        forall|t: int| 0 <= t < NUM_ROOTS ==> #[trigger] r@[t]@ == root_name_spec(t),
{
    let mut r: Vec<String> = Vec::new();
    for t in 0..NUM_ROOTS
        invariant
            r@.len() == t,
            forall|k: int| 0 <= k < t ==> #[trigger] r@[k]@ == root_name_spec(k),
    {
        r.push(String::from_str(root_name(t)));
    }
    r
}

/// The whole chord table.
pub fn chords_data() -> (d: ChordsData)
    ensures
        d.is_chord_table(),
{
    let names = chord_names();
    let mut chord_step: Vec<Vec<i32>> = Vec::new();
    let mut arp_chord_step: Vec<Vec<i32>> = Vec::new();
    for t in 0..NUM_CHORDS
        invariant
            chord_step@.len() == t,
            arp_chord_step@.len() == t,
            forall|k: int| 0 <= k < t ==> #[trigger] chord_step@[k]@ == chord_row(k),
            forall|k: int| 0 <= k < t ==> #[trigger] arp_chord_step@[k]@ == arp_row(k),
    {
        chord_step.push(chord_row_vec(t));
        arp_chord_step.push(arp_row_vec(t));
    }
    ChordsData { names, chord_step, arp_chord_step }
}

/// The whole scale table.
pub fn scales_data() -> (d: ScalesData)
    ensures
        d.is_scale_table(),
{
    let mut names: Vec<String> = Vec::new();
    let mut tone_step: Vec<Vec<i32>> = Vec::new();
    for t in 0..NUM_SCALES
        invariant
            names@.len() == t,
            tone_step@.len() == t,
            forall|k: int| 0 <= k < t ==> #[trigger] names@[k]@ == scale_name_spec(k),
            forall|k: int| 0 <= k < t ==> #[trigger] tone_step@[k]@ == scale_row(k),
    {
        names.push(String::from_str(scale_name(t)));
        tone_step.push(scale_row_vec(t));
    }
    ScalesData { names, root_names: root_names(), tone_step }
}


/// The abstract state of a `ChordMatrix`.
pub struct ChordMatrixView {
    pub chord_type: nat,
    pub n_steps: nat,
    pub n_arp_steps: nat,
    pub number_chords: nat,
}

/// A cursor on the chord table: the selected chord type and the step counts
/// that were read for it.
#[derive(Debug, Default)]
pub struct ChordMatrix {
    chord_type: usize,
    n_steps: usize,
    n_arp_steps: usize,
    number_chords: usize,
}

impl View for ChordMatrix {
    type V = ChordMatrixView;

    closed spec fn view(&self) -> ChordMatrixView {
        ChordMatrixView {
            chord_type: self.chord_type as nat,
            n_steps: self.n_steps as nat,
            n_arp_steps: self.n_arp_steps as nat,
            number_chords: self.number_chords as nat,
        }
    }
}

impl Clone for ChordMatrix {
    fn clone(&self) -> (r: Self)
        ensures
            r@ == self@,
    {
        proof {
            use_type_invariant(self);
        }
        ChordMatrix {
            chord_type: self.chord_type,
            n_steps: self.n_steps,
            n_arp_steps: self.n_arp_steps,
            number_chords: self.number_chords,
        }
    }
}

impl ChordMatrix {
    #[verifier::type_invariant]
    spec fn chord_type_in_table(&self) -> bool {
        self.chord_type < NUM_CHORDS
    }

    /// Selects chord type 0; the step counts are read from its rows.
    pub fn new() -> (r: Self)
        ensures
            r@ == (ChordMatrixView {
                chord_type: 0,
                n_steps: chord_row(0).len(),
                n_arp_steps: arp_row(0).len(),
                number_chords: chord_row(0).len(),
            }),
    {
        let chord_type: usize = 0;
        Self {
            chord_type,
            n_steps: chord_row_vec(chord_type).len(),
            n_arp_steps: arp_row_vec(chord_type).len(),
            number_chords: chord_row_vec(chord_type).len(),
        }
    }

    /// Selects `chord_type` and reads its chord-step count.
    pub fn set_chord_type(&mut self, chord_type: usize)
        requires
            chord_type < NUM_CHORDS,
        ensures
            final(self)@ == (ChordMatrixView {
                chord_type: chord_type as nat,
                n_steps: chord_row(chord_type as int).len(),
                ..old(self)@
            }),
    {
        let n = chord_row_vec(chord_type).len();
        self.chord_type = chord_type;
        self.n_steps = n;
    }

    /// Selects `chord_type` and reads its arpeggio-step count; the chord-step
    /// count is left as it was.
    pub fn set_arp_chord_type(&mut self, chord_type: usize)
        requires
            chord_type < NUM_CHORDS,
        ensures
            final(self)@ == (ChordMatrixView {
                chord_type: chord_type as nat,
                n_arp_steps: arp_row(chord_type as int).len(),
                ..old(self)@
            }),
    {
        let n = arp_row_vec(chord_type).len();
        self.chord_type = chord_type;
        self.n_arp_steps = n;
    }

    pub fn get_chord_type(&self) -> (r: usize)
        ensures
            r == self@.chord_type,
            r < NUM_CHORDS,
    {
        proof {
            use_type_invariant(self);
        }
        self.chord_type
    }

    /// The offset at `step` in the chord-step row of the selected type.
    pub fn get_chord_step(&self, step: usize) -> (r: i32)
        requires
            step < chord_row(self@.chord_type as int).len(),
        ensures
            r == chord_row(self@.chord_type as int)[step as int],
    {
        proof {
            use_type_invariant(self);
        }
        let row = chord_row_vec(self.chord_type);
        row[step]
    }

    /// The offset at `step` in the arpeggio row of the selected type.
    pub fn get_arp_chord_step(&self, step: usize) -> (r: i32)
        requires
            step < arp_row(self@.chord_type as int).len(),
        ensures
            r == arp_row(self@.chord_type as int)[step as int],
    {
        proof {
            use_type_invariant(self);
        }
        let row = arp_row_vec(self.chord_type);
        row[step]
    }

    pub fn get_chord_steps(&self) -> (r: usize)
        ensures
            r == self@.n_steps,
    {
        self.n_steps
    }

    pub fn get_arp_chord_steps(&self) -> (r: usize)
        ensures
            r == self@.n_arp_steps,
    {
        self.n_arp_steps
    }

    pub fn get_number_chords(&self) -> (r: usize)
        ensures
            r == self@.number_chords,
    {
        self.number_chords
    }
}

/// The abstract state of a `ScalesMatrix`.
pub struct ScalesMatrixView {
    pub tonality: nat,
    pub number_scales: nat,
}

/// A cursor on the scale table: the selected scale ("tonality").
#[derive(Debug, Default)]
pub struct ScalesMatrix {
    tonality: usize,
    number_scales: usize,
}

impl View for ScalesMatrix {
    type V = ScalesMatrixView;

    closed spec fn view(&self) -> ScalesMatrixView {
        ScalesMatrixView { tonality: self.tonality as nat, number_scales: self.number_scales as nat }
    }
}

impl Clone for ScalesMatrix {
    fn clone(&self) -> (r: Self)
        ensures
            r@ == self@,
    {
        ScalesMatrix { tonality: self.tonality, number_scales: self.number_scales }
    }
}

impl ScalesMatrix {
    /// Selects scale 0 and records how many scales the table holds.
    pub fn new() -> (r: Self)
        ensures
            r@ == (ScalesMatrixView { tonality: 0, number_scales: NUM_SCALES as nat }),
    {
        let data = scales_data();
        Self { tonality: 0, number_scales: data.tone_step.len() }
    }

    /// Selects `tonality`; nothing checks it against the table here.
    pub fn set_tonality(&mut self, tonality: usize)
        ensures
            final(self)@ == (ScalesMatrixView { tonality: tonality as nat, ..old(self)@ }),
    {
        self.tonality = tonality;
    }

    pub fn get_tonality(&self) -> (r: usize)
        ensures
            r == self@.tonality,
    {
        self.tonality
    }

    /// The number of steps of the selected scale.
    pub fn get_steps(&self) -> (r: usize)
        requires
            self@.tonality < NUM_SCALES,
        ensures
            r == scale_row(self@.tonality as int).len(),
    {
        scale_row_vec(self.tonality).len()
    }

    /// The offset at `step_scale` in the selected scale.
    pub fn get_scale_step(&self, step_scale: usize) -> (r: i32)
        requires
            self@.tonality < NUM_SCALES,
            step_scale < scale_row(self@.tonality as int).len(),
        ensures
            r == scale_row(self@.tonality as int)[step_scale as int],
    {
        let row = scale_row_vec(self.tonality);
        row[step_scale]
    }

    pub fn get_number_scales(&self) -> (r: usize)
        ensures
            r == self@.number_scales,
    {
        self.number_scales
    }
}

/// What a voice of the instrument plays.
#[derive(Debug, Clone, Copy, PartialEq, Eq, Default)]
pub enum PartType {
    #[default]
    Scale,
    FullChord,
    ArpChord,
    Drum,
}


/// The abstract state of a `MusicController` (its private fields).
pub struct MusicControllerView {
    pub c_note: int,
    pub current_note: int,
    pub last_note: int,
    pub current_root_note: int,
    pub current_step: int,
    pub current_chord_step: int,
    pub current_octave: int,
    pub octave_offset: int,
    pub current_scale: nat,
    pub current_chord: nat,
    pub last_chord: nat,
    pub voices: int,
    pub number_octaves: int,
    pub velocity: int,
    pub midi_channel: int,
    pub scales: ScalesMatrixView,
    pub chords: ChordMatrixView,
}

/// Whether `x` is a value of `i32`.
pub open spec fn fits_i32(x: int) -> bool {
    i32::MIN <= x <= i32::MAX
}

/// `root + offset + 12 * (octave + octave_offset)`, the absolute MIDI note of
/// a table offset.
pub open spec fn midi_note_of(root: int, offset: int, octave: int, octave_offset: int) -> int {
    root + offset + octave * 12 + octave_offset * 12
}

/// The four partial sums of `midi_note_of`, as i32 arithmetic evaluates them,
/// all fit in an `i32`.
pub open spec fn midi_note_fits(root: int, offset: int, octave: int, octave_offset: int) -> bool {
    &&& fits_i32(root + offset)
    &&& fits_i32(octave * 12)
    &&& fits_i32(root + offset + octave * 12)
    &&& fits_i32(octave_offset * 12)
    &&& fits_i32(midi_note_of(root, offset, octave, octave_offset))
}

/// Harmonic state: the current root, scale, chord and octave, with the
/// scale and chord cursors.
#[derive(Debug, Default)]
pub struct MusicController {
    pub(crate) c_note: i32,
    pub(crate) current_note: i32,
    pub(crate) last_note: i32,
    pub(crate) current_root_note: i32,
    pub(crate) current_step: i32,
    pub(crate) current_chord_step: i32,
    pub(crate) current_octave: i32,
    pub(crate) octave_offset: i32,
    pub(crate) current_scale: usize,
    pub(crate) current_chord: usize,
    pub(crate) last_chord: usize,
    pub(crate) voices: i32,
    pub(crate) number_octaves: i32,
    pub(crate) velocity: i32,
    pub(crate) midi_channel: i32,
    pub scales: ScalesMatrix,
    pub chords: ChordMatrix,
}

impl View for MusicController {
    type V = MusicControllerView;

    closed spec fn view(&self) -> MusicControllerView {
        MusicControllerView {
            c_note: self.c_note as int,
            current_note: self.current_note as int,
            last_note: self.last_note as int,
            current_root_note: self.current_root_note as int,
            current_step: self.current_step as int,
            current_chord_step: self.current_chord_step as int,
            current_octave: self.current_octave as int,
            octave_offset: self.octave_offset as int,
            current_scale: self.current_scale as nat,
            current_chord: self.current_chord as nat,
            last_chord: self.last_chord as nat,
            voices: self.voices as int,
            number_octaves: self.number_octaves as int,
            velocity: self.velocity as int,
            midi_channel: self.midi_channel as int,
            scales: self.scales@,
            chords: self.chords@,
        }
    }
}

impl Clone for MusicController {
    fn clone(&self) -> (r: Self)
        ensures
            r@ == self@,
    {
        MusicController {
            c_note: self.c_note,
            current_note: self.current_note,
            last_note: self.last_note,
            current_root_note: self.current_root_note,
            current_step: self.current_step,
            current_chord_step: self.current_chord_step,
            current_octave: self.current_octave,
            octave_offset: self.octave_offset,
            current_scale: self.current_scale,
            current_chord: self.current_chord,
            last_chord: self.last_chord,
            voices: self.voices,
            number_octaves: self.number_octaves,
            velocity: self.velocity,
            midi_channel: self.midi_channel,
            scales: self.scales.clone(),
            chords: self.chords.clone(),
        }
    }
}

/// The state `MusicController::new` starts in.
pub open spec fn initial_controller_view() -> MusicControllerView {
    MusicControllerView {
        c_note: 36,
        current_note: 36,
        last_note: 36,
        current_root_note: 36,
        current_step: 0,
        current_chord_step: 0,
        current_octave: 0,
        octave_offset: 0,
        current_scale: 0,
        current_chord: 0,
        last_chord: 0,
        voices: 1,
        number_octaves: 2,
        velocity: 100,
        midi_channel: 0x90,
        scales: ScalesMatrixView { tonality: 0, number_scales: NUM_SCALES as nat },
        chords: ChordMatrixView {
            chord_type: 0,
            n_steps: chord_row(0).len(),
            n_arp_steps: arp_row(0).len(),
            number_chords: chord_row(0).len(),
        },
    }
}

/// The octave offset after `up_octave`: one more, up to 5.
pub open spec fn raised_octave_offset(o: int) -> int {
    if o < 5 {
        o + 1
    } else {
        o
    }
}

/// The octave offset after `down_octave`: one less, down to 0.
pub open spec fn lowered_octave_offset(o: int) -> int {
    if o > 0 {
        o - 1
    } else {
        o
    }
}

/// Law: raising and lowering keep the octave offset within 0..=5, and below
/// the top (above the bottom) one step up (down) is undone by one step down (up).
pub proof fn lemma_octave_offset_bounds(o: int)
    ensures
        0 <= o <= 5 ==> 0 <= raised_octave_offset(o) <= 5 && 0 <= lowered_octave_offset(o) <= 5,
        0 <= o < 5 ==> lowered_octave_offset(raised_octave_offset(o)) == o,
        0 < o <= 5 ==> raised_octave_offset(lowered_octave_offset(o)) == o,
{
}

/// Law: selecting a chord overrides any chord selected before.
pub proof fn lemma_chord_selection_overrides(v: MusicControllerView, a: nat, b: nat)
    ensures
        v.with_current_chord(a).with_current_chord(b) == v.with_current_chord(b),
        v.with_current_chord(b).current_chord == b,
        v.with_current_chord(b).chords.chord_type == b,
{
}

impl MusicControllerView {
    /// The state after selecting chord type `t`: recorded as the current
    /// chord, and selected as an arpeggio chord in the chord cursor.
    pub open spec fn with_current_chord(self, t: nat) -> MusicControllerView {
        MusicControllerView {
            current_chord: t,
            chords: ChordMatrixView { chord_type: t, n_arp_steps: arp_row(t as int).len(), ..self.chords },
            ..self
        }
    }
}

impl MusicController {
    /// Within the crate, the cursor parts of the view are the cursors' own views.
    pub(crate) proof fn lemma_view_parts(&self)
        ensures
            self@.scales == self.scales@,
            self@.chords == self.chords@,
    {
    }

    pub fn new() -> (r: Self)
        ensures
            r@ == initial_controller_view(),
    {
        let c_note: i32 = 36;
        Self {
            c_note,
            current_note: c_note,
            last_note: c_note,
            current_root_note: c_note,
            current_step: 0,
            current_chord_step: 0,
            current_octave: 0,
            octave_offset: 0,
            current_scale: 0,
            current_chord: 0,
            last_chord: 0,
            voices: 1,
            number_octaves: 2,
            velocity: 100,
            midi_channel: 0x90,
            scales: ScalesMatrix::new(),
            chords: ChordMatrix::new(),
        }
    }

    /// Selects scale `current_scale` here and in the scale cursor.
    pub fn set_current_scale(&mut self, current_scale: usize)
        ensures
            final(self)@ == (MusicControllerView {
                current_scale: current_scale as nat,
                scales: ScalesMatrixView { tonality: current_scale as nat, ..old(self)@.scales },
                ..old(self)@
            }),
    {
        self.current_scale = current_scale;
        self.scales.set_tonality(current_scale);
    }

    pub fn set_current_root(&mut self, current_root: i32)
        ensures
            final(self)@ == (MusicControllerView { current_root_note: current_root as int, ..old(self)@ }),
    {
        self.current_root_note = current_root;
    }

    pub fn set_current_note(&mut self, current_note: i32)
        ensures
            final(self)@ == (MusicControllerView { current_note: current_note as int, ..old(self)@ }),
    {
        self.current_note = current_note;
    }

    /// Selects chord type `current_chord` here and, as an arpeggio chord, in
    /// the chord cursor.
    pub fn set_current_chord(&mut self, current_chord: usize)
        requires
            current_chord < NUM_CHORDS,
        ensures
            final(self)@ == old(self)@.with_current_chord(current_chord as nat),
    {
        self.current_chord = current_chord;
        self.chords.set_arp_chord_type(current_chord);
    }

    /// Raises the octave offset by one, up to 5.
    pub fn up_octave(&mut self)
        ensures
            final(self)@ == (MusicControllerView {
                octave_offset: raised_octave_offset(old(self)@.octave_offset),
                ..old(self)@
            }),
    {
        if self.octave_offset < 5 {
            self.octave_offset += 1;
        }
    }

    /// Lowers the octave offset by one, down to 0.
    pub fn down_octave(&mut self)
        ensures
            final(self)@ == (MusicControllerView {
                octave_offset: lowered_octave_offset(old(self)@.octave_offset),
                ..old(self)@
            }),
    {
        if self.octave_offset > 0 {
            self.octave_offset -= 1;
        }
    }

    /// The MIDI note of the current scale step.
    pub fn get_current_midi_note(&self) -> (r: i32)
        requires
            self@.scales.tonality < NUM_SCALES,
            0 <= self@.current_step < scale_row(self@.scales.tonality as int).len(),
            midi_note_fits(
                self@.current_root_note,
                scale_row(self@.scales.tonality as int)[self@.current_step] as int,
                self@.current_octave,
                self@.octave_offset,
            ),
        ensures
            r == midi_note_of(
                self@.current_root_note,
                scale_row(self@.scales.tonality as int)[self@.current_step] as int,
                self@.current_octave,
                self@.octave_offset,
            ),
    {
        self.current_root_note + self.scales.get_scale_step(self.current_step as usize)
            + self.current_octave * 12 + self.octave_offset * 12
    }

    /// The MIDI note of the current chord step.
    pub fn get_current_chord_midi_note(&self) -> (r: i32)
        requires
            0 <= self@.current_chord_step < chord_row(self@.chords.chord_type as int).len(),
            midi_note_fits(
                self@.current_root_note,
                chord_row(self@.chords.chord_type as int)[self@.current_chord_step] as int,
                self@.current_octave,
                self@.octave_offset,
            ),
        ensures
            r == midi_note_of(
                self@.current_root_note,
                chord_row(self@.chords.chord_type as int)[self@.current_chord_step] as int,
                self@.current_octave,
                self@.octave_offset,
            ),
    {
        self.current_root_note + self.chords.get_chord_step(self.current_chord_step as usize)
            + self.current_octave * 12 + self.octave_offset * 12
    }

    /// The MIDI note of the current arpeggio step.
    pub fn get_current_arp_chord_midi_note(&self) -> (r: i32)
        requires
            0 <= self@.current_chord_step < arp_row(self@.chords.chord_type as int).len(),
            midi_note_fits(
                self@.current_root_note,
                arp_row(self@.chords.chord_type as int)[self@.current_chord_step] as int,
                self@.current_octave,
                self@.octave_offset,
            ),
        ensures
            r == midi_note_of(
                self@.current_root_note,
                arp_row(self@.chords.chord_type as int)[self@.current_chord_step] as int,
                self@.current_octave,
                self@.octave_offset,
            ),
    {
        self.current_root_note + self.chords.get_arp_chord_step(self.current_chord_step as usize)
            + self.current_octave * 12 + self.octave_offset * 12
    }

    /// The name of the current root's pitch class. The root must have a
    /// non-negative remainder by 12 (as `%` on `i32` computes it).
    pub fn get_current_root_note_name(&self) -> (r: &str)
        requires
            self@.current_root_note >= 0 || self@.current_root_note % 12 == 0,
        ensures
            r@ == root_name_spec(self@.current_root_note % 12),
    {
        let root_index: usize = if self.current_root_note >= 0 {
            (self.current_root_note % 12) as usize
        } else {
            0
        };
        root_name(root_index)
    }

    pub fn get_scale_name(&self) -> (r: &str)
        requires
            self@.current_scale < NUM_SCALES,
        ensures
            r@ == scale_name_spec(self@.current_scale as int),
    {
        scale_name(self.current_scale)
    }

    pub fn get_chord_name(&self) -> (r: &str)
        requires
            self@.current_chord < NUM_CHORDS,
        ensures
            r@ == chord_name_spec(self@.current_chord as int),
    {
        chord_name(self.current_chord)
    }
}

} // verus!
