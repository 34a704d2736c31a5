//! Chord recognition: from a set of MIDI notes to a root pitch class and a
//! chord type of the chord table.
use vstd::prelude::*;
use crate::music_controller::{initial_controller_view, MusicController, MusicControllerView};
use crate::music_data::{chord_row, NUM_CHORDS};

verus! {

/// A recognised chord: the root's pitch class (0 is C) and the chord type.
#[derive(Debug, Clone, Copy, Default, PartialEq, Eq, Structural)]
pub struct ChordResult {
    pub root: u8,
    pub chord_type: u8,
}

/// Whether some note of `notes` has pitch class `p`.
pub open spec fn has_pitch_class(notes: Seq<u8>, p: int) -> bool {
    exists|k: int| 0 <= k < notes.len() && #[trigger] (notes[k] % 12) == p
}

/// The pitch classes below `n` that occur in `notes`, in increasing order.
pub open spec fn pitch_classes_below(notes: Seq<u8>, n: nat) -> Seq<u8>
    decreases n,
{
    if n == 0 {
        Seq::empty()
    } else {
        let prev = pitch_classes_below(notes, (n - 1) as nat);
        if has_pitch_class(notes, n - 1) {
            prev.push((n - 1) as u8)
        } else {
            prev
        }
    }
}

/// The pitch classes that occur in `notes`, each once, in increasing order.
pub open spec fn pitch_classes(notes: Seq<u8>) -> Seq<u8> {
    pitch_classes_below(notes, 12)
}

/// The interval, in semitones modulo 12, from `a` up to `b`.
pub open spec fn interval(a: int, b: int) -> u8 {
    ((b - a) % 12) as u8
}

/// The intervals between neighbouring notes of `s`.
pub open spec fn intervals(s: Seq<u8>) -> Seq<u8> {
    Seq::new(
        if s.len() == 0 { 0 } else { (s.len() - 1) as nat },
        |k: int| interval(s[k] as int, s[k + 1] as int),
    )
}

/// The intervals between neighbouring offsets of `s`.
pub open spec fn step_intervals(s: Seq<i32>) -> Seq<u8> {
    Seq::new(
        if s.len() == 0 { 0 } else { (s.len() - 1) as nat },
        |k: int| interval(s[k] as int, s[k + 1] as int),
    )
}

/// `s` rotated left by `i`: `s[i..]` followed by `s[..i]`.
pub open spec fn rotation(s: Seq<u8>, i: int) -> Seq<u8> {
    s.subrange(i, s.len() as int) + s.subrange(0, i)
}

/// The number of chord steps a finder compares: the chord-step count of
/// chord type 0, which the finder reads once and keeps.
pub open spec fn detection_steps() -> nat {
    chord_row(0).len()
}

/// The interval pattern of chord type `t`, over its first `detection_steps()` steps.
pub open spec fn chord_intervals(t: int) -> Seq<u8> {
    step_intervals(chord_row(t).take(detection_steps() as int))
}

/// Whether `a` and `b` agree on the length of the shorter one.
pub open spec fn prefix_agree(a: Seq<u8>, b: Seq<u8>) -> bool {
    let m = if a.len() <= b.len() { a.len() } else { b.len() };
    a.take(m as int) == b.take(m as int)
}

/// Whether the intervals of rotation `i` of `pcs` agree with chord type `t`.
pub open spec fn rotation_matches(pcs: Seq<u8>, i: int, t: int) -> bool {
    prefix_agree(intervals(rotation(pcs, i)), chord_intervals(t))
}

/// `(i, t)` is the first match when rotations are tried in order and, for
/// each rotation, the chord types in order.
pub open spec fn is_first_match(pcs: Seq<u8>, i: int, t: int) -> bool {
    &&& 0 <= i < pcs.len()
    &&& 0 <= t < NUM_CHORDS
    &&& rotation_matches(pcs, i, t)
    &&& forall|i2: int, t2: int|
        0 <= i2 < i && 0 <= t2 < NUM_CHORDS ==> !#[trigger] rotation_matches(pcs, i2, t2)
    &&& forall|t2: int| 0 <= t2 < t ==> !#[trigger] rotation_matches(pcs, i, t2)
}

/// Whether some rotation of `pcs` matches some chord type.
pub open spec fn has_match_in(pcs: Seq<u8>) -> bool {
    exists|i: int, t: int| is_first_match(pcs, i, t)
}

/// The first match in `pcs` (meaningful when `has_match_in(pcs)`).
pub open spec fn first_match_in(pcs: Seq<u8>) -> (int, int) {
    choose|i: int, t: int| is_first_match(pcs, i, t)
}

/// Whether some rotation of the pitch classes of `notes` matches some chord type.
pub open spec fn has_match(notes: Seq<u8>) -> bool {
    has_match_in(pitch_classes(notes))
}

/// The first match for `notes` (meaningful when `has_match(notes)`).
pub open spec fn first_match(notes: Seq<u8>) -> (int, int) {
    first_match_in(pitch_classes(notes))
}

/// The chord that the pitch classes `pcs` (increasing) form: the first
/// rotation (lowest first) whose intervals agree with a chord type (lowest
/// first) gives the root (that rotation's first pitch class) and the type;
/// with no such rotation, root 0 and type 0.
pub open spec fn chord_of_pitch_classes(pcs: Seq<u8>) -> ChordResult {
    if has_match_in(pcs) {
        let (i, t) = first_match_in(pcs);
        ChordResult { root: pcs[i], chord_type: t as u8 }
    } else {
        ChordResult { root: 0, chord_type: 0 }
    }
}

/// The chord recognised in `notes`: the chord of its pitch classes.
pub open spec fn identified_chord(notes: Seq<u8>) -> ChordResult {
    chord_of_pitch_classes(pitch_classes(notes))
}

/// The last chord type that recognition selects in the controller: the
/// matching type, or the last type of the table when none matches.
pub open spec fn last_tried_chord(notes: Seq<u8>) -> nat {
    if has_match(notes) {
        first_match(notes).1 as nat
    } else {
        (NUM_CHORDS - 1) as nat
    }
}

/// The pitch classes below `n` are strictly increasing, below `n`, and
/// are exactly those that occur.
pub proof fn lemma_pitch_classes_below(notes: Seq<u8>, n: nat)
    requires
        n <= 12,
    ensures
        forall|a: int, b: int|
            0 <= a < b < pitch_classes_below(notes, n).len() ==> pitch_classes_below(notes, n)[a]
                < pitch_classes_below(notes, n)[b],
        forall|a: int|
            0 <= a < pitch_classes_below(notes, n).len() ==> pitch_classes_below(notes, n)[a] < n,
        forall|p: u8|
            #![trigger pitch_classes_below(notes, n).contains(p)]
            pitch_classes_below(notes, n).contains(p) <==> (p < n && has_pitch_class(notes, p as int)),
    decreases n,
{
    if n > 0 {
        let prev = pitch_classes_below(notes, (n - 1) as nat);
        lemma_pitch_classes_below(notes, (n - 1) as nat);
        let cur = pitch_classes_below(notes, n);
        assert forall|p: u8| cur.contains(p) <==> (p < n && has_pitch_class(notes, p as int)) by {
            if has_pitch_class(notes, n - 1) {
                if cur.contains(p) {
                    let j = choose|j: int| 0 <= j < cur.len() && cur[j] == p;
                    if j < prev.len() {
                        assert(prev.contains(p));
                    }
                }
                if p < n && has_pitch_class(notes, p as int) {
                    if p < n - 1 {
                        assert(prev.contains(p));
                        let j = choose|j: int| 0 <= j < prev.len() && prev[j] == p;
                        assert(cur[j] == p);
                    } else {
                        assert(cur[prev.len() as int] == p);
                    }
                }
            }
        }
    }
}

/// Facts about `pitch_classes`: increasing, below 12, and exactly the
/// pitch classes that occur.
pub proof fn lemma_pitch_classes(notes: Seq<u8>)
    ensures
        forall|a: int, b: int|
            0 <= a < b < pitch_classes(notes).len() ==> pitch_classes(notes)[a] < pitch_classes(notes)[b],
        forall|a: int| 0 <= a < pitch_classes(notes).len() ==> pitch_classes(notes)[a] < 12,
        forall|p: u8|
            #![trigger pitch_classes(notes).contains(p)]
            pitch_classes(notes).contains(p) <==> has_pitch_class(notes, p as int),
{
    lemma_pitch_classes_below(notes, 12);
    assert forall|p: u8| has_pitch_class(notes, p as int) implies p < 12 by {
        let k = choose|k: int| 0 <= k < notes.len() && #[trigger] (notes[k] % 12) == p;
    }
}

/// There is at most one first match.
pub proof fn lemma_first_match_unique(pcs: Seq<u8>, i: int, t: int, i2: int, t2: int)
    requires
        is_first_match(pcs, i, t),
        is_first_match(pcs, i2, t2),
    ensures
        i == i2 && t == t2,
{
    if i < i2 {
        assert(!rotation_matches(pcs, i, t));
    } else if i2 < i {
        assert(!rotation_matches(pcs, i2, t2));
    } else if t < t2 {
        assert(!rotation_matches(pcs, i, t));
    } else if t2 < t {
        assert(!rotation_matches(pcs, i2, t2));
    }
}

/// The pitch classes below `n` agree when the notes have the same pitch
/// classes below `n`.
proof fn lemma_pitch_classes_below_agree(a: Seq<u8>, b: Seq<u8>, n: nat)
    requires
        forall|p: int| 0 <= p < n ==> (has_pitch_class(a, p) <==> has_pitch_class(b, p)),
    ensures
        pitch_classes_below(a, n) == pitch_classes_below(b, n),
    decreases n,
{
    if n > 0 {
        lemma_pitch_classes_below_agree(a, b, (n - 1) as nat);
        assert(has_pitch_class(a, n - 1) <==> has_pitch_class(b, n - 1));
    }
}

/// Law: the recognised chord depends only on which pitch classes occur in
/// the notes. Reordering the notes, repeating them or moving any of them by
/// whole octaves gives the same chord (and leaves the controller in the
/// same state).
pub proof fn lemma_chord_depends_only_on_pitch_classes(a: Seq<u8>, b: Seq<u8>)
    requires
        forall|p: int| 0 <= p < 12 ==> (has_pitch_class(a, p) <==> has_pitch_class(b, p)),
    ensures
        pitch_classes(a) == pitch_classes(b),
        identified_chord(a) == identified_chord(b),
        last_tried_chord(a) == last_tried_chord(b),
{
    lemma_pitch_classes_below_agree(a, b, 12);
}

/// Law: a recognised chord is rooted on a pitch class of the notes, its
/// type is in the table, and the intervals of the rotation starting at the
/// root agree with that type; when nothing is recognised the result is
/// root 0, type 0.
pub proof fn lemma_identified_chord_sound(notes: Seq<u8>)
    ensures
        identified_chord(notes).chord_type < NUM_CHORDS,
        has_match(notes) ==> has_pitch_class(notes, identified_chord(notes).root as int),
        has_match(notes) ==> ({
            let (i, t) = first_match(notes);
            &&& pitch_classes(notes)[i] == identified_chord(notes).root
            &&& identified_chord(notes).chord_type == t
            &&& rotation_matches(pitch_classes(notes), i, t)
        }),
        !has_match(notes) ==> identified_chord(notes) == (ChordResult { root: 0, chord_type: 0 }),
{
    if has_match(notes) {
        let pcs = pitch_classes(notes);
        let (i, t) = first_match(notes);
        assert(is_first_match(pcs, i, t));
        lemma_pitch_classes(notes);
        assert(pcs.contains(pcs[i]));
    }
}

/// The interval from `a` up to `b`, modulo 12.
fn interval_u8(a: u8, b: u8) -> (r: u8)
    ensures
        r == interval(a as int, b as int),
        r < 12,
{
    if b >= a {
        (b - a) % 12
    } else {
        let m = (a - b) % 12;
        if m == 0 {
            0
        } else {
            12 - m
        }
    }
}

/// The interval from offset `a` up to offset `b`, modulo 12.
fn interval_i32(a: i32, b: i32) -> (r: u8)
    ensures
        r == interval(a as int, b as int),
        r < 12,
{
    let a64 = a as i64;
    let b64 = b as i64;
    if b64 >= a64 {
        ((b64 - a64) % 12) as u8
    } else {
        let m = (a64 - b64) % 12;
        if m == 0 {
            0
        } else {
            (12 - m) as u8
        }
    }
}

/// The intervals between neighbouring offsets of `steps`.
fn step_intervals_vec(steps: &Vec<i32>) -> (r: Vec<u8>)
    ensures
        r@ == step_intervals(steps@),
{
    let mut r: Vec<u8> = Vec::new();
    if steps.len() == 0 {
        return r;
    }
    let n = steps.len() - 1;
    for k in 0..n
        invariant
            n == steps@.len() - 1,
            r@.len() == k,
            forall|j: int| 0 <= j < k ==> #[trigger] r@[j] == interval(steps@[j] as int, steps@[j + 1] as int),
    {
        r.push(interval_i32(steps[k], steps[k + 1]));
    }
    assert(r@ =~= step_intervals(steps@));
    r
}

/// `s` rotated left by `i`.
fn rotate_left(s: &Vec<u8>, i: usize) -> (r: Vec<u8>)
    requires
        i <= s.len(),
    ensures
        r@ == rotation(s@, i as int),
{
    let mut r: Vec<u8> = Vec::new();
    let n = s.len();
    for k in i..n
        invariant
            n == s@.len(),
            i <= n,
            r@ == s@.subrange(i as int, k as int),
    {
        r.push(s[k]);
        assert(r@ =~= s@.subrange(i as int, k + 1));
    }
    for k in 0..i
        invariant
            n == s@.len(),
            i <= n,
            r@ == s@.subrange(i as int, n as int) + s@.subrange(0, k as int),
    {
        r.push(s[k]);
        assert(r@ =~= s@.subrange(i as int, n as int) + s@.subrange(0, k + 1));
    }
    r
}

/// Whether `a` and `b` agree on the length of the shorter one.
fn prefixes_agree(a: &Vec<u8>, b: &Vec<u8>) -> (r: bool)
    ensures
        r == prefix_agree(a@, b@),
{
    let m = if a.len() <= b.len() { a.len() } else { b.len() };
    for k in 0..m
        invariant
            m <= a@.len(),
            m <= b@.len(),
            m == (if a@.len() <= b@.len() { a@.len() } else { b@.len() }),
            forall|j: int| 0 <= j < k ==> a@[j] == b@[j],
    {
        if a[k] != b[k] {
            assert(a@.take(m as int)[k as int] != b@.take(m as int)[k as int]);
            return false;
        }
    }
    assert(a@.take(m as int) =~= b@.take(m as int));
    true
}

/// Recognises chords with the help of a `MusicController`, whose chord
/// cursor supplies the chord steps of each type.
pub struct ChordFinder {
    music_controller: MusicController,
}

impl View for ChordFinder {
    type V = MusicControllerView;

    closed spec fn view(&self) -> MusicControllerView {
        self.music_controller@
    }
}

/// Tries each rotation of `pcs` against each chord type, selecting each
/// type in `mc` before reading its steps.
fn search_chord(mc: &mut MusicController, pcs: &Vec<u8>) -> (r: Option<ChordResult>)
    requires
        old(mc)@.chords.n_steps == detection_steps(),
        pcs@.len() > 0,
        forall|a: int| 0 <= a < pcs@.len() ==> pcs@[a] < 12,
    ensures
        match r {
            Some(c) => exists|i: int, t: int|
                is_first_match(pcs@, i, t) && c.root == pcs@[i] && c.chord_type == t && final(mc)@
                    == old(mc)@.with_current_chord(t as nat),
            None => (forall|i: int, t: int| !is_first_match(pcs@, i, t)) && final(mc)@
                == old(mc)@.with_current_chord((NUM_CHORDS - 1) as nat),
        },
{
    let ghost start = mc@;
    let n = pcs.len();
    for i in 0..n
        invariant
            n == pcs@.len(),
            n > 0,
            forall|a: int| 0 <= a < pcs@.len() ==> pcs@[a] < 12,
            start.chords.n_steps == detection_steps(),
            start == old(mc)@,
            i == 0 ==> mc@ == start,
            i > 0 ==> mc@ == start.with_current_chord((NUM_CHORDS - 1) as nat),
            forall|i2: int, t2: int|
                0 <= i2 < i && 0 <= t2 < NUM_CHORDS ==> !#[trigger] rotation_matches(pcs@, i2, t2),
    {
        let rotated = rotate_left(pcs, i);
        let ivals = get_intervals_of(&rotated);
        for t in 0..NUM_CHORDS
            invariant
                n == pcs@.len(),
                0 <= i < n,
                rotated@ == rotation(pcs@, i as int),
                ivals@ == intervals(rotated@),
                start.chords.n_steps == detection_steps(),
                start == old(mc)@,
                t == 0 && i == 0 ==> mc@ == start,
                t == 0 && i > 0 ==> mc@ == start.with_current_chord((NUM_CHORDS - 1) as nat),
                t > 0 ==> mc@ == start.with_current_chord((t - 1) as nat),
                forall|i2: int, t2: int|
                    0 <= i2 < i && 0 <= t2 < NUM_CHORDS ==> !#[trigger] rotation_matches(pcs@, i2, t2),
                forall|t2: int| 0 <= t2 < t ==> !#[trigger] rotation_matches(pcs@, i as int, t2),
        {
            mc.set_current_chord(t);
            proof {
                mc.lemma_view_parts();
                assert(mc@ == start.with_current_chord(t as nat));
            }
            let n_steps = mc.chords.get_chord_steps();
            let mut steps: Vec<i32> = Vec::new();
            for s in 0..n_steps
                invariant
                    n_steps == detection_steps(),
                    mc.chords@.chord_type == t,
                    t < NUM_CHORDS,
                    chord_row(t as int).len() == detection_steps(),
                    steps@ == chord_row(t as int).take(s as int),
            {
                steps.push(mc.chords.get_chord_step(s));
                assert(steps@ =~= chord_row(t as int).take(s + 1));
            }
            assert(steps@ =~= chord_row(t as int).take(detection_steps() as int));
            let chord_ivals = step_intervals_vec(&steps);
            if prefixes_agree(&ivals, &chord_ivals) {
                let root = rotated[0];
                assert(rotated@[0] == pcs@[i as int]);
                assert(is_first_match(pcs@, i as int, t as int));

                return Some(ChordResult { root, chord_type: t as u8 });
            }
        }
    }
    proof {
        assert forall|i: int, t: int| !is_first_match(pcs@, i, t) by {
            if is_first_match(pcs@, i, t) {
                assert(!rotation_matches(pcs@, i, t));
            }
        }
    }
    None
}

/// The intervals between neighbouring notes of `notes`.
fn get_intervals_of(notes: &[u8]) -> (r: Vec<u8>)
    ensures
        r@ == intervals(notes@),
{
    let mut r: Vec<u8> = Vec::new();
    if notes.len() == 0 {
        return r;
    }
    let n = notes.len() - 1;
    for k in 0..n
        invariant
            n == notes@.len() - 1,
            r@.len() == k,
            forall|j: int| 0 <= j < k ==> #[trigger] r@[j] == interval(notes@[j] as int, notes@[j + 1] as int),
    {
        r.push(interval_u8(notes[k], notes[k + 1]));
    }
    assert(r@ =~= intervals(notes@));
    r
}

impl ChordFinder {
    #[verifier::type_invariant]
    spec fn keeps_detection_steps(&self) -> bool {
        self.music_controller@.chords.n_steps == detection_steps()
    }

    pub fn new() -> (r: Self)
        ensures
            r@ == initial_controller_view(),
    {
        Self { music_controller: MusicController::new() }
    }

    /// The pitch classes of `midi_notes`, each once, in increasing order.
    pub fn midi_to_pitch_classes(&self, midi_notes: &[u8]) -> (r: Vec<u8>)
        ensures
            r@ == pitch_classes(midi_notes@),
            forall|a: int, b: int| 0 <= a < b < r@.len() ==> r@[a] < r@[b],
            forall|a: int| 0 <= a < r@.len() ==> r@[a] < 12,
            forall|p: u8| #![trigger r@.contains(p)] r@.contains(p) <==> has_pitch_class(midi_notes@, p as int),
    {
        let mut present: Vec<bool> = Vec::new();
        for p in 0..12u8
            invariant
                present@.len() == p,
                forall|q: int| 0 <= q < p ==> !#[trigger] present@[q],
        {
            present.push(false);
        }
        let n = midi_notes.len();
        for k in 0..n
            invariant
                n == midi_notes@.len(),
                present@.len() == 12,
                forall|q: int|
                    0 <= q < 12 ==> (#[trigger] present@[q] <==> exists|j: int|
                        0 <= j < k && #[trigger] (midi_notes@[j] % 12) == q),
        {
            let pc = midi_notes[k] % 12;
            present.set(pc as usize, true);
            assert forall|q: int|
                0 <= q < 12 implies (#[trigger] present@[q] <==> exists|j: int|
                    0 <= j < k + 1 && #[trigger] (midi_notes@[j] % 12) == q) by {
                if q == pc {
                    assert(midi_notes@[k as int] % 12 == q);
                }
            }
        }
        let mut r: Vec<u8> = Vec::new();
        for p in 0..12u8
            invariant
                n == midi_notes@.len(),
                present@.len() == 12,
                forall|q: int|
                    0 <= q < 12 ==> (#[trigger] present@[q] <==> has_pitch_class(midi_notes@, q)),
                r@ == pitch_classes_below(midi_notes@, p as nat),
        {
            if present[p as usize] {
                r.push(p);
            }
        }
        proof {
            lemma_pitch_classes(midi_notes@);
            assert(r@ == pitch_classes(midi_notes@));
            assert forall|a: int, b: int| 0 <= a < b < r@.len() implies r@[a] < r@[b] by {
                assert(pitch_classes(midi_notes@)[a] < pitch_classes(midi_notes@)[b]);
            }
            assert forall|a: int| 0 <= a < r@.len() implies r@[a] < 12 by {
                assert(pitch_classes(midi_notes@)[a] < 12);
            }
            assert forall|p: u8| r@.contains(p) <==> has_pitch_class(midi_notes@, p as int) by {
                assert(pitch_classes(midi_notes@).contains(p) <==> has_pitch_class(midi_notes@, p as int));
            }
        }
        r
    }

    /// The intervals, modulo 12, between neighbouring notes.
    pub fn get_intervals(&self, notes: &[u8]) -> (r: Vec<u8>)
        ensures
            r@ == intervals(notes@),
    {
        get_intervals_of(notes)
    }

    /// Recognises the chord that `midi_notes` form. On the way, each chord
    /// type that is tried is selected in the finder's controller.
    pub fn identify_chord(&mut self, midi_notes: &[u8]) -> (r: ChordResult)
        ensures
            r == identified_chord(midi_notes@),
            pitch_classes(midi_notes@).len() == 0 ==> final(self)@ == old(self)@,
            pitch_classes(midi_notes@).len() > 0 ==> final(self)@ == old(self)@.with_current_chord(
                last_tried_chord(midi_notes@),
            ),
    {
        proof {
            use_type_invariant(&*self);
        }
        let pitch_classes = self.midi_to_pitch_classes(midi_notes);
        if pitch_classes.len() == 0 {
            proof {
                assert(!has_match(midi_notes@));
            }
            return ChordResult { root: 0, chord_type: 0 };
        }
        let mut mc = MusicController::new();
        std::mem::swap(&mut mc, &mut self.music_controller);
        let found = search_chord(&mut mc, &pitch_classes);
        self.music_controller = mc;
        match found {
            Some(c) => {
                proof {
                    let (i, t) = choose|i: int, t: int|
                        is_first_match(pitch_classes@, i, t) && c.root == pitch_classes@[i]
                            && c.chord_type == t && self.music_controller@
                            == old(self)@.with_current_chord(t as nat);
                    let (i2, t2) = first_match(midi_notes@);
                    lemma_first_match_unique(pitch_classes@, i, t, i2, t2);
                }
                c
            },
            None => ChordResult { root: 0, chord_type: 0 },
        }
    }
}

} // verus!
