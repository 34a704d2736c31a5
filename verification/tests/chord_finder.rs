use crowdchoir::chord_finder::{ChordFinder, ChordResult};

// Reference recognitions: triads, sevenths and their inversions, and chords outside the table.
#[test]
fn python_self_test_suite() {
    let cases: Vec<(Vec<u8>, ChordResult)> = vec![
        // Basic triads and inversions
        (vec![60, 64, 67], ChordResult { root: 0, chord_type: 1 }),
        (vec![64, 67, 72], ChordResult { root: 0, chord_type: 1 }),
        (vec![67, 72, 76], ChordResult { root: 0, chord_type: 1 }),
        (vec![57, 60, 64], ChordResult { root: 9, chord_type: 2 }),
        (vec![60, 64, 69], ChordResult { root: 9, chord_type: 2 }),
        (vec![64, 69, 72], ChordResult { root: 9, chord_type: 2 }),
        // Seventh chords
        (vec![55, 59, 62, 65], ChordResult { root: 7, chord_type: 5 }),
        (vec![59, 62, 65, 67], ChordResult { root: 7, chord_type: 5 }),
        (vec![62, 65, 67, 71], ChordResult { root: 7, chord_type: 5 }),
        (vec![65, 67, 71, 74], ChordResult { root: 7, chord_type: 5 }),
        // Diminished
        (vec![62, 65, 68], ChordResult { root: 2, chord_type: 6 }),
        (vec![65, 68, 74], ChordResult { root: 2, chord_type: 6 }),
        (vec![68, 74, 77], ChordResult { root: 2, chord_type: 6 }),
        // Augmented (root C: the interval pattern is symmetric)
        (vec![64, 68, 72], ChordResult { root: 0, chord_type: 9 }),
        (vec![68, 72, 76], ChordResult { root: 0, chord_type: 9 }),
        (vec![72, 76, 80], ChordResult { root: 0, chord_type: 9 }),
        // Major 7th
        (vec![65, 69, 72, 76], ChordResult { root: 5, chord_type: 3 }),
        (vec![69, 72, 76, 77], ChordResult { root: 5, chord_type: 3 }),
        (vec![72, 76, 77, 81], ChordResult { root: 5, chord_type: 3 }),
        (vec![76, 77, 81, 84], ChordResult { root: 5, chord_type: 3 }),
        // Suspended 4th
        (vec![60, 65, 67], ChordResult { root: 0, chord_type: 13 }),
        (vec![65, 67, 72], ChordResult { root: 0, chord_type: 13 }),
        // Diminished 7th (root D, not B: the pattern is symmetric)
        (vec![59, 62, 65, 68], ChordResult { root: 2, chord_type: 7 }),
        (vec![62, 65, 68, 71], ChordResult { root: 2, chord_type: 7 }),
        (vec![65, 68, 71, 74], ChordResult { root: 2, chord_type: 7 }),
        (vec![68, 71, 74, 77], ChordResult { root: 2, chord_type: 7 }),
        // Extended / exotic chords (no match gives root 0, type 0)
        (vec![60, 64, 67, 71, 74], ChordResult { root: 0, chord_type: 0 }),
        (vec![62, 65, 69, 72, 76], ChordResult { root: 5, chord_type: 15 }),
        (vec![55, 59, 62, 65, 69], ChordResult { root: 0, chord_type: 0 }),
        (vec![57, 60, 64, 67, 71], ChordResult { root: 0, chord_type: 15 }),
        (vec![64, 67, 71, 74, 77], ChordResult { root: 7, chord_type: 15 }),
        (vec![60, 66, 72], ChordResult { root: 0, chord_type: 0 }),
        (vec![60, 68, 75], ChordResult { root: 8, chord_type: 1 }),
        (vec![60, 64, 70], ChordResult { root: 0, chord_type: 0 }),
        (vec![60, 63, 67], ChordResult { root: 0, chord_type: 2 }),
        (vec![60, 63, 66, 69], ChordResult { root: 0, chord_type: 7 }),
        (vec![60, 66, 72, 78, 84], ChordResult { root: 0, chord_type: 0 }),
    ];

    let mut finder = ChordFinder::new();
    for (notes, expected) in cases {
        let result = finder.identify_chord(&notes);
        assert_eq!(
            result, expected,
            "notes {:?}: expected {:?}, got {:?}",
            notes, expected, result
        );
    }
}

#[test]
fn pitch_classes_are_sorted_and_distinct() {
    let finder = ChordFinder::new();
    assert_eq!(finder.midi_to_pitch_classes(&[67, 60, 64, 72, 55]), vec![0, 4, 7]);
    assert_eq!(finder.midi_to_pitch_classes(&[]), Vec::<u8>::new());
    assert_eq!(finder.midi_to_pitch_classes(&[127, 0, 11]), vec![0, 7, 11]);
}

#[test]
fn intervals_wrap_modulo_twelve() {
    let finder = ChordFinder::new();
    assert_eq!(finder.get_intervals(&[0, 4, 7]), vec![4, 3]);
    assert_eq!(finder.get_intervals(&[9, 0, 4]), vec![3, 4]);
    assert_eq!(finder.get_intervals(&[7, 11, 2, 5]), vec![4, 3, 3]);
    assert_eq!(finder.get_intervals(&[5]), Vec::<u8>::new());
    assert_eq!(finder.get_intervals(&[]), Vec::<u8>::new());
    assert_eq!(finder.get_intervals(&[100, 0]), vec![8]);
}

#[test]
fn empty_and_single_note_input() {
    let mut finder = ChordFinder::new();
    assert_eq!(finder.identify_chord(&[]), ChordResult { root: 0, chord_type: 0 });
    // A single pitch class has no intervals, so chord type 0 agrees with it.
    assert_eq!(finder.identify_chord(&[62]), ChordResult { root: 2, chord_type: 0 });
    assert_eq!(finder.identify_chord(&[50, 62, 74]), ChordResult { root: 2, chord_type: 0 });
}

#[test]
fn recognition_ignores_order_and_octave() {
    let mut finder = ChordFinder::new();
    let a = finder.identify_chord(&[60, 64, 67]);
    let b = finder.identify_chord(&[79, 48, 76]);
    assert_eq!(a, b);
    assert_eq!(a, ChordResult { root: 0, chord_type: 1 });
}
