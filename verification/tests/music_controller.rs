use crowdchoir::music_controller::{
    chords_data, scales_data, ChordMatrix, MusicController, ScalesMatrix,
};

#[test]
fn chord_data_loads() {
    assert_eq!(chords_data().names.len(), 16);
    assert_eq!(chords_data().chord_step.len(), 16);
    assert_eq!(chords_data().arp_chord_step.len(), 16);
}

#[test]
fn scales_data_loads() {
    assert_eq!(scales_data().names.len(), 14);
    assert_eq!(scales_data().root_names.len(), 12);
    assert_eq!(scales_data().tone_step.len(), 14);
}

#[test]
fn chord_matrix_initial_state() {
    let cm = ChordMatrix::new();
    assert_eq!(cm.get_chord_type(), 0);
    assert_eq!(cm.get_chord_steps(), 4);
    assert_eq!(cm.get_arp_chord_steps(), 1);
}

#[test]
fn scales_matrix_steps() {
    let mut sm = ScalesMatrix::new();
    sm.set_tonality(1); // Ionian
    assert_eq!(sm.get_steps(), 8);
    assert_eq!(sm.get_scale_step(0), 0);
    assert_eq!(sm.get_scale_step(1), 2);
}

#[test]
fn music_controller_names() {
    let mut mc = MusicController::new();
    mc.set_current_chord(1);
    assert_eq!(mc.get_chord_name(), "Major");
    mc.set_current_scale(1);
    assert_eq!(mc.get_scale_name(), "Ionian");
    assert_eq!(mc.get_current_root_note_name(), "C");
}

#[test]
fn arp_chord_type_keeps_chord_step_count() {
    let mut cm = ChordMatrix::new();
    cm.set_arp_chord_type(1);
    assert_eq!(cm.get_chord_type(), 1);
    assert_eq!(cm.get_chord_steps(), 4);
    assert_eq!(cm.get_arp_chord_steps(), 7);
    assert_eq!(cm.get_arp_chord_step(2), 7);
    cm.set_chord_type(3);
    assert_eq!(cm.get_chord_steps(), 4);
    assert_eq!(cm.get_chord_step(3), 11);
    assert_eq!(cm.get_number_chords(), 4);
}

#[test]
fn octave_offset_is_clamped() {
    let mut mc = MusicController::new();
    mc.set_current_root(60);
    assert_eq!(mc.get_current_midi_note(), 60);
    for _ in 0..8 {
        mc.up_octave();
    }
    assert_eq!(mc.get_current_midi_note(), 120);
    for _ in 0..8 {
        mc.down_octave();
    }
    assert_eq!(mc.get_current_midi_note(), 60);
    mc.up_octave();
    assert_eq!(mc.get_current_midi_note(), 72);
}

#[test]
fn midi_notes_follow_root_and_tables() {
    let mut mc = MusicController::new();
    // Scale 0, step 0 of the default state: the root itself.
    assert_eq!(mc.get_current_midi_note(), 36);
    mc.set_current_chord(1);
    assert_eq!(mc.get_current_chord_midi_note(), 36);
    assert_eq!(mc.get_current_arp_chord_midi_note(), 36);
    mc.set_current_root(43);
    assert_eq!(mc.get_current_root_note_name(), "G");
    mc.set_current_root(-24);
    assert_eq!(mc.get_current_root_note_name(), "C");
}

#[test]
fn scales_matrix_counts() {
    let sm = ScalesMatrix::new();
    assert_eq!(sm.get_tonality(), 0);
    assert_eq!(sm.get_number_scales(), 14);
    assert_eq!(sm.get_steps(), 13);
}

#[test]
fn last_selected_chord_wins() {
    let mut mc = MusicController::new();
    mc.set_current_chord(3);
    mc.set_current_chord(1);
    assert_eq!(mc.get_chord_name(), "Major");
    assert_eq!(mc.chords.get_chord_type(), 1);
    assert_eq!(mc.chords.get_arp_chord_steps(), 7);
}
