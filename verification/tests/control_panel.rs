use crowdchoir::control_panel::{
    chord_label, log_line, log_line_colour, push_log_line, LogLineColour, PanelSelection,
    MAX_LOG_LINES,
};
use crowdchoir::state::{AppState, CurrentChord};
use std::collections::VecDeque;

#[test]
fn chord_labels() {
    assert_eq!(chord_label(CurrentChord { root: 0, chord_type: 1 }), "C Major");
    assert_eq!(chord_label(CurrentChord { root: 21, chord_type: 2 }), "A Minor");
    assert_eq!(chord_label(CurrentChord { root: 7, chord_type: 200 }), "G ?");
}

#[test]
fn log_tail_keeps_the_newest_lines() {
    let mut lines: VecDeque<String> = VecDeque::new();
    for i in 0..(MAX_LOG_LINES + 5) {
        push_log_line(&mut lines, format!("line {}", i));
    }
    assert_eq!(lines.len(), MAX_LOG_LINES);
    assert_eq!(lines.front().unwrap(), "line 5");
    assert_eq!(lines.back().unwrap(), &format!("line {}", MAX_LOG_LINES + 4));
}

#[test]
fn selection_follows_snapshots() {
    let mut sel = PanelSelection::new();
    let mut state = AppState::new("IAC".to_string(), 3);
    sel.apply_snapshot(&state.snapshot(true));
    assert_eq!(sel.selected_port, "IAC");
    assert_eq!(sel.selected_channel, 3);
    state.midi_port = "Other".to_string();
    state.midi_channel = 5;
    sel.apply_snapshot(&state.snapshot(true));
    assert_eq!(sel.selected_port, "IAC");
    assert_eq!(sel.selected_channel, 5);

    let mut empty = PanelSelection::new();
    empty.default_to_first_port(&vec!["p0".to_string(), "p1".to_string()]);
    assert_eq!(empty.selected_port, "p0");
    empty.default_to_first_port(&vec!["q".to_string()]);
    assert_eq!(empty.selected_port, "p0");
}

#[test]
fn log_lines_and_colours() {
    assert_eq!(log_line("WARN", "port missing"), Some("[WARN] port missing".to_string()));
    assert_eq!(log_line("INFO", ""), None);
    assert_eq!(log_line_colour("[ERROR] boom"), LogLineColour::Error);
    assert_eq!(log_line_colour("[WARN] careful"), LogLineColour::Warning);
    assert_eq!(log_line_colour("[INFO] fine"), LogLineColour::Plain);
    assert_eq!(log_line_colour("[WARN] then [ERROR]"), LogLineColour::Error);
}
