use crowdchoir::chord_finder::ChordResult;
use crowdchoir::midi::{
    parse_midi, CommandReaction, EventReaction, MidiBridgeState, MidiCommand, MidiEvent,
    MidiOutput,
};

#[test]
fn parse_midi_messages() {
    assert!(matches!(
        parse_midi(&[0x90, 60, 100], 0),
        Some(MidiEvent::NoteOn(60))
    ));
    assert!(matches!(
        parse_midi(&[0x80, 60, 0], 0),
        Some(MidiEvent::NoteOff(60))
    ));
    assert!(matches!(
        parse_midi(&[0x90, 60, 0], 0),
        Some(MidiEvent::NoteOff(60))
    ));
    assert!(matches!(
        parse_midi(&[0xB0, 7, 64], 0),
        Some(MidiEvent::ControlChange(7, 64))
    ));
    assert_eq!(parse_midi(&[0x91, 60, 100], 0), None);
    assert_eq!(parse_midi(&[0x90, 60, 100], 1), None);
}

#[test]
fn parse_midi_rejects_short_and_other_messages() {
    assert_eq!(parse_midi(&[], 0), None);
    assert_eq!(parse_midi(&[0x90, 60], 0), None);
    assert_eq!(parse_midi(&[0xC0, 5, 1], 0), None);
    assert_eq!(parse_midi(&[0x9F, 61, 1], 15), Some(MidiEvent::NoteOn(61)));
    assert_eq!(parse_midi(&[0xBF, 1, 2, 3], 15), Some(MidiEvent::ControlChange(1, 2)));
}

#[test]
fn held_notes_give_a_chord_after_debounce() {
    let mut bridge = MidiBridgeState::new("IAC".to_string(), 0);
    assert!(matches!(bridge.handle_event(MidiEvent::NoteOn(57), 0), EventReaction::KeepDebounce));
    assert!(matches!(bridge.handle_event(MidiEvent::NoteOn(60), 1), EventReaction::KeepDebounce));
    assert!(!bridge.debounce_pending());
    assert!(matches!(bridge.handle_event(MidiEvent::NoteOn(64), 2), EventReaction::RestartDebounce));
    assert!(bridge.debounce_pending());
    assert!(matches!(bridge.handle_event(MidiEvent::NoteOn(70), 3), EventReaction::RestartDebounce));
    assert!(matches!(bridge.handle_event(MidiEvent::NoteOff(70), 4), EventReaction::CancelDebounce));
    assert!(!bridge.debounce_pending());
    assert!(matches!(bridge.handle_event(MidiEvent::NoteOn(69), 5), EventReaction::RestartDebounce));
    match bridge.detect_chord() {
        Some(MidiOutput::Chord(c)) => assert_eq!(c, ChordResult { root: 9, chord_type: 2 }),
        other => panic!("unexpected {:?}", other),
    }
    assert!(!bridge.debounce_pending());
    assert!(bridge.detect_chord().is_none());
}

#[test]
fn fewer_than_three_notes_give_no_chord() {
    let mut bridge = MidiBridgeState::new("IAC".to_string(), 0);
    assert!(matches!(bridge.handle_event(MidiEvent::NoteOn(60), 0), EventReaction::KeepDebounce));
    assert!(matches!(bridge.handle_event(MidiEvent::NoteOn(64), 0), EventReaction::KeepDebounce));
    assert!(bridge.detect_chord().is_none());
    // The same note pressed twice is held once.
    assert!(matches!(bridge.handle_event(MidiEvent::NoteOn(60), 0), EventReaction::KeepDebounce));
    assert!(matches!(bridge.handle_event(MidiEvent::NoteOn(60), 0), EventReaction::KeepDebounce));
    assert!(matches!(bridge.handle_event(MidiEvent::NoteOn(64), 0), EventReaction::KeepDebounce));
    assert!(!bridge.debounce_pending());
}

#[test]
fn release_cancels_pending_detection() {
    let mut bridge = MidiBridgeState::new("IAC".to_string(), 0);
    for (i, n) in [60u8, 64, 67].iter().enumerate() {
        bridge.handle_event(MidiEvent::NoteOn(*n), i as u64);
    }
    assert!(bridge.debounce_pending());
    assert!(matches!(bridge.handle_event(MidiEvent::NoteOff(99), 9), EventReaction::CancelDebounce));
    assert!(!bridge.debounce_pending());
    // The three notes are still held; the next press re-arms detection.
    assert!(matches!(bridge.handle_event(MidiEvent::NoteOn(72), 10), EventReaction::RestartDebounce));
    match bridge.detect_chord() {
        Some(MidiOutput::Chord(c)) => assert_eq!(c, ChordResult { root: 0, chord_type: 1 }),
        other => panic!("unexpected {:?}", other),
    }
}

#[test]
fn repeated_control_change_is_dropped_within_window() {
    let mut bridge = MidiBridgeState::new("IAC".to_string(), 0);
    let ms = 1_000_000u64;
    assert!(matches!(
        bridge.handle_event(MidiEvent::ControlChange(7, 64), 1000 * ms),
        EventReaction::Forward(MidiOutput::ControlChange(7, 64))
    ));
    assert!(matches!(bridge.handle_event(MidiEvent::ControlChange(7, 64), 1050 * ms), EventReaction::Ignore));
    assert!(matches!(
        bridge.handle_event(MidiEvent::ControlChange(7, 65), 1060 * ms),
        EventReaction::Forward(MidiOutput::ControlChange(7, 65))
    ));
    assert!(matches!(
        bridge.handle_event(MidiEvent::ControlChange(7, 65), 1160 * ms),
        EventReaction::Forward(MidiOutput::ControlChange(7, 65))
    ));
}

#[test]
fn commands_update_the_bridge() {
    let mut bridge = MidiBridgeState::new("IAC".to_string(), 0);
    assert!(matches!(bridge.handle_command(MidiCommand::Reconnect("USB Keys".to_string())), CommandReaction::Connect));
    assert_eq!(bridge.port_name(), "USB Keys");
    assert!(matches!(
        bridge.handle_command(MidiCommand::SetChannel(3)),
        CommandReaction::ReportThenConnect(MidiOutput::ChannelChanged(3))
    ));
    assert_eq!(bridge.channel(), 3);
    assert!(matches!(bridge.handle_command(MidiCommand::ListPorts), CommandReaction::ListPorts));
    assert!(matches!(bridge.handle_command(MidiCommand::Close), CommandReaction::Close));
    match bridge.status(true) {
        MidiOutput::Status { connected, port } => {
            assert!(connected);
            assert_eq!(port, "USB Keys");
        }
        other => panic!("unexpected {:?}", other),
    }
}

#[test]
fn port_selection_matches_exact_or_substring() {
    let bridge = MidiBridgeState::new("IAC Bus 1".to_string(), 0);
    let ports = vec![
        "Midi Through".to_string(),
        "Driver IAC Bus 1".to_string(),
        "IAC Bus 1".to_string(),
    ];
    assert_eq!(bridge.select_port(&ports), Some(1));
    let none = vec!["Midi Through".to_string(), "IAC Bus 2".to_string()];
    assert_eq!(bridge.select_port(&none), None);
    assert_eq!(bridge.select_port(&Vec::new()), None);
}
