use crowdchoir::chord_finder::ChordResult;
use crowdchoir::events::{
    handle_midi_output, midi_ports_payload, queue_chord, register_client, select_midi_port,
    server_state_payload, unregister_client, Broadcast,
};
use crowdchoir::midi::MidiOutput;
use crowdchoir::state::{AppState, CurrentChord};

#[test]
fn clients_are_counted() {
    let mut state = AppState::new("IAC".to_string(), 0);
    assert_eq!(register_client(&mut state).count, 1);
    assert_eq!(register_client(&mut state).count, 2);
    assert_eq!(unregister_client(&mut state).count, 1);
    assert_eq!(unregister_client(&mut state).count, 0);
    assert_eq!(unregister_client(&mut state).count, 0);
}

#[test]
fn queued_chord_becomes_current_once() {
    let mut state = AppState::new("IAC".to_string(), 0);
    let b = queue_chord(&mut state, 9, 2, 5).expect("broadcast");
    assert_eq!((b.control_change.control, b.control_change.value), (9, 2));
    assert_eq!((b.chord_changed.root, b.chord_changed.chord_type), (9, 2));
    assert_eq!(state.current_chord, CurrentChord { root: 9, chord_type: 2 });
    assert!(queue_chord(&mut state, 9, 2, 6).is_none());
}

#[test]
fn midi_reports_update_state() {
    let mut state = AppState::new("IAC".to_string(), 0);
    let r = handle_midi_output(&mut state, MidiOutput::Chord(ChordResult { root: 7, chord_type: 5 }), 0);
    assert!(r.notify_gui);
    assert_eq!(r.broadcasts.len(), 2);
    assert!(matches!(&r.broadcasts[0], Broadcast::ControlChange(p) if p.control == 7 && p.value == 5));
    assert!(matches!(&r.broadcasts[1], Broadcast::ChordChanged(p) if p.root == 7 && p.chord_type == 5));
    let r = handle_midi_output(&mut state, MidiOutput::ControlChange(7, 5), 1);
    assert!(!r.notify_gui);
    assert!(r.broadcasts.is_empty());

    let r = handle_midi_output(&mut state, MidiOutput::Ports(vec!["p1".to_string()]), 2);
    assert!(r.notify_gui);
    assert_eq!(state.midi_ports, vec!["p1".to_string()]);
    assert!(matches!(&r.broadcasts[0], Broadcast::MidiPorts(p) if p.ports == vec!["p1".to_string()]));

    let r = handle_midi_output(&mut state, MidiOutput::Status { connected: true, port: "p1".to_string() }, 3);
    assert!(state.midi_connected);
    assert_eq!(state.midi_port, "p1");
    assert!(matches!(&r.broadcasts[0], Broadcast::MidiStatus(p) if p.connected && p.port == "p1"));

    let r = handle_midi_output(&mut state, MidiOutput::ChannelChanged(4), 4);
    assert!(r.notify_gui);
    assert!(r.broadcasts.is_empty());
    assert_eq!(state.midi_channel, 4);
}

#[test]
fn conductor_payloads() {
    let mut state = AppState::new("IAC".to_string(), 0);
    state.midi_ports = vec!["x".to_string()];
    let p = server_state_payload(&state);
    assert_eq!(p.chord_names.len(), 16);
    assert_eq!(p.chord_names[1], "Major");
    assert_eq!(p.root_names.len(), 12);
    assert_eq!(p.root_names[0], "C");
    assert_eq!(p.midi_ports, vec!["x".to_string()]);
    assert_eq!(midi_ports_payload(&state).ports, vec!["x".to_string()]);
    let s = select_midi_port(&mut state, "y".to_string());
    assert_eq!(s.port, "y");
    assert!(!s.connected);
    assert_eq!(state.midi_port, "y");
}
