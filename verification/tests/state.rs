use crowdchoir::chord_finder::ChordResult;
use crowdchoir::state::{AppState, CurrentChord, CACHE_TIMEOUT_NANOS};

#[test]
fn chord_is_not_broadcast_twice_within_timeout() {
    let mut state = AppState::new("IAC".to_string(), 0);
    assert!(state.should_broadcast(0, 1, 1_000));
    assert!(!state.should_broadcast(0, 1, 1_000 + CACHE_TIMEOUT_NANOS - 1));
    assert!(state.should_broadcast(0, 2, 1_000 + 10));
    assert!(state.should_broadcast(0, 1, 1_000 + CACHE_TIMEOUT_NANOS));
}

#[test]
fn stale_entries_are_dropped() {
    let mut state = AppState::new("IAC".to_string(), 0);
    assert!(state.should_broadcast(3, 4, 0));
    assert!(state.should_broadcast(5, 6, 10 * CACHE_TIMEOUT_NANOS));
    assert_eq!(state.message_cache.len(), 1);
    assert_eq!(state.message_cache.get(&(5 * 256 + 6)), Some(&(10 * CACHE_TIMEOUT_NANOS)));
}

#[test]
fn snapshot_copies_the_state() {
    let mut state = AppState::new("IAC".to_string(), 2);
    state.connected_clients = 3;
    state.midi_ports = vec!["a".to_string(), "b".to_string()];
    state.current_chord = CurrentChord::from(ChordResult { root: 7, chord_type: 5 });
    let snap = state.snapshot(true);
    assert_eq!(snap.connected_clients, 3);
    assert_eq!(snap.midi_port, "IAC");
    assert_eq!(snap.midi_channel, 2);
    assert!(!snap.midi_connected);
    assert_eq!(snap.midi_ports, vec!["a".to_string(), "b".to_string()]);
    assert_eq!(snap.current_chord, CurrentChord { root: 7, chord_type: 5 });
    assert!(snap.running);
}
