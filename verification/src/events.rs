//! The Socket.IO protocol of the server: the payloads it sends and
//! receives, and how each client event and each MIDI report changes the
//! shared state and what it broadcasts. Sending is done by the caller.
use vstd::prelude::*;
use crate::midi::MidiOutput;
use crate::music_controller::{chord_names, root_names};
use crate::music_data::{chord_name_spec, root_name_spec, NUM_CHORDS, NUM_ROOTS};
use crate::state::{
    cache_key, clone_strings, recently_sent, refreshed_cache, AppState, CurrentChord,
};

verus! {

/// Sent to every client when a chord is broadcast.
#[derive(Debug, Clone)]
pub struct ControlChangePayload {
    pub control: u8,
    pub value: u8,
}

/// Sent to the conductors when a chord is broadcast.
#[derive(Debug, Clone)]
pub struct ChordChangedPayload {
    pub root: u8,
    pub chord_type: u8,
}

/// Sent to the conductors when the number of clients changes.
#[derive(Debug, Clone)]
pub struct ClientCountPayload {
    pub count: usize,
}

/// The MIDI connection as last reported.
#[derive(Debug, Clone)]
pub struct MidiStatusPayload {
    pub connected: bool,
    pub port: String,
}

/// The MIDI input ports as last listed.
#[derive(Debug, Clone)]
pub struct MidiPortsPayload {
    pub ports: Vec<String>,
}

/// Sent to a conductor when it joins.
#[derive(Debug, Clone)]
pub struct ServerStatePayload {
    pub client_count: usize,
    pub midi_port: String,
    pub midi_connected: bool,
    pub midi_ports: Vec<String>,
    pub current_chord: CurrentChord,
    pub chord_names: Vec<String>,
    pub root_names: Vec<String>,
}

/// Received from a conductor that picks a chord.
#[derive(Debug)]
pub struct SetChordData {
    pub root: u8,
    pub chord_type: u8,
}

/// Received from a conductor that picks a MIDI port.
#[derive(Debug)]
pub struct SetMidiPortData {
    pub port: String,
}

/// Received from a client that sends a control change.
#[derive(Debug)]
pub struct ControlChangeData {
    pub control: u8,
    pub value: u8,
}

/// One message to send: `ControlChange` goes to every client, the others
/// to the conductor room.
#[derive(Debug, Clone)]
pub enum Broadcast {
    ControlChange(ControlChangePayload),
    ChordChanged(ChordChangedPayload),
    MidiPorts(MidiPortsPayload),
    MidiStatus(MidiStatusPayload),
}

/// The messages of a chord broadcast.
#[derive(Debug, Clone)]
pub struct ChordBroadcast {
    pub control_change: ControlChangePayload,
    pub chord_changed: ChordChangedPayload,
}

/// What handling a MIDI report asks of the caller.
#[derive(Debug, Clone)]
pub struct OutputReaction {
    /// Whether the control panel gets a new snapshot.
    pub notify_gui: bool,
    /// The messages to send, in order.
    pub broadcasts: Vec<Broadcast>,
}

/// The other fields of `state` than the message cache and the current chord
/// are those of `old`.
pub open spec fn same_connection_fields(state: &AppState, old: &AppState) -> bool {
    &&& state.connected_clients == old.connected_clients
    &&& state.midi_port == old.midi_port
    &&& state.midi_connected == old.midi_connected
    &&& state.midi_ports == old.midi_ports
    &&& state.midi_channel == old.midi_channel
}

/// Broadcasts the chord `(root, chord_type)` at time `now` (nanoseconds),
/// unless it was broadcast less than the cache timeout ago. On broadcast it
/// becomes the current chord.
pub fn queue_chord(state: &mut AppState, root: u8, chord_type: u8, now: u64) -> (r: Option<
    ChordBroadcast,
>)
    ensures
        recently_sent(old(state).message_cache@, cache_key(root, chord_type), now) ==> {
            &&& r is None
            &&& final(state).message_cache@ == old(state).message_cache@
            &&& final(state).current_chord == old(state).current_chord
        },
        !recently_sent(old(state).message_cache@, cache_key(root, chord_type), now) ==> {
            &&& r matches Some(b) && b.control_change.control == root && b.control_change.value
                == chord_type && b.chord_changed.root == root && b.chord_changed.chord_type
                == chord_type
            &&& final(state).message_cache@ == refreshed_cache(
                old(state).message_cache@,
                cache_key(root, chord_type),
                now,
            )
            &&& final(state).current_chord == (CurrentChord { root, chord_type })
        },
        same_connection_fields(&*final(state), &*old(state)),
{
    if !state.should_broadcast(root, chord_type, now) {
        return None;
    }
    state.current_chord = CurrentChord { root, chord_type };
    Some(
        ChordBroadcast {
            control_change: ControlChangePayload { control: root, value: chord_type },
            chord_changed: ChordChangedPayload { root, chord_type },
        },
    )
}

/// A client connected: one more client.
pub fn register_client(state: &mut AppState) -> (r: ClientCountPayload)
    requires
        old(state).connected_clients < usize::MAX,
    ensures
        final(state).connected_clients == old(state).connected_clients + 1,
        r.count == final(state).connected_clients,
        final(state).current_chord == old(state).current_chord,
        final(state).midi_port == old(state).midi_port,
        final(state).midi_connected == old(state).midi_connected,
        final(state).midi_ports == old(state).midi_ports,
        final(state).midi_channel == old(state).midi_channel,
        final(state).message_cache == old(state).message_cache,
{
    state.connected_clients = state.connected_clients + 1;
    ClientCountPayload { count: state.connected_clients }
}

/// The client count after a disconnection: one fewer, never below zero.
pub open spec fn count_after_disconnect(n: usize) -> usize {
    if n > 0 {
        (n - 1) as usize
    } else {
        0
    }
}

/// Law: a connection followed by a disconnection leaves the count as it was.
pub proof fn lemma_connect_then_disconnect(n: usize)
    requires
        n < usize::MAX,
    ensures
        count_after_disconnect((n + 1) as usize) == n,
{
}

/// A client disconnected: one client fewer, never below zero.
pub fn unregister_client(state: &mut AppState) -> (r: ClientCountPayload)
    ensures
        final(state).connected_clients == count_after_disconnect(old(state).connected_clients),
        r.count == final(state).connected_clients,
        final(state).current_chord == old(state).current_chord,
        final(state).midi_port == old(state).midi_port,
        final(state).midi_connected == old(state).midi_connected,
        final(state).midi_ports == old(state).midi_ports,
        final(state).midi_channel == old(state).midi_channel,
        final(state).message_cache == old(state).message_cache,
{
    state.connected_clients = state.connected_clients.saturating_sub(1);
    ClientCountPayload { count: state.connected_clients }
}

/// What a joining conductor is told: the state, and the chord and root names.
pub fn server_state_payload(state: &AppState) -> (r: ServerStatePayload)
    ensures
        r.client_count == state.connected_clients,
        r.midi_port@ == state.midi_port@,
        r.midi_connected == state.midi_connected,
        r.midi_ports.deep_view() == state.midi_ports.deep_view(),
        r.current_chord == state.current_chord,
        r.chord_names@.len() == NUM_CHORDS,
        forall|t: int| 0 <= t < NUM_CHORDS ==> #[trigger] r.chord_names@[t]@ == chord_name_spec(t),
        r.root_names@.len() == NUM_ROOTS,
        forall|t: int| 0 <= t < NUM_ROOTS ==> #[trigger] r.root_names@[t]@ == root_name_spec(t),
{
    ServerStatePayload {
        client_count: state.connected_clients,
        midi_port: state.midi_port.clone(),
        midi_connected: state.midi_connected,
        midi_ports: clone_strings(&state.midi_ports),
        current_chord: state.current_chord,
        chord_names: chord_names(),
        root_names: root_names(),
    }
}

/// The ports as last listed.
pub fn midi_ports_payload(state: &AppState) -> (r: MidiPortsPayload)
    ensures
        r.ports.deep_view() == state.midi_ports.deep_view(),
{
    MidiPortsPayload { ports: clone_strings(&state.midi_ports) }
}

/// A conductor picked the MIDI port `port`: it is recorded, and the answer
/// pairs it with the connection state as last reported.
pub fn select_midi_port(state: &mut AppState, port: String) -> (r: MidiStatusPayload)
    ensures
        final(state).midi_port@ == port@,
        r.port@ == port@,
        r.connected == old(state).midi_connected,
        final(state).connected_clients == old(state).connected_clients,
        final(state).current_chord == old(state).current_chord,
        final(state).midi_connected == old(state).midi_connected,
        final(state).midi_ports == old(state).midi_ports,
        final(state).midi_channel == old(state).midi_channel,
        final(state).message_cache == old(state).message_cache,
{
    state.midi_port = port.clone();
    MidiStatusPayload { connected: state.midi_connected, port }
}

/// The messages of a chord broadcast, in the order they are sent.
pub open spec fn chord_broadcasts_match(bs: Seq<Broadcast>, root: u8, chord_type: u8) -> bool {
    &&& bs.len() == 2
    &&& bs[0] matches Broadcast::ControlChange(p) && p.control == root && p.value == chord_type
    &&& bs[1] matches Broadcast::ChordChanged(p) && p.root == root && p.chord_type == chord_type
}

/// The effect of a chord request `(root, chord_type)` at `now` on a reaction.
pub open spec fn chord_reaction_ok(
    r: OutputReaction,
    state: &AppState,
    old: &AppState,
    root: u8,
    chord_type: u8,
    now: u64,
) -> bool {
    if recently_sent(old.message_cache@, cache_key(root, chord_type), now) {
        &&& !r.notify_gui
        &&& r.broadcasts@.len() == 0
        &&& state.message_cache@ == old.message_cache@
        &&& state.current_chord == old.current_chord
    } else {
        &&& r.notify_gui
        &&& chord_broadcasts_match(r.broadcasts@, root, chord_type)
        &&& state.message_cache@ == refreshed_cache(
            old.message_cache@,
            cache_key(root, chord_type),
            now,
        )
        &&& state.current_chord == (CurrentChord { root, chord_type })
    }
}

/// A chord request `(root, chord_type)` at `now`, as a reaction.
fn chord_reaction(state: &mut AppState, root: u8, chord_type: u8, now: u64) -> (r: OutputReaction)
    ensures
        chord_reaction_ok(r, &*final(state), &*old(state), root, chord_type, now),
        same_connection_fields(&*final(state), &*old(state)),
{
    let mut broadcasts: Vec<Broadcast> = Vec::new();
    match queue_chord(state, root, chord_type, now) {
        Some(b) => {
            broadcasts.push(Broadcast::ControlChange(b.control_change));
            broadcasts.push(Broadcast::ChordChanged(b.chord_changed));
            OutputReaction { notify_gui: true, broadcasts }
        },
        None => OutputReaction { notify_gui: false, broadcasts },
    }
}

/// Applies a report of the MIDI bridge received at `now` (nanoseconds).
/// A chord, or a control change (taken as root and chord type), is
/// broadcast as `queue_chord` decides; a port list, a connection status or
/// a channel change is recorded, and the first two are sent to the
/// conductors.
pub fn handle_midi_output(state: &mut AppState, output: MidiOutput, now: u64) -> (r: OutputReaction)
    ensures
        match output {
            MidiOutput::Chord(c) => chord_reaction_ok(r, &*final(state), &*old(state), c.root, c.chord_type, now)
                && same_connection_fields(&*final(state), &*old(state)),
            MidiOutput::ControlChange(control, value) => chord_reaction_ok(
                r,
                &*final(state),
                &*old(state),
                control,
                value,
                now,
            ) && same_connection_fields(&*final(state), &*old(state)),
            MidiOutput::Ports(ports) => {
                &&& r.notify_gui
                &&& r.broadcasts@.len() == 1
                &&& r.broadcasts@[0] matches Broadcast::MidiPorts(p) && p.ports.deep_view()
                    == ports.deep_view()
                &&& final(state).midi_ports.deep_view() == ports.deep_view()
                &&& final(state).connected_clients == old(state).connected_clients
                &&& final(state).current_chord == old(state).current_chord
                &&& final(state).midi_port == old(state).midi_port
                &&& final(state).midi_connected == old(state).midi_connected
                &&& final(state).midi_channel == old(state).midi_channel
                &&& final(state).message_cache == old(state).message_cache
            },
            MidiOutput::Status { connected, port } => {
                &&& r.notify_gui
                &&& r.broadcasts@.len() == 1
                &&& r.broadcasts@[0] matches Broadcast::MidiStatus(p) && p.connected == connected
                    && p.port@ == port@
                &&& final(state).midi_connected == connected
                &&& final(state).midi_port@ == port@
                &&& final(state).connected_clients == old(state).connected_clients
                &&& final(state).current_chord == old(state).current_chord
                &&& final(state).midi_ports == old(state).midi_ports
                &&& final(state).midi_channel == old(state).midi_channel
                &&& final(state).message_cache == old(state).message_cache
            },
            MidiOutput::ChannelChanged(ch) => {
                &&& r.notify_gui
                &&& r.broadcasts@.len() == 0
                &&& final(state).midi_channel == ch
                &&& final(state).connected_clients == old(state).connected_clients
                &&& final(state).current_chord == old(state).current_chord
                &&& final(state).midi_port == old(state).midi_port
                &&& final(state).midi_connected == old(state).midi_connected
                &&& final(state).midi_ports == old(state).midi_ports
                &&& final(state).message_cache == old(state).message_cache
            },
        },
{
    match output {
        MidiOutput::Chord(result) => chord_reaction(state, result.root, result.chord_type, now),
        MidiOutput::ControlChange(control, value) => chord_reaction(state, control, value, now),
        MidiOutput::Ports(ports) => {
            state.midi_ports = clone_strings(&ports);
            let mut broadcasts: Vec<Broadcast> = Vec::new();
            broadcasts.push(Broadcast::MidiPorts(MidiPortsPayload { ports }));
            OutputReaction { notify_gui: true, broadcasts }
        },
        MidiOutput::Status { connected, port } => {
            state.midi_connected = connected;
            state.midi_port = port.clone();
            let mut broadcasts: Vec<Broadcast> = Vec::new();
            broadcasts.push(Broadcast::MidiStatus(MidiStatusPayload { connected, port }));
            OutputReaction { notify_gui: true, broadcasts }
        },
        MidiOutput::ChannelChanged(ch) => {
            state.midi_channel = ch;
            OutputReaction { notify_gui: true, broadcasts: Vec::new() }
        },
    }
}

} // verus!
