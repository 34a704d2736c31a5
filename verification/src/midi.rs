//! MIDI input: decoding of raw messages, and the decisions of the MIDI
//! bridge (which notes are held, when a chord is detected, which control
//! changes are forwarded, which port to open). The bridge's timers, ports
//! and channels are driven from outside; each decision here takes the
//! event and the current time and says what to do.
use vstd::prelude::*;
use std::collections::BTreeSet;
use crate::chord_finder::{
    has_pitch_class, identified_chord, last_tried_chord, lemma_pitch_classes, pitch_classes,
    ChordFinder, ChordResult,
};
use crate::music_controller::MusicControllerView;
use crate::text::{contains_seq, str_contains, str_equal};

verus! {

/// How long the strummed notes must settle before a chord is detected.
pub const DEBOUNCE_DELAY_MILLIS: u64 = 150;

/// A chord is detected only when at least this many notes are held.
pub const MIN_CHORD_NOTES: usize = 3;

/// A control change that repeats the previous one (same control, same
/// value) within this many nanoseconds is dropped.
pub const CC_REPEAT_WINDOW_NANOS: u64 = 100_000_000;

/// A decoded MIDI message of the listened channel.
#[derive(Debug, Clone, PartialEq, Eq, Structural)]
pub enum MidiEvent {
    NoteOn(u8),
    NoteOff(u8),
    ControlChange(u8, u8),
}

/// A request to the MIDI bridge.
#[derive(Debug, Clone)]
pub enum MidiCommand {
    Reconnect(String),
    SetChannel(u8),
    ListPorts,
    Close,
}

/// What the MIDI bridge reports to the server.
#[derive(Debug, Clone)]
pub enum MidiOutput {
    Chord(ChordResult),
    ControlChange(u8, u8),
    Ports(Vec<String>),
    Status { connected: bool, port: String },
    ChannelChanged(u8),
}

/// The event that `message` carries on `channel`: status nibble 9 is a note
/// on (a note off when the velocity is 0), 8 a note off, 0xB a control
/// change; each needs three bytes and the message's channel nibble must be
/// `channel`. Anything else carries no event.
pub open spec fn parsed_midi(message: Seq<u8>, channel: u8) -> Option<MidiEvent> {
    if message.len() < 1 || message[0] % 16 != channel || message.len() < 3 {
        None
    } else if message[0] / 16 == 9 {
        if message[2] == 0 {
            Some(MidiEvent::NoteOff(message[1]))
        } else {
            Some(MidiEvent::NoteOn(message[1]))
        }
    } else if message[0] / 16 == 8 {
        Some(MidiEvent::NoteOff(message[1]))
    } else if message[0] / 16 == 11 {
        Some(MidiEvent::ControlChange(message[1], message[2]))
    } else {
        None
    }
}

/// Decodes a raw MIDI message received on the input port.
pub fn parse_midi(message: &[u8], channel: u8) -> (r: Option<MidiEvent>)
    ensures
        r == parsed_midi(message@, channel),
{
    if message.len() == 0 {
        return None;
    }
    let status = message[0];
    let msg_channel = status & 0x0F;
    proof {
        assert(status & 0x0F == status % 16) by (bit_vector);
        assert((status & 0xF0 == 0x90) == (status / 16 == 9)) by (bit_vector);
        assert((status & 0xF0 == 0x80) == (status / 16 == 8)) by (bit_vector);
        assert((status & 0xF0 == 0xB0) == (status / 16 == 11)) by (bit_vector);
    }
    if msg_channel != channel {
        return None;
    }
    let kind = status & 0xF0;
    if kind == 0x90 && message.len() >= 3 {
        if message[2] == 0 {
            Some(MidiEvent::NoteOff(message[1]))
        } else {
            Some(MidiEvent::NoteOn(message[1]))
        }
    } else if kind == 0x80 && message.len() >= 3 {
        Some(MidiEvent::NoteOff(message[1]))
    } else if kind == 0xB0 && message.len() >= 3 {
        Some(MidiEvent::ControlChange(message[1], message[2]))
    } else {
        None
    }
}

/// Law: on its channel `c`, a three-byte message with status nibble 9 is a
/// note on of its second byte (a note off when the velocity is 0), with
/// status nibble 8 a note off whatever its release velocity, and with status
/// nibble 0xB a control change of its second and third bytes; a message
/// whose channel nibble is not the listened channel, or whose status nibble
/// is none of these, carries nothing; bytes after the third are not read.
pub proof fn lemma_midi_message_kinds(c: u8, n: u8, v: u8, message: Seq<u8>)
    requires
        c < 16,
    ensures
        parsed_midi(seq![(0x90 + c) as u8, n, v], c) == if v == 0 {
            Some(MidiEvent::NoteOff(n))
        } else {
            Some(MidiEvent::NoteOn(n))
        },
        parsed_midi(seq![(0x80 + c) as u8, n, v], c) == Some(MidiEvent::NoteOff(n)),
        parsed_midi(seq![(0xB0 + c) as u8, n, v], c) == Some(MidiEvent::ControlChange(n, v)),
        message.len() > 0 && message[0] % 16 != c ==> parsed_midi(message, c) is None,
        message.len() < 3 ==> parsed_midi(message, c) is None,
        message.len() > 0 && message[0] / 16 != 8 && message[0] / 16 != 9 && message[0] / 16 != 11
            ==> parsed_midi(message, c) is None,
        message.len() >= 3 ==> parsed_midi(message, c) == parsed_midi(message.take(3), c),
{
    let on = seq![(0x90 + c) as u8, n, v];
    let off = seq![(0x80 + c) as u8, n, v];
    let cc = seq![(0xB0 + c) as u8, n, v];
    assert(on[0] % 16 == c && on[0] / 16 == 9 && on[1] == n && on[2] == v);
    assert(off[0] % 16 == c && off[0] / 16 == 8 && off[1] == n && off[2] == v);
    assert(cc[0] % 16 == c && cc[0] / 16 == 11 && cc[1] == n && cc[2] == v);
}

/// The notes below `n` that are in `set`, in increasing order.
pub open spec fn notes_below(set: Set<u8>, n: nat) -> Seq<u8>
    decreases n,
{
    if n == 0 {
        Seq::empty()
    } else {
        let prev = notes_below(set, (n - 1) as nat);
        if set.contains((n - 1) as u8) {
            prev.push((n - 1) as u8)
        } else {
            prev
        }
    }
}

/// The notes of `set` in increasing order.
pub open spec fn ascending_notes(set: Set<u8>) -> Seq<u8> {
    notes_below(set, 256)
}

/// Every note of `set` below `n` is in `notes_below(set, n)`.
proof fn lemma_notes_below_contains(set: Set<u8>, n: nat, x: u8)
    requires
        set.contains(x),
        x < n,
    ensures
        notes_below(set, n).contains(x),
    decreases n,
{
    let prev = notes_below(set, (n - 1) as nat);
    if x < n - 1 {
        lemma_notes_below_contains(set, (n - 1) as nat, x);
        let j = choose|j: int| 0 <= j < prev.len() && prev[j] == x;
        if set.contains((n - 1) as u8) {
            assert(notes_below(set, n)[j] == x);
        }
    } else {
        assert(notes_below(set, n)[prev.len() as int] == x);
    }
}

/// A non-empty set of notes has at least one pitch class.
proof fn lemma_held_notes_have_pitch_class(set: Set<u8>)
    requires
        !set.is_empty(),
    ensures
        pitch_classes(ascending_notes(set)).len() > 0,
{
    if forall|y: u8| !set.contains(y) {
        assert(set =~= Set::<u8>::empty());
    }
    let x = choose|x: u8| set.contains(x);
    lemma_notes_below_contains(set, 256, x);
    let notes = ascending_notes(set);
    let j = choose|j: int| 0 <= j < notes.len() && notes[j] == x;
    assert(has_pitch_class(notes, (x % 12) as int));
    lemma_pitch_classes(notes);
    assert(pitch_classes(notes).contains(x % 12));
}

/// What the bridge does after a MIDI event.
#[derive(Debug, Clone)]
pub enum EventReaction {
    /// Enough notes are held: (re)start the debounce timer.
    RestartDebounce,
    /// Leave the debounce timer as it is.
    KeepDebounce,
    /// A note was released: drop the pending debounce timer.
    CancelDebounce,
    /// Send this report to the server.
    Forward(MidiOutput),
    /// Drop the event.
    Ignore,
}

/// What the bridge does after a command.
#[derive(Debug, Clone)]
pub enum CommandReaction {
    /// (Re)connect to the bridge's port.
    Connect,
    /// Send this report to the server, then (re)connect.
    ReportThenConnect(MidiOutput),
    /// List the available ports and report them.
    ListPorts,
    /// Close the connection and stop.
    Close,
}

/// The abstract state of a `MidiBridgeState`.
pub struct MidiBridgeView {
    pub port_name: Seq<char>,
    pub channel: u8,
    pub finder: MusicControllerView,
    pub played_notes: Set<u8>,
    pub debounce_pending: bool,
    pub last_cc: Option<(u8, u8, u64)>,
}

/// The decision state of the MIDI bridge.
pub struct MidiBridgeState {
    port_name: String,
    channel: u8,
    chord_finder: ChordFinder,
    played_notes: BTreeSet<u8>,
    debounce_pending: bool,
    last_cc: Option<(u8, u8, u64)>,
}

impl View for MidiBridgeState {
    type V = MidiBridgeView;

    closed spec fn view(&self) -> MidiBridgeView {
        MidiBridgeView {
            port_name: self.port_name@,
            channel: self.channel,
            finder: self.chord_finder@,
            played_notes: self.played_notes@,
            debounce_pending: self.debounce_pending,
            last_cc: self.last_cc,
        }
    }
}

/// Whether a control change `(control, value)` at time `now` repeats the
/// last forwarded one within the repeat window.
pub open spec fn is_repeated_cc(last_cc: Option<(u8, u8, u64)>, control: u8, value: u8, now: u64) -> bool {
    match last_cc {
        Some((c, v, t)) => c == control && v == value && (if now >= t { now - t } else { 0 })
            < CC_REPEAT_WINDOW_NANOS,
        None => false,
    }
}

/// Whether the port called `name` answers to the wanted port name.
pub open spec fn port_answers(name: Seq<char>, wanted: Seq<char>) -> bool {
    name == wanted || contains_seq(name, wanted)
}

/// Law: a control change that was forwarded at `t` is dropped when it
/// repeats before the window has passed, and forwarded once it has.
pub proof fn lemma_cc_repeat_window(control: u8, value: u8, t: u64, later: u64)
    requires
        t <= later,
    ensures
        later - t < CC_REPEAT_WINDOW_NANOS ==> is_repeated_cc(Some((control, value, t)), control, value, later),
        later - t >= CC_REPEAT_WINDOW_NANOS ==> !is_repeated_cc(
            Some((control, value, t)),
            control,
            value,
            later,
        ),
{
}

/// Law: a control change with another control or another value than the
/// last forwarded one is never dropped.
pub proof fn lemma_other_cc_forwarded(control: u8, value: u8, t: u64, c2: u8, v2: u8, now: u64)
    requires
        control != c2 || value != v2,
    ensures
        !is_repeated_cc(Some((control, value, t)), c2, v2, now),
{
}

/// Law: releasing a note that was pressed while not held restores the held notes.
pub proof fn lemma_press_release_restores(held: Set<u8>, note: u8)
    requires
        !held.contains(note),
    ensures
        held.insert(note).remove(note) == held,
{
    assert(held.insert(note).remove(note) =~= held);
}

/// Law: a port answers to the wanted name exactly when the wanted name
/// occurs in the port's name as a contiguous run of characters, anywhere.
pub proof fn lemma_port_answers_iff_substring(name: Seq<char>, wanted: Seq<char>)
    ensures
        port_answers(name, wanted) <==> exists|i: int|
            0 <= i && i + wanted.len() <= name.len() && #[trigger] name.subrange(
                i,
                i + wanted.len(),
            ) == wanted,
{
    let found = exists|i: int|
        0 <= i && i + wanted.len() <= name.len() && #[trigger] name.subrange(i, i + wanted.len())
            == wanted;
    if port_answers(name, wanted) {
        if name == wanted {
            let z: int = 0;
            assert(name.subrange(z, z + wanted.len()) =~= wanted);
            assert(found);
        } else {
            let i = choose|i: int| crate::text::occurs_at(name, wanted, i);
            assert(name.subrange(i, i + wanted.len()) == wanted);
            assert(found);
        }
    }
    if found {
        let i = choose|i: int|
            0 <= i && i + wanted.len() <= name.len() && #[trigger] name.subrange(
                i,
                i + wanted.len(),
            ) == wanted;
        assert(crate::text::occurs_at(name, wanted, i));
        assert(port_answers(name, wanted));
    }
}

impl MidiBridgeState {
    #[verifier::type_invariant]
    spec fn pending_only_with_chord(&self) -> bool {
        &&& self.played_notes@.finite()
        &&& self.debounce_pending ==> self.played_notes@.len() >= MIN_CHORD_NOTES
    }

    /// A bridge for `port_name` on `channel`, with no notes held.
    pub fn new(port_name: String, channel: u8) -> (r: Self)
        ensures
            r@.port_name == port_name@,
            r@.channel == channel,
            r@.played_notes == Set::<u8>::empty(),
            !r@.debounce_pending,
            r@.last_cc is None,
            r@.finder == crate::music_controller::initial_controller_view(),
    {
        MidiBridgeState {
            port_name,
            channel,
            chord_finder: ChordFinder::new(),
            played_notes: BTreeSet::new(),
            debounce_pending: false,
            last_cc: None,
        }
    }

    pub fn port_name(&self) -> (r: &String)
        ensures
            r@ == self@.port_name,
    {
        &self.port_name
    }

    pub fn channel(&self) -> (r: u8)
        ensures
            r == self@.channel,
    {
        self.channel
    }

    /// Whether a chord detection is due when the debounce timer fires.
    pub fn debounce_pending(&self) -> (r: bool)
        ensures
            r == self@.debounce_pending,
    {
        self.debounce_pending
    }

    /// Reacts to a decoded MIDI event received at time `now` (nanoseconds).
    /// A pressed note is held; once at least `MIN_CHORD_NOTES` notes are
    /// held, each press (re)arms chord detection. A released note is let go
    /// and cancels any pending detection. A control change is forwarded
    /// unless it repeats the last one within the repeat window.
    pub fn handle_event(&mut self, event: MidiEvent, now: u64) -> (r: EventReaction)
        ensures
            final(self)@.debounce_pending ==> final(self)@.played_notes.len() >= MIN_CHORD_NOTES,
            match event {
                MidiEvent::NoteOn(note) => if old(self)@.played_notes.insert(note).len()
                    >= MIN_CHORD_NOTES {
                    &&& r is RestartDebounce
                    &&& final(self)@ == (MidiBridgeView {
                        played_notes: old(self)@.played_notes.insert(note),
                        debounce_pending: true,
                        ..old(self)@
                    })
                } else {
                    &&& r is KeepDebounce
                    &&& final(self)@ == (MidiBridgeView {
                        played_notes: old(self)@.played_notes.insert(note),
                        ..old(self)@
                    })
                },
                MidiEvent::NoteOff(note) => {
                    &&& r is CancelDebounce
                    &&& final(self)@ == (MidiBridgeView {
                        played_notes: old(self)@.played_notes.remove(note),
                        debounce_pending: false,
                        ..old(self)@
                    })
                },
                MidiEvent::ControlChange(control, value) => if is_repeated_cc(
                    old(self)@.last_cc,
                    control,
                    value,
                    now,
                ) {
                    &&& r is Ignore
                    &&& final(self)@ == old(self)@
                } else {
                    &&& r matches EventReaction::Forward(MidiOutput::ControlChange(c, v))
                    &&& c == control && v == value
                    &&& final(self)@ == (MidiBridgeView {
                        last_cc: Some((control, value, now)),
                        ..old(self)@
                    })
                },
            },
    {
        broadcast use vstd::std_specs::btree::group_btree_axioms;
        proof {
            use_type_invariant(&*self);
        }
        match event {
            MidiEvent::NoteOn(note) => {
                let ghost was_pending = self.debounce_pending;
                self.debounce_pending = false;
                let mut notes = BTreeSet::new();
                std::mem::swap(&mut notes, &mut self.played_notes);
                notes.insert(note);
                let enough = notes.len() >= MIN_CHORD_NOTES;
                self.played_notes = notes;
                if enough {
                    self.debounce_pending = true;
                    EventReaction::RestartDebounce
                } else {
                    proof {
                        assert(!was_pending);
                    }
                    EventReaction::KeepDebounce
                }
            },
            MidiEvent::NoteOff(note) => {
                self.debounce_pending = false;
                let mut notes = BTreeSet::new();
                std::mem::swap(&mut notes, &mut self.played_notes);
                notes.remove(&note);
                self.played_notes = notes;
                EventReaction::CancelDebounce
            },
            MidiEvent::ControlChange(control, value) => {
                if let Some((last_control, last_value, last_time)) = self.last_cc {
                    let elapsed = now.saturating_sub(last_time);
                    if control == last_control && value == last_value && elapsed
                        < CC_REPEAT_WINDOW_NANOS {
                        return EventReaction::Ignore;
                    }
                }
                self.last_cc = Some((control, value, now));
                EventReaction::Forward(MidiOutput::ControlChange(control, value))
            },
        }
    }

    /// The held notes in increasing order.
    fn held_notes(&self) -> (r: Vec<u8>)
        ensures
            r@ == ascending_notes(self@.played_notes),
    {
        broadcast use vstd::std_specs::btree::group_btree_axioms;
        let mut r: Vec<u8> = Vec::new();
        let mut n: u16 = 0;
        while n < 256
            invariant
                n <= 256,
                r@ == notes_below(self@.played_notes, n as nat),
            decreases 256 - n,
        {
            let note = n as u8;
            if self.played_notes.contains(&note) {
                r.push(note);
            }
            n = n + 1;
        }
        r
    }

    /// Runs when the debounce timer fires: reports the chord of the held
    /// notes when at least `MIN_CHORD_NOTES` are held, and forgets them.
    pub fn detect_chord(&mut self) -> (r: Option<MidiOutput>)
        ensures
            old(self)@.played_notes.len() < MIN_CHORD_NOTES ==> r is None && final(self)@.finder
                == old(self)@.finder,
            old(self)@.played_notes.len() >= MIN_CHORD_NOTES ==> (r matches Some(
                MidiOutput::Chord(c),
            ) && c == identified_chord(ascending_notes(old(self)@.played_notes))),
            old(self)@.played_notes.len() >= MIN_CHORD_NOTES ==> final(self)@.finder
                == old(self)@.finder.with_current_chord(
                last_tried_chord(ascending_notes(old(self)@.played_notes)),
            ),
            final(self)@.played_notes == Set::<u8>::empty(),
            !final(self)@.debounce_pending,
            final(self)@.port_name == old(self)@.port_name,
            final(self)@.channel == old(self)@.channel,
            final(self)@.last_cc == old(self)@.last_cc,
    {
        broadcast use vstd::std_specs::btree::group_btree_axioms;
        proof {
            use_type_invariant(&*self);
        }
        let mut r: Option<MidiOutput> = None;
        if self.played_notes.len() >= MIN_CHORD_NOTES {
            let notes = self.held_notes();
            proof {
                if self@.played_notes.is_empty() {
                    assert(self@.played_notes =~= Set::<u8>::empty());
                }
                lemma_held_notes_have_pitch_class(self@.played_notes);
            }
            let mut finder = ChordFinder::new();
            std::mem::swap(&mut finder, &mut self.chord_finder);
            let result = finder.identify_chord(&notes);
            self.chord_finder = finder;
            r = Some(MidiOutput::Chord(result));
        }
        self.debounce_pending = false;
        let mut notes = BTreeSet::new();
        std::mem::swap(&mut notes, &mut self.played_notes);
        notes.clear();
        self.played_notes = notes;
        r
    }

    /// Reacts to a command.
    pub fn handle_command(&mut self, cmd: MidiCommand) -> (r: CommandReaction)
        ensures
            match cmd {
                MidiCommand::Reconnect(port) => r is Connect && final(self)@ == (MidiBridgeView {
                    port_name: port@,
                    ..old(self)@
                }),
                MidiCommand::SetChannel(ch) => r matches CommandReaction::ReportThenConnect(
                    MidiOutput::ChannelChanged(c),
                ) && c == ch && final(self)@ == (MidiBridgeView { channel: ch, ..old(self)@ }),
                MidiCommand::ListPorts => r is ListPorts && final(self)@ == old(self)@,
                MidiCommand::Close => r is Close && final(self)@ == old(self)@,
            },
    {
        proof {
            use_type_invariant(&*self);
        }
        match cmd {
            MidiCommand::Reconnect(port) => {
                self.port_name = port;
                CommandReaction::Connect
            },
            MidiCommand::SetChannel(ch) => {
                self.channel = ch;
                CommandReaction::ReportThenConnect(MidiOutput::ChannelChanged(ch))
            },
            MidiCommand::ListPorts => CommandReaction::ListPorts,
            MidiCommand::Close => CommandReaction::Close,
        }
    }

    /// The connection report for the bridge's port.
    pub fn status(&self, connected: bool) -> (r: MidiOutput)
        ensures
            r matches MidiOutput::Status { connected: c, port } && c == connected && port@
                == self@.port_name,
    {
        MidiOutput::Status { connected, port: self.port_name.clone() }
    }

    /// The first of the `available` port names that equals or contains the
    /// bridge's port name.
    pub fn select_port(&self, available: &Vec<String>) -> (r: Option<usize>)
        ensures
            match r {
                Some(i) => i < available@.len() && port_answers(available@[i as int]@, self@.port_name)
                    && forall|j: int|
                    0 <= j < i ==> !port_answers(#[trigger] available@[j]@, self@.port_name),
                None => forall|j: int|
                    0 <= j < available@.len() ==> !port_answers(#[trigger] available@[j]@, self@.port_name),
            },
    {
        let n = available.len();
        for i in 0..n
            invariant
                n == available@.len(),
                forall|j: int|
                    0 <= j < i ==> !port_answers(#[trigger] available@[j]@, self@.port_name),
        {
            let name = available[i].as_str();
            if str_equal(name, self.port_name.as_str()) || str_contains(name, self.port_name.as_str()) {
                return Some(i);
            }
        }
        None
    }
}

} // verus!
