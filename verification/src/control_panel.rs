//! The decisions of the native control panel: the chord label it shows,
//! the bounded tail of log lines, and which MIDI port and channel are
//! selected as server snapshots arrive.
use vstd::prelude::*;
use vstd::string::*;
use std::collections::VecDeque;
use crate::music_data::{chord_name, chord_name_spec, root_name, root_name_spec, NUM_CHORDS};
use crate::state::{CurrentChord, GuiStateSnapshot};
use crate::text::{contains_seq, str_contains};

verus! {

/// The log tail keeps at most this many lines.
pub const MAX_LOG_LINES: usize = 20;

/// The label of `chord`: its root's name, a space, and its type's name
/// (`?` for a type outside the table).
pub open spec fn chord_label_spec(chord: CurrentChord) -> Seq<char> {
    root_name_spec((chord.root % 12) as int) + " "@ + if chord.chord_type < NUM_CHORDS {
        chord_name_spec(chord.chord_type as int)
    } else {
        "?"@
    }
}

/// The label shown for the current chord, such as `C Major`.
pub fn chord_label(chord: CurrentChord) -> (r: String)
    ensures
        r@ == chord_label_spec(chord),
{
    let mut label = String::from_str(root_name((chord.root % 12) as usize));
    label.append(" ");
    if (chord.chord_type as usize) < NUM_CHORDS {
        label.append(chord_name(chord.chord_type as usize));
    } else {
        label.append("?");
    }
    label
}

/// The log tail after adding `entry`: the oldest line is dropped first
/// when the tail already holds `MAX_LOG_LINES` lines or more.
pub open spec fn log_after_push(lines: Seq<String>, entry: String) -> Seq<String> {
    if lines.len() >= MAX_LOG_LINES {
        lines.drop_first().push(entry)
    } else {
        lines.push(entry)
    }
}

/// Appends `entry` to the log tail.
pub fn push_log_line(lines: &mut VecDeque<String>, entry: String)
    ensures
        final(lines)@ == log_after_push(old(lines)@, entry),
{
    if lines.len() >= MAX_LOG_LINES {
        lines.pop_front();
    }
    lines.push_back(entry);
}

/// Law: a log tail that holds at most `MAX_LOG_LINES` lines keeps doing so,
/// and the newest line is always the last one.
pub proof fn lemma_log_tail_bounded(lines: Seq<String>, entry: String)
    requires
        lines.len() <= MAX_LOG_LINES,
    ensures
        log_after_push(lines, entry).len() <= MAX_LOG_LINES,
        log_after_push(lines, entry).last() == entry,
{
}

/// The log line of an event at `level` (such as `WARN`) with `message`:
/// none for an empty message, else `[level] message`.
pub open spec fn log_line_spec(level: Seq<char>, message: Seq<char>) -> Option<Seq<char>> {
    if message.len() == 0 {
        None
    } else {
        Some("["@ + level + "] "@ + message)
    }
}

/// The line that the log tail shows for an event, if any.
pub fn log_line(level: &str, message: &str) -> (r: Option<String>)
    ensures
        match r {
            Some(line) => log_line_spec(level@, message@) == Some(line@),
            None => log_line_spec(level@, message@) is None,
        },
{
    if message.is_empty() {
        return None;
    }
    let mut line = String::from_str("[");
    line.append(level);
    line.append("] ");
    line.append(message);
    Some(line)
}

/// How a log line is coloured.
#[derive(Debug, Clone, Copy, PartialEq, Eq, Structural)]
pub enum LogLineColour {
    Error,
    Warning,
    Plain,
}

/// The colour of `line`: errors first, then warnings, else plain.
pub open spec fn log_line_colour_spec(line: Seq<char>) -> LogLineColour {
    if contains_seq(line, "[ERROR]"@) {
        LogLineColour::Error
    } else if contains_seq(line, "[WARN]"@) {
        LogLineColour::Warning
    } else {
        LogLineColour::Plain
    }
}

/// The colour in which the log tail shows `line`.
pub fn log_line_colour(line: &str) -> (r: LogLineColour)
    ensures
        r == log_line_colour_spec(line@),
{
    if str_contains(line, "[ERROR]") {
        LogLineColour::Error
    } else if str_contains(line, "[WARN]") {
        LogLineColour::Warning
    } else {
        LogLineColour::Plain
    }
}

/// The MIDI port and channel selected in the control panel.
pub struct PanelSelection {
    pub selected_port: String,
    pub selected_channel: u8,
}

impl PanelSelection {
    /// Nothing selected yet: no port, channel 0.
    pub fn new() -> (r: Self)
        ensures
            r.selected_port@.len() == 0,
            r.selected_channel == 0,
    {
        PanelSelection { selected_port: String::new(), selected_channel: 0 }
    }

    /// Follows a new server snapshot: the snapshot's port is taken when no
    /// port is selected yet, and its channel always.
    pub fn apply_snapshot(&mut self, snapshot: &GuiStateSnapshot)
        ensures
            final(self).selected_port@ == if old(self).selected_port@.len() == 0 {
                snapshot.midi_port@
            } else {
                old(self).selected_port@
            },
            final(self).selected_channel == snapshot.midi_channel,
    {
        if self.selected_port.as_str().is_empty() {
            self.selected_port = snapshot.midi_port.clone();
        }
        self.selected_channel = snapshot.midi_channel;
    }

    /// With no port selected, selects the first listed port, if any.
    pub fn default_to_first_port(&mut self, ports: &Vec<String>)
        ensures
            final(self).selected_port@ == if old(self).selected_port@.len() == 0 && ports@.len() > 0 {
                ports@[0]@
            } else {
                old(self).selected_port@
            },
            final(self).selected_channel == old(self).selected_channel,
    {
        if self.selected_port.as_str().is_empty() && ports.len() > 0 {
            self.selected_port = ports[0].clone();
        }
    }
}

} // verus!
