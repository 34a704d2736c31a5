# crowdchoir

A collaborative music server: a MIDI controller sets the harmony (root and
chord type), which is broadcast over Socket.IO to every browser on the page.

## Layout

- `src/` — the verified library (Verus):
  - `music_data` — the chord table (16 types), the scale table (14 scales)
    and the 12 root names, as spec functions with executable accessors.
  - `music_controller` — chord and scale cursors and the `MusicController`
    that turns table offsets into MIDI notes.
  - `chord_finder` — chord recognition from MIDI notes, specified as the first
    rotation of the pitch classes whose intervals agree with a chord type.
  - `midi` — MIDI message decoding and the MIDI bridge's decisions (held
    notes, debounced chord detection, repeated control changes, port choice).
  - `state`, `events` — the shared server state, the duplicate-broadcast
    cache, and how each client event and MIDI report changes the state and
    what it sends.
  - `server` — static-file content types and the participant page template.
  - `control_panel` — chord label, log tail and port/channel selection of
    the native panel.
  - `text` — character-level string helpers.
- `app/` — the headless server binary: HTTP, Socket.IO, TLS and MIDI I/O,
  driving the library.
- `tests/` — tests of the library.
