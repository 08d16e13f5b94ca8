# Doppler

A terminal music player: a catalogue of songs and playlists kept in
JSON-lines files, a play queue, synced lyrics, and a keyboard-driven
interface.

- `src/` is the library, verified with Verus: the catalogue and its id
  indexes (`dlib/doppler_info.rs`), playlists and the play queue
  (`dlib/playlist.rs`, `dlib/playlist_iter.rs`), lyrics lookup
  (`dlib/lyrics.rs`), what each key does to the interface's state
  (`tui/app.rs`), the texts of the panes and table rows (`tui/panels.rs`,
  `tui/tables.rs`), the line commands (`cli/`), and text formatting
  (`util/`, `text.rs`).
- `app/` is the program around it: reading and writing the files, audio
  playback, the terminal, and the fuzzy search, whose scores are
  floating-point.
- `tests/` runs the library on concrete values.
