# musicplayer_rs

The logic of a desktop music player, written in Verus and verified: the
track model and its validation, the play queue and the player's state
machine, the title-format language (parser, printer and renderer), album
sorting and SQL ordering clauses, library filters and query clauses, column
preferences, metadata edits and how they are written to and read from tags,
the settings codecs, the row mapping of the library store, the small
decisions of scanning and watching folders (with the debouncing of
watcher events into rescans), how a metadata save settles, and the decisions behind the
views: the album grid's layout, drawer and multi-selection, the sidebar's
categories and selected filter, the metadata editor's form, the track
context menu, and the sort controls.

## Layout

- `src/` — the verified library. Each module states its behaviour in
  `requires` / `ensures` contracts over mathematical views; the laws that
  span several functions (round trips, invariants kept by every operation,
  permutations) are public proof functions named `law_*`.
- `tests/` — ordinary Rust tests of the library on concrete values.
- `app/` — the unverified shell around it: the SQLite store (rusqlite), tag
  file I/O (lofty), folder scanning and watching (notify), the background
  threads and channels (async-channel), and the audio player thread that
  drives the verified player state machine.
