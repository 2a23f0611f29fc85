# plaza-tui

A terminal client for Nightwave Plaza, the vaporwave radio station.

- `src/` is the library, verified with Verus: stream qualities and URLs, the
  HLS playlist window and poll/retry plan, the MPEG-TS demuxer, FLAC metadata
  splicing around the `flacenc` encoder, the song recorder and its cache ledger,
  the player's reconnect and batching decisions, the REST request/response
  rules, and the whole key/event state machine of the UI (`ui::AppState`).
  Outside crates (`m3u8-rs`, `flacenc`, `chrono`, `dirs`) are reached through a
  handful of trusted wrappers whose contracts are stated next to them.
- `app/` is the program around it: command line, terminal drawing, HTTP,
  Socket.IO, audio decoding and output, and the run loop that performs the
  effects the state machine asks for.
- `tests/` exercises the library from outside.
