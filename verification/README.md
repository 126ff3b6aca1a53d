# transcriber

A push-to-talk speech-to-text tool for Linux desktops: a daemon records the
microphone, sends the audio to a transcription service (batch or streaming),
optionally polishes the text with a chat model, and hands it to an overlay
that types it or copies it; a settings window edits the configuration and
browses the history.

`src/` is the verified library (Verus). Each module states its behaviour in
contracts over spec functions and proves it:

- `config`, `settings`, `coupling`: the configuration, its defaults, the
  vocabulary prompt and its budget, the settings page's rules.
- `daemon`, `pipeline`, `streaming`, `audio`: the session state machine,
  silence auto-stop, retries, streaming frames and replies, WAV encoding.
- `overlay`: what the overlay types, copies and shows for each daemon event.
- `history`, `saver`, `checks`, `connections`, `api`: history search and
  rows, the auto-saver's queue, status checks, connection tests and API
  replies.
- `text`, `json`, `bus`: string helpers, a JSON value type, bus names.

Public proof functions named `law_*` state the properties that hold across
calls. `tests/` runs the library on concrete values. `app/` is the
unverified shell around it: D-Bus, audio devices, HTTP and WebSocket I/O,
SQLite, GTK windows and `main`.
