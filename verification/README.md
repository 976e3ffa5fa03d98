# flow_dictation

A voice dictation assistant: press F9 to start listening, press it again to
stop; the recording is transcribed by a local speech model, the transcript is
polished by a chat-completion service, and the result is typed into the
focused window. A pill-shaped overlay at the top of the screen shows a level
meter while listening, and a tray icon offers a small menu.

## Layout

- `src/` — the verified library (Verus):
  - `icon.rs` — the tray icon's RGBA buffer, from a waveform mask.
  - `text.rs` — Unicode whitespace and blank transcripts.
  - `error.rs` — pipeline errors and their messages.
  - `groq.rs` — the polishing request and the state machine of the HTTP
    exchange with the chat service.
  - `dictation.rs` — the worker's state machine: hotkey toggles, transcription,
    polishing, typing.
  - `overlay.rs` — tray menu state, pill placement, pill size, stem colours.
  - `audio.rs` — which input sample formats can be decoded.
  - `automation.rs` — application events and hotkey dispatch.
- `tests/` — tests of the library on concrete values.
- `app/` — the program: audio capture, speech model, HTTP client, hotkey
  registration, keystroke injection, the overlay's drawing, and the
  floating-point signal work (waveform curve, downmix, resampling).
