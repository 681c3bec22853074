# rust_wthisper

A local speech assistant: a web server that records from the microphone, transcribes
with the Whisper command line, speaks text with piper, and clones a voice with f5-tts,
together with the decisions of its browser page.

## Layout

- `src/` — the verified library (Verus). It holds what the server and the page decide:
  - `server.rs` routes requests and states, for each route, the answer and the change to
    the shared state, or the outside work to do and how its outcome is answered;
  - `state.rs` the shared state (levels and thresholds in fixed point) and its updates;
  - `json.rs`, `http.rs` the documents and the wire format of answers;
  - `rounding.rs` how the silence tail and download progress are printed with one decimal;
  - `body.rs`, `query.rs`, `escape.rs`, `chars.rs` request parsing and escaping;
  - `paths.rs` where checkpoints, voices, tools and project files are looked for, given
    which candidate paths exist;
  - `audio.rs` channel separation and the voice-activated recording steps;
  - `commands.rs` the command lines of Whisper, piper, f5-tts, pip and the downloads;
  - `catalog.rs` the checkpoints and voices on offer;
  - `ui.rs` the page's decisions (buttons, navigation, listening loop, meter, labels,
    request URLs);
  - `protocol.rs` proofs that the server reads back what the page sends.
- `app/` — the program around it: sockets, threads, the microphone (cpal), WAV files
  (hound), processes and the disk.
- `tests/` — tests of the library on concrete values.
