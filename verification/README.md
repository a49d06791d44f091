# kitetsu

A live teleprompter. A daemon listens to the microphone and to what the system plays; on
a trigger it freezes what was said since the last one, asks a chat model what to answer,
and shows the suggestion on an overlay.

- `src/` is the library: what is decided, stated in contracts and proved by Verus. How
  audio is cut into utterances, when inference runs, what is sent to the services and what
  their replies mean, how commands are answered, what the overlay shows.
- `app/` is the program around it: sound server, sockets, files, models, screen.
- `tests/` runs the library on concrete values.

Audio samples are carried, not computed on: the energy of a block, the blending of
resampled audio and the scaling to 16 bits are floating point and belong to the program.

What is believed and not proved is in `src/json.rs` (`serde_json`), `src/base64_text.rs`
(`base64`) and at the head of `src/text.rs` (three functions of the standard library).
