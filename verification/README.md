# handy_core

The verified core of a push-to-talk dictation assistant, written in Verus.

- `src/text.rs` — character-level string operations (trim, replace,
  invisible-character stripping, search), each stated over `Seq<char>`.
- `src/actions.rs` — Simplified/Traditional Chinese conversion, the prompts
  sent to a post-processing language model, the decision of what to ask it,
  the interpretation of its replies, and the text that is finally inserted.
- `src/post_process_context.rs` — memory of the most recent dictation.
- `src/recent_transcription_undo.rs` — the undo shortcut: what a press
  deletes, and how the shortcut is recognised in the keyboard event stream.
- `src/interim_transcription.rs` — scheduling of live previews while
  recording.
- `src/managers/` — the recognition workers' replies, request numbering,
  streamed-audio encoding and the paths of the private Python runtime.

`app/` holds the rest: locks and threads, the clock, worker processes,
keyboard output, and the calls to the language models, all driven by the
decisions of the library. `tests/` exercises the library on concrete values.
