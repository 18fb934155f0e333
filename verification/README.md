# speakin

The core of SpeakIn, a desktop voice-input tool: press a hotkey, speak, and
the recognized text is typed into the focused window.  The logic is written
in Verus and proved against its contracts; a thin command-line shell in
`app/` performs the I/O.

## Layout

- `src/` — the verified library.
  - `hotkey` — hotkey strings (parsing, validation, normalization), the
    key-event state machine for toggle and hold modes, and Escape abort.
  - `control` — hotkey dispatch (cooldown, mistouch), the tray menu and its
    actions, and what a settings change requires of the microphone.
  - `recorder` — the recording lifecycle: start, stop, abort, generations.
  - `asr` — recognition sessions: waiting for speech, the streaming state
    machine (`asr::session`) and the three providers' messages and replies
    (`doubao`, `dashscope`, `qwen`); `protocol` frames the binary protocol.
  - `ai` — AI providers, prompt templates, request planning, and the
    server-sent-event stream of a completion.
  - `filler`, `replacements`, `pipeline`, `input` — the text pipeline from a
    transcript to what is typed or pasted.
  - `settings`, `storage` — settings and their repair, credentials (kept
    only in the OS keyring), usage statistics and the transcript history.
    Every keyring request goes into a ghost `KeyringLog`, so the contracts
    say which entries (service name and key) are read, written or deleted,
    and what each result makes of the keyring's answer.
  - `audio` — down-mixing, PCM framing and the voice gate.
- `tests/` — tests of the library.
- `app/` — the command line: `speakin transcribe <pcm file> [rate]
  [channels]` runs one recognition session over recorded audio and
  delivers the result as a live session would, `speakin
  test-ai <provider id>` tests an AI provider, `speakin save-settings
  <json file>` saves a settings document (credentials to the keyring, the
  rest to the data folder), and `speakin --uninstall-cleanup` removes the
  application's keyring entries.  It holds
  the WebSocket and HTTP clients, the JSON documents, the clipboard and
  simulated typing, and the floating-point audio measurements.
