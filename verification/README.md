# whisper

The rules of a macOS menu bar dictation utility, written in Verus: a global
hotkey starts and stops a recording, whisper.cpp transcribes it, and the
transcript is pasted into the focused text field.

- `src/` is the verified library:
  - `config` — constants and tilde expansion of the model and log paths;
  - `hotkey` — which key events are the Ctrl+Space hotkey;
  - `menu_bar` — the menu bar title and status label of each state;
  - `app_state` — the state machine that the main-thread timer drives
    (idle, starting, recording, transcribing) and the actions it asks for;
  - `recorder` — choice of the input configuration and the integer plan of
    the linear-interpolation resampler;
  - `transcriber` — joining and trimming whisper's segments;
  - `injector` — the ⌘V keystrokes and saving pasteboard items.
- `app/` is the application: AppKit, CoreGraphics, cpal and whisper-rs,
  driven by the library.
- `tests/` exercise the library on concrete values.
