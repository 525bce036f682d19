# voicewedge

Push-to-talk dictation for the system tray: press the hotkey, speak, press
Enter; the speech is transcribed (OpenRouter) and typed into the focused
window, and the raw audio is kept. Escape cancels.

- `src/` — the verified library (Verus): configuration and defaults, the
  session state machine, the keyboard-hook rule, the injection plan, inject
  templates, recording names, the speech-to-text request and reply, the focus
  verdict, icons and sound cues. Each public function carries its contract;
  the `law_*` proof functions state properties across inputs and calls.
- `app/` — the program around it: tray, hotkey, microphone, keyboard hook,
  clipboard and keyboard injection, HTTP, toasts and beeps.
- `tests/` — tests of the library on concrete values.
