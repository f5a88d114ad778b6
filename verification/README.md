# whisper_gui

The verified core of a speech-to-text tool: the microphone is recorded while
a global hotkey is held (or toggled), Whisper transcribes the audio, the text
can be corrected and converted between Chinese scripts, and it is then sent
to the clipboard, a file, an HTTP endpoint or the window that was active.

`src/` is the library, checked by Verus:

- `config` – the persisted settings, their defaults and the send-mode names;
  where the configuration file lives.
- `settings` – the settings form: filling it from, and saving it into, the
  configuration.
- `session` – what each recording/loading request leads to, and the status
  lines.
- `hotkeys` – what a hotkey event does.
- `process_log` – the newest-first log of at most twelve lines.
- `correction`, `spelling` – spelling fixes from a frequency dictionary, and
  the application of grammar-server replacements.
- `opencc` – conversion from Simplified to Traditional Chinese (Taiwan, "s2twp")
  and back ("t2sp", by the built-in "tw2sp" configuration).
- `send` – how a transcript is sent, and the messages reporting it.
- `models`, `whisper` – model names, paths and download addresses; the
  engine's state and the assembly of its segments.
- `audio` – WAV encoding of 16-bit mono recordings.
- `text` – string helpers.

`app/` is the program around it: audio capture, the Whisper model, the
clipboard, files, HTTP, hotkey registration, and the main loop.
