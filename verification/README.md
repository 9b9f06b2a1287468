# tapeit

The core of a lightweight screen recorder, written in Verus.

`src/` is the verified library:

- `recorder` — the recording session state machine (start, pause, resume,
  stop, and the capture worker's moves through encoding back to idle), the
  worker's loop and finishing decisions, and the laws that tie them together.
- `worker` — the capture worker's sequence of steps (phase and event to next
  phase and action) and each action's effect on the session.
- `sources` — capture source identifiers (`display-<n>`, `window-<n>`), the
  source list, and resolution of a chosen identifier back to its target.
- `encoder` — FFmpeg command lines, 16-bit PCM WAV encoding, frame checks and
  the reporting of FFmpeg runs.
- `output` — timestamped recording names (`tapeit_YYYYMMDD_HHMMSS.mp4`) and the
  paths of temporary files.
- `commands` — turning a recording request into a plan.
- `text` — decimal rendering of integers.

`app/` is the desktop program around it: the Tauri commands and windows,
screen capture through `scap`, audio capture through `cpal`, running FFmpeg,
and file I/O. `tests/` exercises the library on concrete values.
