# codecbridge

A media compatibility helper: it probes video files with `ffprobe`, plans
which of them need their AAC audio re-encoded as PCM, and runs the
conversions with `ffmpeg` from a terminal queue.

- `src/` is the verified library (Verus): the stream model and the reading of
  `ffprobe` reports (`media`, `probe`), the conversion plan (`planner`), the
  choice of output paths and collision handling, against the disk or a list
  of known files (`output`), the `ffmpeg` arguments (`converter`), the
  queue's state machine with its key bindings and the worker's per-job
  decisions (`app`), the text of the
  pages (`view`), and the string and path operations they rest on (`text`,
  `paths`).
- `app/` is the program around it: argument handling, directory listing,
  running `ffprobe` and `ffmpeg`, the terminal loop and the worker thread,
  and drawing with ratatui.
- `tests/` exercises the library on concrete values.
