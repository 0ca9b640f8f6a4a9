# voice-ambient

Push-to-talk and ambient speech-to-text for Linux terminals. The library in
`src/` holds the logic, verified with Verus:

- `wizard`: the setup wizard's pages, key handling, option rows, prerequisite
  checks and the command line it assembles;
- `ambient`: the state of the continuous interface (level waveform, transcript
  log, counters, blinking indicator, theme key) and what its status line shows;
- `audio`: batching captured samples into five-second transcription windows;
- `whisper`: model file location, the choice of GPU or CPU for loading the
  model, and assembling a transcript from recognized segments;
- `cli`, `clock`, `device`, `theme`, `keys`, `mode`, `text`: arguments,
  timestamps and transcript lines, input device choice, themes, key presses,
  delivery modes, and string handling.

`app/` holds the programs around it: audio capture and playback, the terminal
drawing, the clipboard and keyboard, the database, and the recognizer itself.

The recognizer (`whisper-rs`, built with CUDA) and the keyboard simulation
(`enigo`) that `app/` calls are not listed in `Cargo.toml`; add them, with
`cpal` and `rodio` and their system libraries (ALSA, libxdo, CMake for
whisper.cpp), to build the programs.
