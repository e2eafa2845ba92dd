# vibevoicecli

A portable command-line tool for neural text-to-speech. The decisions the
tool makes are a verified library (`src/`); the program around it (`app/`)
does the terminal, file, process and network work and the floating-point
audio processing.

- `src/voices.rs`: the voice models and which one a speaker name selects.
- `src/engine.rs`: the model directory, the speaker presets, the engine
  archive per platform, the names of the files the tool keeps, the engine's
  command lines, and the step-by-step installation of the engine and a voice
  model (`ModelSetup`), including what offline mode refuses.
- `src/config.rs`: the configuration keys, their non-fractional defaults, and
  `--set-config key=value`.
- `src/session.rs`: the input source and the interactive prompt.
- `src/text.rs`, `src/decimal.rs`: trimming, substring search, ASCII case
  folding, and decimal text of integers.
- `src/audio.rs`: the layout of the WAV files written.
