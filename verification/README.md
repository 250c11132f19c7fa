# ting

`ting` gives audio feedback on the command line: `ting p $?` plays a success
sound for exit code 0 and an error sound for any other, and `ting p <cue>` plays
the sound file configured for a named cue.

- `src/` is the verified library (Verus): reading the play input, planning what
  to play from the config, choosing the sound, locating and checking the config
  file, validating the sound files a config names, and the text ting prints.
- `app/` is the program around it: the command line (clap), reading files and the
  TOML config (toml, serde), and sound output (rodio).
- `tests/` runs the library on concrete cases.
