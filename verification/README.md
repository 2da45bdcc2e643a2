# opent5

The core of a game engine's runtime, written in Verus: console variables
(dvars) with their domains, flags and commands; the command registry and
argument lists; key bindings and input state; localization files and
languages; the file system's folder names, handles and archive rules; the
console's channels and text; the header of fast files; the build and
startup information; and the rules of the main window's events.

Layout:

- `src/` the verified library. Each module states its types' models as
  spec functions and views, and each public function's behaviour in its
  `requires`/`ensures`. Laws that relate several functions are public proof
  functions (`dvar/laws.rs`, `text.rs`, `sys.rs`, `locale.rs`, `cmd.rs`,
  `fs.rs`, `input/keyboard.rs`). Calls into `arrayvec`, and the few std functions
  that vstd gives no specification, stand behind small trusted wrappers
  whose doc comments say what they claim.
- `tests/` tests on concrete values, run against the compiled library.
- `app/` the program around the library: reading files and the
  environment, the platform's clock, and the console variables that hold
  floating-point values.
