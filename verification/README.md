# cleanrs

A rule-based disk cleanup tool for macOS (with Windows and fallback
policies). Cleaning is a preview unless explicitly confirmed, protected
system paths are never touched, and the Trash is only emptied with a typed
confirmation.

## Layout

- `src/` — the verified library (Verus). It holds every decision the tool
  makes: which rules exist and when they are available, what each rule
  proposes and how tool output is read, whether a path may be cleaned, what
  a clean step does and how its outcome is reported, the explorer's
  classification and ordering, the delete allowlist, the terminal UI's state
  machine and every text it shows, release-version comparison and the
  upgrade channel. Contracts are stated over `Seq`/`Set`-based models and
  checked by Verus; the laws the tool promises are public proof functions.
- `app/` — the program around the library: command-line parsing, file
  system and process access, network requests, JSON output and the
  ratatui/crossterm terminal loop. It measures and performs; the library
  decides.
- `tests/` — tests of the library on concrete values.

Sizes are formatted by `humansize`; the library names that result instead of
restating the crate's algorithm.
