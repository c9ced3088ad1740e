# privyfile_core

A library for sanitising files before they are shared or deleted: it sorts
metadata tags into privacy categories, scores how much a file exposes,
decides what a clean strips and how a shred overwrites, runs batches as a
sequence of decisions, keeps a bounded history and renders an HTML report.

- `src/` holds the library, verified with Verus. Each module states its
  behaviour in `requires`/`ensures` over mathematical models, and the laws
  that relate its functions are proof functions named `law_*`.
- `app/` is the command-line program around it: file and process I/O,
  ExifTool discovery, JSON files, folder watching.
- `tests/` runs the library on concrete values.
