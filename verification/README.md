# mpv_wrapper

A C-callable wrapper around the mpv player library (libmpv), split in two:

- `src/` is the verified library (Verus). It decides everything the wrapper
  decides: which options are set and as what text, which properties are
  observed under which ids, how JSON requests arriving across the C interface
  are checked and turned into commands and property values, how replies are
  written as JSON, how mpv status codes become errors, what the event thread
  does with each event, and how the built library is renamed and packaged.
  Each public function states its result exactly in its contract; the
  `law_*` proof functions state properties that hold across calls.
- `app/` is the plain Rust around it: loading libmpv, the raw player handles,
  the `extern "C"` functions, the event thread, property reads and writes
  through the C API, and the post-build file and zip work.

Calls into `serde_json` (parsing and string quoting), `indexmap` and a few
standard-library functions stand behind small trusted wrappers whose
contracts are written next to them.
