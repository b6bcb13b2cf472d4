# gws — Apps Script helpers, verified

The `script` helpers of the Google Workspace CLI (`+push`, `+pull`, `+open`,
`+run`, `+logs`) and `.clasp.json` project configuration, with their logic
written in Verus and proved against its contracts.

Layout:

- `src/` — the verified library.
  - `error.rs` — the error type and its messages.
  - `text.rs` — character-level string helpers (equality, substring search,
    suffix trimming) with their models over `Seq<char>`.
  - `json.rs` — the calls into `serde_json` (string quoting, reading one
    string member), the only trusted code.
  - `path.rs` — lexical resolution of `/`-separated paths against a working
    directory, and the lemmas about reading a resolved path back.
  - `validate.rs` — checks on resource names, script file names and
    directories.
  - `clasp_config.rs` — checking a `.clasp.json` and resolving the script ID
    and the working directory.
  - `script.rs` — which local files are uploaded, what is written on a pull,
    the request texts, the subcommands, and the hints after a failed run.
  - `laws.rs` — properties that relate the helpers to each other.
- `tests/` — tests of the library on concrete values.
- `app/` — the I/O around it: reading `.clasp.json` and local files, clap,
  the browser, writing pulled files, and the host interface that executes
  API requests.
