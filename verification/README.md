# exagent

An agent server whose decisions are verified with Verus.

- `src/` is the library. Each function takes plain values and states in its contract what comes
  back. What holds of several functions together is stated as a public proof function: in
  `view_laws.rs` for what is shown of a thread, elsewhere beside the functions that it is about.
- `tests/` runs the library on concrete values.
- `app/` is the program around the library: arguments and environment, files and processes, the
  HTTP interface, and the copies of the library's types that are sent and received. It keeps
  threads in memory, and runs turns with the agent that it is given.

JSON values stand in the library as the compact texts that `serde_json` writes of them. `json.rs`
holds the calls into `serde_json` that take them apart and put them together; `text.rs` holds the
two functions of the standard library that are not specified elsewhere. Paths are texts too, and
are compared part by part (`paths.rs`).
