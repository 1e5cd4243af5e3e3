# audire_sync

Synchronises an Audire Reader with a WebDAV server: books, reading progress, bookmarks and
highlights.

- `src/` is the library. Everything in it is verified with Verus. It decides what is asked of the
  server and of the database, and what follows from the replies; it performs no input or output.
- `src/tasks/` holds the tasks, one machine each. `src/runner.rs` carries them out.
- `src/laws/` holds what is proved of whole tasks, in the model of `src/world.rs`.
- `app/` performs what the tasks ask for: it talks to the server and to the host's database,
  reads and writes files, and turns values into JSON and back.
- `tests/` runs the library, with a device and a server that are kept in memory.

A few functions of other crates are trusted to do what their documentation says: pull parsing by
`quick_xml`, gzip by `flate2`, Base64 by `base64`, dates by `chrono`, JSON text by `serde_json`,
and header values, status texts and connection pools by `reqwest`; and so are a few of the standard
library, on paths. Each stands behind one small function or declaration, in
`src/xml.rs`, `src/codec.rs`, `src/time.rs`, `src/http.rs`, `src/client.rs`,
`src/local.rs` and `src/tasks/record.rs`, whose comment says what is relied on.
