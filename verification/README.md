# azookey

The engine of a Japanese input method for Windows, verified with Verus.

- `src/` is the library: the text service (keys, compositions, input modes, edit
  sessions, activation), the conversion server (sessions and requests), the
  candidate window (size, place and scripts) and the launcher (processes and logs).
  Every item of it is verified.
- `tests/` runs the library from outside.
- `app/` is ordinary Rust around the library: the COM object, pipes and gRPC, the
  converter's C interface, windows, files and processes. Its Windows-only modules
  are compiled on Windows only.

Work that only the host, the server, a file system or another process can do is an
effect in the library: a function returns it together with the state that waits for
it, and another function takes the reply. `effects.rs` holds the effects of the
composition; the other machines have their own.

What the library trusts without proof stands in four modules: `text.rs`
(`String::push`, `char::from_u32`, `Arc::clone`), `diagnostics.rs` (the local time),
`runtime_log.rs` (lossy UTF-8) and `web_messages.rs` (JSON).
