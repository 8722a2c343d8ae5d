# thingblock-link

A local helper that backs the editor's compile/flash mode. It serves a
WebSocket to the browser, speaks a small JSON envelope there, and turns each
request into a gRPC streaming call to an `arduino-cli daemon` that it spawns and
owns. A tray icon and a small status window show its state.

## Layout

- `src/` — the library, verified with Verus. It holds the decisions: what each
  WS request does to the per-connection session and what the socket driver must
  do for it, how each streamed daemon message becomes a WS response, the
  coalescing of streamed text, the `listBoards` pnpid filter, locating the
  compiled artifact, resolving `{pack, lib}` references inside the resource root,
  the daemon's command line and startup errors, and the tray's texts and
  event-loop decisions.
  - `ws/` — the envelope (`protocol`), the session state (`session`), the
    outbound coalescing (`batch`) and the writer's flush rule (`writer`).
  - `grpc/` — the daemon's messages (`cli`) and one module per RPC.
  - `bridge` — request dispatch and the per-event reply rules.
- `app/` — the host: argument parsing, the tokio runtime, the axum server, the
  tonic client, the child process, file system access, the tray and the
  webview. It performs what the library decides.
- `tests/` — tests of the library's public functions on concrete values.

Paths are joined and compared with `std::path`, so they follow the
conventions of the target the helper is built for.
