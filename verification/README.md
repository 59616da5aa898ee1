# context_server

The client side of the Model Context Protocol, verified with Verus: how context
servers are configured and started, and how JSON-RPC messages are carried over
HTTP, with sessions, event streams and the legacy Server-Sent Events mode.

- `src/` is the library. Every decision is a function with a contract; what the
  network does comes in as events, and what is to be done goes out as actions.
  `src/laws.rs` states what holds of whole conversations.
- `tests/` runs the library.
- `app/` performs the actions, over an HTTP client that it is given, with
  channels, locks and logging.

The crates `http`, `serde_json` and `url` are used as they are. What is taken
for granted of them stands in `src/wire.rs`, `src/json.rs` and `src/urls.rs`;
what is taken for granted of the standard library stands beside its uses in
`src/text.rs`, `src/config.rs`, `src/error.rs`, `src/command.rs` and
`src/server.rs`.
