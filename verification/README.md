# jwst_sync

The decision logic of a collaborative-workspace sync client and server, verified with
Verus, together with the I/O that runs it.

- `src/` is the verified library:
  - `connector` — the server-side session of one peer, as a state machine from events
    (initial message, sends, storage updates, broadcasts, ticks, migrations) to actions,
    with laws on forwarding, closing and the final migration;
  - `client` — the client-side sync connection as a state machine, the reconnection
    policy, and the preparation of the websocket request (URL parsing and request
    building through `url` and `tokio-tungstenite`);
  - `storage` — a storage handle: logger level, database address, open result, last
    error and sync state;
  - `doc_ops` and `workspace` — operations on shared maps of a `yrs` document, stated
    over a model of the entries that a transaction sees;
  - `message`, `api` — wire frames and block API addresses.
- `app/` runs the machines: sockets, channels, threads, runtimes, the platform logger,
  the HTTP block API and JSON output.
- `tests/` exercises the library on concrete values.
