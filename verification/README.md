# ma_runtime

The ma runtime daemon answers signed `did:ma` messages: `:ping` on the RPC
service (`/ma/rpc/0.0.1`), DID-document publishing and content storing on the
optional IPFS publisher service (`/ma/ipfs/0.0.1`), and serves a small status
page. Its decisions are a library verified with Verus.

Layout:

- `src/` — the verified library.
  - `acl.rs` — admission of a sender by the access-control list
    (`ma_core::check_cap`), with its laws.
  - `did.rs` — `did:ma:` parsing (by `ma_core`) and the DID texts built from it.
  - `cbor.rs` — the CBOR atoms exchanged, encoded and decoded by `ciborium`.
  - `rpc.rs` — the ping/pong decision.
  - `ipfs.rs` — the publisher request as a state machine driven by the daemon.
  - `namespace.rs` — `:create <name>`, likewise a state machine.
  - `i18n.rs` — message catalogues from Fluent sources, lookups with fallback.
  - `status.rs` — counters, uptime and the HTML status page.
- `tests/` — tests of the library.
- `app/` — the daemon: command line, configuration, network, timers and the
  loops that perform what the library decides.
