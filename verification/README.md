# vcp — verified core of the Vantage Connection Protocol broker

The broker brokers authenticated sessions between agents and devices through a
seven-step handshake (discovery, challenge, Ed25519 auth, capability
negotiation, grant, session, receipt).

- `src/` — the library, verified with Verus: device registry with freshness,
  session state machine (a grant only after an accepted auth step), handshake
  engine and its authentication policy,
  Ed25519 auth-signature check, canonical receipt JSON and its hash, ZimaOS
  manifest builder. Calls into chrono, uuid, hex, sha2, ed25519-dalek and
  serde_json stand behind small trusted wrappers whose doc comments say what
  is assumed of them.
- `tests/` — tests of the library on concrete values.
- `app/` — the HTTP server (axum/tokio), the serde forms of the types, the
  environment (read on every request), and the GIX canonical object store that the broker stamps and
  links identities in.
