# agent_broker

The rules of a replicated task Broker: application use cases, client sessions, leader routing and
the Raft state machine, written in Rust and verified with Verus.

## Layout

- `src/` is the library. Its functions state their behaviour in `requires` and `ensures` clauses.
  Verus proves all of them but the few that call other crates (see below).
- `tests/` runs the compiled library on concrete values.
- `app/` is ordinary Rust around the library: sockets, files, TLS connections, threads, the redb
  store and the openraft engine. It holds the serialised forms of the library's types.

## Modules of the library

- Values: `domain`, `commands`, `results`, `command_identity`, `error`, `text`, `time_span`,
  `address`, `big_endian`, `debug_form`.
- Application: `consensus` (the boundary to consensus), `service` (the use cases), `broker` (the
  boundary to the Broker state machine), `standalone`.
- Replicated data: `replicated_command`, `replicated_response`, `replicated_proposal`.
- Command sessions: `command_sessions`, `session_rules`, `session_laws`, `session_snapshot`,
  `consensus_snapshot`, `raft_state_machine`, `snapshot_store`.
- Cluster members: `cluster_config`, `cluster_tls`, `tls_crypto`, `cluster_readiness`,
  `raft_adapters`, `raft_controller`, `raft_errors`, `raft_frames`, `raft_log`, `raft_proposal`,
  `raft_startup`, `one_node`, `rpc_server`, `term_sync`.
- Clients: `protocol`, `client_config`, `client_error`, `client_payloads`, `client`,
  `response_frames`, `session_state`, `session_state_laws`, `session_store`, `durable_client`,
  `json`, `router_config`, `router`.

## What is trusted

Calls into `serde_json`, `rustls`, `rustls_pemfile` and `openraft::Config`, and the quoting of texts
by the standard library, stand behind small functions in `json`, `tls_crypto`, `cluster_config` and
`debug_form`. Their comments say what is taken for granted.
The codec of the Broker protocol, the transport, the Broker state machine and the consensus engine
are parameters of the library; nothing is taken for granted of them.
