# rxqlite-client

A client of an rxqlite cluster (a distributed SQLite database built on raft),
written in Verus.

`src/` is the verified library:

- `client.rs`: the client builder and the client (its HTTP client, its leader
  and original node, its TLS setting, its notification manager);
- `notify.rs`: the notification subscriptions, as a state machine whose
  operations are planned and recorded here (the listened tables are kept in
  the order of their names, as a `BTreeSet<String>` would keep them), with
  the laws that every
  operation keeps the manager well formed and does what it says;
- `routing.rs`: which endpoint and which node each operation calls, request
  URLs and methods, the redirection to the leader and
  the retries while the cluster elects one, with bounds on the number of
  requests;
- `reply.rs`: what `execute`, `fetch_all`, `fetch_one` and `fetch_optional`
  make of a node's reply;
- `external.rs`: the outside types and functions the library relies on.

`app/` holds the asynchronous operations (HTTP requests with `reqwest`,
notification connections, sleeps), which carry out the library's decisions.

`futures` is listed in Cargo.toml although no code here names it:
rxqlite-lite-common 0.1.6 uses `futures_util::SinkExt` without asking for
the `sink` feature of `futures-util`, and `futures` is what turns it on.
