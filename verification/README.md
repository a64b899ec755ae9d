# serwasm

Verified logic of three gRPC services of an online-shop demo (cart,
recommendation, synthetic workload), written in Verus.

- `src/connection.rs` — the cached store connection: reuse, dial, and
  invalidation after a failure that broke the connection; Redis errors are
  classified through `redis::RedisError`.
- `src/roundtrip.rs` — the database round trip (connect, write, read) as a
  state machine whose caller performs each step.
- `src/address.rs` — Redis addresses and URLs, gRPC endpoint URIs.
- `src/port.rs` — decimal port settings with their defaults.
- `src/settings.rs` — the services' default settings.
- `src/workload.rs` — the reported duration of a workload run.
- `app/` — the processes: environment, name resolution, Redis and gRPC I/O.
  The hipstershop gRPC handlers are generated from `demo.proto`, which this
  crate does not build, so `app/` serves only the gRPC health service (for the
  server as a whole); the Redis store and round-trip adapters are in place but
  no handler calls them.
- `tests/` — tests of the library's public functions.
