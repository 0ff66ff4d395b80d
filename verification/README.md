# Palisade

Distributed locks with fencing tokens over a Redis store: mutexes, reentrant,
read-write, fair and multi-locks, locks under predicates, quorum locks over
several masters, latches and testaments, and the rules of a lock server with
sessions, quotas and watchers.

- `src/` is the library. It decides what is sent to the store, what the answer
  means and what follows, and is verified with Verus. It does no I/O.
- `app/` is the program around it: connections, tasks, HTTP, WebSocket and gRPC
  requests, JSON.
- `tests/` runs the library, in `scenarios.rs` against a store in memory.

The Lua scripts that the store runs are read from the directory given by
`--scripts`, the frontend from the one given by `--assets`. Each script changes
the store atomically; what the library proves of locks rests on that.
