# pool_mod

A generic, thread-safe pool of reusable resources (database connections,
clients, buffers), verified with Verus.

- `src/` is the library. `state.rs` holds the bookkeeping guarded by a pool's
  lock, with every operation specified over a mathematical model;
  `laws.rs` proves the properties that relate operations (reuse order,
  the `max_size` ceiling, close and reap behaviour). `pool.rs` drives that
  bookkeeping from the shared `Pool`, its `Builder`, and the `Pooled` lease,
  through step functions with exact contracts; each operation reports what
  its locks found and did, and `trace.rs` records a checkout round by round,
  with `laws.rs` proving what a checkout that nothing interrupts does (oldest
  idle resource first, rejected ones discarded with their slots, waiting only
  on a saturated pool). `reaper.rs` holds a background reaper's decisions. `sync.rs` and `clock.rs` hold the trusted calls into the
  standard library's mutex (taken with `try_lock` only), its condition
  variable, and the monotonic clock.
- `app/` adds what is outside the verified library: a guard that returns its
  lease when dropped, the background reaper thread, and `Display` for errors.
- `tests/` exercises the library end to end.
