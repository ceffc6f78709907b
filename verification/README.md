# Recursive SQLite mutexes on atomics

SQLite's default mutex methods for WebAssembly threads: a recursive mutex on three
atomic words (lock word, owner, depth) that spins briefly, then sleeps on the lock
word on threads that may block and keeps spinning on those that may not.

- `src/protocol.rs`: the lock word's values, the phases of acquiring, and the
  decisions taken on values read from shared memory.
- `src/mutex.rs`: the mutex on `core::sync::atomic`, one bounded step at a time;
  each operation returns the record of its atomic instructions beside its answer.
- `src/trace.rs`: those records, and what each operation's record and answer are.
- `src/model.rs`: the protocol as a machine over the shared words and every
  thread's place, with the invariant that all interleavings keep, and the laws that
  follow: mutual exclusion, truthful `held`, balanced recursion, no lost wake-ups;
  and the proof that each recorded write is a step of that machine.
- `src/methods.rs`: the mapping from SQLite's allocation kinds to mutexes, the
  static table, and the status codes.
- `src/thread.rs`: the platform of a module with a single thread.
- `app/`: the C entry points and method table, the loops that sleep and wake, the
  Wasm threads platform, and memvfs's `Locked` cell.
