# crucibles

A single-threaded executor for `futures` 0.1: a `Crucible` drives one running
future together with background futures spawned onto it, from the same thread
through a `CrucibleHandle` or from any thread through a `CrucibleRemote`.

Layout:

- `src/` is the verified library, the executor's decisions:
  - `spawn_state.rs`: which task is to be woken, and when, after futures are
    spawned (`SpawnState`): its operations hand back the recorded task to
    wake, with an event model of these operations; the executor in `app/`
    wakes the tasks handed back, which is not verified;
  - `laws.rs`: properties proved over every sequence of those operations, of
    the tasks they hand back for waking (no lost wakeup, no redundant wakeup,
    the pending mark is exact, the task stays recorded, nothing is handed back
    before the first poll); the call of `Task::notify` itself is made in
    `app/`;
  - `round.rs`: the order of one poll of a crucible (remote messages first,
    then the spawned futures until none is ready, then the running future);
  - `polling.rs`: the per-poll decisions of the two draining loops;
  - `channel.rs`: the sending end of the unbounded channel a remote holds,
    with the messages offered through it;
  - `remote.rs`: a remote's sink, which offers futures to that channel and
    flushes it.
- `app/` holds the executor types themselves: the futures, the channel, the
  shared cell, and the `Future`, `Sink` and `Executor` impls that perform the
  steps the library decides.
- `tests/` runs the library's functions on concrete values.
