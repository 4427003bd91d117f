# ringloop

A single-threaded async runtime on `io_uring`, in two parts.

`src/` holds the decisions, verified with Verus. It keeps tasks, wakers and events
under numbers and works on plain values:

- `runtime`: the bookkeeping, and its model `RuntimeState`
- `run`: what a run does next (poll, submit, give up)
- `system`: the ring's operations and the futures of their completions
- `event`: events, and how a completion queue entry is read
- `task`: wakers, and what a spawned task shares with its handle
- `net`: streams and listeners that wait on the ring
- `timespec`, `toggle`, `error`, `poll`: small types
- `program`: main futures as mathematical values, for the laws
- `laws`: what holds across the modules
- `spawning`: what spawning a future and awaiting it gives

`app/` holds what touches the world: the ring, the futures, the sockets.

One fact is taken on trust: how `iou` reads the raw result of a completion queue entry
(`cqe_result` in `src/event.rs`).
