# fff_daemon

The core of a file search daemon, verified with Verus, and the program around it.

A daemon keeps the index of every directory that its clients work on, so that they share one
index and need not build their own. The library decides; it touches no socket, file or clock.

- `src/frame.rs`, `src/protocol.rs`: the frames and the messages
- `src/state.rs`, `src/order.rs`, `src/recency.rs`: the indexed directories, who uses them, and
  which of them go when there are too many or when nobody uses them
- `src/handler.rs`, `src/convert.rs`: what every request comes to, what is asked of the search
  engine, and what its answers mean
- `src/connection.rs`, `src/coverage.rs`: one connection, and that it releases what it used
- `src/lifecycle.rs`, `src/pid.rs`: the start of the daemon and its end
- `src/client.rs`, `src/link.rs`, `src/spawn.rs`, `src/socket.rs`: the client's side
- `src/lua.rs`, `src/table.rs`: the functions that an editor's scripts call
- `src/bench.rs`: the comparison of two ways to match paths
- `src/path.rs`, `src/hash.rs`, `src/text.rs`: paths, hashes and texts

`app/` holds the program: the command line, the socket, the wire encoding, the calls into the
search engine and the bindings for scripts. `tests/` runs the library with an engine in memory.
