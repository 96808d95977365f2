# vlink

The two halves of a TCP bridge. The listening half accepts connections, the emitting half opens a
connection of its own for each of them, and `Action` values carry what happens on the sockets of one
half over to the other, by whatever way the user has for them.

- `src/` is the verified library. `TcpBridge` decides: what to wait for, what to report, where to
  connect, what to write, when to terminate. It performs no input or output.
  - `interface.rs`: the actions, and what passes between a bridge and its sockets
  - `state.rs`: the model of a bridge, in which the contracts are stated
  - `bridge.rs`: the bridge
  - `laws.rs`: what holds over several operations, and of the two halves together
- `app/` runs a bridge over the TCP sockets of tokio.
- `tests/` runs the library, once as a whole bridge over sockets in memory.
