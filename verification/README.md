# hermit-sys network streams

The TCP stream calls of a unikernel's network layer, on top of smoltcp.

- `src/` is the verified library: the models of socket states and errors
  (`state`), what each blocking operation does on one look at its socket
  (`socket_ops`), those operations run on smoltcp's TCP socket (`tcp`),
  addresses from callers and from DHCP (`address`), local ports
  (`endpoint`), the interface state and its polling decisions (`network`),
  and the stream calls that need no socket (`stream`).
- `app/` holds the global interface, its driver thread and task, a small
  executor, and the `sys_tcp_*` entry points that run the library's
  operations until they finish.
- `tests/` exercise the library, among them a client and a server talking
  over smoltcp's loopback device.
