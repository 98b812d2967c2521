# tun-engine

Split-tunnel routing and fail-closed firewall covers for a TUN engine on Windows
and macOS, with the decisions proved in Verus.

- `src/` is the library. It builds the route commands and the packet-filter
  rulesets, reads what the system answers, and sequences every operation that
  touches the host. A sequence is a value: `next` hands out the call to make,
  `feed` takes back what became of it, `finish` gives the outcome. The contract of
  each says which calls are made for which replies, in which order, and what comes
  out; the laws beside them say what holds of every run.
- `app/` performs the calls: processes, state files, sockets, and the guards that
  take routes and covers back when they are dropped.
- `tests/` runs the library on concrete values.

| Module | What it holds |
| --- | --- |
| `ip`, `text` | addresses and their text forms, scanning of command output |
| `gateway`, `net` | the upstream route, its errors, socket and metric values |
| `helpers` | SOCKS5 datagram headers |
| `routing` | route commands, setup and cleanup runs, installs, recovery |
| `routing::failclosed` | covers: rulesets, engaging, disengaging, releasing, clearance |
