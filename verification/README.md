# plenum

Peer-to-peer file transfer, with its decisions verified by Verus.

The library (`src/`) holds the transfer protocol and nothing that touches the world: no
socket, no file, no clock. Every step takes what was observed and answers with what to do
next, and its contract says exactly what that is.

- `wire`, `text`: integers on the wire, and the text functions that the rest needs.
- `protocol`, `stream`, `signaling`: packets, checkpoints, servers.
- `transport`: TCP framing, the encrypted transport and its envelopes, errors.
- `rtc`: remote connections, TURN credentials, the addressing of the relay.
- `app`: requests and events, the machines that run a transfer from either end, and what
  both ends amount to together (`app::transfer`).
- `desktop`: the sessions of a desktop shell.

Proof functions named `law_..` state what holds across functions. The functions of other
crates that the library calls stand in `transport::crypto`, `rtc::address` and `text`, each
with what is taken for granted of it.

`app/` drives the library with real sockets, files and threads. The packet codec, the
sliding windows, the cipher, the beacon and the WebRTC stack come in through the traits of
`app/modules.rs`.
