# netservices

Building blocks for peer-to-peer network services, verified with Verus:
framing of byte streams, RPC and RPC+Pub message codecs, session protocols,
the reactor-managed transport, and the state machines of clients, nodes and
tunnels.

## Layout

- `src/` — the verified library.
  - `bytes`, `netio`, `channel`: little-endian integers, plain-value I/O
    errors, an in-memory byte channel.
  - `frame`, `streampipes`: the frame marshaller, length-prefixed framed
    streams, filtered and transcoded streams.
  - `connection`, `session`, `split`, `noise`: connections, listeners,
    sessions with handshake protocols, splitting sessions into halves.
  - `resource`: the transport driving a session through its states, and the
    listener resource.
  - `client`, `server`, `node`, `tunnel`: reactor handler state machines and
    the RPC codecs.
- `tests/` — tests of the library on concrete values.
- `app/` — the runtime around the library: TCP connections, reactor threads,
  the tunnel poll loop, and the Noise, SOCKS5 and Eidolon handshakes of
  `cyphernet` as session protocols.
