# dephy-pproxy

A proxy that tunnels TCP connections through a peer-to-peer network, with its protocol and its
decisions verified by Verus.

A client node creates a tunnel server, which listens on a local socket. Each connection to it is
tunneled to a peer, which joins it with a connection to its own local server.

- `src/` is the library. `types`, `tunnel::protocol`, `peer_id` and `multiaddr` hold what goes over
  the wire. `tunnel`, `pproxy`, `handle`, `auth`, `p2p` and `server` hold the decisions: each step
  takes what has happened and returns what is to be done next. Proof functions named `law_...`
  state what holds over whole runs of such steps.
- `app/` is the node around the library: it carries out what the library asks for on sockets,
  channels, tasks and the network. `server.rs` there is a node over `litep2p`; it is not
  declared in the crate root, because `litep2p` is not among the dependencies.
- `tests/` runs the library on concrete values.

The functions marked `external_body`, the `assume_specification` items and the declared outside
types are not proved. Each names the function of std, `bytes`, `libp2p` or `reqwest` that it stands
for and says what is taken for granted about it.
