# blockchain

A small blockchain node. `src/` is the verified library (Verus):

- `encoding` — decimal text of integers and lowercase hexadecimal text of bytes, as specifications and code.
- `hash` — the 32-byte SHA-256 block hash, its hexadecimal form and how it is read back.
- `block` — timestamps, block data and blocks; when a block follows another.
- `blockchain` — a chain that only grows by blocks that follow its last one, and its tail.
- `peers_network` — the peers a node knows, by address.
- `service` — the greeting service's answer.

`app/` is the program around it: configuration, the REST API (warp), the RPC
service between peers (tarpc), the JSON forms of blocks, and the greeting
service's server and client (`world-server`, `world-client` as first argument).
