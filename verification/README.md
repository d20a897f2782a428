# florestad_rpc

The JSON-RPC interface of a light Bitcoin node, with its decisions verified by Verus.

`src/` is the library. A request starts as a method of `Rpc`, which gives the first thing to
ask of the chain, the wallet, the filters or the node; each answer goes into a method of what
was given, until a reply comes out. A request that only passes on what it asks for takes that
straight away. The contracts say what is asked, what is replied and which
error comes when. `laws.rs` and `tx_out_laws.rs` state what holds across requests.

- `server.rs`: `Rpc`, `RpcImpl`, and how the server is set up
- `tx_out.rs`: finding an unspent output with block filters
- `block.rs`, `median.rs`, `target.rs`: describing a block
- `transaction.rs`, `script.rs`: describing a transaction of the wallet
- `broadcast.rs`: taking a transaction from a client
- `peers.rs`: connecting to another node
- `info.rs`: describing the state of the chain
- `requests.rs`: requests that are answered in one or two steps
- `consensus.rs`, `ledger.rs`, `primitives.rs`, `text.rs`, `res.rs`: the values

What is taken from the `bitcoin` crate stands behind small functions marked
`external_body`, each with a statement of what it is trusted for.

`app/` runs the conversations against a node and serves them over HTTP.
