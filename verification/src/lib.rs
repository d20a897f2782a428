//! The JSON-RPC interface of a Bitcoin node, as verified decisions.

pub mod block;
pub mod broadcast;
pub mod consensus;
pub mod describe_laws;
pub mod info;
pub mod laws;
pub mod ledger;
pub mod measure_laws;
pub mod median;
pub mod peers;
pub mod primitives;
pub mod request_laws;
pub mod requests;
pub mod res;
pub mod script;
pub mod server;
pub mod target;
pub mod text;
pub mod text_laws;
pub mod transaction;
pub mod tx_out;
pub mod tx_out_laws;
pub mod view_laws;
