//! Taking a transaction from a client and passing it on to the network.

use vstd::prelude::*;

use crate::consensus::{decoded_transaction, transaction_txid};
use crate::ledger::Transaction;
use crate::primitives::Txid;
use crate::res::{Error, RpcError, RpcErrorView};
use crate::text::{bytes_from_hex, unhex};

verus! {

/// What a text that is not hexadecimal is answered with.
pub open spec fn invalid_hex() -> RpcErrorView {
    RpcErrorView::Server { code: 3, message: "Invalid hex"@ }
}

/// What bytes that encode no transaction are answered with, given the text of the decoding
/// error.
pub open spec fn undecodable(text: Seq<char>) -> RpcErrorView {
    RpcErrorView::Server { code: 2, message: text }
}

/// The encoding of the transaction that a text stands for in hexadecimal, or the error that
/// it is answered with.
pub open spec fn submitted(text: Seq<char>) -> Result<Seq<u8>, RpcErrorView> {
    match unhex(text) {
        Some(raw) => match decoded_transaction(raw) {
            Ok(_) => Ok(raw),
            Err(text) => Err(undecodable(text)),
        },
        None => Err(invalid_hex()),
    }
}

/// A transaction to pass on to the network.
#[derive(PartialEq, Eq, Debug)]
pub struct Broadcast {
    pub tx: Transaction,
}

/// Reads the bytes that a text stands for in hexadecimal.
pub fn read_hex(text: &str) -> (bytes: Result<Vec<u8>, RpcError>)
    ensures
        match unhex(text@) {
            Some(raw) => bytes matches Ok(bytes) && bytes@ == raw,
            None => bytes matches Err(error) && error@ == invalid_hex(),
        },
{
    match bytes_from_hex(text) {
        Some(bytes) => Ok(bytes),
        None => Err(RpcError::Server { code: 3, message: "Invalid hex".to_owned() }),
    }
}

/// Takes a transaction to pass on, given what decoding it came to.
pub fn take_decoded(decoded: Result<Transaction, String>) -> (taken: Result<Broadcast, RpcError>)
    ensures
        match decoded {
            Ok(tx) => taken == Ok::<Broadcast, RpcError>(Broadcast { tx }),
            Err(text) => taken matches Err(error) && error@ == undecodable(text@),
        },
{
    match decoded {
        Ok(tx) => Ok(Broadcast { tx }),
        Err(text) => Err(RpcError::Server { code: 2, message: text }),
    }
}

/// Answers with the identifier of a transaction that the network has taken.
pub fn broadcast_reply(txid: Txid, accepted: bool) -> (reply: Result<Txid, RpcError>)
    ensures
        if accepted {
            reply == Ok::<Txid, RpcError>(txid)
        } else {
            reply matches Err(error) && error@ == RpcErrorView::Api(Error::Chain)
        },
{
    if accepted {
        Ok(txid)
    } else {
        Err(RpcError::Api(Error::Chain))
    }
}

/// Takes a transaction to pass on, in hexadecimal.
pub fn submit(text: &str) -> (taken: Result<Broadcast, RpcError>)
    ensures
        match submitted(text@) {
            Ok(raw) => taken matches Ok(broadcast) && broadcast.tx@ == raw,
            Err(expected) => taken matches Err(error) && error@ == expected,
        },
{
    match read_hex(text) {
        Ok(bytes) => take_decoded(Transaction::from_bytes(bytes)),
        Err(error) => Err(error),
    }
}

impl Broadcast {
    /// Goes on with whether the network has taken the transaction.
    pub fn answer(self, accepted: bool) -> (reply: Result<Txid, RpcError>)
        ensures
            if accepted {
                reply matches Ok(txid) && txid@ == transaction_txid(self.tx@)
            } else {
                reply matches Err(error) && error@ == RpcErrorView::Api(Error::Chain)
            },
    {
        broadcast_reply(self.tx.txid(), accepted)
    }
}

} // verus!
