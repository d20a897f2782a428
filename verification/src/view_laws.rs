//! What contracts see of a value is what the value holds.

use vstd::prelude::*;

use crate::block::BlockFacts;
use crate::consensus::{decoded_transaction, is_transaction, transaction_txid};
use crate::info::SyncState;
use crate::ledger::{Block, Transaction};
use crate::primitives::{BlockHash, BlockHeader, OutPoint, TransactionData, TxIn, TxOut, Txid};
use crate::res::{RpcError, RpcErrorView};
use crate::transaction::TransactionFacts;
use crate::tx_out::NodeError;

verus! {

/// Hashes are seen as their bytes, and an output's place as identifier and index.
pub proof fn law_hashes_are_seen(txid: Txid, hash: BlockHash, outpoint: OutPoint)
    ensures
        txid@ == txid.bytes@,
        hash@ == hash.bytes@,
        outpoint@.txid == outpoint.txid.bytes@,
        outpoint@.vout == outpoint.vout,
{
}

/// An input is seen with all its fields, each witness item in its place.
pub proof fn law_input_is_seen(input: TxIn)
    ensures
        input@.previous_output.txid == input.previous_output.txid.bytes@,
        input@.previous_output.vout == input.previous_output.vout,
        input@.script_sig == input.script_sig@,
        input@.sequence == input.sequence,
        input@.witness.len() == input.witness@.len(),
        forall|i: int|
            0 <= i < input.witness@.len() ==> #[trigger] input@.witness[i] == input.witness@[i]@,
{
}

/// An output is seen with its amount and its script.
pub proof fn law_output_is_seen(output: TxOut)
    ensures
        output@.value == output.value,
        output@.script_pubkey == output.script_pubkey@,
{
}

/// A transaction is seen with all its fields, each input and each output in its place.
pub proof fn law_transaction_data_is_seen(data: TransactionData)
    ensures
        data@.version == data.version,
        data@.lock_time == data.lock_time,
        data@.input.len() == data.input@.len(),
        data@.output.len() == data.output@.len(),
        forall|i: int|
            0 <= i < data.input@.len() ==> #[trigger] data@.input[i] == data.input@[i]@,
        forall|i: int|
            0 <= i < data.output@.len() ==> #[trigger] data@.output[i] == data.output@[i]@,
{
}

/// A header is seen with all its fields.
pub proof fn law_header_is_seen(header: BlockHeader)
    ensures
        header@.version == header.version,
        header@.prev_blockhash == header.prev_blockhash.bytes@,
        header@.merkle_root == header.merkle_root@,
        header@.time == header.time,
        header@.bits == header.bits,
        header@.nonce == header.nonce,
{
}

/// A block is seen with its header and each transaction in its place.
pub proof fn law_block_is_seen(block: Block)
    ensures
        block@.header == block.header@,
        block@.txdata.len() == block.txdata@.len(),
        forall|i: int|
            0 <= i < block.txdata@.len() ==> #[trigger] block@.txdata[i] == block.txdata@[i]@,
{
}

/// A transaction that is read from bytes gives those bytes back.
pub proof fn law_transaction_keeps_its_bytes(
    raw: Vec<u8>,
    transaction: Transaction,
    bytes: &Vec<u8>,
)
    requires
        call_ensures(
            Transaction::from_bytes,
            (raw,),
            Ok::<Transaction, String>(transaction),
        ),
        call_ensures(Transaction::bytes, (&transaction,), bytes),
    ensures
        bytes@ == raw@,
{
}

/// Bytes are read as a transaction if and only if they encode one. The transaction's fields
/// are those that the bytes decode to, and its identifier is theirs.
pub proof fn law_transaction_is_what_its_bytes_say(
    raw: Vec<u8>,
    read: Result<Transaction, String>,
    data: &TransactionData,
    txid: Txid,
)
    requires
        call_ensures(Transaction::from_bytes, (raw,), read),
        read is Ok ==> call_ensures(Transaction::data, (&read->Ok_0,), data),
        read is Ok ==> call_ensures(Transaction::txid, (&read->Ok_0,), txid),
    ensures
        read is Ok <==> is_transaction(raw@),
        read is Ok ==> data@ == decoded_transaction(raw@)->Ok_0,
        read is Ok ==> txid.bytes@ == transaction_txid(raw@),
        read is Err ==> read->Err_0@ == decoded_transaction(raw@)->Err_0,
{
}

/// What is measured of a transaction is seen as it is.
pub proof fn law_transaction_facts_are_seen(facts: TransactionFacts)
    ensures
        facts@.txid == facts.txid.bytes@,
        facts@.wtxid == facts.wtxid.bytes@,
        facts@.size == facts.size,
        facts@.vsize == facts.vsize,
        facts@.weight == facts.weight,
{
}

/// What is measured of a block is seen as it is, each identifier in its place.
pub proof fn law_block_facts_are_seen(facts: BlockFacts)
    ensures
        facts@.hash == facts.hash.bytes@,
        facts@.txids.len() == facts.txids@.len(),
        forall|i: int|
            0 <= i < facts.txids@.len() ==> #[trigger] facts@.txids[i] == facts.txids@[i].bytes@,
        facts@.size == facts.size,
        facts@.weight == facts.weight,
        facts@.strippedsize == facts.strippedsize,
        facts@.work == facts.work@,
        facts@.difficulty == facts.difficulty,
{
}

/// How far the node has come is seen as it is, each root in its place.
pub proof fn law_sync_state_is_seen(state: SyncState)
    ensures
        state@.validated == state.validated,
        state@.ibd == state.ibd,
        state@.leaves == state.leaves,
        state@.roots.len() == state.roots@.len(),
        forall|i: int|
            0 <= i < state.roots@.len() ==> #[trigger] state@.roots[i] == state.roots@[i]@,
{
}

/// An error is seen as it is sent.
pub proof fn law_error_is_seen(error: RpcError, failure: NodeError)
    ensures
        match error {
            RpcError::Api(code) => error@ == RpcErrorView::Api(code),
            RpcError::Detailed { error: code, message, data } => {
                error@ matches RpcErrorView::Detailed { error: c, message: m, data: d } && c == code
                    && m == message@ && (d is Some <==> data is Some) && (data is Some ==> d->0
                    == data->0@)
            },
            RpcError::Server { code, message } => error@ == (RpcErrorView::Server {
                code,
                message: message@,
            }),
            RpcError::Internal => error@ == RpcErrorView::Internal,
        },
        failure@.debug == failure.debug@,
        failure@.display == failure.display@,
{
}

} // verus!
