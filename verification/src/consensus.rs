//! Transactions, blocks and headers as the network encodes and measures them.

use bitcoin::consensus::{deserialize, serialize};
use bitcoin::hashes::Hash as BitcoinHash;
use vstd::arithmetic::power::pow;
use vstd::prelude::*;

use crate::primitives::{
    BlockHash, BlockHeader, BlockHeaderView, Network, OutPoint, TransactionData, TransactionView,
    TxIn, TxInView, TxOut, TxOutView, Txid,
};
use crate::text::{padded_hex, twos_complement};

verus! {

/// What `deserialize::<Transaction>` of `bitcoin` makes of a byte string: the transaction's
/// fields, or the `Debug` text of its error.
pub uninterp spec fn decoded_transaction(raw: Seq<u8>) -> Result<TransactionView, Seq<char>>;

/// What `Transaction::txid` of `bitcoin` gives for the transaction that `raw` encodes.
pub uninterp spec fn transaction_txid(raw: Seq<u8>) -> Seq<u8>;

/// What `Transaction::wtxid` of `bitcoin` gives for the transaction that `raw` encodes.
pub uninterp spec fn transaction_wtxid(raw: Seq<u8>) -> Seq<u8>;

/// What `BlockHeader::block_hash` of `bitcoin` gives for a header.
pub uninterp spec fn header_hash(header: BlockHeaderView) -> Seq<u8>;

/// Whether a byte string encodes a transaction.
pub open spec fn is_transaction(raw: Seq<u8>) -> bool {
    decoded_transaction(raw) is Ok
}

/// `deserialize::<Transaction>` of `bitcoin`: the fields of the transaction that the whole
/// of `raw` encodes, or the `Debug` text of the error. What the fields are is not stated
/// beyond their name.
#[verifier::external_body]
pub(crate) fn decode_transaction(raw: &Vec<u8>) -> (decoded: Result<TransactionData, String>)
    ensures
        match decoded {
            Ok(data) => decoded_transaction(raw@) == Ok::<TransactionView, Seq<char>>(data@),
            Err(text) => decoded_transaction(raw@) == Err::<TransactionView, Seq<char>>(text@),
        },
{
    deserialize::<bitcoin::Transaction>(raw).map(|tx| TransactionData {
        version: tx.version,
        lock_time: tx.lock_time.0,
        input: tx.input.iter().map(|i| TxIn {
            previous_output: OutPoint {
                txid: Txid { bytes: i.previous_output.txid.into_inner() },
                vout: i.previous_output.vout,
            },
            script_sig: i.script_sig.to_bytes(),
            sequence: i.sequence.0,
            witness: i.witness.to_vec(),
        }).collect(),
        output: tx.output.iter().map(|o| TxOut { value: o.value, script_pubkey: o.script_pubkey.to_bytes() }).collect(),
    }).map_err(|error| format!("{:?}", error))
}

/// `Transaction::txid` of `bitcoin`, on the transaction that `raw` encodes. The hash is
/// named, not computed here.
#[verifier::external_body]
pub(crate) fn txid_of(raw: &Vec<u8>) -> (txid: Txid)
    requires
        is_transaction(raw@),
    ensures
        txid@ == transaction_txid(raw@),
{
    let tx: bitcoin::Transaction = deserialize(raw).unwrap();
    Txid { bytes: tx.txid().into_inner() }
}

/// Whether a transaction has inputs, and none of them a witness.
pub open spec fn is_without_witness(tx: TransactionView) -> bool {
    &&& tx.input.len() > 0
    &&& forall|i: int| 0 <= i < tx.input.len() ==> (#[trigger] tx.input[i]).witness.len() == 0
}

/// `Transaction::wtxid` of `bitcoin`, on the transaction that `raw` encodes. The hash is
/// named, not computed here. Without a witness it is the identifier.
#[verifier::external_body]
pub(crate) fn wtxid_of(raw: &Vec<u8>) -> (wtxid: Txid)
    requires
        is_transaction(raw@),
    ensures
        wtxid@ == transaction_wtxid(raw@),
        is_without_witness(decoded_transaction(raw@)->Ok_0) ==> wtxid@ == transaction_txid(raw@),
{
    let tx: bitcoin::Transaction = deserialize(raw).unwrap();
    Txid { bytes: tx.wtxid().into_inner() }
}

/// The bytes that a count takes in the network's variable-length encoding.
pub open spec fn count_size(count: nat) -> nat {
    if count < 0xfd {
        1
    } else if count <= 0xffff {
        3
    } else if count <= 0xffff_ffff {
        5
    } else {
        9
    }
}

/// The bytes that inputs take without their witnesses: 40 for each, and its script.
pub open spec fn inputs_size(inputs: Seq<TxInView>) -> nat
    decreases inputs.len(),
{
    if inputs.len() == 0 {
        0
    } else {
        let script = inputs.last().script_sig.len();
        inputs_size(inputs.drop_last()) + 40 + count_size(script) + script
    }
}

/// The bytes that outputs take: eight for each, and its script.
pub open spec fn outputs_size(outputs: Seq<TxOutView>) -> nat
    decreases outputs.len(),
{
    if outputs.len() == 0 {
        0
    } else {
        let script = outputs.last().script_pubkey.len();
        outputs_size(outputs.drop_last()) + 8 + count_size(script) + script
    }
}

/// The size of a transaction without witness data: version and lock time, inputs, outputs.
pub open spec fn stripped_size(tx: TransactionView) -> nat {
    8 + count_size(tx.input.len()) + inputs_size(tx.input) + count_size(tx.output.len())
        + outputs_size(tx.output)
}

/// The size of the transaction that `raw` encodes: the length of its encoding. The two bytes
/// that mark a transaction without inputs do not count.
pub open spec fn transaction_size(raw: Seq<u8>) -> nat {
    if decoded_transaction(raw)->Ok_0.input.len() > 0 {
        raw.len()
    } else {
        (raw.len() - 2) as nat
    }
}

/// The size of the transaction that `raw` encodes, without witness data.
pub open spec fn transaction_strippedsize(raw: Seq<u8>) -> nat {
    stripped_size(decoded_transaction(raw)->Ok_0)
}

/// The weight of the transaction that `raw` encodes: three times its size without witness
/// data, and its size.
pub open spec fn transaction_weight(raw: Seq<u8>) -> nat {
    3 * transaction_strippedsize(raw) + transaction_size(raw)
}

/// `Transaction::size` of `bitcoin`, on the transaction that `raw` encodes: the length of
/// its encoding. A transaction without inputs is encoded with two marker bytes that the
/// call does not count.
#[verifier::external_body]
pub(crate) fn size_of(raw: &Vec<u8>) -> (size: usize)
    requires
        is_transaction(raw@),
    ensures
        size == transaction_size(raw@),
{
    let tx: bitcoin::Transaction = deserialize(raw).unwrap();
    tx.size()
}

/// `Transaction::weight` of `bitcoin`, on the transaction that `raw` encodes: three times the
/// size without witness data, and the size.
#[verifier::external_body]
pub(crate) fn weight_of(raw: &Vec<u8>) -> (weight: usize)
    requires
        is_transaction(raw@),
    ensures
        weight == transaction_weight(raw@),
{
    let tx: bitcoin::Transaction = deserialize(raw).unwrap();
    tx.weight()
}

/// `Transaction::vsize` of `bitcoin`, on the transaction that `raw` encodes: a quarter of
/// its weight, rounded up.
#[verifier::external_body]
pub(crate) fn vsize_of(raw: &Vec<u8>) -> (vsize: usize)
    requires
        is_transaction(raw@),
    ensures
        vsize == virtual_size(raw@),
{
    let tx: bitcoin::Transaction = deserialize(raw).unwrap();
    tx.vsize()
}

/// A quarter of a transaction's weight, rounded up.
pub open spec fn virtual_size(raw: Seq<u8>) -> nat {
    (transaction_weight(raw) + 3) / 4
}

/// Whether every byte string encodes a transaction.
pub open spec fn are_transactions(raws: Seq<Seq<u8>>) -> bool {
    forall|i: int| 0 <= i < raws.len() ==> is_transaction(#[trigger] raws[i])
}

/// The sizes of transactions, added up.
pub open spec fn total_size(raws: Seq<Seq<u8>>) -> nat
    decreases raws.len(),
{
    if raws.len() == 0 {
        0
    } else {
        total_size(raws.drop_last()) + transaction_size(raws.last())
    }
}

/// The weights of transactions, added up.
pub open spec fn total_weight(raws: Seq<Seq<u8>>) -> nat
    decreases raws.len(),
{
    if raws.len() == 0 {
        0
    } else {
        total_weight(raws.drop_last()) + transaction_weight(raws.last())
    }
}

/// The sizes of transactions without witness data, added up.
pub open spec fn total_strippedsize(raws: Seq<Seq<u8>>) -> nat
    decreases raws.len(),
{
    if raws.len() == 0 {
        0
    } else {
        total_strippedsize(raws.drop_last()) + transaction_strippedsize(raws.last())
    }
}

/// The size of a block: a header of 80 bytes, the transaction count, the transactions.
pub open spec fn block_size(raws: Seq<Seq<u8>>) -> nat {
    80 + count_size(raws.len()) + total_size(raws)
}

/// The weight of a block: four for each byte of header and count, and the transactions.
pub open spec fn block_weight(raws: Seq<Seq<u8>>) -> nat {
    4 * (80 + count_size(raws.len())) + total_weight(raws)
}

/// The size of a block without witness data.
pub open spec fn block_strippedsize(raws: Seq<Seq<u8>>) -> nat {
    80 + count_size(raws.len()) + total_strippedsize(raws)
}

proof fn lemma_total_weight(raws: Seq<Seq<u8>>)
    ensures
        total_weight(raws) == 3 * total_strippedsize(raws) + total_size(raws),
    decreases raws.len(),
{
    if raws.len() > 0 {
        lemma_total_weight(raws.drop_last());
    }
}

/// The weight of a block is three times its size without witness data, and its size.
pub proof fn law_weight_counts_witness_data_once(raws: Seq<Seq<u8>>)
    ensures
        block_weight(raws) == 3 * block_strippedsize(raws) + block_size(raws),
{
    lemma_total_weight(raws);
}

/// The raw encodings that a list of byte strings holds.
pub open spec fn encodings(raws: Seq<Vec<u8>>) -> Seq<Seq<u8>> {
    raws.map_values(|raw: Vec<u8>| raw@)
}

/// The lowest `width` bytes of a number, the lowest first.
pub open spec fn little_endian(value: nat, width: nat) -> Seq<u8>
    decreases width,
{
    if width == 0 {
        seq![]
    } else {
        seq![(value % 256) as u8] + little_endian(value / 256, (width - 1) as nat)
    }
}

/// A count in the network's variable-length encoding.
pub open spec fn count_encoding(count: nat) -> Seq<u8> {
    if count < 0xfd {
        little_endian(count, 1)
    } else if count <= 0xffff {
        seq![0xfdu8] + little_endian(count, 2)
    } else if count <= 0xffff_ffff {
        seq![0xfeu8] + little_endian(count, 4)
    } else {
        seq![0xffu8] + little_endian(count, 8)
    }
}

/// A header as the network encodes it: its fields in order, the numbers with the lowest byte
/// first and the version in two's complement.
pub open spec fn header_encoding(header: BlockHeaderView) -> Seq<u8> {
    little_endian(twos_complement(header.version), 4) + header.prev_blockhash
        + header.merkle_root + little_endian(header.time as nat, 4) + little_endian(
        header.bits as nat,
        4,
    ) + little_endian(header.nonce as nat, 4)
}

/// A block as the network encodes it: the header, the transaction count, the transactions.
pub open spec fn block_encoding(header: BlockHeaderView, raws: Seq<Seq<u8>>) -> Seq<u8> {
    header_encoding(header) + count_encoding(raws.len()) + raws.flatten()
}

/// `serialize` of `bitcoin`, on the block of a header and transactions: the header, the
/// transaction count and the encoding of each transaction. Encoding a transaction gives back
/// the bytes that it was decoded from.
#[verifier::external_body]
pub(crate) fn encode_block(header: &BlockHeader, raws: &Vec<Vec<u8>>) -> (bytes: Vec<u8>)
    requires
        are_transactions(encodings(raws@)),
    ensures
        bytes@ == block_encoding(header@, encodings(raws@)),
{
    let header = bitcoin::BlockHeader {
        version: header.version,
        prev_blockhash: bitcoin::BlockHash::from_inner(header.prev_blockhash.bytes),
        merkle_root: bitcoin::TxMerkleNode::from_inner(header.merkle_root),
        time: header.time,
        bits: header.bits,
        nonce: header.nonce,
    };
    let txdata = raws.iter().map(|raw| deserialize(raw).unwrap()).collect();
    serialize(&bitcoin::Block { header, txdata })
}

/// `Block::size` of `bitcoin`, which does not read the header: 80 bytes for it, then the
/// transaction count, then the size of each transaction.
#[verifier::external_body]
pub(crate) fn block_size_of(header: &BlockHeader, raws: &Vec<Vec<u8>>) -> (size: usize)
    requires
        are_transactions(encodings(raws@)),
    ensures
        size == block_size(encodings(raws@)),
{
    let header = bitcoin::BlockHeader {
        version: header.version,
        prev_blockhash: bitcoin::BlockHash::from_inner(header.prev_blockhash.bytes),
        merkle_root: bitcoin::TxMerkleNode::from_inner(header.merkle_root),
        time: header.time,
        bits: header.bits,
        nonce: header.nonce,
    };
    let txdata = raws.iter().map(|raw| deserialize(raw).unwrap()).collect();
    bitcoin::Block { header, txdata }.size()
}

/// `Block::weight` of `bitcoin`, which does not read the header: four for each byte of it
/// and of the transaction count, and the weight of each transaction.
#[verifier::external_body]
pub(crate) fn block_weight_of(header: &BlockHeader, raws: &Vec<Vec<u8>>) -> (weight: usize)
    requires
        are_transactions(encodings(raws@)),
    ensures
        weight == block_weight(encodings(raws@)),
{
    let header = bitcoin::BlockHeader {
        version: header.version,
        prev_blockhash: bitcoin::BlockHash::from_inner(header.prev_blockhash.bytes),
        merkle_root: bitcoin::TxMerkleNode::from_inner(header.merkle_root),
        time: header.time,
        bits: header.bits,
        nonce: header.nonce,
    };
    let txdata = raws.iter().map(|raw| deserialize(raw).unwrap()).collect();
    bitcoin::Block { header, txdata }.weight()
}

/// `Block::strippedsize` of `bitcoin`, which does not read the header: 80 bytes for it, then
/// the transaction count, then the size of each transaction without witness data.
#[verifier::external_body]
pub(crate) fn block_strippedsize_of(header: &BlockHeader, raws: &Vec<Vec<u8>>) -> (size: usize)
    requires
        are_transactions(encodings(raws@)),
    ensures
        size == block_strippedsize(encodings(raws@)),
{
    let header = bitcoin::BlockHeader {
        version: header.version,
        prev_blockhash: bitcoin::BlockHash::from_inner(header.prev_blockhash.bytes),
        merkle_root: bitcoin::TxMerkleNode::from_inner(header.merkle_root),
        time: header.time,
        bits: header.bits,
        nonce: header.nonce,
    };
    let txdata = raws.iter().map(|raw| deserialize(raw).unwrap()).collect();
    bitcoin::Block { header, txdata }.strippedsize()
}

/// `BlockHeader::block_hash` of `bitcoin`. The hash is named, not computed here.
#[verifier::external_body]
pub(crate) fn block_hash_of(header: &BlockHeader) -> (hash: BlockHash)
    ensures
        hash@ == header_hash(header@),
{
    let header = bitcoin::BlockHeader {
        version: header.version,
        prev_blockhash: bitcoin::BlockHash::from_inner(header.prev_blockhash.bytes),
        merkle_root: bitcoin::TxMerkleNode::from_inner(header.merkle_root),
        time: header.time,
        bits: header.bits,
        nonce: header.nonce,
    };
    BlockHash { bytes: header.block_hash().into_inner() }
}

/// The target that the compact form `bits` stands for: a mantissa of three bytes, shifted
/// by whole bytes as its leading byte says, in 256 bits. A mantissa with its sign bit set
/// stands for zero.
pub open spec fn compact_target(bits: u32) -> nat {
    let exponent = bits as nat / 0x100_0000;
    let mantissa = bits as nat % 0x100_0000;
    if exponent <= 3 {
        let shifted = mantissa / (pow(256, (3 - exponent) as nat) as nat);
        if shifted > 0x7f_ffff {
            0
        } else {
            shifted
        }
    } else if mantissa > 0x7f_ffff {
        0
    } else {
        (mantissa * pow(256, (exponent - 3) as nat) as nat) % (pow(256, 32) as nat)
    }
}

/// The expected number of hashes for a block of this target, in 256 bits.
pub open spec fn block_work(bits: u32) -> nat {
    (pow(256, 32) as nat / (compact_target(bits) + 1)) % (pow(256, 32) as nat)
}

/// How many times harder than the easiest target, in the low 64 bits.
pub open spec fn block_difficulty(bits: u32) -> nat {
    ((0xffff * pow(256, 26) as nat) / compact_target(bits)) % 0x1_0000_0000_0000_0000
}

/// `BlockHeader::work` of `bitcoin` and the `Display` of its 256-bit result: `0x` and 64
/// hexadecimal digits of 2^256 divided by one more than the target.
#[verifier::external_body]
pub(crate) fn work_text_of(header: &BlockHeader) -> (text: String)
    ensures
        text@ == work_text(header.bits),
{
    let header = bitcoin::BlockHeader {
        version: header.version,
        prev_blockhash: bitcoin::BlockHash::from_inner(header.prev_blockhash.bytes),
        merkle_root: bitcoin::TxMerkleNode::from_inner(header.merkle_root),
        time: header.time,
        bits: header.bits,
        nonce: header.nonce,
    };
    header.work().to_string()
}

/// How the work of a block is written.
pub open spec fn work_text(bits: u32) -> Seq<char> {
    seq!['0', 'x'] + padded_hex(block_work(bits), 64)
}

/// `BlockHeader::difficulty` of `bitcoin`, which is the same for every network: the easiest
/// target divided by the header's, in the low 64 bits. The call divides by the target, so
/// a header whose target is zero is left out.
#[verifier::external_body]
pub(crate) fn difficulty_of(header: &BlockHeader, network: Network) -> (difficulty: u64)
    requires
        compact_target(header.bits) != 0,
    ensures
        difficulty == block_difficulty(header.bits),
{
    let header = bitcoin::BlockHeader {
        version: header.version,
        prev_blockhash: bitcoin::BlockHash::from_inner(header.prev_blockhash.bytes),
        merkle_root: bitcoin::TxMerkleNode::from_inner(header.merkle_root),
        time: header.time,
        bits: header.bits,
        nonce: header.nonce,
    };
    header.difficulty(match network {
        Network::Bitcoin => bitcoin::Network::Bitcoin,
        Network::Testnet => bitcoin::Network::Testnet,
        Network::Signet => bitcoin::Network::Signet,
        Network::Regtest => bitcoin::Network::Regtest,
    })
}

} // verus!
