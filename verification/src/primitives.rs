//! The plain values that requests and replies are made of.

use vstd::prelude::*;

verus! {

/// The chain that the node follows.
#[derive(Clone, Copy, PartialEq, Eq, Structural, Debug)]
pub enum Network {
    Bitcoin,
    Testnet,
    Signet,
    Regtest,
}

/// Whether two hashes hold the same bytes.
fn same_hash(left: &[u8; 32], right: &[u8; 32]) -> (same: bool)
    ensures
        same == (left@ == right@),
{
    let mut i: usize = 0;
    while i < 32
        invariant
            i <= 32,
            forall|j: int| 0 <= j < i ==> left@[j] == right@[j],
        decreases 32 - i,
    {
        if left[i] != right[i] {
            assert(left@[i as int] != right@[i as int]);
            return false;
        }
        i += 1;
    }
    assert(left@ =~= right@);
    true
}

/// The identifier of a transaction, in the byte order in which it is hashed.
#[derive(Clone, Copy, PartialEq, Eq, Debug)]
pub struct Txid {
    pub bytes: [u8; 32],
}

impl View for Txid {
    type V = Seq<u8>;

    open spec fn view(&self) -> Seq<u8> {
        self.bytes@
    }
}

impl Txid {
    pub fn same(&self, other: &Txid) -> (same: bool)
        ensures
            same == (self@ == other@),
    {
        same_hash(&self.bytes, &other.bytes)
    }
}

/// The hash of a block's header, in the byte order in which it is hashed.
#[derive(Clone, Copy, PartialEq, Eq, Debug)]
pub struct BlockHash {
    pub bytes: [u8; 32],
}

impl View for BlockHash {
    type V = Seq<u8>;

    open spec fn view(&self) -> Seq<u8> {
        self.bytes@
    }
}

/// The `vout`-th output of the transaction `txid`.
#[derive(Clone, Copy, PartialEq, Eq, Debug)]
pub struct OutPoint {
    pub txid: Txid,
    pub vout: u32,
}

pub struct OutPointView {
    pub txid: Seq<u8>,
    pub vout: u32,
}

impl View for OutPoint {
    type V = OutPointView;

    open spec fn view(&self) -> OutPointView {
        OutPointView { txid: self.txid@, vout: self.vout }
    }
}

impl OutPoint {
    pub fn same(&self, other: &OutPoint) -> (same: bool)
        ensures
            same == (self@ == other@),
    {
        self.vout == other.vout && self.txid.same(&other.txid)
    }
}

/// An input: the output that it spends and what unlocks it.
#[derive(PartialEq, Eq, Debug)]
pub struct TxIn {
    pub previous_output: OutPoint,
    pub script_sig: Vec<u8>,
    pub sequence: u32,
    pub witness: Vec<Vec<u8>>,
}

#[verifier::ext_equal]
pub struct TxInView {
    pub previous_output: OutPointView,
    pub script_sig: Seq<u8>,
    pub sequence: u32,
    pub witness: Seq<Seq<u8>>,
}

impl View for TxIn {
    type V = TxInView;

    open spec fn view(&self) -> TxInView {
        TxInView {
            previous_output: self.previous_output@,
            script_sig: self.script_sig@,
            sequence: self.sequence,
            witness: self.witness@.map_values(|item: Vec<u8>| item@),
        }
    }
}

/// An output: an amount in satoshis and the script that locks it.
#[derive(PartialEq, Eq, Debug)]
pub struct TxOut {
    pub value: u64,
    pub script_pubkey: Vec<u8>,
}

#[verifier::ext_equal]
pub struct TxOutView {
    pub value: u64,
    pub script_pubkey: Seq<u8>,
}

impl View for TxOut {
    type V = TxOutView;

    open spec fn view(&self) -> TxOutView {
        TxOutView { value: self.value, script_pubkey: self.script_pubkey@ }
    }
}

impl Clone for TxOut {
    fn clone(&self) -> (copy: TxOut)
        ensures
            copy@ == self@,
    {
        TxOut { value: self.value, script_pubkey: self.script_pubkey.clone() }
    }
}

/// What a transaction says, field by field.
#[derive(PartialEq, Eq, Debug)]
pub struct TransactionData {
    pub version: i32,
    pub lock_time: u32,
    pub input: Vec<TxIn>,
    pub output: Vec<TxOut>,
}

#[verifier::ext_equal]
pub struct TransactionView {
    pub version: i32,
    pub lock_time: u32,
    pub input: Seq<TxInView>,
    pub output: Seq<TxOutView>,
}

impl View for TransactionData {
    type V = TransactionView;

    open spec fn view(&self) -> TransactionView {
        TransactionView {
            version: self.version,
            lock_time: self.lock_time,
            input: self.input@.map_values(|input: TxIn| input@),
            output: self.output@.map_values(|output: TxOut| output@),
        }
    }
}

/// The header of a block.
#[derive(Clone, Copy, PartialEq, Eq, Debug)]
pub struct BlockHeader {
    pub version: i32,
    pub prev_blockhash: BlockHash,
    pub merkle_root: [u8; 32],
    pub time: u32,
    pub bits: u32,
    pub nonce: u32,
}

#[verifier::ext_equal]
pub struct BlockHeaderView {
    pub version: i32,
    pub prev_blockhash: Seq<u8>,
    pub merkle_root: Seq<u8>,
    pub time: u32,
    pub bits: u32,
    pub nonce: u32,
}

impl View for BlockHeader {
    type V = BlockHeaderView;

    open spec fn view(&self) -> BlockHeaderView {
        BlockHeaderView {
            version: self.version,
            prev_blockhash: self.prev_blockhash@,
            merkle_root: self.merkle_root@,
            time: self.time,
            bits: self.bits,
            nonce: self.nonce,
        }
    }
}

} // verus!
