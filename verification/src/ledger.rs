//! Transactions and blocks, held in the form in which the network encodes them.

use vstd::prelude::*;

use crate::consensus::{
    are_transactions, decode_transaction, decoded_transaction, encodings, is_transaction,
    transaction_txid, txid_of,
};
use crate::primitives::{BlockHeader, BlockHeaderView, TransactionData, TransactionView, Txid};

verus! {

/// A transaction: its consensus encoding, and the fields that the encoding decodes to.
#[derive(PartialEq, Eq, Debug)]
pub struct Transaction {
    raw: Vec<u8>,
    data: TransactionData,
}

impl View for Transaction {
    type V = Seq<u8>;

    closed spec fn view(&self) -> Seq<u8> {
        self.raw@
    }
}

impl Transaction {
    #[verifier::type_invariant]
    closed spec fn decodes(self) -> bool {
        decoded_transaction(self.raw@) == Ok::<TransactionView, Seq<char>>(self.data@)
    }

    /// Reads a transaction from its consensus encoding, or gives the text of the decoding
    /// error.
    pub fn from_bytes(raw: Vec<u8>) -> (read: Result<Transaction, String>)
        ensures
            match read {
                Ok(transaction) => is_transaction(raw@) && transaction@ == raw@,
                Err(text) => decoded_transaction(raw@) == Err::<TransactionView, Seq<char>>(text@),
            },
    {
        match decode_transaction(&raw) {
            Ok(data) => Ok(Transaction { raw, data }),
            Err(text) => Err(text),
        }
    }

    /// The consensus encoding.
    pub fn bytes(&self) -> (raw: &Vec<u8>)
        ensures
            raw@ == self@,
            is_transaction(raw@),
    {
        proof {
            use_type_invariant(self);
        }
        &self.raw
    }

    /// The fields.
    pub fn data(&self) -> (data: &TransactionData)
        ensures
            decoded_transaction(self@) == Ok::<TransactionView, Seq<char>>(data@),
    {
        proof {
            use_type_invariant(self);
        }
        &self.data
    }

    /// The identifier.
    pub fn txid(&self) -> (txid: Txid)
        ensures
            txid@ == transaction_txid(self@),
    {
        txid_of(self.bytes())
    }
}

/// A block: its header and its transactions.
#[derive(PartialEq, Eq, Debug)]
pub struct Block {
    pub header: BlockHeader,
    pub txdata: Vec<Transaction>,
}

/// A block as its header and the encodings of its transactions.
#[verifier::ext_equal]
pub struct BlockView {
    pub header: BlockHeaderView,
    pub txdata: Seq<Seq<u8>>,
}

impl View for Block {
    type V = BlockView;

    open spec fn view(&self) -> BlockView {
        BlockView {
            header: self.header@,
            txdata: self.txdata@.map_values(|transaction: Transaction| transaction@),
        }
    }
}

impl Block {
    /// The encodings of the block's transactions, in order.
    pub fn encodings(&self) -> (raws: Vec<Vec<u8>>)
        ensures
            encodings(raws@) == self@.txdata,
            are_transactions(self@.txdata),
    {
        let mut raws: Vec<Vec<u8>> = Vec::new();
        let mut i: usize = 0;
        while i < self.txdata.len()
            invariant
                i <= self.txdata@.len(),
                raws@.len() == i,
                forall|j: int| 0 <= j < i ==> (#[trigger] raws@[j])@ == self.txdata@[j]@,
                forall|j: int| 0 <= j < i ==> is_transaction((#[trigger] self.txdata@[j])@),
            decreases self.txdata@.len() - i,
        {
            let raw = self.txdata[i].bytes();
            raws.push(raw.clone());
            i += 1;
        }
        assert(encodings(raws@) =~= self@.txdata);
        raws
    }

    /// The identifiers of the block's transactions, in order.
    pub fn txids(&self) -> (txids: Vec<Txid>)
        ensures
            txid_views(txids@) == block_txids(self@),
    {
        let mut txids: Vec<Txid> = Vec::new();
        let mut i: usize = 0;
        while i < self.txdata.len()
            invariant
                i <= self.txdata@.len(),
                txids@.len() == i,
                forall|j: int|
                    0 <= j < i ==> (#[trigger] txids@[j])@ == transaction_txid(self.txdata@[j]@),
            decreases self.txdata@.len() - i,
        {
            txids.push(self.txdata[i].txid());
            i += 1;
        }
        assert(txid_views(txids@) =~= block_txids(self@));
        txids
    }
}

/// The hashes that a list of identifiers holds.
pub open spec fn txid_views(txids: Seq<Txid>) -> Seq<Seq<u8>> {
    txids.map_values(|txid: Txid| txid@)
}

/// The identifiers of a block's transactions, in order.
pub open spec fn block_txids(block: BlockView) -> Seq<Seq<u8>> {
    block.txdata.map_values(|raw: Seq<u8>| transaction_txid(raw))
}

/// A transaction that the wallet keeps, with the height of the block that holds it. A height
/// of zero stands for a transaction that no block holds yet.
#[derive(PartialEq, Eq, Debug)]
pub struct CachedTransaction {
    pub tx: Transaction,
    pub height: u32,
}

} // verus!
