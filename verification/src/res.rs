//! What requests are answered with: replies and errors.

use vstd::prelude::*;

verus! {

/// The errors that the interface defines, each with a code and a text of its own.
#[derive(Clone, Copy, PartialEq, Eq, Structural, Debug)]
pub enum Error {
    TxNotFound,
    InvalidDescriptor,
    BlockNotFound,
    Chain,
    InvalidPort,
    InvalidAddress,
    Node,
    NoBlockFilters,
}

/// The error that a request is answered with.
#[derive(PartialEq, Eq, Debug)]
pub enum RpcError {
    /// An error of the interface, with its own code and text.
    Api(Error),
    /// The code of an error of the interface, with another text and perhaps more to say.
    Detailed { error: Error, message: String, data: Option<String> },
    /// A code and a text that no error of the interface has.
    Server { code: i64, message: String },
    /// The protocol's own internal error.
    Internal,
}

pub enum RpcErrorView {
    Api(Error),
    Detailed { error: Error, message: Seq<char>, data: Option<Seq<char>> },
    Server { code: i64, message: Seq<char> },
    Internal,
}

/// The characters of a text that may be absent.
pub open spec fn optional_text(text: Option<String>) -> Option<Seq<char>> {
    match text {
        Some(text) => Some(text@),
        None => None,
    }
}

/// The characters of each of a list of texts.
pub open spec fn texts(list: Seq<String>) -> Seq<Seq<char>> {
    list.map_values(|text: String| text@)
}

impl View for RpcError {
    type V = RpcErrorView;

    open spec fn view(&self) -> RpcErrorView {
        match *self {
            RpcError::Api(error) => RpcErrorView::Api(error),
            RpcError::Detailed { error, message, data } => RpcErrorView::Detailed {
                error,
                message: message@,
                data: optional_text(data),
            },
            RpcError::Server { code, message } => RpcErrorView::Server { code, message: message@ },
            RpcError::Internal => RpcErrorView::Internal,
        }
    }
}

/// An input's unlocking script, disassembled and in hexadecimal.
#[derive(PartialEq, Eq, Debug)]
pub struct ScriptSigJson {
    pub assembly: String,
    pub hex: String,
}

/// An input of a transaction.
#[derive(PartialEq, Eq, Debug)]
pub struct TxInJson {
    pub txid: String,
    pub vout: u32,
    pub script_sig: ScriptSigJson,
    pub witness: Vec<String>,
    pub sequence: u32,
}

#[verifier::ext_equal]
pub struct TxInJsonView {
    pub txid: Seq<char>,
    pub vout: u32,
    pub assembly: Seq<char>,
    pub hex: Seq<char>,
    pub witness: Seq<Seq<char>>,
    pub sequence: u32,
}

impl View for TxInJson {
    type V = TxInJsonView;

    open spec fn view(&self) -> TxInJsonView {
        TxInJsonView {
            txid: self.txid@,
            vout: self.vout,
            assembly: self.script_sig.assembly@,
            hex: self.script_sig.hex@,
            witness: texts(self.witness@),
            sequence: self.sequence,
        }
    }
}

/// An output's locking script: disassembled, in hexadecimal, and what it pays to.
#[derive(PartialEq, Eq, Debug)]
pub struct ScriptPubKeyJson {
    pub assembly: String,
    pub hex: String,
    pub req_sigs: u32,
    pub address: String,
    pub type_: String,
}

/// An output of a transaction.
#[derive(PartialEq, Eq, Debug)]
pub struct TxOutJson {
    pub value: u64,
    pub n: u32,
    pub script_pub_key: ScriptPubKeyJson,
}

#[verifier::ext_equal]
pub struct TxOutJsonView {
    pub value: u64,
    pub n: u32,
    pub assembly: Seq<char>,
    pub hex: Seq<char>,
    pub req_sigs: u32,
    pub address: Seq<char>,
    pub type_: Seq<char>,
}

impl View for TxOutJson {
    type V = TxOutJsonView;

    open spec fn view(&self) -> TxOutJsonView {
        TxOutJsonView {
            value: self.value,
            n: self.n,
            assembly: self.script_pub_key.assembly@,
            hex: self.script_pub_key.hex@,
            req_sigs: self.script_pub_key.req_sigs,
            address: self.script_pub_key.address@,
            type_: self.script_pub_key.type_@,
        }
    }
}

/// A transaction of the wallet, and where in the chain it stands.
#[derive(PartialEq, Eq, Debug)]
pub struct RawTxJson {
    pub in_active_chain: bool,
    pub hex: String,
    pub txid: String,
    pub hash: String,
    pub size: u32,
    pub vsize: u32,
    pub weight: u32,
    pub version: u32,
    pub locktime: u32,
    pub vin: Vec<TxInJson>,
    pub vout: Vec<TxOutJson>,
    pub blockhash: String,
    pub confirmations: u32,
    pub blocktime: u32,
    pub time: u32,
}

#[verifier::ext_equal]
pub struct RawTxJsonView {
    pub in_active_chain: bool,
    pub hex: Seq<char>,
    pub txid: Seq<char>,
    pub hash: Seq<char>,
    pub size: u32,
    pub vsize: u32,
    pub weight: u32,
    pub version: u32,
    pub locktime: u32,
    pub vin: Seq<TxInJsonView>,
    pub vout: Seq<TxOutJsonView>,
    pub blockhash: Seq<char>,
    pub confirmations: u32,
    pub blocktime: u32,
    pub time: u32,
}

impl View for RawTxJson {
    type V = RawTxJsonView;

    open spec fn view(&self) -> RawTxJsonView {
        RawTxJsonView {
            in_active_chain: self.in_active_chain,
            hex: self.hex@,
            txid: self.txid@,
            hash: self.hash@,
            size: self.size,
            vsize: self.vsize,
            weight: self.weight,
            version: self.version,
            locktime: self.locktime,
            vin: self.vin@.map_values(|input: TxInJson| input@),
            vout: self.vout@.map_values(|output: TxOutJson| output@),
            blockhash: self.blockhash@,
            confirmations: self.confirmations,
            blocktime: self.blocktime,
            time: self.time,
        }
    }
}

/// A block, and where in the chain it stands.
#[derive(PartialEq, Eq, Debug)]
pub struct BlockJson {
    pub hash: String,
    pub confirmations: u32,
    pub strippedsize: usize,
    pub size: usize,
    pub weight: usize,
    pub height: u32,
    pub version: i32,
    pub version_hex: String,
    pub merkleroot: String,
    pub tx: Vec<String>,
    pub time: u32,
    pub mediantime: u32,
    pub nonce: u32,
    pub bits: String,
    pub difficulty: u64,
    pub chainwork: String,
    pub n_tx: usize,
    pub previousblockhash: String,
    pub nextblockhash: Option<String>,
}

#[verifier::ext_equal]
pub struct BlockJsonView {
    pub hash: Seq<char>,
    pub confirmations: u32,
    pub strippedsize: usize,
    pub size: usize,
    pub weight: usize,
    pub height: u32,
    pub version: i32,
    pub version_hex: Seq<char>,
    pub merkleroot: Seq<char>,
    pub tx: Seq<Seq<char>>,
    pub time: u32,
    pub mediantime: u32,
    pub nonce: u32,
    pub bits: Seq<char>,
    pub difficulty: u64,
    pub chainwork: Seq<char>,
    pub n_tx: usize,
    pub previousblockhash: Seq<char>,
    pub nextblockhash: Option<Seq<char>>,
}

impl View for BlockJson {
    type V = BlockJsonView;

    open spec fn view(&self) -> BlockJsonView {
        BlockJsonView {
            hash: self.hash@,
            confirmations: self.confirmations,
            strippedsize: self.strippedsize,
            size: self.size,
            weight: self.weight,
            height: self.height,
            version: self.version,
            version_hex: self.version_hex@,
            merkleroot: self.merkleroot@,
            tx: texts(self.tx@),
            time: self.time,
            mediantime: self.mediantime,
            nonce: self.nonce,
            bits: self.bits@,
            difficulty: self.difficulty,
            chainwork: self.chainwork@,
            n_tx: self.n_tx,
            previousblockhash: self.previousblockhash@,
            nextblockhash: optional_text(self.nextblockhash),
        }
    }
}

/// How much of the chain has been validated: a share, as its two terms.
#[derive(Clone, Copy, PartialEq, Eq, Structural, Debug)]
pub struct Progress {
    pub validated: u32,
    pub height: u32,
}

/// The state of the chain.
#[derive(PartialEq, Eq, Debug)]
pub struct GetBlockchainInfoRes {
    pub best_block: String,
    pub height: u32,
    pub ibd: bool,
    pub validated: u32,
    pub latest_work: String,
    pub latest_block_time: u32,
    pub leaf_count: u32,
    pub root_count: u32,
    pub root_hashes: Vec<String>,
    pub chain: String,
    pub difficulty: u64,
    pub progress: Progress,
}

#[verifier::ext_equal]
pub struct GetBlockchainInfoView {
    pub best_block: Seq<char>,
    pub height: u32,
    pub ibd: bool,
    pub validated: u32,
    pub latest_work: Seq<char>,
    pub latest_block_time: u32,
    pub leaf_count: u32,
    pub root_count: u32,
    pub root_hashes: Seq<Seq<char>>,
    pub chain: Seq<char>,
    pub difficulty: u64,
    pub progress: Progress,
}

impl View for GetBlockchainInfoRes {
    type V = GetBlockchainInfoView;

    open spec fn view(&self) -> GetBlockchainInfoView {
        GetBlockchainInfoView {
            best_block: self.best_block@,
            height: self.height,
            ibd: self.ibd,
            validated: self.validated,
            latest_work: self.latest_work@,
            latest_block_time: self.latest_block_time,
            leaf_count: self.leaf_count,
            root_count: self.root_count,
            root_hashes: texts(self.root_hashes@),
            chain: self.chain@,
            difficulty: self.difficulty,
            progress: self.progress,
        }
    }
}

} // verus!
