//! Describing a transaction of the wallet.

use vstd::prelude::*;

use crate::consensus::{
    decoded_transaction, is_without_witness, size_of, transaction_size, transaction_txid,
    transaction_weight, transaction_wtxid, virtual_size, vsize_of, weight_of, wtxid_of,
};
use crate::ledger::CachedTransaction;
use crate::primitives::{
    BlockHash, Network, TransactionData, TransactionView, TxIn, TxInView, TxOut, TxOutView, Txid,
};
use crate::res::{
    texts, Error, RawTxJson, RawTxJsonView, RpcError, RpcErrorView, ScriptPubKeyJson,
    ScriptSigJson, TxInJson, TxInJsonView, TxOutJson, TxOutJsonView,
};
use crate::script::{
    script_address, script_address_of, script_asm, script_asm_of, script_is_p2pkh, script_is_p2sh,
    script_is_v0_p2wpkh, script_is_v0_p2wsh, script_type,
};
use crate::server::RpcImpl;
use crate::text::{bytes_to_hex, hash_hex, hash_to_hex, hex};

verus! {

/// How an input is described, given its disassembled script.
pub open spec fn vin_json(input: TxInView, assembly: Seq<char>) -> TxInJsonView {
    TxInJsonView {
        txid: hash_hex(input.previous_output.txid),
        vout: input.previous_output.vout,
        assembly,
        hex: hex(input.script_sig),
        witness: input.witness.map_values(|item: Seq<u8>| hex(item)),
        sequence: input.sequence,
    }
}

/// How an output is described, given its disassembled script and its address.
pub open spec fn vout_json(
    output: TxOutView,
    n: u32,
    assembly: Seq<char>,
    address: Seq<char>,
) -> TxOutJsonView {
    TxOutJsonView {
        value: output.value,
        n,
        assembly,
        hex: hex(output.script_pubkey),
        req_sigs: 0,
        address,
        type_: match script_type(output.script_pubkey) {
            Some(name) => name,
            None => "nonstandard"@,
        },
    }
}

/// Describes an input, given its disassembled script.
pub fn describe_vin(input: &TxIn, assembly: String) -> (json: TxInJson)
    ensures
        json@ == vin_json(input@, assembly@),
{
    let mut witness: Vec<String> = Vec::new();
    let mut i: usize = 0;
    while i < input.witness.len()
        invariant
            i <= input.witness@.len(),
            witness@.len() == i,
            forall|j: int| 0 <= j < i ==> (#[trigger] witness@[j])@ == hex(input.witness@[j]@),
        decreases input.witness@.len() - i,
    {
        witness.push(bytes_to_hex(&input.witness[i]));
        i += 1;
    }
    assert(texts(witness@) =~= input@.witness.map_values(|item: Seq<u8>| hex(item)));
    TxInJson {
        txid: hash_to_hex(&input.previous_output.txid.bytes),
        vout: input.previous_output.vout,
        script_sig: ScriptSigJson { assembly, hex: bytes_to_hex(&input.script_sig) },
        witness,
        sequence: input.sequence,
    }
}

/// Describes an output, given its disassembled script and its address.
pub fn describe_vout(output: &TxOut, n: u32, assembly: String, address: String) -> (json: TxOutJson)
    ensures
        json@ == vout_json(output@, n, assembly@, address@),
{
    let type_ = match RpcImpl::get_script_type(&output.script_pubkey) {
        Some(name) => name,
        None => "nonstandard",
    };
    TxOutJson {
        value: output.value,
        n,
        script_pub_key: ScriptPubKeyJson {
            assembly,
            hex: bytes_to_hex(&output.script_pubkey),
            req_sigs: 0,
            address,
            type_: type_.to_owned(),
        },
    }
}

impl RpcImpl {
    /// Describes an input.
    pub fn make_vin(&self, input: &TxIn) -> (json: TxInJson)
        ensures
            json@ == vin_json(input@, script_asm(input.script_sig@)),
    {
        describe_vin(input, script_asm_of(&input.script_sig))
    }

    /// The name of a script's type, for the four types that have one.
    pub fn get_script_type(script: &Vec<u8>) -> (name: Option<&'static str>)
        ensures
            match name {
                Some(name) => script_type(script@) == Some(name@),
                None => script_type(script@) is None,
            },
    {
        if script_is_p2pkh(script) {
            return Some("p2pkh");
        }
        if script_is_p2sh(script) {
            return Some("p2sh");
        }
        if script_is_v0_p2wpkh(script) {
            return Some("v0_p2wpkh");
        }
        if script_is_v0_p2wsh(script) {
            return Some("v0_p2wsh");
        }
        None
    }

    /// Describes an output whose script has an address.
    pub fn make_vout(&self, output: &TxOut, n: u32) -> (json: TxOutJson)
        requires
            script_address(output.script_pubkey@, self.network) is Some,
        ensures
            json@ == vout_json(
                output@,
                n,
                script_asm(output.script_pubkey@),
                script_address(output.script_pubkey@, self.network)->0,
            ),
    {
        let address = script_address_of(&output.script_pubkey, self.network);
        describe_vout(output, n, script_asm_of(&output.script_pubkey), address.unwrap())
    }
}

/// What is measured of a transaction: its two identifiers and its three sizes.
#[derive(Clone, Copy, PartialEq, Eq, Debug)]
pub struct TransactionFacts {
    pub txid: Txid,
    pub wtxid: Txid,
    pub size: usize,
    pub vsize: usize,
    pub weight: usize,
}

#[verifier::ext_equal]
pub struct TransactionFactsView {
    pub txid: Seq<u8>,
    pub wtxid: Seq<u8>,
    pub size: nat,
    pub vsize: nat,
    pub weight: nat,
}

impl View for TransactionFacts {
    type V = TransactionFactsView;

    open spec fn view(&self) -> TransactionFactsView {
        TransactionFactsView {
            txid: self.txid@,
            wtxid: self.wtxid@,
            size: self.size as nat,
            vsize: self.vsize as nat,
            weight: self.weight as nat,
        }
    }
}

/// What is measured of the transaction that a byte string encodes.
pub open spec fn transaction_facts(raw: Seq<u8>) -> TransactionFactsView {
    TransactionFactsView {
        txid: transaction_txid(raw),
        wtxid: transaction_wtxid(raw),
        size: transaction_size(raw),
        vsize: virtual_size(raw),
        weight: transaction_weight(raw),
    }
}

/// Where a transaction stands: the height that the wallet knows, the chain's tip, the block
/// at that height and its time, if the chain has it.
#[derive(Clone, Copy, PartialEq, Eq, Debug)]
pub struct Placement {
    pub height: u32,
    pub tip: u32,
    pub block_hash: BlockHash,
    pub block_time: Option<u32>,
}

impl Placement {
    /// Whether the confirmations can be counted: the transaction was not mined above the tip.
    pub open spec fn countable(self) -> bool {
        self.height <= self.tip || self.height == 0
    }
}

/// How many blocks confirm a transaction: its own and those above it, none if it is not
/// mined.
pub open spec fn transaction_confirmations(height: u32, tip: u32) -> int {
    if height != 0 {
        tip - height + 1
    } else {
        0
    }
}

/// How a transaction is described, given what is measured of it and the descriptions of its
/// inputs and outputs.
pub open spec fn raw_tx_json(
    raw: Seq<u8>,
    data: TransactionView,
    facts: TransactionFactsView,
    vin: Seq<TxInJsonView>,
    vout: Seq<TxOutJsonView>,
    place: Placement,
) -> RawTxJsonView {
    let time = match place.block_time {
        Some(time) => time,
        None => 0,
    };
    RawTxJsonView {
        in_active_chain: place.height != 0,
        hex: hex(raw),
        txid: hash_hex(facts.txid),
        hash: hash_hex(facts.wtxid),
        size: facts.size as u32,
        vsize: facts.vsize as u32,
        weight: facts.weight as u32,
        version: data.version as u32,
        locktime: data.lock_time,
        vin,
        vout,
        blockhash: hash_hex(place.block_hash@),
        confirmations: transaction_confirmations(place.height, place.tip) as u32,
        blocktime: time,
        time,
    }
}

/// Puts the description of a transaction together.
pub fn describe_raw_transaction(
    raw: &Vec<u8>,
    data: &TransactionData,
    facts: &TransactionFacts,
    vin: Vec<TxInJson>,
    vout: Vec<TxOutJson>,
    place: &Placement,
) -> (json: RawTxJson)
    requires
        place.countable(),
    ensures
        json@ == raw_tx_json(
            raw@,
            data@,
            facts@,
            vin@.map_values(|input: TxInJson| input@),
            vout@.map_values(|output: TxOutJson| output@),
            *place,
        ),
{
    let in_active_chain = place.height != 0;
    let confirmations: u32 = if in_active_chain {
        place.tip - place.height + 1
    } else {
        0
    };
    let time: u32 = place.block_time.unwrap_or(0);
    RawTxJson {
        in_active_chain,
        hex: bytes_to_hex(raw),
        txid: hash_to_hex(&facts.txid.bytes),
        hash: hash_to_hex(&facts.wtxid.bytes),
        size: facts.size as u32,
        vsize: facts.vsize as u32,
        weight: facts.weight as u32,
        version: data.version as u32,
        locktime: data.lock_time,
        vin,
        vout,
        blockhash: hash_to_hex(&place.block_hash.bytes),
        confirmations,
        blocktime: time,
        time,
    }
}

/// How a list of inputs is described.
pub open spec fn vins_json(inputs: Seq<TxInView>) -> Seq<TxInJsonView> {
    inputs.map_values(|input: TxInView| vin_json(input, script_asm(input.script_sig)))
}

/// How a list of outputs is described, each with its index.
pub open spec fn vouts_json(outputs: Seq<TxOutView>, network: Network) -> Seq<TxOutJsonView> {
    Seq::new(
        outputs.len(),
        |i: int|
            vout_json(
                outputs[i],
                i as u32,
                script_asm(outputs[i].script_pubkey),
                script_address(outputs[i].script_pubkey, network)->0,
            ),
    )
}

/// Whether every output's script has an address.
pub open spec fn addressable(outputs: Seq<TxOutView>, network: Network) -> bool {
    forall|i: int|
        0 <= i < outputs.len() ==> script_address(
            (#[trigger] outputs[i]).script_pubkey,
            network,
        ) is Some
}

/// Whether every output's script is of one of the four types that have a name.
pub open spec fn recognised(outputs: Seq<TxOutView>) -> bool {
    forall|i: int|
        0 <= i < outputs.len() ==> script_type((#[trigger] outputs[i]).script_pubkey) is Some
}

/// How the transaction that a byte string encodes is described.
pub open spec fn transaction_json(raw: Seq<u8>, network: Network, place: Placement) -> RawTxJsonView {
    let data = decoded_transaction(raw)->Ok_0;
    raw_tx_json(
        raw,
        data,
        transaction_facts(raw),
        vins_json(data.input),
        vouts_json(data.output, network),
        place,
    )
}

impl RpcImpl {
    /// Describes a transaction of the wallet whose outputs all have addresses. Without a
    /// witness, its two hashes are the same.
    pub fn make_raw_transaction(
        &self,
        tx: &CachedTransaction,
        tip: u32,
        block_hash: BlockHash,
        block_time: Option<u32>,
    ) -> (json: RawTxJson)
        requires
            addressable(decoded_transaction(tx.tx@)->Ok_0.output, self.network),
            (Placement { height: tx.height, tip, block_hash, block_time }).countable(),
        ensures
            json@ == transaction_json(
                tx.tx@,
                self.network,
                (Placement { height: tx.height, tip, block_hash, block_time }),
            ),
            is_without_witness(decoded_transaction(tx.tx@)->Ok_0) ==> json.hash@ == json.txid@,
    {
        let raw = tx.tx.bytes();
        let data = tx.tx.data();
        let facts = TransactionFacts {
            txid: tx.tx.txid(),
            wtxid: wtxid_of(raw),
            size: size_of(raw),
            vsize: vsize_of(raw),
            weight: weight_of(raw),
        };
        let mut vin: Vec<TxInJson> = Vec::new();
        let mut i: usize = 0;
        while i < data.input.len()
            invariant
                i <= data.input@.len(),
                vin@.len() == i,
                forall|j: int|
                    0 <= j < i ==> (#[trigger] vin@[j])@ == vin_json(
                        data.input@[j]@,
                        script_asm(data.input@[j].script_sig@),
                    ),
            decreases data.input@.len() - i,
        {
            vin.push(self.make_vin(&data.input[i]));
            i += 1;
        }
        let mut vout: Vec<TxOutJson> = Vec::new();
        let mut n: usize = 0;
        while n < data.output.len()
            invariant
                n <= data.output@.len(),
                vout@.len() == n,
                addressable(data@.output, self.network),
                forall|j: int|
                    0 <= j < n ==> (#[trigger] vout@[j])@ == vout_json(
                        data.output@[j]@,
                        j as u32,
                        script_asm(data.output@[j].script_pubkey@),
                        script_address(data.output@[j].script_pubkey@, self.network)->0,
                    ),
            decreases data.output@.len() - n,
        {
            assert(data@.output[n as int] == data.output@[n as int]@);
            vout.push(self.make_vout(&data.output[n], n as u32));
            n += 1;
        }
        assert(vin@.map_values(|input: TxInJson| input@) =~= vins_json(data@.input));
        assert(vout@.map_values(|output: TxOutJson| output@) =~= vouts_json(
            data@.output,
            self.network,
        ));
        let place = Placement { height: tx.height, tip, block_hash, block_time };
        describe_raw_transaction(raw, data, &facts, vin, vout, &place)
    }

    /// Describes a transaction of the wallet, unless one of its outputs has no address or it
    /// was mined above the tip. Outputs of the types that have a name have an address.
    pub fn try_make_raw_transaction(
        &self,
        tx: &CachedTransaction,
        tip: u32,
        block_hash: BlockHash,
        block_time: Option<u32>,
    ) -> (json: Option<RawTxJson>)
        ensures
            ({
                let place = Placement { height: tx.height, tip, block_hash, block_time };
                match json {
                    Some(json) => {
                        &&& addressable(decoded_transaction(tx.tx@)->Ok_0.output, self.network)
                        &&& place.countable()
                        &&& json@ == transaction_json(tx.tx@, self.network, place)
                    },
                    None => {
                        &&& !(addressable(decoded_transaction(tx.tx@)->Ok_0.output, self.network)
                            && place.countable())
                        &&& !(recognised(decoded_transaction(tx.tx@)->Ok_0.output)
                            && place.countable())
                    },
                }
            }),
    {
        if tx.height > tip {
            return None;
        }
        let data = tx.tx.data();
        let mut n: usize = 0;
        while n < data.output.len()
            invariant
                n <= data.output@.len(),
                decoded_transaction(tx.tx@) == Ok::<TransactionView, Seq<char>>(data@),
                forall|j: int|
                    0 <= j < n ==> script_address(
                        (#[trigger] data@.output[j]).script_pubkey,
                        self.network,
                    ) is Some,
            decreases data.output@.len() - n,
        {
            assert(data@.output[n as int] == data.output@[n as int]@);
            if script_address_of(&data.output[n].script_pubkey, self.network).is_none() {
                return None;
            }
            n += 1;
        }
        Some(self.make_raw_transaction(tx, tip, block_hash, block_time))
    }
}

/// A request for a transaction of the wallet, before the wallet has been asked.
#[derive(Clone, Copy, PartialEq, Eq, Debug)]
pub struct TransactionLookup {
    pub tx_id: Txid,
    pub verbosity: Option<bool>,
}

/// A transaction to describe, before the chain has been asked for the hash of the block at
/// its height.
#[derive(PartialEq, Eq, Debug)]
pub struct PlaceWanted {
    pub tx: CachedTransaction,
}

/// A transaction to describe, before the chain has been asked for its tip and for the header
/// of the block.
#[derive(PartialEq, Eq, Debug)]
pub struct TimeWanted {
    pub tx: CachedTransaction,
    pub block_hash: BlockHash,
}

/// What a transaction that the wallet has is answered with: its encoding, byte by byte, or
/// a description, for which the chain has to be asked first.
#[derive(PartialEq, Eq, Debug)]
pub enum TransactionStep {
    Bytes(Vec<u8>),
    Describe(PlaceWanted),
}

impl TransactionLookup {
    /// Goes on with what the wallet has under the identifier.
    pub fn found(self, cached: Option<CachedTransaction>) -> (step: Result<
        TransactionStep,
        RpcError,
    >)
        ensures
            match cached {
                Some(cached) => if self.verbosity == Some(true) {
                    step matches Ok(TransactionStep::Bytes(bytes)) && bytes@ == cached.tx@
                } else {
                    step == Ok::<TransactionStep, RpcError>(
                        TransactionStep::Describe(PlaceWanted { tx: cached }),
                    )
                },
                None => step matches Err(error) && error@ == RpcErrorView::Api(Error::TxNotFound),
            },
    {
        match cached {
            Some(cached) => {
                if self.verbosity.is_some() && self.verbosity.unwrap() {
                    Ok(TransactionStep::Bytes(cached.tx.bytes().clone()))
                } else {
                    Ok(TransactionStep::Describe(PlaceWanted { tx: cached }))
                }
            },
            None => Err(RpcError::Api(Error::TxNotFound)),
        }
    }
}

/// The hash of zeros, which stands for no block.
pub open spec fn all_zeros() -> Seq<u8> {
    Seq::new(32, |i: int| 0u8)
}

impl PlaceWanted {
    /// Goes on with the hash that the chain gives for the height, or the hash of zeros if it
    /// gives none.
    pub fn answer(self, found: Option<BlockHash>) -> (next: TimeWanted)
        ensures
            next.tx == self.tx,
            next.block_hash@ == match found {
                Some(hash) => hash@,
                None => all_zeros(),
            },
    {
        let block_hash = match found {
            Some(hash) => hash,
            None => BlockHash { bytes: [0u8;32] },
        };
        assert(found is None ==> block_hash@ =~= all_zeros());
        TimeWanted { tx: self.tx, block_hash }
    }
}

impl TimeWanted {
    /// Describes the transaction, given the chain's tip and the time of the block, unless one
    /// of its outputs has no address or it was mined above the tip.
    pub fn describe(self, rpc: &RpcImpl, tip: u32, block_time: Option<u32>) -> (json: Option<
        RawTxJson,
    >)
        ensures
            ({
                let outputs = decoded_transaction(self.tx.tx@)->Ok_0.output;
                let place = Placement {
                    height: self.tx.height,
                    tip,
                    block_hash: self.block_hash,
                    block_time,
                };
                match json {
                    Some(json) => {
                        &&& addressable(outputs, rpc.network)
                        &&& place.countable()
                        &&& json@ == transaction_json(self.tx.tx@, rpc.network, place)
                    },
                    None => {
                        &&& !(addressable(outputs, rpc.network) && place.countable())
                        &&& !(recognised(outputs) && place.countable())
                    },
                }
            }),
    {
        rpc.try_make_raw_transaction(&self.tx, tip, self.block_hash, block_time)
    }
}

} // verus!
