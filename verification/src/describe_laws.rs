//! What descriptions say, field by field, of what they describe.

use vstd::prelude::*;

use crate::block::{
    describe_block, past_heights, BlockFacts, BlockLookup, BlockReport, BlockStep, HeightWanted,
    TipWanted,
};
use crate::consensus::{
    block_difficulty, block_encoding, block_size, block_strippedsize, block_weight, compact_target,
    decoded_transaction, encodings, header_hash, transaction_size, transaction_txid,
    transaction_weight, transaction_wtxid, virtual_size, work_text,
};
use crate::info::{network_name, BestBlockWanted, BestHeaderWanted, SyncState};
use crate::ledger::{block_txids, txid_views, Block, CachedTransaction};
use crate::median::{count_of, law_found_median_stands_sixth, median_time_past};
use crate::primitives::{
    BlockHash, BlockHeader, Network, TransactionData, TxIn, TxInView, TxOut, TxOutView, Txid,
};
use crate::res::{
    texts, BlockJson, Error, GetBlockchainInfoRes, RawTxJson, RpcError, TxInJson, TxOutJson,
};
use crate::script::{script_address, script_asm, script_type};
use crate::server::RpcImpl;
use crate::text::{hash_hex, hex, lower_hex, twos_complement};
use crate::text_laws::{
    are_lower_digits, law_lower_hex_is_read_back, law_twos_complement_keeps_the_remainder,
    read_number,
};
use crate::transaction::{
    describe_raw_transaction, describe_vin, describe_vout, transaction_json, PlaceWanted,
    Placement, TimeWanted, TransactionFacts, TransactionLookup, TransactionStep,
};

verus! {

/// Whether a description says of an input which output it spends, how it is unlocked and each
/// of its witness items.
pub open spec fn shows_input(json: TxInJson, input: TxInView) -> bool {
    &&& json.txid@ == hash_hex(input.previous_output.txid)
    &&& json.vout == input.previous_output.vout
    &&& json.sequence == input.sequence
    &&& json.script_sig.hex@ == hex(input.script_sig)
    &&& json.witness@.len() == input.witness.len()
    &&& forall|i: int|
        0 <= i < input.witness.len() ==> (#[trigger] json.witness@[i])@ == hex(input.witness[i])
}

/// Whether a description says of an output its index, its amount, its script and the
/// script's type.
pub open spec fn shows_output(json: TxOutJson, output: TxOutView, n: int) -> bool {
    &&& json.n == n
    &&& json.value == output.value
    &&& json.script_pub_key.hex@ == hex(output.script_pubkey)
    &&& json.script_pub_key.req_sigs == 0
    &&& match script_type(output.script_pubkey) {
        Some(name) => json.script_pub_key.type_@ == name,
        None => json.script_pub_key.type_@ == "nonstandard"@,
    }
}

/// An input is described by its own fields, and by the disassembly that is handed over.
pub proof fn law_described_input_is_the_input(input: &TxIn, assembly: String, json: TxInJson)
    requires
        call_ensures(describe_vin, (input, assembly), json),
    ensures
        shows_input(json, input@),
        json.script_sig.assembly@ == assembly@,
{
    assert(json@.witness =~= texts(json.witness@));
    assert forall|i: int| 0 <= i < input@.witness.len() implies (#[trigger] json.witness@[i])@
        == hex(input@.witness[i]) by {
        assert(json@.witness[i] == json.witness@[i]@);
    }
}

/// An input is described by its own fields and the disassembly of its own script.
pub proof fn law_made_input_is_the_input(rpc: &RpcImpl, input: &TxIn, json: TxInJson)
    requires
        call_ensures(RpcImpl::make_vin, (rpc, input), json),
    ensures
        shows_input(json, input@),
        json.script_sig.assembly@ == script_asm(input.script_sig@),
{
    assert(json@.witness =~= texts(json.witness@));
    assert forall|i: int| 0 <= i < input@.witness.len() implies (#[trigger] json.witness@[i])@
        == hex(input@.witness[i]) by {
        assert(json@.witness[i] == json.witness@[i]@);
    }
}

/// An output is described by its own fields, and by the disassembly and the address that are
/// handed over.
pub proof fn law_described_output_is_the_output(
    output: &TxOut,
    n: u32,
    assembly: String,
    address: String,
    json: TxOutJson,
)
    requires
        call_ensures(describe_vout, (output, n, assembly, address), json),
    ensures
        shows_output(json, output@, n as int),
        json.script_pub_key.assembly@ == assembly@,
        json.script_pub_key.address@ == address@,
{
}

/// An output is described by its own fields, and by the disassembly and the address of its
/// own script on the node's network.
pub proof fn law_made_output_is_the_output(rpc: &RpcImpl, output: &TxOut, n: u32, json: TxOutJson)
    requires
        call_ensures(RpcImpl::make_vout, (rpc, output, n), json),
    ensures
        shows_output(json, output@, n as int),
        json.script_pub_key.assembly@ == script_asm(output.script_pubkey@),
        json.script_pub_key.address@ == script_address(output.script_pubkey@, rpc.network)->0,
{
}

/// Whether a description shows the transaction that a byte string encodes: its bytes, its
/// hashes, its measures, and each input and each output in its place with its own script.
pub open spec fn shows_transaction(json: RawTxJson, raw: Seq<u8>, network: Network) -> bool {
    let data = decoded_transaction(raw)->Ok_0;
    &&& json.hex@ == hex(raw)
    &&& json.txid@ == hash_hex(transaction_txid(raw))
    &&& json.hash@ == hash_hex(transaction_wtxid(raw))
    &&& json.size == transaction_size(raw) as u32
    &&& json.vsize == virtual_size(raw) as u32
    &&& json.weight == transaction_weight(raw) as u32
    &&& json.version == data.version as u32
    &&& json.locktime == data.lock_time
    &&& json.vin@.len() == data.input.len()
    &&& forall|i: int|
        0 <= i < data.input.len() ==> {
            &&& shows_input(#[trigger] json.vin@[i], data.input[i])
            &&& json.vin@[i].script_sig.assembly@ == script_asm(data.input[i].script_sig)
        }
    &&& json.vout@.len() == data.output.len()
    &&& forall|i: int|
        0 <= i < data.output.len() && i <= u32::MAX ==> {
            &&& shows_output(#[trigger] json.vout@[i], data.output[i], i)
            &&& json.vout@[i].script_pub_key.assembly@ == script_asm(data.output[i].script_pubkey)
            &&& json.vout@[i].script_pub_key.address@ == script_address(
                data.output[i].script_pubkey,
                network,
            )->0
        }
}

/// Whether a description shows where a transaction stands: counted from its own block up to
/// the tip, or in no block.
pub open spec fn shows_placement(
    json: RawTxJson,
    height: u32,
    tip: u32,
    block_hash: BlockHash,
    block_time: Option<u32>,
) -> bool {
    &&& json.in_active_chain <==> height != 0
    &&& height != 0 && height <= tip ==> json.confirmations + height == tip + 1
    &&& height == 0 ==> json.confirmations == 0
    &&& json.blockhash@ == hash_hex(block_hash.bytes@)
    &&& block_time is Some ==> json.time == block_time->0
    &&& block_time is None ==> json.time == 0
    &&& json.blocktime == json.time
}

proof fn lemma_inputs_are_shown(json: RawTxJson, raw: Seq<u8>, network: Network, place: Placement)
    requires
        json@ == transaction_json(raw, network, place),
    ensures
        json.vin@.len() == decoded_transaction(raw)->Ok_0.input.len(),
        forall|i: int|
            0 <= i < decoded_transaction(raw)->Ok_0.input.len() ==> {
                &&& shows_input(
                    #[trigger] json.vin@[i],
                    decoded_transaction(raw)->Ok_0.input[i],
                )
                &&& json.vin@[i].script_sig.assembly@ == script_asm(
                    decoded_transaction(raw)->Ok_0.input[i].script_sig,
                )
            },
{
    let data = decoded_transaction(raw)->Ok_0;
    assert(json@.vin.len() == json.vin@.len());
    assert forall|i: int| 0 <= i < data.input.len() implies {
        &&& shows_input(#[trigger] json.vin@[i], data.input[i])
        &&& json.vin@[i].script_sig.assembly@ == script_asm(data.input[i].script_sig)
    } by {
        let shown = json.vin@[i];
        let input = data.input[i];
        assert(json@.vin[i] == shown@);
        assert(shown@.witness =~= texts(shown.witness@));
        assert(shown.witness@.len() == input.witness.len());
        assert forall|k: int| 0 <= k < input.witness.len() implies (
        #[trigger] shown.witness@[k])@ == hex(input.witness[k]) by {
            assert(shown@.witness[k] == shown.witness@[k]@);
        }
    }
}

proof fn lemma_transaction_is_shown(
    json: RawTxJson,
    raw: Seq<u8>,
    network: Network,
    place: Placement,
)
    requires
        json@ == transaction_json(raw, network, place),
    ensures
        shows_transaction(json, raw, network),
        shows_placement(json, place.height, place.tip, place.block_hash, place.block_time),
{
    let data = decoded_transaction(raw)->Ok_0;
    lemma_inputs_are_shown(json, raw, network, place);
    assert(json@.vout.len() == json.vout@.len());
    assert forall|i: int| 0 <= i < data.output.len() && i <= u32::MAX implies {
        &&& shows_output(#[trigger] json.vout@[i], data.output[i], i)
        &&& json.vout@[i].script_pub_key.assembly@ == script_asm(data.output[i].script_pubkey)
        &&& json.vout@[i].script_pub_key.address@ == script_address(
            data.output[i].script_pubkey,
            network,
        )->0
    } by {
        assert(json@.vout[i] == json.vout@[i]@);
    }
}

/// A transaction of the wallet is described by what its own bytes encode and where it stands,
/// each output with its own script, disassembly, address and type.
pub proof fn law_described_transaction_is_the_transaction(
    rpc: &RpcImpl,
    tx: &CachedTransaction,
    tip: u32,
    block_hash: BlockHash,
    block_time: Option<u32>,
    json: RawTxJson,
)
    requires
        call_ensures(RpcImpl::make_raw_transaction, (rpc, tx, tip, block_hash, block_time), json),
    ensures
        shows_transaction(json, tx.tx@, rpc.network),
        shows_placement(json, tx.height, tip, block_hash, block_time),
{
    let place = Placement { height: tx.height, tip, block_hash, block_time };
    lemma_transaction_is_shown(json, tx.tx@, rpc.network, place);
}

/// Whether every output of the transaction that a byte string encodes has an address.
pub open spec fn has_addresses(raw: Seq<u8>, network: Network) -> bool {
    let outputs = decoded_transaction(raw)->Ok_0.output;
    forall|i: int|
        0 <= i < outputs.len() ==> script_address(
            (#[trigger] outputs[i]).script_pubkey,
            network,
        ) is Some
}

/// A transaction of the wallet is described if and only if its outputs have addresses and it
/// does not stand above the tip, and then by what its own bytes encode and where it stands.
pub proof fn law_tried_description_is_of_the_transaction(
    rpc: &RpcImpl,
    tx: &CachedTransaction,
    tip: u32,
    block_hash: BlockHash,
    block_time: Option<u32>,
    json: Option<RawTxJson>,
)
    requires
        call_ensures(
            RpcImpl::try_make_raw_transaction,
            (rpc, tx, tip, block_hash, block_time),
            json,
        ),
    ensures
        json is Some <==> has_addresses(tx.tx@, rpc.network) && tx.height <= tip,
        json is Some ==> shows_transaction(json->0, tx.tx@, rpc.network),
        json is Some ==> shows_placement(json->0, tx.height, tip, block_hash, block_time),
{
    let place = Placement { height: tx.height, tip, block_hash, block_time };
    if json is Some {
        lemma_transaction_is_shown(json->0, tx.tx@, rpc.network, place);
    }
}

/// What is asked of the wallet and of the chain for a description, and what is described in
/// the end, belong to the transaction that the wallet has.
pub proof fn law_described_transaction_is_the_wallets(
    wanted: PlaceWanted,
    found: Option<BlockHash>,
    next: TimeWanted,
    rpc: &RpcImpl,
    tip: u32,
    block_time: Option<u32>,
    json: Option<RawTxJson>,
)
    requires
        call_ensures(PlaceWanted::answer, (wanted, found), next),
        call_ensures(TimeWanted::describe, (next, rpc, tip, block_time), json),
    ensures
        json is Some <==> has_addresses(wanted.tx.tx@, rpc.network) && wanted.tx.height <= tip,
        json is Some ==> shows_transaction(json->0, wanted.tx.tx@, rpc.network),
        json is Some ==> shows_placement(
            json->0,
            wanted.tx.height,
            tip,
            next.block_hash,
            block_time,
        ),
        match found {
            Some(hash) => next.block_hash.bytes@ == hash.bytes@,
            None => forall|i: int| 0 <= i < 32 ==> #[trigger] next.block_hash.bytes@[i] == 0,
        },
{
    let place = Placement {
        height: next.tx.height,
        tip,
        block_hash: next.block_hash,
        block_time,
    };
    if json is Some {
        lemma_transaction_is_shown(json->0, next.tx.tx@, rpc.network, place);
    }
    if found is None {
        assert forall|i: int| 0 <= i < 32 implies #[trigger] next.block_hash.bytes@[i] == 0 by {
            assert(next.block_hash@[i] == 0);
        }
    }
}

/// A transaction that the wallet lacks is not found. One that it has is given byte by byte if
/// and only if the verbosity is true, and described otherwise.
pub proof fn law_wallet_transaction_is_given(
    lookup: TransactionLookup,
    cached: Option<CachedTransaction>,
    step: Result<TransactionStep, RpcError>,
)
    requires
        call_ensures(TransactionLookup::found, (lookup, cached), step),
    ensures
        cached is None ==> step == Err::<TransactionStep, RpcError>(
            RpcError::Api(Error::TxNotFound),
        ),
        cached is Some && lookup.verbosity == Some(true) ==> {
            step matches Ok(TransactionStep::Bytes(bytes)) && bytes@ == cached->0.tx@
        },
        cached is Some && lookup.verbosity != Some(true) ==> {
            step matches Ok(TransactionStep::Describe(wanted)) && wanted.tx == cached->0
        },
{
}

/// A description is put together from what is handed over, each in its place.
pub proof fn law_put_together_description_keeps_its_parts(
    raw: &Vec<u8>,
    data: &TransactionData,
    facts: &TransactionFacts,
    vin: Vec<TxInJson>,
    vout: Vec<TxOutJson>,
    place: &Placement,
    json: RawTxJson,
)
    requires
        call_ensures(describe_raw_transaction, (raw, data, facts, vin, vout, place), json),
    ensures
        json.hex@ == hex(raw@),
        json.txid@ == hash_hex(facts.txid.bytes@),
        json.hash@ == hash_hex(facts.wtxid.bytes@),
        json.size == facts.size as u32,
        json.vsize == facts.vsize as u32,
        json.weight == facts.weight as u32,
        json.version == data.version as u32,
        json.locktime == data.lock_time,
        json.vin@.len() == vin@.len(),
        forall|i: int| 0 <= i < vin@.len() ==> (#[trigger] json.vin@[i])@ == vin@[i]@,
        json.vout@.len() == vout@.len(),
        forall|i: int| 0 <= i < vout@.len() ==> (#[trigger] json.vout@[i])@ == vout@[i]@,
        shows_placement(json, place.height, place.tip, place.block_hash, place.block_time),
{
    assert(json@.vin.len() == json.vin@.len());
    assert(json@.vout.len() == json.vout@.len());
    assert forall|i: int| 0 <= i < vin@.len() implies (#[trigger] json.vin@[i])@ == vin@[i]@ by {
        assert(json@.vin[i] == json.vin@[i]@);
    }
    assert forall|i: int| 0 <= i < vout@.len() implies (#[trigger] json.vout@[i])@ == vout@[i]@ by {
        assert(json@.vout[i] == json.vout@[i]@);
    }
}

/// The identifiers of a block's transactions are those of its own transactions, each in its
/// place.
pub proof fn law_identifiers_are_in_their_places(block: &Block, txids: Vec<Txid>)
    requires
        call_ensures(Block::txids, (block,), txids),
    ensures
        txids@.len() == block.txdata@.len(),
        forall|i: int|
            0 <= i < block.txdata@.len() ==> (#[trigger] txids@[i]).bytes@ == transaction_txid(
                block.txdata@[i]@,
            ),
        block_txids(block@).len() == block.txdata@.len(),
        forall|i: int|
            0 <= i < block.txdata@.len() ==> #[trigger] block_txids(block@)[i] == transaction_txid(
                block.txdata@[i]@,
            ),
{
    assert(txid_views(txids@).len() == txids@.len());
    assert forall|i: int| 0 <= i < block.txdata@.len() implies (#[trigger] txids@[i]).bytes@
        == transaction_txid(block.txdata@[i]@) by {
        assert(txid_views(txids@)[i] == txids@[i].bytes@);
        assert(block@.txdata[i] == block.txdata@[i]@);
    }
}

/// The encodings of a block's transactions are those of its own transactions, each in its
/// place.
pub proof fn law_encodings_are_in_their_places(block: &Block, raws: Vec<Vec<u8>>)
    requires
        call_ensures(Block::encodings, (block,), raws),
    ensures
        raws@.len() == block.txdata@.len(),
        forall|i: int| 0 <= i < block.txdata@.len() ==> (#[trigger] raws@[i])@ == block.txdata@[i]@,
{
    let seen = encodings(raws@);
    assert(seen.len() == raws@.len());
    assert forall|i: int| 0 <= i < block.txdata@.len() implies (#[trigger] raws@[i])@
        == block.txdata@[i]@ by {
        assert(seen[i] == raws@[i]@);
        assert(block@.txdata[i] == block.txdata@[i]@);
    }
}

/// Whether a description shows a block's header.
pub open spec fn shows_header(json: BlockJson, header: BlockHeader) -> bool {
    &&& json.version == header.version
    &&& are_lower_digits(json.version_hex@)
    &&& (read_number(json.version_hex@, 16) - header.version) % 0x1_0000_0000 == 0
    &&& read_number(json.version_hex@, 16) < 0x1_0000_0000
    &&& header.version != 0 ==> json.version_hex@[0] != '0'
    &&& header.version == 0 ==> json.version_hex@.len() == 1
    &&& json.merkleroot@ == hash_hex(header.merkle_root@)
    &&& json.time == header.time
    &&& json.nonce == header.nonce
    &&& are_lower_digits(json.bits@)
    &&& read_number(json.bits@, 16) == header.bits
    &&& header.bits != 0 ==> json.bits@[0] != '0'
    &&& header.bits == 0 ==> json.bits@.len() == 1
    &&& json.previousblockhash@ == hash_hex(header.prev_blockhash.bytes@)
}

/// Whether a description shows where a block stands: counted up to the tip, behind the blocks
/// whose times are given and before the one whose hash is.
pub open spec fn shows_place(
    json: BlockJson,
    tip: u32,
    height: u32,
    times: Seq<u32>,
    next: Option<BlockHash>,
) -> bool {
    &&& json.height == height
    &&& height <= tip && tip - height < u32::MAX ==> json.confirmations + height == tip + 1
    &&& json.mediantime == median_time_past(times)
    &&& json.nextblockhash is Some <==> next is Some
    &&& next is Some ==> json.nextblockhash->0@ == hash_hex(next->0.bytes@)
}

proof fn lemma_header_is_shown(json: BlockJson, header: BlockHeader)
    requires
        json@.version == header.version,
        json@.version_hex == lower_hex(twos_complement(header.version)),
        json@.merkleroot == hash_hex(header@.merkle_root),
        json@.time == header.time,
        json@.nonce == header.nonce,
        json@.bits == lower_hex(header.bits as nat),
        json@.previousblockhash == hash_hex(header@.prev_blockhash),
    ensures
        shows_header(json, header),
{
    law_lower_hex_is_read_back(twos_complement(header.version));
    law_twos_complement_keeps_the_remainder(header.version);
    law_lower_hex_is_read_back(header.bits as nat);
}

/// A block is described by its own header, what was measured of it, and where it stands.
pub proof fn law_put_together_block_keeps_its_parts(
    header: &BlockHeader,
    facts: BlockFacts,
    tip: u32,
    height: u32,
    times: &Vec<u32>,
    next: Option<BlockHash>,
    json: BlockJson,
)
    requires
        call_ensures(describe_block, (header, facts, tip, height, times, next), json),
    ensures
        shows_header(json, *header),
        shows_place(json, tip, height, times@, next),
        json.hash@ == hash_hex(facts.hash.bytes@),
        json.size == facts.size,
        json.strippedsize == facts.strippedsize,
        json.weight == facts.weight,
        json.difficulty == facts.difficulty,
        json.chainwork@ == facts.work@,
        json.n_tx == facts.txids@.len() as usize,
        json.tx@.len() == facts.txids@.len(),
        forall|i: int|
            0 <= i < facts.txids@.len() ==> (#[trigger] json.tx@[i])@ == hash_hex(
                facts.txids@[i].bytes@,
            ),
{
    lemma_header_is_shown(json, *header);
    assert(json@.tx.len() == json.tx@.len());
    assert forall|i: int| 0 <= i < facts.txids@.len() implies (#[trigger] json.tx@[i])@ == hash_hex(
        facts.txids@[i].bytes@,
    ) by {
        assert(json@.tx[i] == json.tx@[i]@);
        assert(facts@.txids[i] == facts.txids@[i].bytes@);
    }
}

/// A block is described by its own header, its own transactions, each identifier in its
/// place, its own measures, and where it stands.
pub proof fn law_described_block_is_the_block(
    report: BlockReport,
    times: &Vec<u32>,
    next: Option<BlockHash>,
    json: BlockJson,
)
    requires
        call_ensures(BlockReport::describe, (report, times, next), json),
    ensures
        shows_header(json, report.block.header),
        shows_place(json, report.tip, report.height, times@, next),
        json.hash@ == hash_hex(header_hash(report.block.header@)),
        json.n_tx == report.block.txdata@.len(),
        json.tx@.len() == report.block.txdata@.len(),
        forall|i: int|
            0 <= i < report.block.txdata@.len() ==> (#[trigger] json.tx@[i])@ == hash_hex(
                transaction_txid(report.block.txdata@[i]@),
            ),
        json.size == block_size(report.block@.txdata),
        json.strippedsize == block_strippedsize(report.block@.txdata),
        json.weight == block_weight(report.block@.txdata),
        json.weight == 3 * json.strippedsize + json.size,
        compact_target(report.block.header.bits) != 0 ==> json.difficulty == block_difficulty(
            report.block.header.bits,
        ) as u64,
        json.chainwork@ == work_text(report.block.header.bits),
{
    lemma_header_is_shown(json, report.block.header);
    assert(json@.tx.len() == json.tx@.len());
    assert forall|i: int| 0 <= i < report.block.txdata@.len() implies (
    #[trigger] json.tx@[i])@ == hash_hex(transaction_txid(report.block.txdata@[i]@)) by {
        assert(json@.tx[i] == json.tx@[i]@);
        assert(report.block@.txdata[i] == report.block.txdata@[i]@);
    }
}

/// The time that a block is described with is the middle one of eleven.
pub proof fn law_described_time_is_the_middle_one(
    report: BlockReport,
    times: &Vec<u32>,
    next: Option<BlockHash>,
    json: BlockJson,
)
    requires
        call_ensures(BlockReport::describe, (report, times, next), json),
    ensures
        times@.len() > 5 ==> {
            &&& count_of(times@, |time: u32| time < json.mediantime) <= 5
            &&& count_of(times@, |time: u32| time <= json.mediantime) >= 6
        },
        times@.len() <= 5 ==> json.mediantime == 0,
{
    law_found_median_stands_sixth(times@);
}

/// The blocks whose times are asked for are the eleven right before the block, in order, if it
/// has as many; the block after it stands one higher.
pub proof fn law_neighbours_are_asked_for(report: &BlockReport, heights: Vec<u32>, next: u32)
    requires
        call_ensures(BlockReport::past_heights, (report,), heights),
        call_ensures(BlockReport::next_height, (report,), next),
    ensures
        report.height >= 11 ==> heights@.len() == 11,
        report.height < 11 ==> heights@.len() == 0,
        forall|i: int|
            0 <= i < heights@.len() ==> (#[trigger] heights@[i]) + 11 - i == report.height,
        next == report.height + 1,
{
    assert forall|i: int| 0 <= i < heights@.len() implies (#[trigger] heights@[i]) + 11 - i
        == report.height by {
        assert(heights@[i] == past_heights(report.height)[i]);
    }
}

/// A block can be described if and only if its confirmations can be counted, a block can stand
/// above it, and it has a target.
pub proof fn law_describable_blocks(report: &BlockReport, yes: bool)
    requires
        call_ensures(BlockReport::is_describable, (report,), yes),
    ensures
        yes <==> {
            &&& report.height <= report.tip
            &&& report.tip - report.height + 1 <= u32::MAX
            &&& report.height + 1 <= u32::MAX
            &&& compact_target(report.block.header.bits) != 0
        },
{
}

/// A block that the node lacks is not found. One that it has is described if the verbosity is
/// one or is not given, and given as its own encoding otherwise.
pub proof fn law_downloaded_block_is_given(
    lookup: BlockLookup,
    found: Option<Block>,
    step: Result<BlockStep, RpcError>,
)
    requires
        call_ensures(BlockLookup::downloaded, (lookup, found), step),
    ensures
        found is None ==> step == Err::<BlockStep, RpcError>(RpcError::Api(Error::BlockNotFound)),
        found is Some && (lookup.verbosity is None || lookup.verbosity == Some(1u8)) ==> {
            step matches Ok(BlockStep::Describe(wanted)) && wanted.block == found->0 && wanted.hash
                == lookup.hash && wanted.network == lookup.network
        },
        found is Some && lookup.verbosity is Some && lookup.verbosity != Some(1u8) ==> {
            step matches Ok(BlockStep::Hex(text)) && text@ == hex(
                block_encoding(found->0.header@, found->0@.txdata),
            )
        },
{
}

/// A description goes on with the block, the tip and the height that were given, or fails
/// with the chain.
pub proof fn law_described_block_keeps_its_place(
    wanted: TipWanted,
    tip: Option<u32>,
    next: Result<HeightWanted, RpcError>,
    height: Option<u32>,
    report: Result<BlockReport, RpcError>,
)
    requires
        call_ensures(TipWanted::answer, (wanted, tip), next),
        next is Ok ==> call_ensures(HeightWanted::answer, (next->Ok_0, height), report),
    ensures
        tip is None ==> next == Err::<HeightWanted, RpcError>(RpcError::Api(Error::Chain)),
        tip is Some ==> {
            &&& next is Ok
            &&& next->Ok_0.hash == wanted.hash
            &&& height is None ==> report == Err::<BlockReport, RpcError>(
                RpcError::Api(Error::Chain),
            )
            &&& height is Some ==> {
                &&& report is Ok
                &&& report->Ok_0.block == wanted.block
                &&& report->Ok_0.network == wanted.network
                &&& report->Ok_0.tip == tip->0
                &&& report->Ok_0.height == height->0
            }
        },
{
}

/// Whether a description shows the state of a chain: its best block, the header of that
/// block, and how far the node has come.
pub open spec fn shows_chain(
    info: GetBlockchainInfoRes,
    network: Network,
    height: u32,
    hash: BlockHash,
    header: BlockHeader,
    state: SyncState,
) -> bool {
    &&& info.best_block@ == hash_hex(hash.bytes@)
    &&& info.height == height
    &&& info.ibd == state.ibd
    &&& info.validated == state.validated
    &&& info.latest_work@ == work_text(header.bits)
    &&& info.latest_block_time == header.time
    &&& state.leaves <= u32::MAX ==> info.leaf_count == state.leaves
    &&& info.leaf_count == state.leaves as u32
    &&& state.roots@.len() <= u32::MAX ==> info.root_count == state.roots@.len()
    &&& info.root_hashes@.len() == state.roots@.len()
    &&& forall|i: int|
        0 <= i < state.roots@.len() ==> (#[trigger] info.root_hashes@[i])@ == state.roots@[i]@
    &&& info.chain@ == network_name(network)
    &&& info.progress.validated == state.validated
    &&& info.progress.height == height
    &&& compact_target(header.bits) != 0 ==> info.difficulty == block_difficulty(header.bits) as u64
}

/// The state of the chain is described by its own best block, that block's header and what
/// the node says of how far it has come.
pub proof fn law_described_chain_is_the_chain(
    wanted: BestBlockWanted,
    height: u32,
    hash: BlockHash,
    next: BestHeaderWanted,
    header: BlockHeader,
    state: SyncState,
    info: GetBlockchainInfoRes,
)
    requires
        call_ensures(BestBlockWanted::answer, (wanted, height, hash), next),
        call_ensures(BestHeaderWanted::describe, (next, header, state), info),
    ensures
        next.hash == hash,
        shows_chain(info, wanted.network, height, hash, header, state),
{
    assert(info@.root_hashes.len() == info.root_hashes@.len());
    assert(state@.roots.len() == state.roots@.len());
    assert forall|i: int| 0 <= i < state.roots@.len() implies (
    #[trigger] info.root_hashes@[i])@ == state.roots@[i]@ by {
        assert(info@.root_hashes[i] == info.root_hashes@[i]@);
        assert(state@.roots[i] == state.roots@[i]@);
    }
}

} // verus!
