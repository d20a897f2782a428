//! What holds across requests.

use vstd::prelude::*;

use crate::block::{
    block_confirmations, block_json, countable, past_heights, wants_description, BlockFactsView,
    BlockPlace,
};
use crate::broadcast::submitted;
use crate::consensus::{
    block_encoding, block_size, decoded_transaction, is_transaction, little_endian, total_size,
    transaction_txid,
};
use crate::info::network_name;
use crate::peers::{
    decimal_value, default_port, host_of, is_decimal, only_colon_at, peer_port, port_number,
};
use crate::primitives::{BlockHeaderView, Network};
use crate::requests::load_reply;
use crate::res::{Error, RpcErrorView};
use crate::script::{is_p2pkh, is_p2sh, is_v0_p2wpkh, is_v0_p2wsh};
use crate::server::rpc_port;
use crate::text::{decimal, hash_hex, hex, hex_value, twos_complement, unhex};
use crate::transaction::{transaction_confirmations, transaction_json, Placement};

verus! {

/// Bytes that are written in hexadecimal are read back as they were.
pub proof fn law_hex_is_read_back(bytes: Seq<u8>)
    ensures
        unhex(hex(bytes)) == Some(bytes),
{
    let text = hex(bytes);
    assert forall|i: int| 0 <= i < text.len() implies hex_value(#[trigger] text[i]) is Some by {
        assert(0 <= i / 2 < bytes.len());
    }
    let read = unhex(text)->0;
    assert forall|i: int| 0 <= i < bytes.len() implies read[i] == bytes[i] by {
        assert((2 * i) / 2 == i && (2 * i) % 2 == 0);
        assert((2 * i + 1) / 2 == i && (2 * i + 1) % 2 == 1);
        assert(hex_value(text[2 * i]) == Some(bytes[i] as int / 16));
        assert(hex_value(text[2 * i + 1]) == Some(bytes[i] as int % 16));
    }
    assert(read =~= bytes);
}

/// Different hashes are shown as different texts.
pub proof fn law_hashes_are_told_apart(left: Seq<u8>, right: Seq<u8>)
    requires
        hash_hex(left) == hash_hex(right),
    ensures
        left == right,
{
    law_hex_is_read_back(left.reverse());
    law_hex_is_read_back(right.reverse());
    assert(left =~= left.reverse().reverse());
    assert(right =~= right.reverse().reverse());
}

/// The hexadecimal form that a transaction is described with can be sent again: it is taken
/// for the same transaction, whose identifier is the one that the description shows.
pub proof fn law_described_transaction_can_be_sent(
    raw: Seq<u8>,
    network: Network,
    place: Placement,
)
    requires
        is_transaction(raw),
    ensures
        submitted(transaction_json(raw, network, place).hex) == Ok::<Seq<u8>, RpcErrorView>(raw),
        transaction_json(raw, network, place).txid == hash_hex(transaction_txid(raw)),
{
    law_hex_is_read_back(raw);
}

/// A transaction has confirmations if and only if it is in the chain.
pub proof fn law_confirmed_iff_in_chain(raw: Seq<u8>, network: Network, place: Placement)
    requires
        place.countable(),
    ensures
        transaction_json(raw, network, place).in_active_chain <==> transaction_json(
            raw,
            network,
            place,
        ).confirmations > 0,
{
}

/// A transaction has as many confirmations as the block that holds it.
pub proof fn law_confirmations_agree(height: u32, tip: u32)
    requires
        0 < height <= tip,
    ensures
        transaction_confirmations(height, tip) == block_confirmations(height, tip),
{
}

/// The block at the tip has one confirmation, and each block above one adds one.
pub proof fn law_confirmations_count_blocks(height: u32, tip: u32)
    requires
        countable(height, tip),
    ensures
        block_confirmations(tip, tip) == 1,
        tip > height ==> block_confirmations(height, tip) == block_confirmations(
            (height + 1) as u32,
            tip,
        ) + 1,
{
}

/// A transaction is shown with each of its inputs and each of its outputs, in order, and
/// each output with its index.
pub proof fn law_every_input_and_output_is_shown(raw: Seq<u8>, network: Network, place: Placement)
    ensures
        ({
            let data = decoded_transaction(raw)->Ok_0;
            let json = transaction_json(raw, network, place);
            &&& json.vin.len() == data.input.len()
            &&& json.vout.len() == data.output.len()
            &&& forall|i: int|
                0 <= i < json.vin.len() ==> {
                    &&& (#[trigger] json.vin[i]).txid == hash_hex(data.input[i].previous_output.txid)
                    &&& json.vin[i].vout == data.input[i].previous_output.vout
                }
            &&& forall|i: int|
                0 <= i < json.vout.len() && i <= u32::MAX ==> {
                    &&& (#[trigger] json.vout[i]).n == i
                    &&& json.vout[i].value == data.output[i].value
                }
        }),
{
}

/// A block is shown with as many transactions as it says, and each identifier in its place.
pub proof fn law_every_transaction_is_shown(
    header: BlockHeaderView,
    facts: BlockFactsView,
    place: BlockPlace,
)
    requires
        facts.txids.len() <= usize::MAX,
    ensures
        ({
            let json = block_json(header, facts, place);
            &&& json.n_tx == json.tx.len()
            &&& json.tx.len() == facts.txids.len()
            &&& forall|i: int|
                0 <= i < json.tx.len() ==> #[trigger] json.tx[i] == hash_hex(facts.txids[i])
        }),
{
}

proof fn lemma_little_endian_width(value: nat, width: nat)
    ensures
        little_endian(value, width).len() == width,
    decreases width,
{
    if width > 0 {
        lemma_little_endian_width(value / 256, (width - 1) as nat);
    }
}

proof fn lemma_total_size_is_length(raws: Seq<Seq<u8>>)
    requires
        forall|i: int| 0 <= i < raws.len() ==> has_inputs(#[trigger] raws[i]),
    ensures
        raws.flatten_alt().len() == total_size(raws),
    decreases raws.len(),
{
    if raws.len() > 0 {
        let rest = raws.drop_last();
        assert forall|i: int| 0 <= i < rest.len() implies has_inputs(#[trigger] rest[i]) by {
            assert(rest[i] == raws[i]);
        }
        lemma_total_size_is_length(rest);
        assert(has_inputs(raws[raws.len() - 1]));
    }
}

/// Whether a byte string encodes a transaction that has inputs.
pub open spec fn has_inputs(raw: Seq<u8>) -> bool {
    is_transaction(raw) && decoded_transaction(raw)->Ok_0.input.len() > 0
}

/// The size that a transaction with inputs is shown with is the length of the encoding that
/// it is shown with.
pub proof fn law_transaction_size_is_length_of_encoding(
    raw: Seq<u8>,
    network: Network,
    place: Placement,
)
    requires
        has_inputs(raw),
        raw.len() <= u32::MAX,
    ensures
        transaction_json(raw, network, place).hex.len() == 2 * transaction_json(
            raw,
            network,
            place,
        ).size,
{
}

/// The size that a block of transactions with inputs is shown with is the length of the
/// encoding that it is sent with.
pub proof fn law_block_size_is_length_of_encoding(header: BlockHeaderView, raws: Seq<Seq<u8>>)
    requires
        header.prev_blockhash.len() == 32,
        header.merkle_root.len() == 32,
        forall|i: int| 0 <= i < raws.len() ==> has_inputs(#[trigger] raws[i]),
    ensures
        block_encoding(header, raws).len() == block_size(raws),
        hex(block_encoding(header, raws)).len() == 2 * block_size(raws),
{
    let count = raws.len();
    lemma_little_endian_width(twos_complement(header.version), 4);
    lemma_little_endian_width(header.time as nat, 4);
    lemma_little_endian_width(header.bits as nat, 4);
    lemma_little_endian_width(header.nonce as nat, 4);
    lemma_little_endian_width(count, 1);
    lemma_little_endian_width(count, 2);
    lemma_little_endian_width(count, 4);
    lemma_little_endian_width(count, 8);
    lemma_total_size_is_length(raws);
    raws.lemma_flatten_and_flatten_alt_are_equivalent();
}

/// The blocks whose times are asked for stand before the block, eleven in a row, or there
/// are none.
pub proof fn law_past_blocks_precede(height: u32)
    ensures
        past_heights(height).len() == if height >= 11 {
            11int
        } else {
            0int
        },
        forall|i: int|
            0 <= i < past_heights(height).len() ==> #[trigger] past_heights(height)[i] == height
                - 11 + i,
{
}

/// A request for a block without a verbosity is one with a verbosity of one; every other
/// verbosity asks for the encoding.
pub proof fn law_verbosity_defaults_to_one(verbosity: u8)
    ensures
        wants_description(None),
        wants_description(Some(verbosity)) <==> verbosity == 1,
{
}

/// No script is of two types.
pub proof fn law_script_types_exclude_each_other(script: Seq<u8>)
    ensures
        is_p2pkh(script) ==> !is_p2sh(script) && !is_v0_p2wpkh(script) && !is_v0_p2wsh(script),
        is_p2sh(script) ==> !is_v0_p2wpkh(script) && !is_v0_p2wsh(script),
        is_v0_p2wpkh(script) ==> !is_v0_p2wsh(script),
{
}

/// No two networks share a port, neither for their servers nor for their nodes, and no
/// server listens on a port on which nodes do.
pub proof fn law_ports_are_told_apart(left: Network, right: Network)
    ensures
        rpc_port(left) == rpc_port(right) ==> left == right,
        default_port(left) == default_port(right) ==> left == right,
        rpc_port(left) != default_port(right),
{
}

/// No two networks share a name.
pub proof fn law_networks_are_told_apart(left: Network, right: Network)
    requires
        network_name(left) == network_name(right),
    ensures
        left == right,
{
    reveal_strlit("bitcoin");
    reveal_strlit("testnet");
    reveal_strlit("signet");
    reveal_strlit("regtest");
    assert("bitcoin"@[0] == 'b');
    assert("testnet"@[0] == 't');
    assert("signet"@[0] == 's');
    assert("regtest"@[0] == 'r');
}

/// A descriptor is loaded if and only if the wallet takes it and no rescan fails.
pub proof fn law_loaded_iff_nothing_fails(accepted: bool, rescan: Option<bool>)
    ensures
        load_reply(accepted, rescan) is Ok <==> accepted && rescan != Some(false),
{
}

/// A failed rescan is reported whatever the wallet said.
pub proof fn law_failed_rescan_counts_first(accepted: bool)
    ensures
        load_reply(accepted, Some(false)) == Err::<(), RpcErrorView>(RpcErrorView::Internal),
        load_reply(false, Some(true)) == Err::<(), RpcErrorView>(
            RpcErrorView::Api(Error::InvalidDescriptor),
        ),
{
}

proof fn lemma_decimal_is_read_back(value: nat)
    ensures
        is_decimal(decimal(value)),
        decimal_value(decimal(value)) == value,
    decreases value,
{
    if value < 10 {
        let text = decimal(value);
        assert(text.drop_last() =~= Seq::<char>::empty());
        reveal_with_fuel(decimal_value, 2);
    } else {
        lemma_decimal_is_read_back(value / 10);
        assert(decimal(value).drop_last() =~= decimal(value / 10));
    }
}

/// A port that is written in decimal is read back as it was.
pub proof fn law_port_is_read_back(port: u16)
    ensures
        port_number(decimal(port as nat)) == Some(port),
        port_number(seq!['+'] + decimal(port as nat)) == Some(port),
{
    let text = decimal(port as nat);
    lemma_decimal_is_read_back(port as nat);
    assert('0' <= text[0] <= '9');
    assert((seq!['+'] + text).skip(1) =~= text);
}

/// A node that is named by address and port is reached at that address and that port, on
/// every network.
pub proof fn law_named_port_is_used(ip: Seq<char>, port: u16, network: Network)
    requires
        !ip.contains(':'),
    ensures
        ({
            let node = ip + seq![':'] + decimal(port as nat);
            host_of(node) == ip && peer_port(node, network) == Some(port)
        }),
{
    let text = decimal(port as nat);
    let node = ip + seq![':'] + text;
    law_port_is_read_back(port);
    lemma_decimal_is_read_back(port as nat);
    node.index_of_first_ensures(':');
    assert(node[ip.len() as int] == ':');
    assert(node.contains(':'));
    assert forall|j: int| 0 <= j < node.len() && j != ip.len() implies node[j] != ':' by {
        if j < ip.len() {
            assert(node[j] == ip[j]);
            assert(ip.contains(ip[j]));
        } else {
            assert(node[j] == text[j - ip.len() - 1]);
        }
    }
    assert(only_colon_at(node, ip.len() as int));
    assert(node.take(ip.len() as int) =~= ip);
    assert(node.skip(ip.len() as int + 1) =~= text);
}

/// A node that is named by address alone is reached at the network's port.
pub proof fn law_unnamed_port_is_the_networks(ip: Seq<char>, network: Network)
    requires
        !ip.contains(':'),
    ensures
        host_of(ip) == ip,
        peer_port(ip, network) == Some(default_port(network)),
{
    ip.index_of_first_ensures(':');
}

} // verus!
