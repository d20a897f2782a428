//! What each request starts with, and what each answer comes to.

use vstd::prelude::*;

use crate::block::BlockLookup;
use crate::broadcast::{broadcast_reply, read_hex, submit, take_decoded, Broadcast};
use crate::consensus::{decoded_transaction, is_transaction, transaction_txid};
use crate::info::BestBlockWanted;
use crate::ledger::Transaction;
use crate::peers::{
    decimal_value, get_default_port, host_of, is_decimal, only_colon_at, port_of,
    split_node, AddressWanted, Peer,
};
use crate::primitives::{BlockHash, BlockHeader, Network, TransactionView, Txid};
use crate::requests::{
    BlockHashWanted, BlockHeaderWanted, DescriptorPush, DescriptorRescan, FilterWanted, LoadStep,
    ProofWanted, RescanWanted,
};
use crate::res::{Error, RpcError};
use crate::script::script_type;
use crate::server::{rpc_port, Rpc, RpcImpl, ServerConfig};
use crate::text::{hex, unhex};
use crate::text_laws::read_number;
use crate::transaction::TransactionLookup;
use crate::tx_out::TxOutSearch;

verus! {

/// Whether a text is made of decimal digits, at least one.
pub open spec fn is_number(text: Seq<char>) -> bool {
    text.len() > 0 && forall|i: int| 0 <= i < text.len() ==> '0' <= #[trigger] text[i] <= '9'
}

/// Whether a text has no colon.
pub open spec fn without_colon(text: Seq<char>) -> bool {
    forall|i: int| 0 <= i < text.len() ==> #[trigger] text[i] != ':'
}

proof fn lemma_decimal_is_read(digits: Seq<char>)
    requires
        forall|i: int| 0 <= i < digits.len() ==> '0' <= #[trigger] digits[i] <= '9',
    ensures
        decimal_value(digits) == read_number(digits, 10),
    decreases digits.len(),
{
    if digits.len() > 0 {
        let rest = digits.drop_last();
        assert forall|i: int| 0 <= i < rest.len() implies '0' <= #[trigger] rest[i] <= '9' by {
            assert(rest[i] == digits[i]);
        }
        lemma_decimal_is_read(rest);
        assert('0' <= digits[digits.len() - 1] <= '9');
    }
}

proof fn lemma_one_colon(ip: Seq<char>, port: Seq<char>)
    requires
        without_colon(ip),
        without_colon(port),
    ensures
        host_of(ip + seq![':'] + port) == ip,
        port_of(ip + seq![':'] + port) == Some(port),
{
    let node = ip + seq![':'] + port;
    node.index_of_first_ensures(':');
    assert(node[ip.len() as int] == ':');
    assert(node.contains(':'));
    assert forall|j: int| 0 <= j < node.len() && j != ip.len() implies node[j] != ':' by {
        if j < ip.len() {
            assert(node[j] == ip[j]);
        } else {
            assert(node[j] == port[j - ip.len() - 1]);
        }
    }
    assert(only_colon_at(node, ip.len() as int));
    assert(node.take(ip.len() as int) =~= ip);
    assert(node.skip(ip.len() as int + 1) =~= port);
}

/// A node that is named by address and port is reached there: the port is the number that
/// the digits behind the colon stand for, with a plus sign before them or without.
pub proof fn law_number_behind_the_colon_is_the_port(
    ip: Seq<char>,
    digits: Seq<char>,
    plus: bool,
    node: &str,
    network: Network,
    wanted: Result<AddressWanted, RpcError>,
)
    requires
        without_colon(ip),
        is_number(digits),
        node@ == ip + seq![':'] + if plus {
            seq!['+'] + digits
        } else {
            digits
        },
        call_ensures(split_node, (node, network), wanted),
    ensures
        read_number(digits, 10) <= 65535 ==> {
            wanted matches Ok(wanted) && wanted.ip@ == ip && wanted.port as int == read_number(
                digits,
                10,
            ) as int
        },
        read_number(digits, 10) > 65535 ==> wanted == Err::<AddressWanted, RpcError>(
            RpcError::Api(Error::InvalidPort),
        ),
{
    let port = if plus {
        seq!['+'] + digits
    } else {
        digits
    };
    assert forall|i: int| 0 <= i < port.len() implies #[trigger] port[i] != ':' by {
        if plus && i > 0 {
            assert(port[i] == digits[i - 1]);
        }
    }
    lemma_one_colon(ip, port);
    lemma_decimal_is_read(digits);
    assert(is_decimal(digits));
    if plus {
        assert(port.skip(1) =~= digits);
    } else {
        assert('0' <= digits[0] <= '9');
    }
}

/// What stands behind the only colon is refused unless it is a number, with a plus sign
/// before it or without.
pub proof fn law_anything_else_behind_the_colon_is_refused(
    ip: Seq<char>,
    port: Seq<char>,
    node: &str,
    network: Network,
    wanted: Result<AddressWanted, RpcError>,
)
    requires
        without_colon(ip),
        without_colon(port),
        !is_number(port),
        port.len() > 0 && port[0] == '+' ==> !is_number(port.skip(1)),
        node@ == ip + seq![':'] + port,
        call_ensures(split_node, (node, network), wanted),
    ensures
        wanted == Err::<AddressWanted, RpcError>(RpcError::Api(Error::InvalidPort)),
{
    lemma_one_colon(ip, port);
    assert(is_decimal(port) ==> is_number(port));
    assert(is_decimal(port.skip(1)) ==> is_number(port.skip(1)));
}

/// A node that is named without a colon, or with more than one, is reached at what stands
/// before the first, on the port of the network.
pub proof fn law_other_names_are_reached_at_the_networks_port(
    ip: Seq<char>,
    middle: Seq<char>,
    rest: Seq<char>,
    node: &str,
    network: Network,
    wanted: Result<AddressWanted, RpcError>,
    port: u16,
)
    requires
        without_colon(ip),
        node@ == ip || node@ == ip + seq![':'] + middle + seq![':'] + rest,
        call_ensures(split_node, (node, network), wanted),
        call_ensures(get_default_port, (network,), port),
    ensures
        wanted matches Ok(wanted) && wanted.ip@ == ip && wanted.port == port,
{
    let text = node@;
    text.index_of_first_ensures(':');
    if text == ip {
        if text.contains(':') {
            let i = choose|i: int| 0 <= i < text.len() && text[i] == ':';
            assert(ip[i] != ':');
        }
    } else {
        let second = ip.len() + 1 + middle.len() as int;
        assert(text[ip.len() as int] == ':');
        assert(text[second] == ':');
        assert(text.contains(':'));
        let first = text.index_of_first(':')->0;
        if first < ip.len() {
            assert(text[first] == ip[first]);
        }
        assert(first == ip.len());
        assert(!only_colon_at(text, first));
        assert(text.take(first) =~= ip);
    }
}

/// `addnode` goes by the node's own network.
pub proof fn law_added_node_is_of_the_network(
    rpc: &RpcImpl,
    node: String,
    wanted: Result<AddressWanted, RpcError>,
    text: &str,
    split: Result<AddressWanted, RpcError>,
)
    requires
        text@ == node@,
        call_ensures(<RpcImpl as Rpc>::add_node, (rpc, node), wanted),
        call_ensures(split_node, (text, rpc.network), split),
    ensures
        wanted is Ok <==> split is Ok,
        wanted is Ok ==> wanted->Ok_0.ip@ == split->Ok_0.ip@ && wanted->Ok_0.port
            == split->Ok_0.port,
        wanted is Err ==> wanted->Err_0 == RpcError::Api(Error::InvalidPort),
{
}

/// A node is connected to at the address that was read and the port that was named; an
/// address that cannot be read is refused.
pub proof fn law_read_address_is_connected_to<A>(
    wanted: AddressWanted,
    address: Option<A>,
    peer: Result<Peer<A>, RpcError>,
    reply: Result<bool, RpcError>,
)
    requires
        call_ensures(AddressWanted::parsed::<A>, (wanted, address), peer),
        peer is Ok ==> call_ensures(Peer::<A>::connected, (peer->Ok_0,), reply),
    ensures
        address is None ==> peer == Err::<Peer<A>, RpcError>(
            RpcError::Api(Error::InvalidAddress),
        ),
        address is Some ==> {
            peer matches Ok(peer) && peer.address == address->0 && peer.port == wanted.port
        },
        address is Some ==> reply == Ok::<bool, RpcError>(true),
{
}

/// The bytes before and after the hash that a script of a type holds.
pub open spec fn around_hash(name: Seq<char>) -> (Seq<u8>, nat, Seq<u8>) {
    if name == "p2pkh"@ {
        (seq![0x76u8, 0xa9u8, 20u8], 20, seq![0x88u8, 0xacu8])
    } else if name == "p2sh"@ {
        (seq![0xa9u8, 20u8], 20, seq![0x87u8])
    } else if name == "v0_p2wpkh"@ {
        (seq![0u8, 20u8], 20, seq![])
    } else {
        (seq![0u8, 32u8], 32, seq![])
    }
}

/// Whether a name is one of the four that a script's type can have.
pub open spec fn is_type_name(name: Seq<char>) -> bool {
    name == "p2pkh"@ || name == "p2sh"@ || name == "v0_p2wpkh"@ || name == "v0_p2wsh"@
}

proof fn lemma_names_differ()
    ensures
        "p2pkh"@ != "p2sh"@,
        "p2pkh"@ != "v0_p2wpkh"@,
        "p2pkh"@ != "v0_p2wsh"@,
        "p2sh"@ != "v0_p2wpkh"@,
        "p2sh"@ != "v0_p2wsh"@,
        "v0_p2wpkh"@ != "v0_p2wsh"@,
{
    reveal_strlit("p2pkh");
    reveal_strlit("p2sh");
    reveal_strlit("v0_p2wpkh");
    reveal_strlit("v0_p2wsh");
    assert("p2pkh"@.len() == 5);
    assert("p2sh"@.len() == 4);
    assert("v0_p2wpkh"@.len() == 9);
    assert("v0_p2wsh"@.len() == 8);
}

/// A hash between the bytes of a type makes a script of that type, whatever the hash.
pub proof fn law_hash_makes_a_script_of_its_type(name: Seq<char>, hash: Seq<u8>)
    requires
        is_type_name(name),
        hash.len() == around_hash(name).1,
    ensures
        script_type(around_hash(name).0 + hash + around_hash(name).2) == Some(name),
{
    lemma_names_differ();
    let (before, _, after) = around_hash(name);
    let script = before + hash + after;
    assert(script[0] == before[0]);
    assert(script[1] == before[1]);
    if name == "p2pkh"@ {
        assert(script[2] == before[2]);
        assert(script[23] == after[0]);
        assert(script[24] == after[1]);
    } else if name == "p2sh"@ {
        assert(script[22] == after[0]);
    }
}

/// A script that has a type is the bytes of the type around a hash.
pub proof fn law_script_of_a_type_holds_a_hash(script: &Vec<u8>, name: Option<&'static str>)
    requires
        call_ensures(RpcImpl::get_script_type, (script,), name),
    ensures
        match name {
            Some(name) => {
                &&& is_type_name(name@)
                &&& script_type(script@) == Some(name@)
                &&& ({
                    let (before, len, after) = around_hash(name@);
                    &&& script@.len() == before.len() + len + after.len()
                    &&& script@.take(before.len() as int) == before
                    &&& script@.skip((before.len() + len) as int) == after
                })
            },
            None => script_type(script@) is None,
        },
{
    lemma_names_differ();
    if name is Some {
        let (before, len, after) = around_hash(name->0@);
        assert(script@.take(before.len() as int) =~= before);
        assert(script@.skip((before.len() + len) as int) =~= after);
    }
}

/// A transaction is taken from a client if and only if the text is hexadecimal and its bytes
/// encode a transaction, and it is the transaction of those bytes. Which of the two was wrong
/// is told by the code.
pub proof fn law_sent_transaction_is_the_texts(text: &str, taken: Result<Broadcast, RpcError>)
    requires
        call_ensures(submit, (text,), taken),
    ensures
        match unhex(text@) {
            Some(raw) => if is_transaction(raw) {
                taken matches Ok(broadcast) && broadcast.tx@ == raw
            } else {
                taken matches Err(RpcError::Server { code, message }) && code == 2 && Err::<
                    TransactionView,
                    Seq<char>,
                >(message@) == decoded_transaction(raw)
            },
            None => {
                taken matches Err(RpcError::Server { code, message }) && code == 3 && message@
                    == "Invalid hex"@
            },
        },
{
}

/// `sendrawtransaction` takes what the text says.
pub proof fn law_request_takes_the_text(
    rpc: &RpcImpl,
    tx: String,
    taken: Result<Broadcast, RpcError>,
)
    requires
        call_ensures(<RpcImpl as Rpc>::send_raw_transaction, (rpc, tx), taken),
    ensures
        taken is Ok <==> unhex(tx@) is Some && is_transaction(unhex(tx@)->0),
        taken is Ok ==> taken->Ok_0.tx@ == unhex(tx@)->0,
        unhex(tx@) is None ==> {
            taken matches Err(RpcError::Server { code, message }) && code == 3 && message@
                == "Invalid hex"@
        },
        unhex(tx@) is Some && !is_transaction(unhex(tx@)->0) ==> {
            taken matches Err(RpcError::Server { code, message }) && code == 2 && message@
                == decoded_transaction(unhex(tx@)->0)->Err_0
        },
{
}

/// Bytes are read from their hexadecimal form, and what decoding came to is passed on.
pub proof fn law_parts_of_taking_a_transaction(
    text: &str,
    bytes: Result<Vec<u8>, RpcError>,
    decoded: Result<Transaction, String>,
    taken: Result<Broadcast, RpcError>,
)
    requires
        call_ensures(read_hex, (text,), bytes),
        call_ensures(take_decoded, (decoded,), taken),
    ensures
        bytes is Ok <==> unhex(text@) is Some,
        bytes is Ok ==> bytes->Ok_0@ == unhex(text@)->0,
        bytes is Err ==> {
            bytes matches Err(RpcError::Server { code, message }) && code == 3 && message@
                == "Invalid hex"@
        },
        decoded is Ok ==> taken is Ok && taken->Ok_0.tx == decoded->Ok_0,
        decoded is Err ==> {
            taken matches Err(RpcError::Server { code, message }) && code == 2 && message@
                == decoded->Err_0@
        },
{
}

/// A transaction that the network takes is answered with its own identifier, another with an
/// error of the chain.
pub proof fn law_taken_transaction_is_answered_with_its_identifier(
    broadcast: Broadcast,
    accepted: bool,
    reply: Result<Txid, RpcError>,
    txid: Txid,
    other: Result<Txid, RpcError>,
)
    requires
        call_ensures(Broadcast::answer, (broadcast, accepted), reply),
        call_ensures(broadcast_reply, (txid, accepted), other),
    ensures
        accepted ==> reply is Ok && reply->Ok_0.bytes@ == transaction_txid(broadcast.tx@),
        !accepted ==> reply == Err::<Txid, RpcError>(RpcError::Api(Error::Chain)),
        accepted ==> other == Ok::<Txid, RpcError>(txid),
        !accepted ==> other == Err::<Txid, RpcError>(RpcError::Api(Error::Chain)),
{
}

/// Requests that need block filters are refused without them, and otherwise go on with what
/// was asked for.
pub proof fn law_filters_are_needed(
    rpc: &RpcImpl,
    tx_id: Txid,
    outpoint: u32,
    search: Result<TxOutSearch, RpcError>,
    height: u32,
    filter: Result<FilterWanted, RpcError>,
)
    requires
        call_ensures(<RpcImpl as Rpc>::get_tx_out, (rpc, tx_id, outpoint), search),
        call_ensures(<RpcImpl as Rpc>::get_block_filter, (rpc, height), filter),
    ensures
        !rpc.block_filter_storage ==> search == Err::<TxOutSearch, RpcError>(
            RpcError::Api(Error::NoBlockFilters),
        ),
        !rpc.block_filter_storage ==> filter == Err::<FilterWanted, RpcError>(
            RpcError::Api(Error::NoBlockFilters),
        ),
        rpc.block_filter_storage ==> {
            &&& search is Ok
            &&& search->Ok_0.outpoint.txid.bytes@ == tx_id.bytes@
            &&& search->Ok_0.outpoint.vout == outpoint
            &&& filter is Ok
            &&& filter->Ok_0.height == height
        },
{
}

/// Requests about a block or a transaction ask for the one that was named, on the node's own
/// network.
pub proof fn law_requests_ask_for_what_was_named(
    rpc: &RpcImpl,
    hash: BlockHash,
    verbosity: Option<u8>,
    block: BlockLookup,
    header: BlockHeaderWanted,
    tx_id: Txid,
    bytes: Option<bool>,
    transaction: TransactionLookup,
    proof_wanted: ProofWanted,
    height: u32,
    hash_wanted: BlockHashWanted,
    info: BestBlockWanted,
)
    requires
        call_ensures(<RpcImpl as Rpc>::get_block, (rpc, hash, verbosity), block),
        call_ensures(<RpcImpl as Rpc>::get_block_header, (rpc, hash), header),
        call_ensures(<RpcImpl as Rpc>::get_transaction, (rpc, tx_id, bytes), transaction),
        call_ensures(<RpcImpl as Rpc>::get_tx_proof, (rpc, tx_id), proof_wanted),
        call_ensures(<RpcImpl as Rpc>::get_block_hash, (rpc, height), hash_wanted),
        call_ensures(<RpcImpl as Rpc>::get_blockchain_info, (rpc,), info),
    ensures
        block.hash == hash,
        block.verbosity == verbosity,
        block.network == rpc.network,
        header.hash == hash,
        transaction.tx_id == tx_id,
        transaction.verbosity == bytes,
        proof_wanted.tx_id == tx_id,
        hash_wanted.height == height,
        info.network == rpc.network,
{
}

/// What the chain or the wallet has is passed on as it is, and what it lacks is not found.
pub proof fn law_found_things_are_passed_on(
    filter: FilterWanted,
    content: Option<Vec<u8>>,
    shown: Result<String, RpcError>,
    hash_wanted: BlockHashWanted,
    hash: Option<BlockHash>,
    hash_reply: Result<BlockHash, RpcError>,
    header_wanted: BlockHeaderWanted,
    header: Option<BlockHeader>,
    header_reply: Result<BlockHeader, RpcError>,
    proof_wanted: ProofWanted,
    hashes: Option<Vec<String>>,
    proof_reply: Result<Vec<String>, RpcError>,
)
    requires
        call_ensures(FilterWanted::answer, (filter, content), shown),
        call_ensures(BlockHashWanted::answer, (hash_wanted, hash), hash_reply),
        call_ensures(BlockHeaderWanted::answer, (header_wanted, header), header_reply),
        call_ensures(ProofWanted::answer, (proof_wanted, hashes), proof_reply),
    ensures
        content is Some ==> shown is Ok && shown->Ok_0@ == hex(content->0@),
        content is None ==> shown == Err::<String, RpcError>(RpcError::Api(Error::BlockNotFound)),
        hash is Some ==> hash_reply == Ok::<BlockHash, RpcError>(hash->0),
        hash is None ==> hash_reply == Err::<BlockHash, RpcError>(
            RpcError::Api(Error::BlockNotFound),
        ),
        header is Some ==> header_reply == Ok::<BlockHeader, RpcError>(header->0),
        header is None ==> header_reply == Err::<BlockHeader, RpcError>(
            RpcError::Api(Error::BlockNotFound),
        ),
        hashes is Some ==> proof_reply == Ok::<Vec<String>, RpcError>(hashes->0),
        hashes is None ==> proof_reply == Err::<Vec<String>, RpcError>(
            RpcError::Api(Error::TxNotFound),
        ),
{
}

/// The height that is answered is the best block's, and the roots are the chain's.
pub proof fn law_chain_is_passed_on(
    rpc: &RpcImpl,
    best_block: (u32, BlockHash),
    height: Result<u32, RpcError>,
    hashes: Vec<String>,
    roots: Result<Vec<String>, RpcError>,
)
    requires
        call_ensures(<RpcImpl as Rpc>::get_height, (rpc, best_block), height),
        call_ensures(<RpcImpl as Rpc>::get_roots, (rpc, hashes), roots),
    ensures
        height == Ok::<u32, RpcError>(best_block.0),
        roots == Ok::<Vec<String>, RpcError>(hashes),
{
}

/// A rescan starts where it was asked to and is answered with whether it did.
pub proof fn law_rescan_starts_where_asked(
    rpc: &RpcImpl,
    rescan: u32,
    wanted: RescanWanted,
    started: bool,
    reply: Result<bool, RpcError>,
)
    requires
        call_ensures(<RpcImpl as Rpc>::rescan, (rpc, rescan), wanted),
        call_ensures(RescanWanted::answer, (wanted, started), reply),
    ensures
        wanted.start == rescan,
        started ==> reply == Ok::<bool, RpcError>(true),
        !started ==> reply == Err::<bool, RpcError>(RpcError::Api(Error::Chain)),
{
}

/// A descriptor goes to the wallet as it came. Without a rescan the wallet's word is the
/// answer. With one, the chain is rescanned from the height that was asked for whatever the
/// wallet said; if that fails, nothing else counts, and if not, the wallet's word is the
/// answer.
pub proof fn law_descriptor_is_loaded(
    rpc: &RpcImpl,
    descriptor: String,
    rescan: Option<u32>,
    push: DescriptorPush,
    accepted: bool,
    step: LoadStep,
    started: bool,
    reply: Result<(), RpcError>,
)
    requires
        call_ensures(<RpcImpl as Rpc>::load_descriptor, (rpc, descriptor, rescan), push),
        call_ensures(DescriptorPush::pushed, (push, accepted), step),
        step matches LoadStep::Rescan(wanted) ==> call_ensures(
            DescriptorRescan::answer,
            (wanted, started),
            reply,
        ),
    ensures
        push.descriptor@ == descriptor@,
        rescan is None && accepted ==> {
            step matches LoadStep::Reply(answer) && answer is Ok
        },
        rescan is None && !accepted ==> step == LoadStep::Reply(
            Err::<(), RpcError>(RpcError::Api(Error::InvalidDescriptor)),
        ),
        rescan is Some ==> {
            step matches LoadStep::Rescan(wanted) && {
                &&& wanted.start == rescan->0
                &&& !started ==> reply == Err::<(), RpcError>(RpcError::Internal)
                &&& started && !accepted ==> reply == Err::<(), RpcError>(
                    RpcError::Api(Error::InvalidDescriptor),
                )
                &&& started && accepted ==> reply is Ok
            }
        },
{
}

/// The server listens on this machine alone, on the port of the network that it is started
/// for, and answers for the network that the node follows.
pub proof fn law_server_listens_on_its_networks_port(
    net: &Network,
    network: Network,
    block_filter_storage: bool,
    config: ServerConfig,
    port: u16,
)
    requires
        call_ensures(RpcImpl::create, (net, network, block_filter_storage), config),
        call_ensures(RpcImpl::get_port, (net,), port),
    ensures
        config.port == port,
        port == rpc_port(*net),
        config.address@.len() == 4,
        config.address@[0] == 127,
        config.address@[1] == 0 && config.address@[2] == 0 && config.address@[3] == 1,
        config.threads == 1,
        config.rpc.network == network,
        config.rpc.block_filter_storage == block_filter_storage,
{
}

} // verus!
