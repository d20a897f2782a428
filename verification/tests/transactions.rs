use florestad_rpc::broadcast::{broadcast_reply, read_hex, take_decoded};
use florestad_rpc::ledger::{CachedTransaction, Transaction};
use florestad_rpc::primitives::{BlockHash, Network, OutPoint, TxIn, TxOut, Txid};
use florestad_rpc::res::{Error, RpcError};
use florestad_rpc::server::{Rpc, RpcImpl};
use florestad_rpc::transaction::{
    describe_raw_transaction, describe_vin, describe_vout, PlaceWanted, Placement,
    TransactionFacts, TransactionLookup, TransactionStep,
};

const SEGWIT: &str = "02000000000101595895ea20179de87052b4046dfe6fd515860505d6511a9004cf12a1f93cac7c0100000000ffffffff01deb807000000000017a9140f3444e271620c736808aa7b33e370bd87cb5a078702483045022100fb60dad8df4af2841adc0346638c16d0b8035f5e3f3753b88db122e70c79f9370220756e6633b17fd2710e626347d28d60b0a2d6cbb41de51740644b9fb3ba7751040121028fa937ca8cba2197a37c007176ed8941055d3bcb8627d085e94553e62f057dcc00000000";
const SEGWIT_TXID: &str = "f5864806e3565c34d1b41e716f72609d00b55ea5eac5b924c9719a842ef42206";
const LEGACY: &str = "0100000001a15d57094aa7a21a28cb20b59aab8fc7d1149a3bdbcddba9c622e4f5f6a99ece010000006c493046022100f93bb0e7d8db7bd46e40132d1f8242026e045f03a0efe71bbb8e3f475e970d790221009337cd7f1f929f00cc6ff01f03729b069a7c21b59b1736ddfee5db5946c5da8c0121033b9b137ee87d5a812d6f506efdd37f0affa7ffc310711c06c7f3e097c9447c52ffffffff0100e1f505000000001976a9140389035a9225b3839e2bbf32d826a1e222031fd888ac00000000";
const LEGACY_TXID: &str = "a6eab3c14ab5272a58a5ba91505ba1a4b6d7a3a9fcbd187b6cd99a7b6d548cb7";
const COINBASE: &str = "01000000010000000000000000000000000000000000000000000000000000000000000000ffffffff0804ffff001d026e04ffffffff0100f2052a0100000043410446ef0102d1ec5240f0d061a4246c1bdef63fc3dbab7733052fbbf0ecd8f41fc26bf049ebb4f9527f374280259e7cfa99c48b0e3f39c51347a19a5819651503a5ac00000000";

fn rpc(network: Network) -> RpcImpl {
    RpcImpl { network, block_filter_storage: false }
}

fn bytes(hex: &str) -> Vec<u8> {
    read_hex(hex).unwrap()
}

fn shown_hash(shown: &str) -> [u8; 32] {
    let mut raw = bytes(shown);
    raw.reverse();
    let mut hash = [0u8; 32];
    hash.copy_from_slice(&raw);
    hash
}

fn cached(hex: &str, height: u32) -> CachedTransaction {
    CachedTransaction { tx: Transaction::from_bytes(bytes(hex)).unwrap(), height }
}

#[test]
fn segwit_transaction_is_described() {
    let block_hash = BlockHash { bytes: [0xab; 32] };
    let json = rpc(Network::Bitcoin)
        .try_make_raw_transaction(&cached(SEGWIT, 100), 149, block_hash, Some(77))
        .unwrap();
    assert!(json.in_active_chain);
    assert_eq!(json.hex, SEGWIT);
    assert_eq!(json.txid, SEGWIT_TXID);
    assert_eq!(json.hash, "80b7d8a82d5d5bf92905b06f2014dd699e03837ca172e3a59d51426ebbe3e7f5");
    assert_eq!(json.size, 193);
    assert_eq!(json.vsize, 111);
    assert_eq!(json.weight, 442);
    assert_eq!(json.version, 2);
    assert_eq!(json.locktime, 0);
    assert_eq!(json.blockhash, "ab".repeat(32));
    assert_eq!(json.confirmations, 50);
    assert_eq!(json.blocktime, 77);
    assert_eq!(json.time, 77);
    assert_eq!(json.vin.len(), 1);
    assert_eq!(
        json.vin[0].txid,
        "7cac3cf9a112cf04901a51d605058615d56ffe6d04b45270e89d1720ea955859"
    );
    assert_eq!(json.vin[0].vout, 1);
    assert_eq!(json.vin[0].sequence, 0xffff_ffff);
    assert_eq!(json.vin[0].script_sig.assembly, "");
    assert_eq!(json.vin[0].script_sig.hex, "");
    assert_eq!(json.vin[0].witness.len(), 2);
    assert_eq!(
        json.vin[0].witness[1],
        "028fa937ca8cba2197a37c007176ed8941055d3bcb8627d085e94553e62f057dcc"
    );
    assert_eq!(json.vout.len(), 1);
    assert_eq!(json.vout[0].value, 506078);
    assert_eq!(json.vout[0].n, 0);
    assert_eq!(json.vout[0].script_pub_key.hex, "a9140f3444e271620c736808aa7b33e370bd87cb5a0787");
    assert_eq!(
        json.vout[0].script_pub_key.assembly,
        "OP_HASH160 OP_PUSHBYTES_20 0f3444e271620c736808aa7b33e370bd87cb5a07 OP_EQUAL"
    );
    assert_eq!(json.vout[0].script_pub_key.req_sigs, 0);
    assert_eq!(json.vout[0].script_pub_key.address, "335Qg979J2ZDHzBzMuisgikxnfEi9ERNU7");
    assert_eq!(json.vout[0].script_pub_key.type_, "p2sh");
}

#[test]
fn legacy_transaction_is_described() {
    let zeros = BlockHash { bytes: [0; 32] };
    let json = rpc(Network::Testnet)
        .try_make_raw_transaction(&cached(LEGACY, 0), 5, zeros, None)
        .unwrap();
    assert!(!json.in_active_chain);
    assert_eq!(json.confirmations, 0);
    assert_eq!(json.blockhash, "0".repeat(64));
    assert_eq!(json.blocktime, 0);
    assert_eq!(json.time, 0);
    assert_eq!(json.txid, LEGACY_TXID);
    assert_eq!(json.hash, LEGACY_TXID);
    assert_eq!(json.size, 193);
    assert_eq!(json.vsize, 193);
    assert_eq!(json.weight, 772);
    assert_eq!(json.vin[0].witness.len(), 0);
    assert!(json.vin[0].script_sig.assembly.starts_with("OP_PUSHBYTES_73 3046022100f93bb0e7"));
    assert_eq!(json.vout[0].value, 100_000_000);
    assert_eq!(
        json.vout[0].script_pub_key.address,
        "mfqeTU23zVUxqNbnvqoJxU3oBQwcTvNCRs"
    );
    assert_eq!(json.vout[0].script_pub_key.type_, "p2pkh");
}

#[test]
fn transaction_without_an_address_is_not_described() {
    let zeros = BlockHash { bytes: [0; 32] };
    let json = rpc(Network::Bitcoin).try_make_raw_transaction(&cached(COINBASE, 1), 5, zeros, None);
    assert!(json.is_none());
}

#[test]
fn transaction_above_the_tip_is_not_described() {
    let hash = BlockHash { bytes: [1; 32] };
    let rpc = rpc(Network::Bitcoin);
    assert!(rpc.try_make_raw_transaction(&cached(SEGWIT, 6), 5, hash, None).is_none());
    let json = rpc.try_make_raw_transaction(&cached(SEGWIT, 5), 5, hash, None).unwrap();
    assert_eq!(json.confirmations, 1);
    let json = rpc.make_raw_transaction(&cached(SEGWIT, 1), u32::MAX, hash, None);
    assert_eq!(json.confirmations, u32::MAX);
}

#[test]
fn description_takes_what_was_measured() {
    let tx = cached(LEGACY, 0);
    let facts = TransactionFacts {
        txid: Txid { bytes: [1; 32] },
        wtxid: Txid { bytes: [2; 32] },
        size: 10,
        vsize: 11,
        weight: 12,
    };
    let place = Placement {
        height: 3,
        tip: 4,
        block_hash: BlockHash { bytes: [3; 32] },
        block_time: Some(9),
    };
    let json = describe_raw_transaction(
        tx.tx.bytes(),
        tx.tx.data(),
        &facts,
        vec![],
        vec![],
        &place,
    );
    assert_eq!(json.txid, "01".repeat(32));
    assert_eq!(json.hash, "02".repeat(32));
    assert_eq!(json.blockhash, "03".repeat(32));
    assert_eq!((json.size, json.vsize, json.weight), (10, 11, 12));
    assert_eq!((json.confirmations, json.blocktime, json.time), (2, 9, 9));
    assert_eq!(json.version, 1);
}

#[test]
fn input_is_described() {
    let mut txid = [0u8; 32];
    txid[0] = 0x12;
    let input = TxIn {
        previous_output: OutPoint { txid: Txid { bytes: txid }, vout: 7 },
        script_sig: vec![0x63, 0x68, 0x00],
        sequence: 5,
        witness: vec![vec![], vec![0xde, 0xad]],
    };
    let json = rpc(Network::Regtest).make_vin(&input);
    assert_eq!(json.txid, format!("{}12", "0".repeat(62)));
    assert_eq!(json.vout, 7);
    assert_eq!(json.script_sig.assembly, "OP_IF OP_ENDIF OP_0");
    assert_eq!(json.script_sig.hex, "636800");
    assert_eq!(json.witness, vec!["".to_string(), "dead".to_string()]);
    assert_eq!(json.sequence, 5);
    let other = describe_vin(&input, "OP_NOP".to_string());
    assert_eq!(other.script_sig.assembly, "OP_NOP");
    assert_eq!(other.txid, json.txid);
}

#[test]
fn script_types_have_names() {
    let name = |hex: &str| RpcImpl::get_script_type(&bytes(hex));
    assert_eq!(name("76a9140389035a9225b3839e2bbf32d826a1e222031fd888ac"), Some("p2pkh"));
    assert_eq!(name("a9140f3444e271620c736808aa7b33e370bd87cb5a0787"), Some("p2sh"));
    assert_eq!(name("0014751e76e8199196d454941c45d1b3a323f1433bd6"), Some("v0_p2wpkh"));
    assert_eq!(
        name("00201863143c14c5166804bd19203356da136c985678cd4d27a1b8c6329604903262"),
        Some("v0_p2wsh")
    );
    assert_eq!(name(""), None);
    assert_eq!(name("6a"), None);
    assert_eq!(name("76a9140389035a9225b3839e2bbf32d826a1e222031fd888ad"), None);
    assert_eq!(name("5114751e76e8199196d454941c45d1b3a323f1433bd6"), None);
}

#[test]
fn outputs_have_addresses_of_their_network() {
    let output = TxOut {
        value: 1,
        script_pubkey: bytes("0014751e76e8199196d454941c45d1b3a323f1433bd6"),
    };
    let shown = |network| rpc(network).make_vout(&output, 2).script_pub_key.address;
    assert_eq!(shown(Network::Bitcoin), "bc1qw508d6qejxtdg4y5r3zarvary0c5xw7kv8f3t4");
    assert_eq!(shown(Network::Testnet), "tb1qw508d6qejxtdg4y5r3zarvary0c5xw7kxpjzsx");
    assert_eq!(shown(Network::Signet), "tb1qw508d6qejxtdg4y5r3zarvary0c5xw7kxpjzsx");
    assert!(shown(Network::Regtest).starts_with("bcrt1q"));
    let output = TxOut {
        value: 3,
        script_pubkey: bytes(
            "00201863143c14c5166804bd19203356da136c985678cd4d27a1b8c6329604903262",
        ),
    };
    let json = rpc(Network::Bitcoin).make_vout(&output, 4);
    assert_eq!(
        json.script_pub_key.address,
        "bc1qrp33g0q5c5txsp9arysrx4k6zdkfs4nce4xj0gdcccefvpysxf3qccfmv3"
    );
    assert_eq!(json.script_pub_key.type_, "v0_p2wsh");
    assert_eq!((json.n, json.value), (4, 3));
}

#[test]
fn other_scripts_are_nonstandard() {
    let output = TxOut { value: 5, script_pubkey: vec![0x6a] };
    let json = describe_vout(&output, 1, "OP_RETURN".to_string(), "nowhere".to_string());
    assert_eq!(json.script_pub_key.type_, "nonstandard");
    assert_eq!(json.script_pub_key.assembly, "OP_RETURN");
    assert_eq!(json.script_pub_key.address, "nowhere");
    assert_eq!(json.script_pub_key.hex, "6a");
    assert_eq!(json.script_pub_key.req_sigs, 0);
}

#[test]
fn taproot_output_has_an_address_and_no_type() {
    let mut script = vec![0x51, 0x20];
    script.extend_from_slice(&[2u8; 32]);
    let output = TxOut { value: 5, script_pubkey: script };
    let json = rpc(Network::Bitcoin).make_vout(&output, 0);
    assert_eq!(json.script_pub_key.type_, "nonstandard");
    assert!(json.script_pub_key.address.starts_with("bc1p"));
}

#[test]
fn transaction_that_the_wallet_lacks_is_not_found() {
    let rpc = rpc(Network::Bitcoin);
    for verbosity in [None, Some(true), Some(false)] {
        let lookup = rpc.get_transaction(Txid { bytes: [1; 32] }, verbosity);
        assert_eq!(lookup, TransactionLookup { tx_id: Txid { bytes: [1; 32] }, verbosity });
        assert_eq!(lookup.found(None), Err(RpcError::Api(Error::TxNotFound)));
    }
}

#[test]
fn verbosity_of_true_asks_for_the_bytes() {
    let rpc = rpc(Network::Bitcoin);
    let id = Txid { bytes: shown_hash(SEGWIT_TXID) };
    let step = rpc.get_transaction(id, Some(true)).found(Some(cached(SEGWIT, 1)));
    assert_eq!(step, Ok(TransactionStep::Bytes(bytes(SEGWIT))));
    for verbosity in [None, Some(false)] {
        let step = rpc.get_transaction(id, verbosity).found(Some(cached(SEGWIT, 1)));
        let wanted = PlaceWanted { tx: cached(SEGWIT, 1) };
        assert_eq!(step, Ok(TransactionStep::Describe(wanted)));
    }
}

#[test]
fn transaction_is_described_with_its_block() {
    let rpc = rpc(Network::Bitcoin);
    let wanted = PlaceWanted { tx: cached(SEGWIT, 7) };
    let wanted = wanted.answer(Some(BlockHash { bytes: [1; 32] }));
    assert_eq!(wanted.block_hash, BlockHash { bytes: [1; 32] });
    let json = wanted.describe(&rpc, 9, Some(44)).unwrap();
    assert_eq!(json.blockhash, "01".repeat(32));
    assert_eq!((json.confirmations, json.time), (3, 44));
    let wanted = PlaceWanted { tx: cached(LEGACY, 0) }.answer(None);
    assert_eq!(wanted.block_hash, BlockHash { bytes: [0; 32] });
    let json = wanted.describe(&rpc, 9, None).unwrap();
    assert_eq!(json.blockhash, "00".repeat(32));
    assert_eq!((json.confirmations, json.time), (0, 0));
    let wanted = PlaceWanted { tx: cached(COINBASE, 1) }.answer(None);
    assert!(wanted.describe(&rpc, 9, None).is_none());
}

#[test]
fn sent_transaction_is_answered_with_its_txid() {
    let rpc = rpc(Network::Bitcoin);
    let broadcast = rpc.send_raw_transaction(SEGWIT.to_string()).unwrap();
    assert_eq!(broadcast.tx, Transaction::from_bytes(bytes(SEGWIT)).unwrap());
    assert_eq!(broadcast.answer(true), Ok(Txid { bytes: shown_hash(SEGWIT_TXID) }));
}

#[test]
fn sent_transaction_may_be_in_upper_case() {
    let rpc = rpc(Network::Bitcoin);
    let broadcast = rpc.send_raw_transaction(LEGACY.to_uppercase()).unwrap();
    assert_eq!(broadcast.tx.txid(), Txid { bytes: shown_hash(LEGACY_TXID) });
}

#[test]
fn transaction_that_the_network_refuses_is_a_chain_error() {
    let broadcast = rpc(Network::Bitcoin).send_raw_transaction(SEGWIT.to_string()).unwrap();
    assert_eq!(broadcast.answer(false), Err(RpcError::Api(Error::Chain)));
    let id = Txid { bytes: [4; 32] };
    assert_eq!(broadcast_reply(id, true), Ok(id));
    assert_eq!(broadcast_reply(id, false), Err(RpcError::Api(Error::Chain)));
}

#[test]
fn text_that_is_not_hexadecimal_is_refused() {
    let refused = Err(RpcError::Server { code: 3, message: "Invalid hex".to_string() });
    let rpc = rpc(Network::Bitcoin);
    assert_eq!(rpc.send_raw_transaction("zz".to_string()), refused);
    assert_eq!(rpc.send_raw_transaction("abc".to_string()), refused);
    assert_eq!(rpc.send_raw_transaction("0x00".to_string()), refused);
    assert_eq!(rpc.send_raw_transaction("\u{e9}".to_string()), refused);
    assert_eq!(read_hex("00fF"), Ok(vec![0x00, 0xff]));
    assert_eq!(read_hex(""), Ok(vec![]));
}

#[test]
fn bytes_that_are_no_transaction_are_refused() {
    let expected = "ParseFailed(\"data not consumed entirely when explicitly deserializing\")";
    let refused = Err(RpcError::Server { code: 2, message: expected.to_string() });
    let rpc = rpc(Network::Bitcoin);
    assert_eq!(rpc.send_raw_transaction(format!("{}00", SEGWIT)), refused);
    let taken = take_decoded(Err("broken".to_string()));
    assert_eq!(taken, Err(RpcError::Server { code: 2, message: "broken".to_string() }));
    match rpc.send_raw_transaction("".to_string()) {
        Err(RpcError::Server { code, .. }) => assert_eq!(code, 2),
        other => panic!("{:?}", other),
    }
}

#[test]
fn described_transaction_can_be_sent_again() {
    let rpc = rpc(Network::Bitcoin);
    let zeros = BlockHash { bytes: [0; 32] };
    let json = rpc.try_make_raw_transaction(&cached(SEGWIT, 0), 0, zeros, None).unwrap();
    let broadcast = rpc.send_raw_transaction(json.hex).unwrap();
    assert_eq!(broadcast.tx, cached(SEGWIT, 0).tx);
    assert_eq!(broadcast.answer(true), Ok(Txid { bytes: shown_hash(&json.txid) }));
}

#[test]
fn marker_of_a_transaction_without_inputs_does_not_count() {
    let hex = "0200000000010001e803000000000000160014751e76e8199196d454941c45d1b3a323f1433bd600000000";
    let json = rpc(Network::Bitcoin)
        .try_make_raw_transaction(&cached(hex, 0), 0, BlockHash { bytes: [0; 32] }, None)
        .unwrap();
    assert_eq!(json.hex, hex);
    assert_eq!(json.size as usize, hex.len() / 2 - 2);
    assert_eq!(json.weight, 4 * json.size);
    assert_eq!(json.vsize, json.size);
    assert_ne!(json.hash, json.txid);
    assert_eq!(json.vin.len(), 0);
    assert_eq!(json.vout[0].value, 1000);
}
