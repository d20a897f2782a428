use florestad_rpc::block::{describe_block, BlockFacts, BlockReport, BlockStep};
use florestad_rpc::broadcast::read_hex;
use florestad_rpc::ledger::{Block, Transaction};
use florestad_rpc::median::find_median_time_past;
use florestad_rpc::primitives::{BlockHash, BlockHeader, Network, Txid};
use florestad_rpc::res::{Error, RpcError};
use florestad_rpc::server::{Rpc, RpcImpl};
use florestad_rpc::target::has_target;
use florestad_rpc::text::{i32_to_lower_hex, u32_to_lower_hex};

const HEADER: &str = "010000004ddccd549d28f385ab457e98d1b11ce80bfea2c5ab93015ade4973e400000000bf4473e53794beae34e64fccc471dace6ae544180816f89591894e0f417a914cd74d6e49ffff001d323b3a7b";
const COINBASE: &str = "01000000010000000000000000000000000000000000000000000000000000000000000000ffffffff0804ffff001d026e04ffffffff0100f2052a0100000043410446ef0102d1ec5240f0d061a4246c1bdef63fc3dbab7733052fbbf0ecd8f41fc26bf049ebb4f9527f374280259e7cfa99c48b0e3f39c51347a19a5819651503a5ac00000000";
const PAYMENT: &str = "010000000321f75f3139a013f50f315b23b0c9a2b6eac31e2bec98e5891c924664889942260000000049483045022100cb2c6b346a978ab8c61b18b5e9397755cbd17d6eb2fe0083ef32e067fa6c785a02206ce44e613f31d9a6b0517e46f3db1576e9812cc98d159bfdaf759a5014081b5c01ffffffff79cda0945903627c3da1f85fc95d0b8ee3e76ae0cfdc9a65d09744b1f8fc85430000000049483045022047957cdd957cfd0becd642f6b84d82f49b6cb4c51a91f49246908af7c3cfdf4a022100e96b46621f1bffcf5ea5982f88cef651e9354f5791602369bf5a82a6cd61a62501fffffffffe09f5fe3ffbf5ee97a54eb5e5069e9da6b4856ee86fc52938c2f979b0f38e82000000004847304402204165be9a4cbab8049e1af9723b96199bfd3e85f44c6b4c0177e3962686b26073022028f638da23fc003760861ad481ead4099312c60030d4cb57820ce4d33812a5ce01ffffffff01009d966b01000000434104ea1feff861b51fe3f5f8a3b12d0f4712db80e919548a80839fc47c6a21e66d957e9c5d8cd108c7a2d2324bad71f9904ac0ae7336507d785b17a2c115e427a32fac00000000";
const SEGWIT: &str = "02000000000101595895ea20179de87052b4046dfe6fd515860505d6511a9004cf12a1f93cac7c0100000000ffffffff01deb807000000000017a9140f3444e271620c736808aa7b33e370bd87cb5a078702483045022100fb60dad8df4af2841adc0346638c16d0b8035f5e3f3753b88db122e70c79f9370220756e6633b17fd2710e626347d28d60b0a2d6cbb41de51740644b9fb3ba7751040121028fa937ca8cba2197a37c007176ed8941055d3bcb8627d085e94553e62f057dcc00000000";
const HASH: &str = "00000000b0c5a240b2a61d2e75692224efd4cbecdf6eaf4cc2cf477ca7c270e7";
const PREVIOUS: &str = "00000000e47349de5a0193abc5a2fe0be81cb1d1987e45ab85f3289d54cddc4d";
const MERKLE: &str = "4c917a410f4e899195f816081844e56aceda71c4cc4fe634aebe9437e57344bf";

fn shown_hash(shown: &str) -> [u8; 32] {
    let mut raw = read_hex(shown).unwrap();
    raw.reverse();
    let mut hash = [0u8; 32];
    hash.copy_from_slice(&raw);
    hash
}

fn header() -> BlockHeader {
    BlockHeader {
        version: 1,
        prev_blockhash: BlockHash { bytes: shown_hash(PREVIOUS) },
        merkle_root: shown_hash(MERKLE),
        time: 1231965655,
        bits: 0x1d00ffff,
        nonce: 2067413810,
    }
}

fn tx(hex: &str) -> Transaction {
    Transaction::from_bytes(read_hex(hex).unwrap()).unwrap()
}

fn block() -> Block {
    Block { header: header(), txdata: vec![tx(COINBASE), tx(PAYMENT)] }
}

fn rpc() -> RpcImpl {
    RpcImpl { network: Network::Bitcoin, block_filter_storage: true }
}

fn report(verbosity: Option<u8>, tip: u32, height: u32) -> BlockReport {
    let hash = BlockHash { bytes: shown_hash(HASH) };
    match rpc().get_block(hash, verbosity).downloaded(Some(block())).unwrap() {
        BlockStep::Describe(wanted) => {
            assert_eq!(wanted.hash, hash);
            wanted.answer(Some(tip)).unwrap().answer(Some(height)).unwrap()
        }
        other => panic!("{:?}", other),
    }
}

#[test]
fn block_is_described() {
    let report = report(None, 600, 546);
    assert!(report.is_describable());
    assert_eq!(report.past_heights(), (535..546).collect::<Vec<u32>>());
    assert_eq!(report.next_height(), 547);
    let times = vec![5, 3, 11, 1, 9, 7, 2, 8, 4, 10, 6];
    let json = report.describe(&times, Some(BlockHash { bytes: [0xcd; 32] }));
    assert_eq!(json.hash, HASH);
    assert_eq!(json.confirmations, 55);
    assert_eq!(json.size, 643);
    assert_eq!(json.strippedsize, 643);
    assert_eq!(json.weight, 2572);
    assert_eq!(json.height, 546);
    assert_eq!(json.version, 1);
    assert_eq!(json.version_hex, "1");
    assert_eq!(json.merkleroot, MERKLE);
    assert_eq!(json.tx.len(), 2);
    assert_eq!(json.tx[0], "77dfc2fe598419b00641c296181a96cf16943697f573480b023b77cce82ada21");
    assert_eq!(json.tx[1], "a3b0e9e7cddbbe78270fa4182a7675ff00b92872d8df7d14265a2b1e379a9d33");
    assert_eq!(json.time, 1231965655);
    assert_eq!(json.mediantime, 6);
    assert_eq!(json.nonce, 2067413810);
    assert_eq!(json.bits, "1d00ffff");
    assert_eq!(json.difficulty, 1);
    assert_eq!(json.chainwork, format!("0x{}100010001", "0".repeat(55)));
    assert_eq!(json.n_tx, 2);
    assert_eq!(json.previousblockhash, PREVIOUS);
    assert_eq!(json.nextblockhash, Some("cd".repeat(32)));
}

#[test]
fn block_at_the_tip_has_one_confirmation_and_no_successor() {
    let json = report(Some(1), 546, 546).describe(&vec![], None);
    assert_eq!(json.confirmations, 1);
    assert_eq!(json.nextblockhash, None);
    assert_eq!(json.mediantime, 0);
}

#[test]
fn early_block_has_no_past_times() {
    assert_eq!(report(None, 600, 10).past_heights(), Vec::<u32>::new());
    assert_eq!(report(None, 600, 11).past_heights(), (0..11).collect::<Vec<u32>>());
}

#[test]
fn block_above_the_tip_cannot_be_described() {
    assert!(!report(None, 545, 546).is_describable());
    assert!(report(None, 546, 546).is_describable());
    assert!(!report(None, u32::MAX, 0).is_describable());
    assert!(!report(None, u32::MAX, u32::MAX).is_describable());
    let mut untargeted = report(None, 600, 546);
    untargeted.block.header.bits = 0;
    assert!(!untargeted.is_describable());
}

#[test]
fn witness_data_counts_once() {
    let mut header = header();
    header.version = -1;
    header.bits = 0x1a06d450;
    let report = BlockReport {
        network: Network::Testnet,
        block: Block { header, txdata: vec![tx(SEGWIT)] },
        tip: 20,
        height: 20,
    };
    let json = report.describe(&vec![], None);
    assert_eq!(json.size, 274);
    assert_eq!(json.weight, 766);
    assert_eq!(json.strippedsize, 164);
    assert_eq!(json.version_hex, "ffffffff");
    assert_eq!(json.difficulty, 2456598);
    assert_eq!(json.chainwork, format!("0x{}257c3becdacc64", "0".repeat(50)));
}

#[test]
fn other_verbosities_ask_for_the_encoding() {
    let expected = format!("{}02{}{}", HEADER, COINBASE, PAYMENT);
    for verbosity in [Some(0), Some(2), Some(255)] {
        let hash = BlockHash { bytes: shown_hash(HASH) };
        let step = rpc().get_block(hash, verbosity).downloaded(Some(block()));
        assert_eq!(step, Ok(BlockStep::Hex(expected.clone())));
    }
}

#[test]
fn block_that_the_node_lacks_is_not_found() {
    for verbosity in [None, Some(0), Some(1)] {
        let lookup = rpc().get_block(BlockHash { bytes: [9; 32] }, verbosity);
        assert_eq!(lookup.downloaded(None), Err(RpcError::Api(Error::BlockNotFound)));
    }
}

#[test]
fn chain_without_a_tip_or_a_height_is_an_error() {
    let hash = BlockHash { bytes: shown_hash(HASH) };
    match rpc().get_block(hash, None).downloaded(Some(block())).unwrap() {
        BlockStep::Describe(wanted) => {
            assert_eq!(wanted.answer(None), Err(RpcError::Api(Error::Chain)));
        }
        other => panic!("{:?}", other),
    }
    match rpc().get_block(hash, None).downloaded(Some(block())).unwrap() {
        BlockStep::Describe(wanted) => {
            let wanted = wanted.answer(Some(4)).unwrap();
            assert_eq!(wanted.hash, hash);
            assert_eq!(wanted.answer(None), Err(RpcError::Api(Error::Chain)));
        }
        other => panic!("{:?}", other),
    }
}

#[test]
fn block_description_takes_what_was_measured() {
    let facts = BlockFacts {
        hash: BlockHash { bytes: [1; 32] },
        txids: vec![Txid { bytes: [2; 32] }],
        size: 3,
        weight: 4,
        strippedsize: 5,
        work: "work".to_string(),
        difficulty: 6,
    };
    let json = describe_block(&header(), facts, 9, 8, &vec![7; 11], None);
    assert_eq!(json.hash, "01".repeat(32));
    assert_eq!(json.tx, vec!["02".repeat(32)]);
    assert_eq!((json.size, json.weight, json.strippedsize), (3, 4, 5));
    assert_eq!(json.chainwork, "work");
    assert_eq!(json.difficulty, 6);
    assert_eq!(json.confirmations, 2);
    assert_eq!(json.mediantime, 7);
    assert_eq!(json.n_tx, 1);
}

#[test]
fn median_is_the_sixth_of_the_times() {
    assert_eq!(find_median_time_past(&vec![]), 0);
    assert_eq!(find_median_time_past(&vec![1, 2, 3, 4, 5]), 0);
    assert_eq!(find_median_time_past(&vec![6, 5, 4, 3, 2, 1]), 6);
    assert_eq!(find_median_time_past(&vec![11, 10, 9, 8, 7, 6, 5, 4, 3, 2, 1]), 6);
    assert_eq!(find_median_time_past(&vec![1, 2, 3, 4, 5, 6, 7, 8, 9, 10, 11]), 6);
    assert_eq!(find_median_time_past(&vec![4, 4, 4, 4, 4, 4, 4, 1, 1, 1, 1]), 4);
    assert_eq!(find_median_time_past(&vec![u32::MAX; 11]), u32::MAX);
}

#[test]
fn targets_of_zero_are_told() {
    assert!(has_target(0x1d00ffff));
    assert!(has_target(0x207fffff));
    assert!(has_target(0x03000001));
    assert!(has_target(0x01010000));
    assert!(!has_target(0));
    assert!(!has_target(0x1d000000));
    assert!(!has_target(0x1d800001));
    assert!(!has_target(0x01000100));
    assert!(!has_target(0xff000001));
}

#[test]
fn numbers_are_written_in_hexadecimal() {
    assert_eq!(u32_to_lower_hex(0), "0");
    assert_eq!(u32_to_lower_hex(15), "f");
    assert_eq!(u32_to_lower_hex(16), "10");
    assert_eq!(u32_to_lower_hex(0x1d00ffff), "1d00ffff");
    assert_eq!(u32_to_lower_hex(u32::MAX), "ffffffff");
    assert_eq!(i32_to_lower_hex(0), "0");
    assert_eq!(i32_to_lower_hex(0x20000000), "20000000");
    assert_eq!(i32_to_lower_hex(i32::MAX), "7fffffff");
    assert_eq!(i32_to_lower_hex(-1), "ffffffff");
    assert_eq!(i32_to_lower_hex(i32::MIN), "80000000");
}
