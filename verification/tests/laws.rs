use florestad_rpc::block::{BlockLookup, BlockReport, BlockStep};
use florestad_rpc::broadcast::read_hex;
use florestad_rpc::ledger::{Block, CachedTransaction, Transaction};
use florestad_rpc::peers::get_default_port;
use florestad_rpc::primitives::{BlockHash, BlockHeader, Network};
use florestad_rpc::server::RpcImpl;
use florestad_rpc::transaction::PlaceWanted;

const NETWORKS: [Network; 4] =
    [Network::Bitcoin, Network::Testnet, Network::Signet, Network::Regtest];

fn payment(outputs: u8) -> Transaction {
    let mut raw = vec![2, 0, 0, 0, 1];
    raw.extend_from_slice(&[9; 32]);
    raw.extend_from_slice(&[3, 0, 0, 0, 0, 0xff, 0xff, 0xff, 0xff, outputs]);
    for value in 0..outputs {
        raw.extend_from_slice(&[10 + value, 0, 0, 0, 0, 0, 0, 0, 22, 0, 20]);
        raw.extend_from_slice(&[value; 20]);
    }
    raw.extend_from_slice(&[5, 0, 0, 0]);
    Transaction::from_bytes(raw).unwrap()
}

fn block() -> Block {
    let header = BlockHeader {
        version: 0x20000000,
        prev_blockhash: BlockHash { bytes: [1; 32] },
        merkle_root: [2; 32],
        time: 3,
        bits: 0x207fffff,
        nonce: 4,
    };
    Block { header, txdata: vec![payment(1), payment(2), payment(3)] }
}

fn report(tip: u32, height: u32) -> BlockReport {
    BlockReport { network: Network::Regtest, block: block(), tip, height }
}

#[test]
fn transaction_is_confirmed_as_often_as_its_block() {
    let rpc = RpcImpl { network: Network::Regtest, block_filter_storage: false };
    for (height, tip) in [(1, 1), (1, 2), (30, 99), (1, u32::MAX)] {
        let tx = CachedTransaction { tx: payment(1), height };
        let json = PlaceWanted { tx }.answer(None).describe(&rpc, tip, None).unwrap();
        let block = report(tip, height).describe(&vec![], None);
        assert_eq!(json.confirmations, block.confirmations);
        assert!(json.in_active_chain && json.confirmations > 0);
    }
}

#[test]
fn each_block_above_adds_a_confirmation() {
    let confirmations = |height| report(50, height).describe(&vec![], None).confirmations;
    assert_eq!(confirmations(50), 1);
    assert_eq!(confirmations(49), 2);
    assert_eq!(confirmations(0), 51);
}

#[test]
fn every_input_and_output_is_shown() {
    let rpc = RpcImpl { network: Network::Regtest, block_filter_storage: false };
    let tx = CachedTransaction { tx: payment(3), height: 0 };
    let json = PlaceWanted { tx }.answer(None).describe(&rpc, 0, None).unwrap();
    assert_eq!(json.vin.len(), 1);
    assert_eq!(json.vin[0].txid, "09".repeat(32));
    assert_eq!(json.vin[0].vout, 3);
    assert_eq!(json.locktime, 5);
    let shown: Vec<(u32, u64)> = json.vout.iter().map(|output| (output.n, output.value)).collect();
    assert_eq!(shown, vec![(0, 10), (1, 11), (2, 12)]);
    assert!(json.vout.iter().all(|output| output.script_pub_key.type_ == "v0_p2wpkh"));
}

#[test]
fn size_of_a_transaction_is_the_length_of_its_encoding() {
    let rpc = RpcImpl { network: Network::Regtest, block_filter_storage: false };
    let tx = CachedTransaction { tx: payment(2), height: 0 };
    let json = PlaceWanted { tx }.answer(None).describe(&rpc, 0, None).unwrap();
    assert_eq!(json.size as usize * 2, json.hex.len());
    assert_eq!(read_hex(&json.hex).unwrap(), *payment(2).bytes());
}

#[test]
fn size_of_a_block_is_the_length_of_its_encoding() {
    let json = report(1, 1).describe(&vec![], None);
    assert_eq!(json.weight, 3 * json.strippedsize + json.size);
    assert_eq!(json.n_tx, json.tx.len());
    assert_eq!(json.n_tx, 3);
    let lookup = BlockLookup {
        hash: BlockHash { bytes: [0; 32] },
        verbosity: Some(0),
        network: Network::Regtest,
    };
    match lookup.downloaded(Some(block())).unwrap() {
        BlockStep::Hex(text) => {
            assert_eq!(text.len(), 2 * json.size);
            assert!(text.starts_with("00000020"));
        }
        other => panic!("{:?}", other),
    }
}

#[test]
fn no_verbosity_is_a_verbosity_of_one() {
    let step = |verbosity| {
        let lookup = BlockLookup {
            hash: BlockHash { bytes: [0; 32] },
            verbosity,
            network: Network::Regtest,
        };
        lookup.downloaded(Some(block()))
    };
    assert_eq!(step(None), step(Some(1)));
    assert_ne!(step(None), step(Some(2)));
    assert_eq!(step(Some(0)), step(Some(2)));
}

#[test]
fn ports_are_told_apart() {
    for left in NETWORKS {
        for right in NETWORKS {
            assert_eq!(RpcImpl::get_port(&left) == RpcImpl::get_port(&right), left == right);
            assert_eq!(get_default_port(left) == get_default_port(right), left == right);
            assert_ne!(RpcImpl::get_port(&left), get_default_port(right));
        }
    }
}

#[test]
fn hashes_are_told_apart() {
    let shown = |byte: usize| {
        let mut hash = [0u8; 32];
        hash[byte] = 1;
        let next = Some(BlockHash { bytes: hash });
        report(1, 1).describe(&vec![], next).nextblockhash.unwrap()
    };
    assert_ne!(shown(0), shown(31));
    assert_eq!(shown(0), format!("{}01", "00".repeat(31)));
    assert_eq!(shown(31), format!("01{}", "00".repeat(31)));
}
