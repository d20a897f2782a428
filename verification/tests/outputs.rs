use florestad_rpc::broadcast::read_hex;
use florestad_rpc::ledger::{Block, Transaction};
use florestad_rpc::primitives::{
    BlockHash, BlockHeader, Network, OutPoint, TransactionData, TxIn, TxOut, Txid,
};
use florestad_rpc::res::{Error, RpcError};
use florestad_rpc::server::{Rpc, RpcImpl};
use florestad_rpc::tx_out::{
    has_input, scan, scan_block, FilterQuery, NodeError, TxOutSearch, TxOutStep,
};

const LEGACY: &str = "0100000001a15d57094aa7a21a28cb20b59aab8fc7d1149a3bdbcddba9c622e4f5f6a99ece010000006c493046022100f93bb0e7d8db7bd46e40132d1f8242026e045f03a0efe71bbb8e3f475e970d790221009337cd7f1f929f00cc6ff01f03729b069a7c21b59b1736ddfee5db5946c5da8c0121033b9b137ee87d5a812d6f506efdd37f0affa7ffc310711c06c7f3e097c9447c52ffffffff0100e1f505000000001976a9140389035a9225b3839e2bbf32d826a1e222031fd888ac00000000";

fn header() -> BlockHeader {
    BlockHeader {
        version: 1,
        prev_blockhash: BlockHash { bytes: [0; 32] },
        merkle_root: [0; 32],
        time: 0,
        bits: 0,
        nonce: 0,
    }
}

fn creating() -> Transaction {
    Transaction::from_bytes(read_hex(LEGACY).unwrap()).unwrap()
}

fn created() -> TxOut {
    TxOut {
        value: 100_000_000,
        script_pubkey: read_hex("76a9140389035a9225b3839e2bbf32d826a1e222031fd888ac").unwrap(),
    }
}

fn spending(outpoint: &OutPoint) -> Transaction {
    let mut raw = vec![1, 0, 0, 0, 1];
    raw.extend_from_slice(&outpoint.txid.bytes);
    raw.extend_from_slice(&outpoint.vout.to_le_bytes());
    raw.extend_from_slice(&[0, 0xff, 0xff, 0xff, 0xff, 1, 1, 0, 0, 0, 0, 0, 0, 0, 0]);
    raw.extend_from_slice(&[0, 0, 0, 0]);
    Transaction::from_bytes(raw).unwrap()
}

fn with(txdata: Vec<Transaction>) -> Block {
    Block { header: header(), txdata }
}

fn outpoint() -> OutPoint {
    OutPoint { txid: creating().txid(), vout: 0 }
}

fn search() -> TxOutSearch {
    let rpc = RpcImpl { network: Network::Bitcoin, block_filter_storage: true };
    rpc.get_tx_out(outpoint().txid, 0).unwrap()
}

fn run(blocks: Vec<Option<Result<Option<Block>, NodeError>>>) -> Result<Option<TxOut>, RpcError> {
    let heights = (0..blocks.len()).map(|i| 100 + i as u64).collect();
    let mut blocks = blocks.into_iter();
    let mut block = None;
    let mut height = 100;
    let mut step = search().candidates(heights);
    loop {
        step = match step {
            TxOutStep::LookUp(wanted) => {
                assert_eq!(wanted.height, height);
                height += 1;
                block = blocks.next().unwrap();
                let hash = block.as_ref().map(|_| BlockHash { bytes: [height as u8; 32] });
                wanted.answer(hash)
            }
            TxOutStep::Download(wanted) => {
                assert_eq!(wanted.hash, BlockHash { bytes: [height as u8; 32] });
                wanted.answer(block.take().unwrap())
            }
            TxOutStep::Reply(reply) => return reply,
        };
    }
}

#[test]
fn search_needs_block_filters() {
    let rpc = RpcImpl { network: Network::Bitcoin, block_filter_storage: false };
    let refused = rpc.get_tx_out(Txid { bytes: [1; 32] }, 0);
    assert_eq!(refused, Err(RpcError::Api(Error::NoBlockFilters)));
}

#[test]
fn filters_are_matched_up_to_the_tip() {
    let query = search().filter_query(700);
    let expected = FilterQuery {
        start: 1,
        end: 700,
        outpoint: outpoint(),
        txid: outpoint().txid,
    };
    assert_eq!(query, expected);
}

#[test]
fn output_without_candidates_is_not_found() {
    assert_eq!(run(vec![]), Ok(None));
}

#[test]
fn unspent_output_is_found() {
    let blocks = vec![Some(Ok(Some(with(vec![creating()]))))];
    assert_eq!(run(blocks), Ok(Some(created())));
}

#[test]
fn output_that_a_later_block_spends_is_not_found() {
    let blocks = vec![
        Some(Ok(Some(with(vec![creating()])))),
        Some(Ok(Some(with(vec![spending(&outpoint())])))),
    ];
    assert_eq!(run(blocks), Ok(None));
}

#[test]
fn output_that_its_own_block_spends_is_not_found() {
    let blocks = vec![Some(Ok(Some(with(vec![creating(), spending(&outpoint())]))))];
    assert_eq!(run(blocks), Ok(None));
}

#[test]
fn unrelated_blocks_make_no_difference() {
    let other = OutPoint { txid: outpoint().txid, vout: 1 };
    let blocks = vec![
        Some(Ok(Some(with(vec![])))),
        Some(Ok(Some(with(vec![spending(&other), creating()])))),
        Some(Ok(Some(with(vec![spending(&other)])))),
    ];
    assert_eq!(run(blocks), Ok(Some(created())));
}

#[test]
fn output_that_is_never_created_is_not_found() {
    let other = OutPoint { txid: outpoint().txid, vout: 1 };
    let blocks = vec![Some(Ok(Some(with(vec![spending(&other)]))))];
    assert_eq!(run(blocks), Ok(None));
}

#[test]
fn candidates_without_a_hash_are_passed_over() {
    let blocks = vec![None, Some(Ok(Some(with(vec![creating()])))), None];
    assert_eq!(run(blocks), Ok(Some(created())));
}

#[test]
fn failed_download_ends_the_search() {
    let error = NodeError { debug: "Timeout".to_string(), display: "timed out".to_string() };
    let blocks = vec![
        Some(Ok(Some(with(vec![creating()])))),
        Some(Err(error)),
        Some(Ok(None)),
    ];
    let expected = RpcError::Detailed {
        error: Error::Node,
        message: "error while downloading block Err(Timeout)".to_string(),
        data: Some("timed out".to_string()),
    };
    assert_eq!(run(blocks), Err(expected));
}

#[test]
fn missing_block_ends_the_search() {
    let expected = RpcError::Detailed {
        error: Error::Node,
        message: "BUG: block Ok(None) is a match in our filters, but we can't get it?".to_string(),
        data: None,
    };
    assert_eq!(run(vec![Some(Ok(None)), None]), Err(expected));
}

#[test]
fn output_index_beyond_the_transaction_is_not_found() {
    let beyond = OutPoint { txid: outpoint().txid, vout: 1 };
    let block = with(vec![creating()]);
    assert_eq!(scan_block(&block, &beyond, None), None);
    assert_eq!(scan_block(&block, &beyond, Some(created())), None);
    assert_eq!(scan_block(&block, &outpoint(), None), Some(created()));
    let last = OutPoint { txid: outpoint().txid, vout: u32::MAX };
    assert_eq!(scan_block(&block, &last, None), None);
}

#[test]
fn scan_goes_by_the_given_identifiers() {
    let data = |value: u64| TransactionData {
        version: 1,
        lock_time: 0,
        input: vec![],
        output: vec![TxOut { value, script_pubkey: vec![] }],
    };
    let (first, second) = (data(1), data(2));
    let id = Txid { bytes: [7; 32] };
    let wanted = OutPoint { txid: id, vout: 0 };
    let ids = vec![id, id];
    let found = scan(&ids, &vec![&first, &second], &wanted, None);
    assert_eq!(found.unwrap().value, 1);
    let ids = vec![Txid { bytes: [8; 32] }, id];
    let found = scan(&ids, &vec![&first, &second], &wanted, None);
    assert_eq!(found.unwrap().value, 2);
    let found = scan(&vec![], &vec![], &wanted, Some(created()));
    assert_eq!(found, Some(created()));
}

#[test]
fn inputs_are_compared_by_identifier_and_index() {
    let spends = |txid: [u8; 32], vout: u32| TransactionData {
        version: 1,
        lock_time: 0,
        input: vec![TxIn {
            previous_output: OutPoint { txid: Txid { bytes: txid }, vout },
            script_sig: vec![],
            sequence: 0,
            witness: vec![],
        }],
        output: vec![],
    };
    let wanted = OutPoint { txid: Txid { bytes: [7; 32] }, vout: 3 };
    let mut near = [7; 32];
    near[31] = 8;
    let (right, wrong_index, wrong_id) = (spends([7; 32], 3), spends([7; 32], 2), spends(near, 3));
    assert!(!has_input(&vec![], &wanted));
    assert!(!has_input(&vec![&wrong_index, &wrong_id], &wanted));
    assert!(has_input(&vec![&wrong_index, &wrong_id, &right], &wanted));
}
