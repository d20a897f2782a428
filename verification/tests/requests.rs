use florestad_rpc::info::{BestHeaderWanted, SyncState};
use florestad_rpc::primitives::{BlockHash, BlockHeader, Network, Txid};
use florestad_rpc::requests::{DescriptorRescan, FilterWanted, LoadStep};
use florestad_rpc::res::{Error, Progress, RpcError};
use florestad_rpc::server::{Rpc, RpcImpl};

fn rpc() -> RpcImpl {
    RpcImpl { network: Network::Signet, block_filter_storage: true }
}

fn header(bits: u32) -> BlockHeader {
    BlockHeader {
        version: 1,
        prev_blockhash: BlockHash { bytes: [1; 32] },
        merkle_root: [2; 32],
        time: 1700000000,
        bits,
        nonce: 3,
    }
}

#[test]
fn server_listens_on_the_loopback_address() {
    let config = RpcImpl::create(&Network::Testnet, Network::Signet, true);
    assert_eq!(config.address, [127, 0, 0, 1]);
    assert_eq!(config.port, 18332);
    assert_eq!(config.threads, 1);
    assert_eq!(config.rpc, rpc());
}

#[test]
fn each_network_has_a_port() {
    assert_eq!(RpcImpl::get_port(&Network::Bitcoin), 8332);
    assert_eq!(RpcImpl::get_port(&Network::Testnet), 18332);
    assert_eq!(RpcImpl::get_port(&Network::Signet), 38332);
    assert_eq!(RpcImpl::get_port(&Network::Regtest), 18442);
}

#[test]
fn filter_is_answered_in_hexadecimal() {
    let wanted = rpc().get_block_filter(12).unwrap();
    assert_eq!(wanted, FilterWanted { height: 12 });
    assert_eq!(wanted.answer(Some(vec![0x00, 0xab, 0xff])), Ok("00abff".to_string()));
    assert_eq!(wanted.answer(Some(vec![])), Ok("".to_string()));
    assert_eq!(wanted.answer(None), Err(RpcError::Api(Error::BlockNotFound)));
}

#[test]
fn filter_needs_block_filters() {
    let rpc = RpcImpl { network: Network::Bitcoin, block_filter_storage: false };
    assert_eq!(rpc.get_block_filter(12), Err(RpcError::Api(Error::NoBlockFilters)));
}

#[test]
fn block_hash_is_answered() {
    let wanted = rpc().get_block_hash(5);
    assert_eq!(wanted.height, 5);
    let hash = BlockHash { bytes: [5; 32] };
    assert_eq!(wanted.answer(Some(hash)), Ok(hash));
    assert_eq!(wanted.answer(None), Err(RpcError::Api(Error::BlockNotFound)));
}

#[test]
fn block_header_is_answered() {
    let hash = BlockHash { bytes: [5; 32] };
    let wanted = rpc().get_block_header(hash);
    assert_eq!(wanted.hash, hash);
    assert_eq!(wanted.answer(Some(header(1))), Ok(header(1)));
    assert_eq!(wanted.answer(None), Err(RpcError::Api(Error::BlockNotFound)));
}

#[test]
fn proof_is_answered() {
    let wanted = rpc().get_tx_proof(Txid { bytes: [6; 32] });
    assert_eq!(wanted.tx_id, Txid { bytes: [6; 32] });
    assert_eq!(wanted.answer(Some(vec!["aa".to_string()])), Ok(vec!["aa".to_string()]));
    assert_eq!(wanted.answer(None), Err(RpcError::Api(Error::TxNotFound)));
}

#[test]
fn rescan_is_answered() {
    let wanted = rpc().rescan(77);
    assert_eq!(wanted.start, 77);
    assert_eq!(wanted.answer(true), Ok(true));
    assert_eq!(wanted.answer(false), Err(RpcError::Api(Error::Chain)));
}

#[test]
fn descriptor_is_loaded_without_a_rescan() {
    let push = rpc().load_descriptor("wpkh(k)".to_string(), None);
    assert_eq!(push.descriptor, "wpkh(k)");
    assert_eq!(push.pushed(true), LoadStep::Reply(Ok(())));
    let push = rpc().load_descriptor("wpkh(".to_string(), None);
    let refused = LoadStep::Reply(Err(RpcError::Api(Error::InvalidDescriptor)));
    assert_eq!(push.pushed(false), refused);
}

#[test]
fn failed_rescan_counts_before_a_refused_descriptor() {
    for (accepted, started, expected) in [
        (true, true, Ok(())),
        (false, true, Err(RpcError::Api(Error::InvalidDescriptor))),
        (true, false, Err(RpcError::Internal)),
        (false, false, Err(RpcError::Internal)),
    ] {
        let push = rpc().load_descriptor("wpkh(k)".to_string(), Some(9));
        match push.pushed(accepted) {
            LoadStep::Rescan(rescan) => {
                assert_eq!(rescan, DescriptorRescan { start: 9, accepted });
                assert_eq!(rescan.answer(started), expected);
            }
            other => panic!("{:?}", other),
        }
    }
}

#[test]
fn height_is_that_of_the_best_block() {
    assert_eq!(rpc().get_height((44, BlockHash { bytes: [1; 32] })), Ok(44));
}

#[test]
fn roots_are_answered_as_shown() {
    let hashes = vec!["aa".to_string(), "bb".to_string()];
    assert_eq!(rpc().get_roots(hashes.clone()), Ok(hashes));
}

#[test]
fn peers_are_answered() {
    assert_eq!(rpc().get_peer_info(Some(vec![1u8, 2])), Ok(vec![1, 2]));
    let none: Option<Vec<u8>> = None;
    assert_eq!(rpc().get_peer_info(none), Err(RpcError::Api(Error::TxNotFound)));
}

#[test]
fn stop_sets_the_signal() {
    let mut signal = false;
    assert_eq!(rpc().stop(&mut signal), Ok(true));
    assert!(signal);
    assert_eq!(rpc().stop(&mut signal), Ok(true));
    assert!(signal);
}

#[test]
fn chain_is_described() {
    let mut hash = [0u8; 32];
    hash[0] = 0xfe;
    let wanted = rpc().get_blockchain_info().answer(1000, BlockHash { bytes: hash });
    let state = SyncState {
        validated: 900,
        ibd: true,
        leaves: 0x1_0000_0005,
        roots: vec!["r1".to_string(), "r2".to_string()],
    };
    let info = wanted.describe(header(0x1a06d450), state);
    assert_eq!(info.best_block, format!("{}fe", "0".repeat(62)));
    assert_eq!(info.height, 1000);
    assert!(info.ibd);
    assert_eq!(info.validated, 900);
    assert_eq!(info.latest_work, format!("0x{}257c3becdacc64", "0".repeat(50)));
    assert_eq!(info.latest_block_time, 1700000000);
    assert_eq!(info.leaf_count, 5);
    assert_eq!(info.root_count, 2);
    assert_eq!(info.root_hashes, vec!["r1".to_string(), "r2".to_string()]);
    assert_eq!(info.chain, "signet");
    assert_eq!(info.difficulty, 2456598);
    assert_eq!(info.progress, Progress { validated: 900, height: 1000 });
}

#[test]
fn chains_have_names() {
    for (network, name) in [
        (Network::Bitcoin, "bitcoin"),
        (Network::Testnet, "testnet"),
        (Network::Signet, "signet"),
        (Network::Regtest, "regtest"),
    ] {
        let wanted = BestHeaderWanted { network, height: 0, hash: BlockHash { bytes: [0; 32] } };
        let state = SyncState { validated: 0, ibd: false, leaves: 0, roots: vec![] };
        let info = wanted.describe(header(0x207fffff), state);
        assert_eq!(info.chain, name);
        assert_eq!(info.difficulty, 0);
        assert_eq!(info.latest_work, format!("0x{}2", "0".repeat(63)));
    }
}
