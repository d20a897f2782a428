//! Describing the state of the chain.

use vstd::prelude::*;

use crate::consensus::{block_difficulty, compact_target, difficulty_of, work_text, work_text_of};
use crate::primitives::{BlockHash, BlockHeader, BlockHeaderView, Network};
use crate::res::{texts, GetBlockchainInfoRes, GetBlockchainInfoView, Progress};
use crate::text::{hash_hex, hash_to_hex};

verus! {

/// The name of a network.
pub open spec fn network_name(network: Network) -> Seq<char> {
    match network {
        Network::Bitcoin => "bitcoin"@,
        Network::Testnet => "testnet"@,
        Network::Signet => "signet"@,
        Network::Regtest => "regtest"@,
    }
}

/// The `Display` of `Network` of `bitcoin`: the network's name.
#[verifier::external_body]
pub(crate) fn network_name_of(network: Network) -> (name: String)
    ensures
        name@ == network_name(network),
{
    let network = match network {
        Network::Bitcoin => bitcoin::Network::Bitcoin,
        Network::Testnet => bitcoin::Network::Testnet,
        Network::Signet => bitcoin::Network::Signet,
        Network::Regtest => bitcoin::Network::Regtest,
    };
    network.to_string()
}

/// A request for the state of the chain, before the chain has been asked for its best block.
#[derive(Clone, Copy, PartialEq, Eq, Structural, Debug)]
pub struct BestBlockWanted {
    pub network: Network,
}

/// A request for the state of the chain, before the chain has been asked for the header of
/// its best block.
#[derive(Clone, Copy, PartialEq, Eq, Debug)]
pub struct BestHeaderWanted {
    pub network: Network,
    pub height: u32,
    pub hash: BlockHash,
}

/// How far the node has come: the height up to which it has validated, whether it is still in
/// its initial download, and the leaves and roots of its accumulator.
#[derive(PartialEq, Eq, Debug)]
pub struct SyncState {
    pub validated: u32,
    pub ibd: bool,
    pub leaves: u64,
    pub roots: Vec<String>,
}

#[verifier::ext_equal]
pub struct SyncStateView {
    pub validated: u32,
    pub ibd: bool,
    pub leaves: u64,
    pub roots: Seq<Seq<char>>,
}

impl View for SyncState {
    type V = SyncStateView;

    open spec fn view(&self) -> SyncStateView {
        SyncStateView {
            validated: self.validated,
            ibd: self.ibd,
            leaves: self.leaves,
            roots: texts(self.roots@),
        }
    }
}

/// How the state of the chain is described. The counts are those of the accumulator, in 32
/// bits.
pub open spec fn chain_info(
    network: Network,
    height: u32,
    hash: Seq<u8>,
    header: BlockHeaderView,
    state: SyncStateView,
) -> GetBlockchainInfoView {
    GetBlockchainInfoView {
        best_block: hash_hex(hash),
        height,
        ibd: state.ibd,
        validated: state.validated,
        latest_work: work_text(header.bits),
        latest_block_time: header.time,
        leaf_count: state.leaves as u32,
        root_count: state.roots.len() as u32,
        root_hashes: state.roots,
        chain: network_name(network),
        difficulty: block_difficulty(header.bits) as u64,
        progress: Progress { validated: state.validated, height },
    }
}

impl BestBlockWanted {
    /// Goes on with the chain's best block.
    pub fn answer(self, height: u32, hash: BlockHash) -> (next: BestHeaderWanted)
        ensures
            next == (BestHeaderWanted { network: self.network, height, hash }),
    {
        BestHeaderWanted { network: self.network, height, hash }
    }
}

impl BestHeaderWanted {
    /// Describes the state of the chain, given the header of the best block.
    pub fn describe(self, header: BlockHeader, state: SyncState) -> (info: GetBlockchainInfoRes)
        requires
            compact_target(header.bits) != 0,
        ensures
            info@ == chain_info(self.network, self.height, self.hash@, header@, state@),
    {
        GetBlockchainInfoRes {
            best_block: hash_to_hex(&self.hash.bytes),
            height: self.height,
            ibd: state.ibd,
            validated: state.validated,
            latest_work: work_text_of(&header),
            latest_block_time: header.time,
            leaf_count: state.leaves as u32,
            root_count: state.roots.len() as u32,
            root_hashes: state.roots,
            chain: network_name_of(self.network),
            difficulty: difficulty_of(&header, self.network),
            progress: Progress { validated: state.validated, height: self.height },
        }
    }
}

} // verus!
