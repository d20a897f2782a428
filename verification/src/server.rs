//! The server: its configuration, and how each request starts.

use vstd::prelude::*;

use crate::block::BlockLookup;
use crate::broadcast::{submit, submitted, Broadcast};
use crate::info::BestBlockWanted;
use crate::peers::{host_of, peer_port, split_node, AddressWanted};
use crate::primitives::{BlockHash, Network, OutPoint, Txid};
use crate::requests::{
    BlockHashWanted, BlockHeaderWanted, DescriptorPush, FilterWanted, ProofWanted, RescanWanted,
};
use crate::res::{Error, RpcError, RpcErrorView};
use crate::transaction::TransactionLookup;
use crate::tx_out::TxOutSearch;

verus! {

/// What answers requests: the chain that the node follows, and whether it keeps block
/// filters.
#[derive(Clone, Copy, PartialEq, Eq, Structural, Debug)]
pub struct RpcImpl {
    pub network: Network,
    pub block_filter_storage: bool,
}

/// The requests of the interface. A method gives the first thing to ask of the chain, the
/// wallet or the node, or an error if there is no need to ask. Where a request has nothing to
/// say before one thing is asked, its method takes what came back and gives the reply.
pub trait Rpc {
    /// `getblockfilter`
    fn get_block_filter(&self, heigth: u32) -> Result<FilterWanted, RpcError>;

    /// `getblockchaininfo`
    fn get_blockchain_info(&self) -> BestBlockWanted;

    /// `getblockhash`
    fn get_block_hash(&self, height: u32) -> BlockHashWanted;

    /// `getblockheader`
    fn get_block_header(&self, hash: BlockHash) -> BlockHeaderWanted;

    /// `gettransaction`
    fn get_transaction(&self, tx_id: Txid, verbosity: Option<bool>) -> TransactionLookup;

    /// `gettxproof`
    fn get_tx_proof(&self, tx_id: Txid) -> ProofWanted;

    /// `loaddescriptor`
    fn load_descriptor(&self, descriptor: String, rescan: Option<u32>) -> DescriptorPush;

    /// `rescan`
    fn rescan(&self, rescan: u32) -> RescanWanted;

    /// `getheight`, given the chain's best block
    fn get_height(&self, best_block: (u32, BlockHash)) -> Result<u32, RpcError>;

    /// `sendrawtransaction`
    fn send_raw_transaction(&self, tx: String) -> Result<Broadcast, RpcError>;

    /// `getroots`, given the roots of the accumulator, as the chain shows them
    fn get_roots(&self, hashes: Vec<String>) -> Result<Vec<String>, RpcError>;

    /// `getpeerinfo`, given the peers that the node gives, if it gives them
    fn get_peer_info<P>(&self, peers: Option<Vec<P>>) -> Result<Vec<P>, RpcError>;

    /// `getblock`
    fn get_block(&self, hash: BlockHash, verbosity: Option<u8>) -> BlockLookup;

    /// `gettxout`
    fn get_tx_out(&self, tx_id: Txid, outpoint: u32) -> Result<TxOutSearch, RpcError>;

    /// `stop`
    fn stop(&self, kill_signal: &mut bool) -> Result<bool, RpcError>;

    /// `addnode`
    fn add_node(&self, node: String) -> Result<AddressWanted, RpcError>;
}

impl Rpc for RpcImpl {
    fn get_tx_out(&self, tx_id: Txid, outpoint: u32) -> (search: Result<TxOutSearch, RpcError>)
        ensures
            if self.block_filter_storage {
                search == Ok::<TxOutSearch, RpcError>(
                    TxOutSearch { outpoint: OutPoint { txid: tx_id, vout: outpoint } },
                )
            } else {
                search matches Err(error) && error@ == RpcErrorView::Api(Error::NoBlockFilters)
            },
    {
        if !self.block_filter_storage {
            return Err(RpcError::Api(Error::NoBlockFilters));
        }
        Ok(TxOutSearch { outpoint: OutPoint { txid: tx_id, vout: outpoint } })
    }

    fn get_height(&self, best_block: (u32, BlockHash)) -> (reply: Result<u32, RpcError>)
        ensures
            reply == Ok::<u32, RpcError>(best_block.0),
    {
        Ok(best_block.0)
    }

    fn get_block_filter(&self, heigth: u32) -> (wanted: Result<FilterWanted, RpcError>)
        ensures
            if self.block_filter_storage {
                wanted == Ok::<FilterWanted, RpcError>(FilterWanted { height: heigth })
            } else {
                wanted matches Err(error) && error@ == RpcErrorView::Api(Error::NoBlockFilters)
            },
    {
        if self.block_filter_storage {
            return Ok(FilterWanted { height: heigth });
        }
        Err(RpcError::Api(Error::NoBlockFilters))
    }

    fn add_node(&self, node: String) -> (wanted: Result<AddressWanted, RpcError>)
        ensures
            match peer_port(node@, self.network) {
                Some(port) => wanted matches Ok(wanted) && wanted.ip@ == host_of(node@)
                    && wanted.port == port,
                None => wanted matches Err(error) && error@ == RpcErrorView::Api(
                    Error::InvalidPort,
                ),
            },
    {
        split_node(node.as_str(), self.network)
    }

    fn get_blockchain_info(&self) -> (wanted: BestBlockWanted)
        ensures
            wanted == (BestBlockWanted { network: self.network }),
    {
        BestBlockWanted { network: self.network }
    }

    fn get_roots(&self, hashes: Vec<String>) -> (reply: Result<Vec<String>, RpcError>)
        ensures
            reply == Ok::<Vec<String>, RpcError>(hashes),
    {
        Ok(hashes)
    }

    fn get_block_hash(&self, height: u32) -> (wanted: BlockHashWanted)
        ensures
            wanted == (BlockHashWanted { height }),
    {
        BlockHashWanted { height }
    }

    fn get_block_header(&self, hash: BlockHash) -> (wanted: BlockHeaderWanted)
        ensures
            wanted == (BlockHeaderWanted { hash }),
    {
        BlockHeaderWanted { hash }
    }

    fn get_transaction(&self, tx_id: Txid, verbosity: Option<bool>) -> (lookup: TransactionLookup)
        ensures
            lookup == (TransactionLookup { tx_id, verbosity }),
    {
        TransactionLookup { tx_id, verbosity }
    }

    fn load_descriptor(&self, descriptor: String, rescan: Option<u32>) -> (push: DescriptorPush)
        ensures
            push == (DescriptorPush { descriptor, rescan }),
    {
        DescriptorPush { descriptor, rescan }
    }

    fn rescan(&self, rescan: u32) -> (wanted: RescanWanted)
        ensures
            wanted == (RescanWanted { start: rescan }),
    {
        RescanWanted { start: rescan }
    }

    fn send_raw_transaction(&self, tx: String) -> (taken: Result<Broadcast, RpcError>)
        ensures
            match submitted(tx@) {
                Ok(raw) => taken matches Ok(broadcast) && broadcast.tx@ == raw,
                Err(expected) => taken matches Err(error) && error@ == expected,
            },
    {
        submit(tx.as_str())
    }

    fn get_tx_proof(&self, tx_id: Txid) -> (wanted: ProofWanted)
        ensures
            wanted == (ProofWanted { tx_id }),
    {
        ProofWanted { tx_id }
    }

    fn get_block(&self, hash: BlockHash, verbosity: Option<u8>) -> (lookup: BlockLookup)
        ensures
            lookup == (BlockLookup { hash, verbosity, network: self.network }),
    {
        BlockLookup { hash, verbosity, network: self.network }
    }

    fn get_peer_info<P>(&self, peers: Option<Vec<P>>) -> (reply: Result<Vec<P>, RpcError>)
        ensures
            match peers {
                Some(peers) => reply == Ok::<Vec<P>, RpcError>(peers),
                None => reply matches Err(error) && error@ == RpcErrorView::Api(Error::TxNotFound),
            },
    {
        match peers {
            Some(peers) => Ok(peers),
            None => Err(RpcError::Api(Error::TxNotFound)),
        }
    }

    fn stop(&self, kill_signal: &mut bool) -> (reply: Result<bool, RpcError>)
        ensures
            *final(kill_signal),
            reply == Ok::<bool, RpcError>(true),
    {
        *kill_signal = true;
        Ok(true)
    }
}

/// The port on which the server of a network listens.
pub open spec fn rpc_port(net: Network) -> u16 {
    match net {
        Network::Bitcoin => 8332,
        Network::Testnet => 18332,
        Network::Signet => 38332,
        Network::Regtest => 18442,
    }
}

/// Where the server listens, with how many threads, and what answers its requests.
#[derive(Clone, Copy, PartialEq, Eq, Debug)]
pub struct ServerConfig {
    pub address: [u8; 4],
    pub port: u16,
    pub threads: usize,
    pub rpc: RpcImpl,
}

impl RpcImpl {
    /// The port on which the server of a network listens.
    pub fn get_port(net: &Network) -> (port: u16)
        ensures
            port == rpc_port(*net),
    {
        match net {
            Network::Bitcoin => 8332,
            Network::Testnet => 18332,
            Network::Signet => 38332,
            Network::Regtest => 18442,
        }
    }

    /// Sets the server up: on the loopback address, on the port of `net`, with one thread,
    /// answering for the chain of `network`.
    pub fn create(net: &Network, network: Network, block_filter_storage: bool) -> (config:
        ServerConfig)
        ensures
            config.address@ == seq![127u8, 0u8, 0u8, 1u8],
            config.port == rpc_port(*net),
            config.threads == 1,
            config.rpc == (RpcImpl { network, block_filter_storage }),
    {
        let address = [127u8, 0u8, 0u8, 1u8];
        assert(address@ =~= seq![127u8, 0u8, 0u8, 1u8]);
        ServerConfig {
            address,
            port: Self::get_port(net),
            threads: 1,
            rpc: RpcImpl { network, block_filter_storage },
        }
    }
}

} // verus!
