//! Requests that the chain, the wallet or the node answers in one or two steps.

use vstd::prelude::*;

use crate::primitives::{BlockHash, BlockHeader, Txid};
use crate::res::{Error, RpcError, RpcErrorView};
use crate::text::{bytes_to_hex, hex};

verus! {

/// A request for the filter of the block at a height.
#[derive(Clone, Copy, PartialEq, Eq, Structural, Debug)]
pub struct FilterWanted {
    pub height: u32,
}

impl FilterWanted {
    /// Answers with the content of the filter, in hexadecimal.
    pub fn answer(self, content: Option<Vec<u8>>) -> (reply: Result<String, RpcError>)
        ensures
            match content {
                Some(content) => reply matches Ok(text) && text@ == hex(content@),
                None => reply matches Err(error) && error@ == RpcErrorView::Api(
                    Error::BlockNotFound,
                ),
            },
    {
        match content {
            Some(content) => Ok(bytes_to_hex(&content)),
            None => Err(RpcError::Api(Error::BlockNotFound)),
        }
    }
}

/// A request for the hash of the block at a height.
#[derive(Clone, Copy, PartialEq, Eq, Structural, Debug)]
pub struct BlockHashWanted {
    pub height: u32,
}

impl BlockHashWanted {
    /// Answers with the hash that the chain gives.
    pub fn answer(self, found: Option<BlockHash>) -> (reply: Result<BlockHash, RpcError>)
        ensures
            match found {
                Some(hash) => reply == Ok::<BlockHash, RpcError>(hash),
                None => reply matches Err(error) && error@ == RpcErrorView::Api(
                    Error::BlockNotFound,
                ),
            },
    {
        match found {
            Some(hash) => Ok(hash),
            None => Err(RpcError::Api(Error::BlockNotFound)),
        }
    }
}

/// A request for the header of a block.
#[derive(Clone, Copy, PartialEq, Eq, Debug)]
pub struct BlockHeaderWanted {
    pub hash: BlockHash,
}

impl BlockHeaderWanted {
    /// Answers with the header that the chain gives.
    pub fn answer(self, found: Option<BlockHeader>) -> (reply: Result<BlockHeader, RpcError>)
        ensures
            match found {
                Some(header) => reply == Ok::<BlockHeader, RpcError>(header),
                None => reply matches Err(error) && error@ == RpcErrorView::Api(
                    Error::BlockNotFound,
                ),
            },
    {
        match found {
            Some(header) => Ok(header),
            None => Err(RpcError::Api(Error::BlockNotFound)),
        }
    }
}

/// A request for the proof that a transaction of the wallet is in a block.
#[derive(Clone, Copy, PartialEq, Eq, Debug)]
pub struct ProofWanted {
    pub tx_id: Txid,
}

impl ProofWanted {
    /// Answers with the hashes of the proof that the wallet has.
    pub fn answer(self, found: Option<Vec<String>>) -> (reply: Result<Vec<String>, RpcError>)
        ensures
            match found {
                Some(hashes) => reply == Ok::<Vec<String>, RpcError>(hashes),
                None => reply matches Err(error) && error@ == RpcErrorView::Api(Error::TxNotFound),
            },
    {
        match found {
            Some(hashes) => Ok(hashes),
            None => Err(RpcError::Api(Error::TxNotFound)),
        }
    }
}

/// A request to rescan the chain from a height on.
#[derive(Clone, Copy, PartialEq, Eq, Structural, Debug)]
pub struct RescanWanted {
    pub start: u32,
}

impl RescanWanted {
    /// Answers with whether the chain has taken up the rescan.
    pub fn answer(self, started: bool) -> (reply: Result<bool, RpcError>)
        ensures
            if started {
                reply == Ok::<bool, RpcError>(true)
            } else {
                reply matches Err(error) && error@ == RpcErrorView::Api(Error::Chain)
            },
    {
        if started {
            Ok(true)
        } else {
            Err(RpcError::Api(Error::Chain))
        }
    }
}

/// A request to load a descriptor into the wallet, and perhaps to rescan the chain.
#[derive(PartialEq, Eq, Debug)]
pub struct DescriptorPush {
    pub descriptor: String,
    pub rescan: Option<u32>,
}

/// A descriptor has been handed to the wallet, and the chain is to be rescanned.
#[derive(Clone, Copy, PartialEq, Eq, Structural, Debug)]
pub struct DescriptorRescan {
    pub start: u32,
    pub accepted: bool,
}

/// What is left of loading a descriptor.
#[derive(PartialEq, Eq, Debug)]
pub enum LoadStep {
    Rescan(DescriptorRescan),
    Reply(Result<(), RpcError>),
}

/// What loading a descriptor is answered with, given what the wallet said to it and, where a
/// rescan was asked for, what the chain said to that. A failed rescan counts first.
pub open spec fn load_reply(accepted: bool, rescan: Option<bool>) -> Result<(), RpcErrorView> {
    if rescan == Some(false) {
        Err(RpcErrorView::Internal)
    } else if !accepted {
        Err(RpcErrorView::Api(Error::InvalidDescriptor))
    } else {
        Ok(())
    }
}

/// The view of an answer to loading a descriptor.
pub open spec fn load_view(reply: Result<(), RpcError>) -> Result<(), RpcErrorView> {
    match reply {
        Ok(_) => Ok(()),
        Err(error) => Err(error@),
    }
}

impl DescriptorPush {
    /// Goes on with whether the wallet has taken the descriptor. The chain is rescanned,
    /// where that was asked for, even if the wallet has not.
    pub fn pushed(self, accepted: bool) -> (step: LoadStep)
        ensures
            match self.rescan {
                Some(start) => step == LoadStep::Rescan(DescriptorRescan { start, accepted }),
                None => step matches LoadStep::Reply(reply) && load_view(reply) == load_reply(
                    accepted,
                    None,
                ),
            },
    {
        match self.rescan {
            Some(start) => LoadStep::Rescan(DescriptorRescan { start, accepted }),
            None => {
                if accepted {
                    LoadStep::Reply(Ok(()))
                } else {
                    LoadStep::Reply(Err(RpcError::Api(Error::InvalidDescriptor)))
                }
            },
        }
    }
}

impl DescriptorRescan {
    /// Answers with what the wallet said, once the chain has taken up the rescan.
    pub fn answer(self, started: bool) -> (reply: Result<(), RpcError>)
        ensures
            load_view(reply) == load_reply(self.accepted, Some(started)),
    {
        if !started {
            return Err(RpcError::Internal);
        }
        if !self.accepted {
            return Err(RpcError::Api(Error::InvalidDescriptor));
        }
        Ok(())
    }
}

} // verus!
