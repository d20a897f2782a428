//! Answering a request for a block.

use vstd::prelude::*;

use crate::consensus::{
    block_difficulty, block_encoding, block_hash_of, block_size, block_size_of,
    block_strippedsize, block_strippedsize_of, block_weight, block_weight_of, compact_target,
    difficulty_of, encode_block, header_hash, law_weight_counts_witness_data_once, work_text,
    work_text_of,
};
use crate::ledger::{block_txids, txid_views, Block, BlockView};
use crate::median::{find_median_time_past, median_time_past};
use crate::primitives::{BlockHash, BlockHeader, BlockHeaderView, Network, Txid};
use crate::res::{texts, BlockJson, BlockJsonView, Error, RpcError, RpcErrorView};
use crate::target::has_target;
use crate::text::{
    bytes_to_hex, hash_hex, hash_to_hex, hex, i32_to_lower_hex, lower_hex, twos_complement,
    u32_to_lower_hex,
};
use crate::tx_out::hash_view;

verus! {

/// A request for a block, before the node has been asked.
#[derive(Clone, Copy, PartialEq, Eq, Debug)]
pub struct BlockLookup {
    pub hash: BlockHash,
    pub verbosity: Option<u8>,
    pub network: Network,
}

/// A block to describe, before the chain has been asked for its tip.
#[derive(PartialEq, Eq, Debug)]
pub struct TipWanted {
    pub hash: BlockHash,
    pub network: Network,
    pub block: Block,
}

/// A block to describe, before the chain has been asked for the block's height.
#[derive(PartialEq, Eq, Debug)]
pub struct HeightWanted {
    pub hash: BlockHash,
    pub network: Network,
    pub block: Block,
    pub tip: u32,
}

/// A block to describe, with its place in the chain.
#[derive(PartialEq, Eq, Debug)]
pub struct BlockReport {
    pub network: Network,
    pub block: Block,
    pub tip: u32,
    pub height: u32,
}

/// What a block that the node has is answered with: its encoding in hexadecimal, or a
/// description, for which the chain has to be asked first.
#[derive(PartialEq, Eq, Debug)]
pub enum BlockStep {
    Hex(String),
    Describe(TipWanted),
}

/// Whether a verbosity asks for a description; one that is not given does.
pub open spec fn wants_description(verbosity: Option<u8>) -> bool {
    match verbosity {
        Some(verbosity) => verbosity == 1,
        None => true,
    }
}

impl BlockLookup {
    /// Goes on with the block that the node delivers for the hash, if it delivers one.
    pub fn downloaded(self, found: Option<Block>) -> (step: Result<BlockStep, RpcError>)
        ensures
            match found {
                Some(block) => if wants_description(self.verbosity) {
                    step == Ok::<BlockStep, RpcError>(
                        BlockStep::Describe(
                            TipWanted { hash: self.hash, network: self.network, block },
                        ),
                    )
                } else {
                    step matches Ok(BlockStep::Hex(text)) && text@ == hex(
                        block_encoding(block@.header, block@.txdata),
                    )
                },
                None => step matches Err(error) && error@ == RpcErrorView::Api(
                    Error::BlockNotFound,
                ),
            },
    {
        let verbosity: u8 = self.verbosity.unwrap_or(1);
        match found {
            Some(block) => {
                if verbosity == 1 {
                    return Ok(
                        BlockStep::Describe(
                            TipWanted { hash: self.hash, network: self.network, block },
                        ),
                    );
                }
                let raws = block.encodings();
                let bytes = encode_block(&block.header, &raws);
                Ok(BlockStep::Hex(bytes_to_hex(&bytes)))
            },
            None => Err(RpcError::Api(Error::BlockNotFound)),
        }
    }
}

impl TipWanted {
    /// Goes on with the height of the chain's tip, if the chain gives it.
    pub fn answer(self, tip: Option<u32>) -> (next: Result<HeightWanted, RpcError>)
        ensures
            match tip {
                Some(tip) => next == Ok::<HeightWanted, RpcError>(
                    HeightWanted {
                        hash: self.hash,
                        network: self.network,
                        block: self.block,
                        tip,
                    },
                ),
                None => next matches Err(error) && error@ == RpcErrorView::Api(Error::Chain),
            },
    {
        match tip {
            Some(tip) => Ok(
                HeightWanted { hash: self.hash, network: self.network, block: self.block, tip },
            ),
            None => Err(RpcError::Api(Error::Chain)),
        }
    }
}

impl HeightWanted {
    /// Goes on with the height of the block, if the chain gives it.
    pub fn answer(self, height: Option<u32>) -> (next: Result<BlockReport, RpcError>)
        ensures
            match height {
                Some(height) => next == Ok::<BlockReport, RpcError>(
                    BlockReport { network: self.network, block: self.block, tip: self.tip, height },
                ),
                None => next matches Err(error) && error@ == RpcErrorView::Api(Error::Chain),
            },
    {
        match height {
            Some(height) => Ok(
                BlockReport { network: self.network, block: self.block, tip: self.tip, height },
            ),
            None => Err(RpcError::Api(Error::Chain)),
        }
    }
}

/// The heights of the eleven blocks before a block; none if it does not have as many.
pub open spec fn past_heights(height: u32) -> Seq<u32> {
    if height >= 11 {
        Seq::new(11, |i: int| (height - 11 + i) as u32)
    } else {
        seq![]
    }
}

/// What is measured of a block.
#[derive(PartialEq, Eq, Debug)]
pub struct BlockFacts {
    pub hash: BlockHash,
    pub txids: Vec<Txid>,
    pub size: usize,
    pub weight: usize,
    pub strippedsize: usize,
    pub work: String,
    pub difficulty: u64,
}

#[verifier::ext_equal]
pub struct BlockFactsView {
    pub hash: Seq<u8>,
    pub txids: Seq<Seq<u8>>,
    pub size: usize,
    pub weight: usize,
    pub strippedsize: usize,
    pub work: Seq<char>,
    pub difficulty: u64,
}

impl View for BlockFacts {
    type V = BlockFactsView;

    open spec fn view(&self) -> BlockFactsView {
        BlockFactsView {
            hash: self.hash@,
            txids: txid_views(self.txids@),
            size: self.size,
            weight: self.weight,
            strippedsize: self.strippedsize,
            work: self.work@,
            difficulty: self.difficulty,
        }
    }
}

/// What is measured of a block.
pub open spec fn block_facts(block: BlockView) -> BlockFactsView {
    BlockFactsView {
        hash: header_hash(block.header),
        txids: block_txids(block),
        size: block_size(block.txdata) as usize,
        weight: block_weight(block.txdata) as usize,
        strippedsize: block_strippedsize(block.txdata) as usize,
        work: work_text(block.header.bits),
        difficulty: block_difficulty(block.header.bits) as u64,
    }
}

/// A block's place in the chain: its height, the tip's, the times of the blocks before it
/// and the hash of the block after it.
pub struct BlockPlace {
    pub tip: u32,
    pub height: u32,
    pub times: Seq<u32>,
    pub next: Option<Seq<u8>>,
}

/// How many blocks confirm a block: itself and those above it.
pub open spec fn block_confirmations(height: u32, tip: u32) -> int {
    tip - height + 1
}

/// Whether the confirmations of a block can be counted.
pub open spec fn countable(height: u32, tip: u32) -> bool {
    height <= tip && tip - height < u32::MAX
}

/// How a block is described, given what is measured of it.
pub open spec fn block_json(
    header: BlockHeaderView,
    facts: BlockFactsView,
    place: BlockPlace,
) -> BlockJsonView {
    BlockJsonView {
        hash: hash_hex(facts.hash),
        confirmations: block_confirmations(place.height, place.tip) as u32,
        strippedsize: facts.strippedsize,
        size: facts.size,
        weight: facts.weight,
        height: place.height,
        version: header.version,
        version_hex: lower_hex(twos_complement(header.version)),
        merkleroot: hash_hex(header.merkle_root),
        tx: facts.txids.map_values(|txid: Seq<u8>| hash_hex(txid)),
        time: header.time,
        mediantime: median_time_past(place.times),
        nonce: header.nonce,
        bits: lower_hex(header.bits as nat),
        difficulty: facts.difficulty,
        chainwork: facts.work,
        n_tx: facts.txids.len() as usize,
        previousblockhash: hash_hex(header.prev_blockhash),
        nextblockhash: match place.next {
            Some(hash) => Some(hash_hex(hash)),
            None => None,
        },
    }
}

/// Puts the description of a block together.
pub fn describe_block(
    header: &BlockHeader,
    facts: BlockFacts,
    tip: u32,
    height: u32,
    times: &Vec<u32>,
    next: Option<BlockHash>,
) -> (json: BlockJson)
    requires
        countable(height, tip),
    ensures
        json@ == block_json(
            header@,
            facts@,
            (BlockPlace { tip, height, times: times@, next: hash_view(next) }),
        ),
{
    let mut tx: Vec<String> = Vec::new();
    let mut i: usize = 0;
    while i < facts.txids.len()
        invariant
            i <= facts.txids@.len(),
            tx@.len() == i,
            forall|j: int| 0 <= j < i ==> (#[trigger] tx@[j])@ == hash_hex(facts.txids@[j]@),
        decreases facts.txids@.len() - i,
    {
        tx.push(hash_to_hex(&facts.txids[i].bytes));
        i += 1;
    }
    assert(texts(tx@) =~= facts@.txids.map_values(|txid: Seq<u8>| hash_hex(txid)));
    let nextblockhash = match next {
        Some(hash) => Some(hash_to_hex(&hash.bytes)),
        None => None,
    };
    BlockJson {
        hash: hash_to_hex(&facts.hash.bytes),
        confirmations: (tip - height) + 1,
        strippedsize: facts.strippedsize,
        size: facts.size,
        weight: facts.weight,
        height,
        version: header.version,
        version_hex: i32_to_lower_hex(header.version),
        merkleroot: hash_to_hex(&header.merkle_root),
        tx,
        time: header.time,
        mediantime: find_median_time_past(times),
        nonce: header.nonce,
        bits: u32_to_lower_hex(header.bits),
        difficulty: facts.difficulty,
        chainwork: facts.work,
        n_tx: facts.txids.len(),
        previousblockhash: hash_to_hex(&header.prev_blockhash.bytes),
        nextblockhash,
    }
}

impl BlockReport {
    /// Whether the block can be described: it is not above the tip, and its header has a
    /// target.
    pub open spec fn describable(&self) -> bool {
        &&& countable(self.height, self.tip)
        &&& self.height < u32::MAX
        &&& compact_target(self.block.header.bits) != 0
    }

    /// Whether the block can be described: it is not above the tip, and its header has a
    /// target.
    pub fn is_describable(&self) -> (yes: bool)
        ensures
            yes == self.describable(),
    {
        self.height <= self.tip && self.tip - self.height < u32::MAX && self.height < u32::MAX
            && has_target(self.block.header.bits)
    }

    /// The heights of the blocks whose times are wanted.
    pub fn past_heights(&self) -> (heights: Vec<u32>)
        ensures
            heights@ == past_heights(self.height),
    {
        let mut heights: Vec<u32> = Vec::new();
        if self.height >= 11 {
            let start: u32 = self.height - 11;
            let mut height: u32 = start;
            while height < self.height
                invariant
                    start == self.height - 11,
                    start <= height <= self.height,
                    heights@.len() == height - start,
                    forall|i: int| 0 <= i < heights@.len() ==> heights@[i] == start + i,
                decreases self.height - height,
            {
                heights.push(height);
                height += 1;
            }
        }
        assert(heights@ =~= past_heights(self.height));
        heights
    }

    /// The height of the block after this one.
    pub fn next_height(&self) -> (height: u32)
        requires
            self.height < u32::MAX,
        ensures
            height == self.height + 1,
    {
        self.height + 1
    }

    /// Describes the block, given the times of the blocks before it and the hash of the
    /// block after it. The weight counts each byte three times without witness data and once
    /// with it.
    pub fn describe(self, times: &Vec<u32>, next: Option<BlockHash>) -> (json: BlockJson)
        requires
            self.describable(),
        ensures
            json@ == block_json(
                self.block@.header,
                block_facts(self.block@),
                (BlockPlace {
                    tip: self.tip,
                    height: self.height,
                    times: times@,
                    next: hash_view(next),
                }),
            ),
            json.size == block_size(self.block@.txdata),
            json.strippedsize == block_strippedsize(self.block@.txdata),
            json.weight == block_weight(self.block@.txdata),
            json.weight == 3 * json.strippedsize + json.size,
            json.n_tx == json.tx@.len() == self.block.txdata@.len(),
    {
        let header = self.block.header;
        let raws = self.block.encodings();
        let facts = BlockFacts {
            hash: block_hash_of(&header),
            txids: self.block.txids(),
            size: block_size_of(&header, &raws),
            weight: block_weight_of(&header, &raws),
            strippedsize: block_strippedsize_of(&header, &raws),
            work: work_text_of(&header),
            difficulty: difficulty_of(&header, self.network),
        };
        proof {
            law_weight_counts_witness_data_once(self.block@.txdata);
            assert(facts@.txids.len() == facts.txids.len());
        }
        let json = describe_block(&header, facts, self.tip, self.height, times, next);
        assert(json@.tx.len() == json.tx@.len());
        json
    }
}

} // verus!
