//! Finding an unspent output with the help of block filters.

use vstd::prelude::*;
use vstd::string::StringExecFns;

use crate::consensus::decoded_transaction;
use crate::ledger::{block_txids, txid_views, Block, BlockView};
use crate::primitives::{
    BlockHash, OutPoint, OutPointView, TransactionData, TransactionView, TxOut, TxOutView, Txid,
};
use crate::res::{Error, RpcError, RpcErrorView};

verus! {

/// A block as the search reads it: each transaction's identifier and fields.
#[verifier::ext_equal]
pub struct ScannedBlock {
    pub txids: Seq<Seq<u8>>,
    pub txs: Seq<TransactionView>,
}

/// What the search reads of a block.
pub open spec fn scanned(block: BlockView) -> ScannedBlock {
    ScannedBlock {
        txids: block_txids(block),
        txs: block.txdata.map_values(|raw: Seq<u8>| decoded_transaction(raw)->Ok_0),
    }
}

/// The fields of each of a list of transactions.
pub open spec fn data_views(txs: Seq<&TransactionData>) -> Seq<TransactionView> {
    txs.map_values(|data: &TransactionData| data@)
}

/// Whether one of the transactions has an input that spends the output.
pub open spec fn spends(txs: Seq<TransactionView>, outpoint: OutPointView) -> bool {
    exists|i: int, j: int|
        #![trigger txs[i].input[j]]
        0 <= i < txs.len() && 0 <= j < txs[i].input.len() && txs[i].input[j].previous_output
            == outpoint
}

/// The output with this index, if the transaction has that many.
pub open spec fn output_at(tx: TransactionView, vout: u32) -> Option<TxOutView> {
    if vout < tx.output.len() {
        Some(tx.output[vout as int])
    } else {
        None
    }
}

/// What is known of the output after one more block: nothing is left of it if the block
/// spends it; otherwise it is what the block's first transaction of that identifier
/// creates, or what it was before if the block has no such transaction.
pub open spec fn unspent_after(
    before: Option<TxOutView>,
    block: ScannedBlock,
    outpoint: OutPointView,
) -> Option<TxOutView> {
    if spends(block.txs, outpoint) {
        None
    } else {
        match block.txids.index_of_first(outpoint.txid) {
            Some(i) => output_at(block.txs[i], outpoint.vout),
            None => before,
        }
    }
}

/// What is known of the output after a sequence of blocks.
pub open spec fn unspent(blocks: Seq<ScannedBlock>, outpoint: OutPointView) -> Option<TxOutView>
    decreases blocks.len(),
{
    if blocks.len() == 0 {
        None
    } else {
        unspent_after(unspent(blocks.drop_last(), outpoint), blocks.last(), outpoint)
    }
}

/// Whether one of the transactions has an input that spends the output.
pub fn has_input(txs: &Vec<&TransactionData>, expected_input: &OutPoint) -> (found: bool)
    ensures
        found == spends(data_views(txs@), expected_input@),
{
    let ghost views = data_views(txs@);
    let mut i: usize = 0;
    while i < txs.len()
        invariant
            i <= txs@.len(),
            views == data_views(txs@),
            forall|k: int, j: int|
                #![trigger views[k].input[j]]
                0 <= k < i && 0 <= j < views[k].input.len() ==> views[k].input[j].previous_output
                    != expected_input@,
        decreases txs@.len() - i,
    {
        let tx: &TransactionData = txs[i];
        assert(views[i as int] == tx@);
        let mut j: usize = 0;
        while j < tx.input.len()
            invariant
                i < txs@.len(),
                views == data_views(txs@),
                views[i as int] == tx@,
                j <= tx.input@.len(),
                forall|k: int|
                    #![trigger views[i as int].input[k]]
                    0 <= k < j ==> views[i as int].input[k].previous_output != expected_input@,
            decreases tx.input@.len() - j,
        {
            assert(views[i as int].input[j as int] == tx.input@[j as int]@);
            if tx.input[j].previous_output.same(expected_input) {
                return true;
            }
            j += 1;
        }
        i += 1;
    }
    false
}

/// Carries what is known of the output over one block, given the identifiers of its
/// transactions.
pub fn scan(
    txids: &Vec<Txid>,
    txs: &Vec<&TransactionData>,
    outpoint: &OutPoint,
    before: Option<TxOut>,
) -> (after: Option<TxOut>)
    requires
        txids@.len() == txs@.len(),
    ensures
        txout_view(after) == unspent_after(
            txout_view(before),
            (ScannedBlock { txids: txid_views(txids@), txs: data_views(txs@) }),
            outpoint@,
        ),
{
    let ghost ids = txid_views(txids@);
    let ghost views = data_views(txs@);
    let mut txout = before;
    let mut i: usize = 0;
    while i < txids.len()
        invariant
            i <= txids@.len(),
            txids@.len() == txs@.len(),
            ids == txid_views(txids@),
            forall|k: int| 0 <= k < i ==> #[trigger] ids[k] != outpoint.txid@,
            txout == before,
        ensures
            i <= txids@.len(),
            forall|k: int| 0 <= k < i ==> #[trigger] ids[k] != outpoint.txid@,
            i < txids@.len() ==> ids[i as int] == outpoint.txid@,
            txout == before,
        decreases txids@.len() - i,
    {
        assert(ids[i as int] == txids@[i as int]@);
        if txids[i].same(&outpoint.txid) {
            break;
        }
        i += 1;
    }
    proof {
        ids.index_of_first_ensures(outpoint.txid@);
        if i < ids.len() {
            assert(ids.contains(ids[i as int]));
        }
        assert(ids.index_of_first(outpoint.txid@) == if i < ids.len() {
            Some(i as int)
        } else {
            None
        });
    }
    if i < txids.len() {
        let tx: &TransactionData = txs[i];
        assert(views[i as int] == tx@);
        let vout: usize = outpoint.vout as usize;
        if vout < tx.output.len() {
            txout = Some(tx.output[vout].clone());
        } else {
            txout = None;
        }
    }
    if has_input(txs, outpoint) {
        txout = None;
    }
    txout
}

/// The view of an output that may be absent.
pub open spec fn txout_view(txout: Option<TxOut>) -> Option<TxOutView> {
    match txout {
        Some(txout) => Some(txout@),
        None => None,
    }
}

/// Carries what is known of the output over one block.
pub fn scan_block(block: &Block, outpoint: &OutPoint, before: Option<TxOut>) -> (after: Option<
    TxOut,
>)
    ensures
        txout_view(after) == unspent_after(txout_view(before), scanned(block@), outpoint@),
{
    let txids = block.txids();
    let mut txs: Vec<&TransactionData> = Vec::new();
    let mut i: usize = 0;
    while i < block.txdata.len()
        invariant
            i <= block.txdata@.len(),
            txs@.len() == i,
            forall|j: int|
                0 <= j < i ==> decoded_transaction(block.txdata@[j]@) == Ok::<
                    TransactionView,
                    Seq<char>,
                >((#[trigger] txs@[j])@),
        decreases block.txdata@.len() - i,
    {
        txs.push(block.txdata[i].data());
        i += 1;
    }
    assert(data_views(txs@) =~= scanned(block@).txs);
    assert(txid_views(txids@).len() == block@.txdata.len());
    scan(&txids, &txs, outpoint, before)
}

/// Why the node could not deliver a block, as its `Debug` and its `Display` text.
#[derive(PartialEq, Eq, Debug)]
pub struct NodeError {
    pub debug: String,
    pub display: String,
}

pub struct NodeErrorView {
    pub debug: Seq<char>,
    pub display: Seq<char>,
}

impl View for NodeError {
    type V = NodeErrorView;

    open spec fn view(&self) -> NodeErrorView {
        NodeErrorView { debug: self.debug@, display: self.display@ }
    }
}

/// What a failed download is answered with.
pub open spec fn download_failed(error: NodeErrorView) -> RpcErrorView {
    RpcErrorView::Detailed {
        error: Error::Node,
        message: "error while downloading block Err("@ + error.debug + ")"@,
        data: Some(error.display),
    }
}

/// What a block that the node does not have is answered with.
pub open spec fn block_missing() -> RpcErrorView {
    RpcErrorView::Detailed {
        error: Error::Node,
        message: "BUG: block Ok(None) is a match in our filters, but we can't get it?"@,
        data: None,
    }
}

/// The filters to match: the blocks `start..=end`, for the spending of `outpoint` or for the
/// transaction `txid`.
#[derive(Clone, Copy, PartialEq, Eq, Debug)]
pub struct FilterQuery {
    pub start: u64,
    pub end: u64,
    pub outpoint: OutPoint,
    pub txid: Txid,
}

/// A search for an output, before the filters have been asked.
#[derive(Clone, Copy, PartialEq, Eq, Debug)]
pub struct TxOutSearch {
    pub outpoint: OutPoint,
}

/// A search that works through the candidate blocks in order.
#[derive(PartialEq, Eq, Debug)]
pub struct TxOutScan {
    outpoint: OutPoint,
    heights: Vec<u64>,
    next: usize,
    txout: Option<TxOut>,
}

/// The output looked for, the candidates that are left, and what is known so far.
#[verifier::ext_equal]
pub struct ScanView {
    pub outpoint: OutPointView,
    pub heights: Seq<u64>,
    pub txout: Option<TxOutView>,
}

impl View for TxOutScan {
    type V = ScanView;

    closed spec fn view(&self) -> ScanView {
        ScanView {
            outpoint: self.outpoint@,
            heights: self.heights@.skip(self.next as int),
            txout: txout_view(self.txout),
        }
    }
}

/// A search that waits for the hash of the block at a height.
#[derive(PartialEq, Eq, Debug)]
pub struct HashWanted {
    pub height: u32,
    pub scan: TxOutScan,
}

/// A search that waits for a block.
#[derive(PartialEq, Eq, Debug)]
pub struct BlockWanted {
    pub hash: BlockHash,
    pub scan: TxOutScan,
}

/// What a search needs next, or what it answers.
#[derive(PartialEq, Eq, Debug)]
pub enum TxOutStep {
    LookUp(HashWanted),
    Download(BlockWanted),
    Reply(Result<Option<TxOut>, RpcError>),
}

pub enum TxOutStepView {
    LookUp { height: u32, scan: ScanView },
    Download { hash: Seq<u8>, scan: ScanView },
    Reply(Result<Option<TxOutView>, RpcErrorView>),
}

/// The view of an answer.
pub open spec fn reply_view(reply: Result<Option<TxOut>, RpcError>) -> Result<
    Option<TxOutView>,
    RpcErrorView,
> {
    match reply {
        Ok(txout) => Ok(txout_view(txout)),
        Err(error) => Err(error@),
    }
}

impl View for TxOutStep {
    type V = TxOutStepView;

    open spec fn view(&self) -> TxOutStepView {
        match *self {
            TxOutStep::LookUp(wanted) => TxOutStepView::LookUp {
                height: wanted.height,
                scan: wanted.scan@,
            },
            TxOutStep::Download(wanted) => TxOutStepView::Download {
                hash: wanted.hash@,
                scan: wanted.scan@,
            },
            TxOutStep::Reply(reply) => TxOutStepView::Reply(reply_view(reply)),
        }
    }
}

/// Takes up the next candidate, or answers with what is known when none is left.
pub open spec fn proceed(scan: ScanView) -> TxOutStepView {
    if scan.heights.len() == 0 {
        TxOutStepView::Reply(Ok(scan.txout))
    } else {
        TxOutStepView::LookUp {
            height: scan.heights[0] as u32,
            scan: ScanView { heights: scan.heights.drop_first(), ..scan },
        }
    }
}

/// A candidate whose hash the chain does not give is passed over; another is downloaded.
pub open spec fn after_hash(scan: ScanView, hash: Option<Seq<u8>>) -> TxOutStepView {
    match hash {
        Some(hash) => TxOutStepView::Download { hash, scan },
        None => proceed(scan),
    }
}

/// What came of a download.
pub enum Download {
    Failed(NodeErrorView),
    Missing,
    Got(ScannedBlock),
}

/// A download that brings no block ends the search; a block is scanned.
pub open spec fn after_block(scan: ScanView, download: Download) -> TxOutStepView {
    match download {
        Download::Failed(error) => TxOutStepView::Reply(Err(download_failed(error))),
        Download::Missing => TxOutStepView::Reply(Err(block_missing())),
        Download::Got(block) => proceed(
            ScanView { txout: unspent_after(scan.txout, block, scan.outpoint), ..scan },
        ),
    }
}

/// The view of a download.
pub open spec fn download_view(found: Result<Option<Block>, NodeError>) -> Download {
    match found {
        Err(error) => Download::Failed(error@),
        Ok(None) => Download::Missing,
        Ok(Some(block)) => Download::Got(scanned(block@)),
    }
}

/// The view of a hash that may be absent.
pub open spec fn hash_view(hash: Option<BlockHash>) -> Option<Seq<u8>> {
    match hash {
        Some(hash) => Some(hash@),
        None => None,
    }
}

impl TxOutSearch {
    /// The filters to match, up to the chain's tip.
    pub fn filter_query(&self, tip: u32) -> (query: FilterQuery)
        ensures
            query == (FilterQuery {
                start: 1,
                end: tip as u64,
                outpoint: self.outpoint,
                txid: self.outpoint.txid,
            }),
    {
        FilterQuery {
            start: 1,
            end: tip as u64,
            outpoint: self.outpoint,
            txid: self.outpoint.txid,
        }
    }

    /// Starts on the heights whose filters matched.
    pub fn candidates(self, heights: Vec<u64>) -> (step: TxOutStep)
        ensures
            step@ == proceed(
                (ScanView { outpoint: self.outpoint@, heights: heights@, txout: None }),
            ),
    {
        let scan = TxOutScan { outpoint: self.outpoint, heights, next: 0, txout: None };
        assert(heights@.skip(0) =~= heights@);
        scan.proceed()
    }
}

impl TxOutScan {
    #[verifier::type_invariant]
    closed spec fn within(self) -> bool {
        self.next <= self.heights@.len()
    }

    fn proceed(self) -> (step: TxOutStep)
        ensures
            step@ == proceed(self@),
    {
        proof {
            use_type_invariant(&self);
        }
        let TxOutScan { outpoint, heights, next, txout } = self;
        if next < heights.len() {
            let height: u32 = heights[next] as u32;
            assert(heights@.skip(next as int).drop_first() =~= heights@.skip(next + 1));
            TxOutStep::LookUp(
                HashWanted {
                    height,
                    scan: TxOutScan { outpoint, heights, next: next + 1, txout },
                },
            )
        } else {
            TxOutStep::Reply(Ok(txout))
        }
    }
}

impl HashWanted {
    /// Goes on with the hash that the chain gives for the height, if it gives one.
    pub fn answer(self, hash: Option<BlockHash>) -> (step: TxOutStep)
        ensures
            step@ == after_hash(self.scan@, hash_view(hash)),
    {
        match hash {
            Some(hash) => TxOutStep::Download(BlockWanted { hash, scan: self.scan }),
            None => self.scan.proceed(),
        }
    }
}

impl BlockWanted {
    /// Goes on with what the node delivers for the hash.
    pub fn answer(self, found: Result<Option<Block>, NodeError>) -> (step: TxOutStep)
        ensures
            step@ == after_block(self.scan@, download_view(found)),
    {
        match found {
            Err(failure) => {
                let mut message = "error while downloading block Err(".to_owned();
                message.append(failure.debug.as_str());
                message.append(")");
                TxOutStep::Reply(
                    Err(
                        RpcError::Detailed {
                            error: Error::Node,
                            message,
                            data: Some(failure.display),
                        },
                    ),
                )
            },
            Ok(None) => {
                let message =
                    "BUG: block Ok(None) is a match in our filters, but we can't get it?".to_owned();
                TxOutStep::Reply(
                    Err(RpcError::Detailed { error: Error::Node, message, data: None }),
                )
            },
            Ok(Some(block)) => {
                proof {
                    use_type_invariant(&self.scan);
                }
                let TxOutScan { outpoint, heights, next, txout } = self.scan;
                let txout = scan_block(&block, &outpoint, txout);
                TxOutScan { outpoint, heights, next, txout }.proceed()
            },
        }
    }
}

} // verus!
