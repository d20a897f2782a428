//! What a whole search for an output comes to.

use vstd::prelude::*;

use crate::consensus::{decoded_transaction, transaction_txid};
use crate::ledger::{txid_views, Block, BlockView};
use crate::primitives::{
    BlockHash, OutPoint, OutPointView, TransactionData, TxOut, TxOutView, Txid,
};
use crate::res::{Error, RpcError, RpcErrorView};
use crate::tx_out::{
    after_block, after_hash, block_missing, data_views, download_failed, has_input, output_at,
    proceed, scan, scan_block, scanned, spends, txout_view, unspent, unspent_after, BlockWanted,
    Download, FilterQuery, HashWanted, NodeError, ScanView, ScannedBlock, TxOutSearch, TxOutStep,
    TxOutStepView,
};

verus! {

/// Whether the block at `i` creates the output as `txout`, no block from there on spends it,
/// and no later block has a transaction of that identifier.
pub open spec fn unspent_since(
    blocks: Seq<ScannedBlock>,
    outpoint: OutPointView,
    txout: TxOutView,
    i: int,
) -> bool {
    &&& 0 <= i < blocks.len()
    &&& blocks[i].txids.index_of_first(outpoint.txid) matches Some(k) && output_at(
        blocks[i].txs[k],
        outpoint.vout,
    ) == Some(txout)
    &&& forall|j: int| i <= j < blocks.len() ==> !spends((#[trigger] blocks[j]).txs, outpoint)
    &&& forall|j: int|
        i < j < blocks.len() ==> !(#[trigger] blocks[j]).txids.contains(outpoint.txid)
}

/// An output is found if and only if a block has created it and neither that block nor a
/// later one has spent it.
pub proof fn law_found_iff_created_and_not_spent(
    blocks: Seq<ScannedBlock>,
    outpoint: OutPointView,
    txout: TxOutView,
)
    ensures
        unspent(blocks, outpoint) == Some(txout) <==> exists|i: int|
            unspent_since(blocks, outpoint, txout, i),
    decreases blocks.len(),
{
    if blocks.len() > 0 {
        let earlier = blocks.drop_last();
        let last = blocks.last();
        law_found_iff_created_and_not_spent(earlier, outpoint, txout);
        last.txids.index_of_first_ensures(outpoint.txid);
        if unspent(blocks, outpoint) == Some(txout) {
            if last.txids.contains(outpoint.txid) {
                assert(unspent_since(blocks, outpoint, txout, blocks.len() - 1));
            } else {
                let i = choose|i: int| unspent_since(earlier, outpoint, txout, i);
                assert forall|j: int| i <= j < blocks.len() implies !spends(
                    (#[trigger] blocks[j]).txs,
                    outpoint,
                ) by {
                    if j < earlier.len() {
                        assert(blocks[j] == earlier[j]);
                    }
                }
                assert forall|j: int| i < j < blocks.len() implies !(
                #[trigger] blocks[j]).txids.contains(outpoint.txid) by {
                    if j < earlier.len() {
                        assert(blocks[j] == earlier[j]);
                    }
                }
                assert(blocks[i] == earlier[i]);
                assert(unspent_since(blocks, outpoint, txout, i));
            }
        }
        if exists|i: int| unspent_since(blocks, outpoint, txout, i) {
            let i = choose|i: int| unspent_since(blocks, outpoint, txout, i);
            assert(blocks[blocks.len() - 1] == last);
            if i < earlier.len() {
                assert(blocks[i] == earlier[i]);
                assert forall|j: int| i <= j < earlier.len() implies !spends(
                    (#[trigger] earlier[j]).txs,
                    outpoint,
                ) by {
                    assert(earlier[j] == blocks[j]);
                }
                assert forall|j: int| i < j < earlier.len() implies !(
                #[trigger] earlier[j]).txids.contains(outpoint.txid) by {
                    assert(earlier[j] == blocks[j]);
                }
                assert(unspent_since(earlier, outpoint, txout, i));
            }
        }
    }
}

/// An output that the last block spends is not found, wherever it was created.
pub proof fn law_spent_is_not_found(
    blocks: Seq<ScannedBlock>,
    last: ScannedBlock,
    outpoint: OutPointView,
)
    requires
        spends(last.txs, outpoint),
    ensures
        unspent(blocks.push(last), outpoint) is None,
{
}

/// An output whose transaction no block has is not found.
pub proof fn law_never_created_is_not_found(blocks: Seq<ScannedBlock>, outpoint: OutPointView)
    requires
        forall|i: int|
            0 <= i < blocks.len() ==> !(#[trigger] blocks[i]).txids.contains(outpoint.txid),
    ensures
        unspent(blocks, outpoint) is None,
    decreases blocks.len(),
{
    if blocks.len() > 0 {
        let earlier = blocks.drop_last();
        assert forall|i: int| 0 <= i < earlier.len() implies !(
        #[trigger] earlier[i]).txids.contains(outpoint.txid) by {
            assert(earlier[i] == blocks[i]);
        }
        law_never_created_is_not_found(earlier, outpoint);
        assert(blocks.last() == blocks[blocks.len() - 1]);
        blocks.last().txids.index_of_first_ensures(outpoint.txid);
    }
}

/// What came of a candidate: the hash that the chain gave, and what the node delivered for
/// it.
pub struct Outcome {
    pub hash: Option<Seq<u8>>,
    pub download: Download,
}

/// Whether a candidate's block was asked for and did not come.
pub open spec fn fails(outcome: Outcome) -> bool {
    outcome.hash is Some && !(outcome.download is Got)
}

/// What a candidate whose block did not come is answered with.
pub open spec fn failure(outcome: Outcome) -> RpcErrorView {
    match outcome.download {
        Download::Failed(error) => download_failed(error),
        _ => block_missing(),
    }
}

/// The blocks that came, in the order of the candidates.
pub open spec fn delivered(outcomes: Seq<Outcome>) -> Seq<ScannedBlock>
    decreases outcomes.len(),
{
    if outcomes.len() == 0 {
        seq![]
    } else {
        let rest = delivered(outcomes.drop_first());
        match (outcomes[0].hash, outcomes[0].download) {
            (Some(_), Download::Got(block)) => seq![block] + rest,
            _ => rest,
        }
    }
}

/// What a search answers when each candidate that it takes up comes out as given, in order.
pub open spec fn conclude(step: TxOutStepView, outcomes: Seq<Outcome>) -> Option<
    Result<Option<TxOutView>, RpcErrorView>,
>
    decreases outcomes.len(),
{
    match step {
        TxOutStepView::Reply(reply) => Some(reply),
        TxOutStepView::LookUp { height: _, scan } => if outcomes.len() == 0 {
            None
        } else {
            match after_hash(scan, outcomes[0].hash) {
                TxOutStepView::Download { hash: _, scan } => conclude(
                    after_block(scan, outcomes[0].download),
                    outcomes.drop_first(),
                ),
                next => conclude(next, outcomes.drop_first()),
            }
        },
        TxOutStepView::Download { hash: _, scan: _ } => None,
    }
}

proof fn lemma_all_delivered(scan: ScanView, outcomes: Seq<Outcome>, done: Seq<ScannedBlock>)
    requires
        outcomes.len() == scan.heights.len(),
        scan.txout == unspent(done, scan.outpoint),
        forall|i: int| 0 <= i < outcomes.len() ==> !fails(#[trigger] outcomes[i]),
    ensures
        conclude(proceed(scan), outcomes) == Some(
            Ok::<Option<TxOutView>, RpcErrorView>(
                unspent(done + delivered(outcomes), scan.outpoint),
            ),
        ),
    decreases outcomes.len(),
{
    if outcomes.len() == 0 {
        assert(done + delivered(outcomes) =~= done);
    } else {
        let rest = outcomes.drop_first();
        let next = ScanView { heights: scan.heights.drop_first(), ..scan };
        assert(!fails(outcomes[0]));
        assert forall|i: int| 0 <= i < rest.len() implies !fails(#[trigger] rest[i]) by {
            assert(rest[i] == outcomes[i + 1]);
        }
        match (outcomes[0].hash, outcomes[0].download) {
            (Some(_), Download::Got(block)) => {
                let after = ScanView {
                    txout: unspent_after(scan.txout, block, scan.outpoint),
                    ..next
                };
                assert(done.push(block).drop_last() =~= done);
                assert(done.push(block) + delivered(rest) =~= done + delivered(outcomes));
                lemma_all_delivered(after, rest, done.push(block));
            },
            _ => {
                lemma_all_delivered(next, rest, done);
            },
        }
    }
}

/// A search whose candidates' blocks all come answers with the output that those blocks
/// leave unspent. Candidates without a hash make no difference.
pub proof fn law_search_answers_with_the_unspent_output(
    outpoint: OutPointView,
    heights: Seq<u64>,
    outcomes: Seq<Outcome>,
)
    requires
        outcomes.len() == heights.len(),
        forall|i: int| 0 <= i < outcomes.len() ==> !fails(#[trigger] outcomes[i]),
    ensures
        conclude(proceed(ScanView { outpoint, heights, txout: None }), outcomes) == Some(
            Ok::<Option<TxOutView>, RpcErrorView>(unspent(delivered(outcomes), outpoint)),
        ),
{
    let scan = ScanView { outpoint, heights, txout: None };
    lemma_all_delivered(scan, outcomes, seq![]);
    assert(Seq::<ScannedBlock>::empty() + delivered(outcomes) =~= delivered(outcomes));
}

proof fn lemma_failure_ends(scan: ScanView, outcomes: Seq<Outcome>, i: int)
    requires
        outcomes.len() == scan.heights.len(),
        0 <= i < outcomes.len(),
        fails(outcomes[i]),
        forall|j: int| 0 <= j < i ==> !fails(#[trigger] outcomes[j]),
    ensures
        conclude(proceed(scan), outcomes) == Some(
            Err::<Option<TxOutView>, RpcErrorView>(failure(outcomes[i])),
        ),
    decreases outcomes.len(),
{
    reveal_with_fuel(conclude, 2);
    if i > 0 {
        let rest = outcomes.drop_first();
        let next = ScanView { heights: scan.heights.drop_first(), ..scan };
        assert(!fails(outcomes[0]));
        assert(rest[i - 1] == outcomes[i]);
        assert forall|j: int| 0 <= j < i - 1 implies !fails(#[trigger] rest[j]) by {
            assert(rest[j] == outcomes[j + 1]);
        }
        match (outcomes[0].hash, outcomes[0].download) {
            (Some(_), Download::Got(block)) => {
                let after = ScanView {
                    txout: unspent_after(scan.txout, block, scan.outpoint),
                    ..next
                };
                lemma_failure_ends(after, rest, i - 1);
            },
            _ => {
                lemma_failure_ends(next, rest, i - 1);
            },
        }
    }
}

/// The first candidate whose block does not come decides the answer, whatever the blocks
/// before it held and whatever would have come after it.
pub proof fn law_search_answers_with_the_first_failure(
    outpoint: OutPointView,
    heights: Seq<u64>,
    outcomes: Seq<Outcome>,
    i: int,
)
    requires
        outcomes.len() == heights.len(),
        0 <= i < outcomes.len(),
        fails(outcomes[i]),
        forall|j: int| 0 <= j < i ==> !fails(#[trigger] outcomes[j]),
    ensures
        conclude(proceed(ScanView { outpoint, heights, txout: None }), outcomes) == Some(
            Err::<Option<TxOutView>, RpcErrorView>(failure(outcomes[i])),
        ),
{
    lemma_failure_ends(ScanView { outpoint, heights, txout: None }, outcomes, i);
}

/// The identifier and the fields at a place belong to the transaction at that place, and no
/// transaction is left out.
pub proof fn law_transactions_are_scanned_in_their_places(block: BlockView)
    ensures
        scanned(block).txids.len() == block.txdata.len(),
        scanned(block).txs.len() == block.txdata.len(),
        forall|i: int|
            0 <= i < block.txdata.len() ==> #[trigger] scanned(block).txids[i] == transaction_txid(
                block.txdata[i],
            ),
        forall|i: int|
            0 <= i < block.txdata.len() ==> #[trigger] scanned(block).txs[i] == decoded_transaction(
                block.txdata[i],
            )->Ok_0,
{
}

/// Whether a transaction of a block, given by their encodings, spends an output.
pub open spec fn spent_in(txdata: Seq<Seq<u8>>, outpoint: OutPointView) -> bool {
    exists|i: int, j: int| #[trigger] spends_at(txdata, outpoint, i, j)
}

/// Whether the `j`-th input of the `i`-th transaction spends an output.
pub open spec fn spends_at(
    txdata: Seq<Seq<u8>>,
    outpoint: OutPointView,
    i: int,
    j: int,
) -> bool {
    &&& 0 <= i < txdata.len()
    &&& 0 <= j < decoded_transaction(txdata[i])->Ok_0.input.len()
    &&& decoded_transaction(txdata[i])->Ok_0.input[j].previous_output.txid == outpoint.txid
    &&& decoded_transaction(txdata[i])->Ok_0.input[j].previous_output.vout == outpoint.vout
}

/// Whether the first transaction of an identifier is the `i`-th.
pub open spec fn first_named(txdata: Seq<Seq<u8>>, txid: Seq<u8>, i: int) -> bool {
    &&& 0 <= i < txdata.len()
    &&& transaction_txid(txdata[i]) == txid
    &&& forall|k: int| 0 <= k < i ==> transaction_txid(#[trigger] txdata[k]) != txid
}

proof fn lemma_spent_in(block: BlockView, outpoint: OutPointView)
    ensures
        spends(scanned(block).txs, outpoint) <==> spent_in(block.txdata, outpoint),
{
    let txs = scanned(block).txs;
    law_transactions_are_scanned_in_their_places(block);
    if spends(txs, outpoint) {
        let (i, j) = choose|i: int, j: int|
            #![trigger txs[i].input[j]]
            0 <= i < txs.len() && 0 <= j < txs[i].input.len() && txs[i].input[j].previous_output
                == outpoint;
        assert(txs[i] == decoded_transaction(block.txdata[i])->Ok_0);
        assert(spends_at(block.txdata, outpoint, i, j));
    }
    if spent_in(block.txdata, outpoint) {
        let (i, j) = choose|i: int, j: int| #[trigger] spends_at(block.txdata, outpoint, i, j);
        assert(txs[i] == decoded_transaction(block.txdata[i])->Ok_0);
        assert(txs[i].input[j].previous_output == outpoint);
    }
}

/// What one block does to what is known of an output. If one of its transactions spends the
/// output, nothing is left. If not, and a transaction has the output's identifier, the first
/// such transaction's output of that index is known, or nothing if it has fewer outputs. If
/// there is no such transaction, what was known before is still known.
pub proof fn law_block_decides_on_the_output(
    before: Option<TxOutView>,
    block: BlockView,
    outpoint: OutPointView,
)
    ensures
        ({
            let after = unspent_after(before, scanned(block), outpoint);
            &&& spent_in(block.txdata, outpoint) ==> after is None
            &&& forall|i: int|
                #![trigger first_named(block.txdata, outpoint.txid, i)]
                !spent_in(block.txdata, outpoint) && first_named(block.txdata, outpoint.txid, i)
                    ==> {
                    let outputs = decoded_transaction(block.txdata[i])->Ok_0.output;
                    &&& outpoint.vout < outputs.len() ==> after == Some(
                        outputs[outpoint.vout as int],
                    )
                    &&& outpoint.vout >= outputs.len() ==> after is None
                }
            &&& !spent_in(block.txdata, outpoint) && (forall|i: int|
                0 <= i < block.txdata.len() ==> transaction_txid(#[trigger] block.txdata[i])
                    != outpoint.txid) ==> after == before
        }),
{
    law_transactions_are_scanned_in_their_places(block);
    lemma_spent_in(block, outpoint);
    let ids = scanned(block).txids;
    ids.index_of_first_ensures(outpoint.txid);
    let after = unspent_after(before, scanned(block), outpoint);
    assert forall|i: int|
        #![trigger first_named(block.txdata, outpoint.txid, i)]
        !spent_in(block.txdata, outpoint) && first_named(block.txdata, outpoint.txid, i) implies {
        let outputs = decoded_transaction(block.txdata[i])->Ok_0.output;
        &&& outpoint.vout < outputs.len() ==> after == Some(outputs[outpoint.vout as int])
        &&& outpoint.vout >= outputs.len() ==> after is None
    } by {
        assert(ids[i] == transaction_txid(block.txdata[i]));
        assert(ids.contains(ids[i]));
        let found = ids.index_of_first(outpoint.txid)->0;
        if found < i {
            assert(ids[found] == transaction_txid(block.txdata[found]));
        }
        assert(found == i);
        assert(scanned(block).txs[i] == decoded_transaction(block.txdata[i])->Ok_0);
    }
    if !spent_in(block.txdata, outpoint) && (forall|i: int|
        0 <= i < block.txdata.len() ==> transaction_txid(#[trigger] block.txdata[i])
            != outpoint.txid) {
        if ids.contains(outpoint.txid) {
            let i = ids.index_of_first(outpoint.txid)->0;
            assert(ids[i] == transaction_txid(block.txdata[i]));
        }
    }
}

/// Whether an output that may be absent is the one of a view that may be.
pub open spec fn is_output(txout: Option<TxOut>, view: Option<TxOutView>) -> bool {
    match txout {
        Some(txout) => view is Some && txout.value == view->0.value && txout.script_pubkey@
            == view->0.script_pubkey,
        None => view is None,
    }
}

/// Scanning a block tells of the output what the block's own transactions do to it.
pub proof fn law_scanned_block_decides_on_the_output(
    block: &Block,
    outpoint: &OutPoint,
    before: Option<TxOut>,
    after: Option<TxOut>,
)
    requires
        call_ensures(scan_block, (block, outpoint, before), after),
    ensures
        ({
            let txdata = block@.txdata;
            let wanted = OutPointView { txid: outpoint.txid.bytes@, vout: outpoint.vout };
            &&& spent_in(txdata, wanted) ==> after is None
            &&& forall|i: int|
                #![trigger first_named(txdata, wanted.txid, i)]
                !spent_in(txdata, wanted) && first_named(txdata, wanted.txid, i) ==> {
                    let outputs = decoded_transaction(txdata[i])->Ok_0.output;
                    &&& wanted.vout < outputs.len() ==> is_output(
                        after,
                        Some(outputs[wanted.vout as int]),
                    )
                    &&& wanted.vout >= outputs.len() ==> after is None
                }
            &&& !spent_in(txdata, wanted) && (forall|i: int|
                0 <= i < txdata.len() ==> transaction_txid(#[trigger] txdata[i]) != wanted.txid)
                ==> {
                &&& after is Some <==> before is Some
                &&& after is Some ==> after->0.value == before->0.value
                    && after->0.script_pubkey@ == before->0.script_pubkey@
            }
        }),
{
    law_block_decides_on_the_output(txout_view(before), block@, outpoint@);
}

/// Whether the `i`-th transaction of the `b`-th block is the one of an identifier, has an
/// output of an index, and that output is the one given.
pub open spec fn creates(
    blocks: Seq<BlockView>,
    outpoint: OutPointView,
    txout: TxOutView,
    b: int,
    i: int,
) -> bool {
    &&& 0 <= b < blocks.len()
    &&& 0 <= i < blocks[b].txdata.len()
    &&& transaction_txid(blocks[b].txdata[i]) == outpoint.txid
    &&& outpoint.vout < decoded_transaction(blocks[b].txdata[i])->Ok_0.output.len()
    &&& decoded_transaction(blocks[b].txdata[i])->Ok_0.output[outpoint.vout as int] == txout
}

/// An output that blocks leave unspent is the output of the index asked for of a transaction
/// of the identifier asked for, in one of the blocks; neither that block nor a later one spends
/// it.
pub proof fn law_found_output_is_of_the_named_transaction(
    blocks: Seq<BlockView>,
    outpoint: OutPointView,
    txout: TxOutView,
)
    requires
        unspent(blocks.map_values(|block: BlockView| scanned(block)), outpoint) == Some(txout),
    ensures
        exists|b: int, i: int|
            #![trigger creates(blocks, outpoint, txout, b, i)]
            creates(blocks, outpoint, txout, b, i) && forall|c: int|
                b <= c < blocks.len() ==> !spent_in((#[trigger] blocks[c]).txdata, outpoint),
    decreases blocks.len(),
{
    let all = blocks.map_values(|block: BlockView| scanned(block));
    if blocks.len() > 0 {
        let earlier = blocks.drop_last();
        let last = blocks.last();
        assert(all.drop_last() =~= earlier.map_values(|block: BlockView| scanned(block)));
        assert(all.last() == scanned(last));
        law_transactions_are_scanned_in_their_places(last);
        lemma_spent_in(last, outpoint);
        scanned(last).txids.index_of_first_ensures(outpoint.txid);
        if scanned(last).txids.contains(outpoint.txid) {
            let i = scanned(last).txids.index_of_first(outpoint.txid)->0;
            assert(scanned(last).txids[i] == transaction_txid(last.txdata[i]));
            assert(scanned(last).txs[i] == decoded_transaction(last.txdata[i])->Ok_0);
            assert(creates(blocks, outpoint, txout, blocks.len() - 1, i));
            assert(blocks[blocks.len() - 1] == last);
        } else {
            law_found_output_is_of_the_named_transaction(earlier, outpoint, txout);
            let (b, i) = choose|b: int, i: int|
                #![trigger creates(earlier, outpoint, txout, b, i)]
                creates(earlier, outpoint, txout, b, i) && forall|c: int|
                    b <= c < earlier.len() ==> !spent_in((#[trigger] earlier[c]).txdata, outpoint);
            assert(earlier[b] == blocks[b]);
            assert(creates(blocks, outpoint, txout, b, i));
            assert forall|c: int| b <= c < blocks.len() implies !spent_in(
                (#[trigger] blocks[c]).txdata,
                outpoint,
            ) by {
                if c < earlier.len() {
                    assert(earlier[c] == blocks[c]);
                } else {
                    assert(blocks[c] == last);
                }
            }
        }
    }
}

/// What a search asks for: the height that it looks up, and the hash that it downloads, if
/// the chain gives one for the height.
pub struct Asked {
    pub height: u32,
    pub hash: Option<Seq<u8>>,
}

/// What a search asks for, in order, when each candidate that it takes up comes out as given.
pub open spec fn asked(step: TxOutStepView, outcomes: Seq<Outcome>) -> Seq<Asked>
    decreases outcomes.len(),
{
    match step {
        TxOutStepView::LookUp { height, scan } => if outcomes.len() == 0 {
            seq![]
        } else {
            match after_hash(scan, outcomes[0].hash) {
                TxOutStepView::Download { hash, scan } => seq![Asked { height, hash: Some(hash) }]
                    + asked(after_block(scan, outcomes[0].download), outcomes.drop_first()),
                next => seq![Asked { height, hash: None }] + asked(next, outcomes.drop_first()),
            }
        },
        _ => seq![],
    }
}

/// A search without failures looks up each of the candidates, in turn, and downloads the
/// block of each hash that the chain gives for one.
pub proof fn law_every_candidate_is_asked_for(scan: ScanView, outcomes: Seq<Outcome>)
    requires
        outcomes.len() == scan.heights.len(),
        forall|i: int| 0 <= i < outcomes.len() ==> !fails(#[trigger] outcomes[i]),
        forall|i: int| 0 <= i < scan.heights.len() ==> #[trigger] scan.heights[i] <= u32::MAX,
    ensures
        asked(proceed(scan), outcomes).len() == scan.heights.len(),
        forall|i: int|
            0 <= i < scan.heights.len() ==> (#[trigger] asked(proceed(scan), outcomes)[i]).height
                as int == scan.heights[i] as int,
        forall|i: int|
            0 <= i < scan.heights.len() ==> (#[trigger] asked(proceed(scan), outcomes)[i]).hash
                == outcomes[i].hash,
    decreases outcomes.len(),
{
    if outcomes.len() > 0 {
        let rest = outcomes.drop_first();
        let next = ScanView { heights: scan.heights.drop_first(), ..scan };
        assert(!fails(outcomes[0]));
        assert(scan.heights[0] <= u32::MAX);
        assert forall|i: int| 0 <= i < rest.len() implies !fails(#[trigger] rest[i]) by {
            assert(rest[i] == outcomes[i + 1]);
        }
        assert forall|i: int| 0 <= i < next.heights.len() implies #[trigger] next.heights[i]
            <= u32::MAX by {
            assert(next.heights[i] == scan.heights[i + 1]);
        }
        let after = match (outcomes[0].hash, outcomes[0].download) {
            (Some(_), Download::Got(block)) => ScanView {
                txout: unspent_after(scan.txout, block, scan.outpoint),
                ..next
            },
            _ => next,
        };
        law_every_candidate_is_asked_for(after, rest);
        let whole = asked(proceed(scan), outcomes);
        let later = asked(proceed(after), rest);
        if outcomes[0].hash is None {
            assert(after_hash(next, outcomes[0].hash) == proceed(next));
            assert(!(proceed(next) is Download));
        }
        assert(whole =~= seq![whole[0]] + later);
        assert forall|i: int| 0 <= i < scan.heights.len() implies (
        #[trigger] whole[i]).height as int == scan.heights[i] as int && whole[i].hash
            == outcomes[i].hash by {
            if i > 0 {
                assert(whole[i] == later[i - 1]);
                assert(after.heights[i - 1] == scan.heights[i]);
                assert(rest[i - 1] == outcomes[i]);
            }
        }
    }
}

/// A search is for the output of the identifier and the index asked for: among the blocks
/// from the first to the tip, for its spending or its transaction.
pub proof fn law_filters_are_asked_for_the_output(
    search: &TxOutSearch,
    tip: u32,
    query: FilterQuery,
)
    requires
        call_ensures(TxOutSearch::filter_query, (search, tip), query),
    ensures
        query.start == 1,
        query.end as int == tip as int,
        query.outpoint == search.outpoint,
        query.txid == search.outpoint.txid,
{
}

/// A search starts with the first candidate, nothing known yet; without candidates it answers
/// that nothing was found.
pub proof fn law_search_starts_with_the_first_candidate(
    search: TxOutSearch,
    heights: Vec<u64>,
    step: TxOutStep,
)
    requires
        call_ensures(TxOutSearch::candidates, (search, heights), step),
    ensures
        heights@.len() == 0 ==> step == TxOutStep::Reply(Ok::<Option<TxOut>, RpcError>(None)),
        heights@.len() > 0 ==> {
            step matches TxOutStep::LookUp(wanted) && {
                &&& heights@[0] <= u32::MAX ==> wanted.height as int == heights@[0] as int
                &&& wanted.height == heights@[0] as u32
                &&& wanted.scan@.outpoint.txid == search.outpoint.txid.bytes@
                &&& wanted.scan@.outpoint.vout == search.outpoint.vout
                &&& wanted.scan@.heights == heights@.skip(1)
                &&& wanted.scan@.txout is None
            }
        },
{
    if heights@.len() > 0 {
        assert(heights@.drop_first() =~= heights@.skip(1));
    }
}

/// Whether a search goes on to the next candidate, with what is known of the output, or
/// answers with that if no candidate is left.
pub open spec fn goes_on(
    step: TxOutStep,
    outpoint: OutPointView,
    heights: Seq<u64>,
    known: Option<TxOutView>,
) -> bool {
    if heights.len() == 0 {
        step matches TxOutStep::Reply(Ok(txout)) && is_output(txout, known)
    } else {
        step matches TxOutStep::LookUp(wanted) && {
            &&& heights[0] <= u32::MAX ==> wanted.height as int == heights[0] as int
            &&& wanted.height == heights[0] as u32
            &&& wanted.scan@.outpoint == outpoint
            &&& wanted.scan@.heights == heights.skip(1)
            &&& wanted.scan@.txout == known
        }
    }
}

/// The block of the hash that the chain gives is downloaded; a candidate without a hash is
/// passed over.
pub proof fn law_given_hash_is_downloaded(
    wanted: HashWanted,
    hash: Option<BlockHash>,
    step: TxOutStep,
)
    requires
        call_ensures(HashWanted::answer, (wanted, hash), step),
    ensures
        hash is Some ==> {
            step matches TxOutStep::Download(next) && next.hash.bytes@ == hash->0.bytes@
                && next.scan@ == wanted.scan@
        },
        hash is None ==> goes_on(
            step,
            wanted.scan@.outpoint,
            wanted.scan@.heights,
            wanted.scan@.txout,
        ),
{
    let heights = wanted.scan@.heights;
    if heights.len() > 0 {
        assert(heights.drop_first() =~= heights.skip(1));
    }
}

/// A block that comes decides on the output by its own transactions, and the search goes on;
/// one that does not come ends the search with the node's error.
pub proof fn law_downloaded_block_is_scanned(
    wanted: BlockWanted,
    found: Result<Option<Block>, NodeError>,
    step: TxOutStep,
)
    requires
        call_ensures(BlockWanted::answer, (wanted, found), step),
    ensures
        found matches Ok(Some(block)) ==> goes_on(
            step,
            wanted.scan@.outpoint,
            wanted.scan@.heights,
            unspent_after(wanted.scan@.txout, scanned(block@), wanted.scan@.outpoint),
        ),
        found matches Ok(None) ==> {
            step matches TxOutStep::Reply(Err(RpcError::Detailed { error, message, data })) && {
                &&& error == Error::Node
                &&& data is None
                &&& message@
                    == "BUG: block Ok(None) is a match in our filters, but we can't get it?"@
            }
        },
        found matches Err(failure) ==> {
            step matches TxOutStep::Reply(Err(RpcError::Detailed { error, message, data })) && {
                &&& error == Error::Node
                &&& data is Some
                &&& data->0@ == failure.display@
                &&& message@ == "error while downloading block Err("@ + failure.debug@ + ")"@
            }
        },
{
    let heights = wanted.scan@.heights;
    if heights.len() > 0 {
        assert(heights.drop_first() =~= heights.skip(1));
    }
}

/// A search with one candidate answers with what the block at that height does to the output.
pub proof fn law_search_of_one_block(
    search: TxOutSearch,
    heights: Vec<u64>,
    looking: HashWanted,
    hash: BlockHash,
    waiting: BlockWanted,
    block: Block,
    step: TxOutStep,
)
    requires
        heights@.len() == 1,
        call_ensures(TxOutSearch::candidates, (search, heights), TxOutStep::LookUp(looking)),
        call_ensures(HashWanted::answer, (looking, Some(hash)), TxOutStep::Download(waiting)),
        call_ensures(BlockWanted::answer, (waiting, Ok(Some(block))), step),
    ensures
        heights@[0] <= u32::MAX ==> looking.height as int == heights@[0] as int,
        waiting.hash.bytes@ == hash.bytes@,
        ({
            let txdata = block@.txdata;
            let wanted = OutPointView {
                txid: search.outpoint.txid.bytes@,
                vout: search.outpoint.vout,
            };
            step matches TxOutStep::Reply(Ok(txout)) && {
                &&& spent_in(txdata, wanted) ==> txout is None
                &&& (forall|i: int|
                    0 <= i < txdata.len() ==> transaction_txid(#[trigger] txdata[i]) != wanted.txid)
                    ==> txout is None
                &&& forall|i: int|
                    #![trigger first_named(txdata, wanted.txid, i)]
                    !spent_in(txdata, wanted) && first_named(txdata, wanted.txid, i) ==> {
                        let outputs = decoded_transaction(txdata[i])->Ok_0.output;
                        &&& wanted.vout < outputs.len() ==> is_output(
                            txout,
                            Some(outputs[wanted.vout as int]),
                        )
                        &&& wanted.vout >= outputs.len() ==> txout is None
                    }
            }
        }),
{
    law_search_starts_with_the_first_candidate(search, heights, TxOutStep::LookUp(looking));
    law_given_hash_is_downloaded(looking, Some(hash), TxOutStep::Download(waiting));
    law_downloaded_block_is_scanned(waiting, Ok(Some(block)), step);
    law_block_decides_on_the_output(None, block@, search.outpoint@);
}

/// An input spends an output if and only if identifier and index are the same, byte by byte.
pub proof fn law_inputs_are_compared(
    txs: &Vec<&TransactionData>,
    expected_input: &OutPoint,
    found: bool,
)
    requires
        call_ensures(has_input, (txs, expected_input), found),
    ensures
        found <==> exists|i: int, j: int|
            #![trigger txs@[i].input@[j]]
            {
                &&& 0 <= i < txs@.len()
                &&& 0 <= j < txs@[i].input@.len()
                &&& txs@[i].input@[j].previous_output.vout == expected_input.vout
                &&& txs@[i].input@[j].previous_output.txid.bytes@ == expected_input.txid.bytes@
            },
{
    let views = data_views(txs@);
    if found {
        let (i, j) = choose|i: int, j: int|
            #![trigger views[i].input[j]]
            0 <= i < views.len() && 0 <= j < views[i].input.len()
                && views[i].input[j].previous_output == expected_input@;
        assert(views[i] == txs@[i]@);
        assert(views[i].input[j] == txs@[i].input@[j]@);
        assert(txs@[i].input@[j].previous_output.vout == expected_input.vout);
    }
    if exists|i: int, j: int|
        #![trigger txs@[i].input@[j]]
        {
            &&& 0 <= i < txs@.len()
            &&& 0 <= j < txs@[i].input@.len()
            &&& txs@[i].input@[j].previous_output.vout == expected_input.vout
            &&& txs@[i].input@[j].previous_output.txid.bytes@ == expected_input.txid.bytes@
        } {
        let (i, j) = choose|i: int, j: int|
            #![trigger txs@[i].input@[j]]
            {
                &&& 0 <= i < txs@.len()
                &&& 0 <= j < txs@[i].input@.len()
                &&& txs@[i].input@[j].previous_output.vout == expected_input.vout
                &&& txs@[i].input@[j].previous_output.txid.bytes@ == expected_input.txid.bytes@
            };
        assert(views[i] == txs@[i]@);
        assert(views[i].input[j] == txs@[i].input@[j]@);
        assert(views[i].input[j].previous_output == expected_input@);
    }
}

/// Given the identifiers of a block's transactions, the first one of the identifier asked for
/// decides, unless the output is spent.
pub proof fn law_first_identifier_decides(
    txids: &Vec<Txid>,
    txs: &Vec<&TransactionData>,
    outpoint: &OutPoint,
    before: Option<TxOut>,
    after: Option<TxOut>,
    spent: bool,
    i: int,
)
    requires
        txids@.len() == txs@.len(),
        call_ensures(scan, (txids, txs, outpoint, before), after),
        call_ensures(has_input, (txs, outpoint), spent),
        0 <= i <= txids@.len(),
        forall|k: int| 0 <= k < i ==> (#[trigger] txids@[k]).bytes@ != outpoint.txid.bytes@,
        i < txids@.len() ==> txids@[i].bytes@ == outpoint.txid.bytes@,
    ensures
        spent ==> after is None,
        !spent && i == txids@.len() ==> {
            &&& after is Some <==> before is Some
            &&& after is Some ==> after->0.value == before->0.value && after->0.script_pubkey@
                == before->0.script_pubkey@
        },
        !spent && i < txids@.len() ==> {
            let outputs = txs@[i].output@;
            &&& outpoint.vout >= outputs.len() ==> after is None
            &&& outpoint.vout < outputs.len() ==> {
                &&& after is Some
                &&& after->0.value == outputs[outpoint.vout as int].value
                &&& after->0.script_pubkey@ == outputs[outpoint.vout as int].script_pubkey@
            }
        },
{
    let ids = txid_views(txids@);
    let views = data_views(txs@);
    ids.index_of_first_ensures(outpoint.txid@);
    assert(ids.len() == txids@.len());
    assert forall|k: int| 0 <= k < i implies #[trigger] ids[k] != outpoint.txid@ by {
        assert(ids[k] == txids@[k].bytes@);
    }
    if i < ids.len() {
        assert(ids[i] == txids@[i].bytes@);
        assert(ids.contains(ids[i]));
        assert(ids.index_of_first(outpoint.txid@) == Some(i));
        assert(views[i] == txs@[i]@);
        if outpoint.vout < txs@[i].output@.len() {
            assert(views[i].output[outpoint.vout as int] == txs@[i].output@[outpoint.vout as int]@);
        }
    } else {
        assert(!ids.contains(outpoint.txid@));
    }
}

/// Two identifiers are the same if and only if their bytes are; two outputs' places, if their
/// indexes are too. A copy of an output is the output.
pub proof fn law_same_means_same_bytes(
    left: &OutPoint,
    right: &OutPoint,
    same: bool,
    same_txid: bool,
    output: &TxOut,
    copy: TxOut,
)
    requires
        call_ensures(OutPoint::same, (left, right), same),
        call_ensures(Txid::same, (&left.txid, &right.txid), same_txid),
        call_ensures(TxOut::clone, (output,), copy),
    ensures
        same_txid <==> left.txid.bytes@ == right.txid.bytes@,
        same <==> left.txid.bytes@ == right.txid.bytes@ && left.vout == right.vout,
        copy.value == output.value,
        copy.script_pubkey@ == output.script_pubkey@,
{
}

} // verus!
