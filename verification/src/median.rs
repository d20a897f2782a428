//! The median of the times of the blocks before a block.

use vstd::prelude::*;
use vstd::relations::{sorted_by, total_ordering};
use vstd::seq_lib::{lemma_sorted_unique, to_multiset_build, to_multiset_insert};

verus! {

/// The order of times.
pub open spec fn not_after() -> spec_fn(u32, u32) -> bool {
    |left: u32, right: u32| left <= right
}

/// The sixth of the times in order, the middle one of eleven; zero if there are not as many.
pub open spec fn median_time_past(times: Seq<u32>) -> u32 {
    if times.len() > 5 {
        times.sort_by(not_after())[5]
    } else {
        0
    }
}

/// The times in order.
fn sorted_times(times: &Vec<u32>) -> (sorted: Vec<u32>)
    ensures
        sorted@ == times@.sort_by(not_after()),
{
    broadcast use vstd::seq_lib::group_to_multiset_ensures;

    let mut sorted: Vec<u32> = Vec::new();
    let mut i: usize = 0;
    assert(times@.take(0) =~= Seq::<u32>::empty());
    while i < times.len()
        invariant
            i <= times@.len(),
            sorted@.len() == i,
            sorted@.to_multiset() == times@.take(i as int).to_multiset(),
            forall|j: int, k: int| 0 <= j < k < sorted@.len() ==> sorted@[j] <= sorted@[k],
        decreases times@.len() - i,
    {
        let time: u32 = times[i];
        let ghost before = sorted@;
        let mut place: usize = 0;
        while place < sorted.len() && sorted[place] <= time
            invariant
                place <= sorted@.len(),
                sorted@ == before,
                forall|j: int| 0 <= j < place ==> sorted@[j] <= time,
            decreases sorted@.len() - place,
        {
            place += 1;
        }
        sorted.insert(place, time);
        proof {
            assert(sorted@ == before.insert(place as int, time));
            before.insert_ensures(place as int, time);
            to_multiset_insert(before, place as int, time);
            assert(times@.take(i as int + 1) =~= times@.take(i as int).push(time));
            to_multiset_build(times@.take(i as int), time);
        }
        i += 1;
    }
    proof {
        assert(times@.take(i as int) =~= times@);
        assert(total_ordering(not_after()));
        times@.lemma_sort_by_ensures(not_after());
        assert(sorted_by(sorted@, not_after()));
        lemma_sorted_unique(sorted@, times@.sort_by(not_after()), not_after());
    }
    sorted
}

/// Finds the median of the times of the blocks before a block.
pub fn find_median_time_past(times: &Vec<u32>) -> (median: u32)
    ensures
        median == median_time_past(times@),
{
    let sorted = sorted_times(times);
    proof {
        assert(total_ordering(not_after()));
        times@.lemma_sort_by_ensures(not_after());
        broadcast use vstd::seq_lib::group_to_multiset_ensures;

        assert(sorted@.to_multiset().len() == sorted@.len());
        assert(times@.to_multiset().len() == times@.len());
    }
    if sorted.len() > 5 {
        sorted[5]
    } else {
        0
    }
}

/// The median of six or more times is one of them.
pub proof fn law_median_is_one_of_the_times(times: Seq<u32>)
    requires
        times.len() > 5,
    ensures
        times.contains(median_time_past(times)),
{
    broadcast use vstd::seq_lib::group_to_multiset_ensures;

    assert(total_ordering(not_after()));
    times.lemma_sort_by_ensures(not_after());
    let sorted = times.sort_by(not_after());
    assert(sorted.to_multiset().len() == sorted.len());
    assert(times.to_multiset().len() == times.len());
    assert(sorted.contains(sorted[5]));
}

/// How many of the times a condition holds of.
pub open spec fn count_of(times: Seq<u32>, condition: spec_fn(u32) -> bool) -> nat {
    times.to_multiset().filter(condition).len()
}

proof fn lemma_count_of_push(times: Seq<u32>, time: u32, condition: spec_fn(u32) -> bool)
    ensures
        count_of(times.push(time), condition) == count_of(times, condition) + if condition(time) {
            1nat
        } else {
            0nat
        },
{
    broadcast use vstd::multiset::group_multiset_axioms;

    to_multiset_build(times, time);
    let before = times.to_multiset();
    let after = times.push(time).to_multiset();
    if condition(time) {
        assert(after.filter(condition) =~= before.filter(condition).insert(time));
    } else {
        assert(after.filter(condition) =~= before.filter(condition));
    }
}

proof fn lemma_count_of_last(times: Seq<u32>, condition: spec_fn(u32) -> bool)
    ensures
        times.len() == 0 ==> count_of(times, condition) == 0,
        times.len() > 0 ==> count_of(times, condition) == count_of(times.drop_last(), condition)
            + if condition(times.last()) {
            1nat
        } else {
            0nat
        },
{
    broadcast use vstd::multiset::group_multiset_axioms;
    broadcast use vstd::seq_lib::group_to_multiset_ensures;

    if times.len() == 0 {
        assert(times =~= Seq::<u32>::empty());
        assert(times.to_multiset().len() == 0);
        assert(times.to_multiset().filter(condition) =~= vstd::multiset::Multiset::empty());
    } else {
        assert(times.drop_last().push(times.last()) =~= times);
        lemma_count_of_push(times.drop_last(), times.last(), condition);
    }
}

proof fn lemma_count_within(
    times: Seq<u32>,
    condition: spec_fn(u32) -> bool,
    end: int,
    within: bool,
)
    requires
        0 <= end <= times.len(),
        within ==> forall|i: int| 0 <= i < end ==> condition(#[trigger] times[i]),
        !within ==> forall|i: int| end <= i < times.len() ==> !condition(#[trigger] times[i]),
    ensures
        within ==> count_of(times, condition) >= end,
        !within ==> count_of(times, condition) <= end,
    decreases times.len(),
{
    lemma_count_of_last(times, condition);
    if times.len() > 0 {
        let rest = times.drop_last();
        if end < times.len() {
            assert forall|i: int| end <= i < rest.len() && !within implies !condition(
                #[trigger] rest[i],
            ) by {
                assert(rest[i] == times[i]);
            }
            assert forall|i: int| 0 <= i < end && within implies condition(#[trigger] rest[i]) by {
                assert(rest[i] == times[i]);
            }
            lemma_count_within(rest, condition, end, within);
            assert(times.last() == times[times.len() - 1]);
        } else {
            assert forall|i: int| 0 <= i < end - 1 && within implies condition(
                #[trigger] rest[i],
            ) by {
                assert(rest[i] == times[i]);
            }
            lemma_count_within(rest, condition, end - 1, within);
            assert(times.last() == times[times.len() - 1]);
        }
    }
}

/// Of six or more times, no more than five are before the one that is found and no fewer than
/// six are not after it: of eleven, it is the middle one. Of fewer, none is found.
pub proof fn law_median_stands_sixth(times: &Vec<u32>, median: u32)
    requires
        call_ensures(find_median_time_past, (times,), median),
    ensures
        times@.len() > 5 ==> {
            &&& count_of(times@, |time: u32| time < median) <= 5
            &&& count_of(times@, |time: u32| time <= median) >= 6
        },
        times@.len() <= 5 ==> median == 0,
{
    law_found_median_stands_sixth(times@);
}

/// Of six or more times, no more than five are before the median and no fewer than six are
/// not after it.
pub proof fn law_found_median_stands_sixth(times: Seq<u32>)
    ensures
        times.len() > 5 ==> {
            &&& count_of(times, |time: u32| time < median_time_past(times)) <= 5
            &&& count_of(times, |time: u32| time <= median_time_past(times)) >= 6
        },
        times.len() <= 5 ==> median_time_past(times) == 0,
{
    if times.len() > 5 {
        broadcast use vstd::seq_lib::group_to_multiset_ensures;

        assert(total_ordering(not_after()));
        times.lemma_sort_by_ensures(not_after());
        let sorted = times.sort_by(not_after());
        assert(sorted.to_multiset().len() == sorted.len());
        assert(times.to_multiset().len() == times.len());
        let median = median_time_past(times);
        let earlier = |time: u32| time < median;
        let not_later = |time: u32| time <= median;
        assert forall|i: int| 5 <= i < sorted.len() implies !earlier(#[trigger] sorted[i]) by {
            assert(not_after()(sorted[5], sorted[i]));
        }
        assert forall|i: int| 0 <= i < 6 implies not_later(#[trigger] sorted[i]) by {
            assert(not_after()(sorted[i], sorted[5]));
        }
        lemma_count_within(sorted, earlier, 5, false);
        lemma_count_within(sorted, not_later, 6, true);
        assert(count_of(times, earlier) == count_of(sorted, earlier));
        assert(count_of(times, not_later) == count_of(sorted, not_later));
    }
}

/// The order in which the times are read makes no difference.
pub proof fn law_median_ignores_order(times: Seq<u32>, others: Seq<u32>)
    requires
        times.to_multiset() == others.to_multiset(),
    ensures
        median_time_past(times) == median_time_past(others),
{
    broadcast use vstd::seq_lib::group_to_multiset_ensures;

    assert(total_ordering(not_after()));
    times.lemma_sort_by_ensures(not_after());
    others.lemma_sort_by_ensures(not_after());
    lemma_sorted_unique(times.sort_by(not_after()), others.sort_by(not_after()), not_after());
    assert(times.to_multiset().len() == times.len());
    assert(others.to_multiset().len() == others.len());
}

} // verus!
