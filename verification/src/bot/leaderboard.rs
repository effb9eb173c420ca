//! The notch counts of the leaderboard: who took how many notches, most
//! first.

use vstd::prelude::*;
use itertools::Itertools;
use std::cmp::Ordering;
use crate::bot::models::Argument;

verus! {

/// Whether an argument's notch went to the given taker (or to nobody, for
/// `None`).
pub open spec fn taken_by(taker: Option<i64>) -> spec_fn(Argument) -> bool {
    |a: Argument| a.notch_taker_id == taker
}

/// How many of the arguments gave their notch to the member with this id.
pub open spec fn notch_count(arguments: Seq<Argument>, id: i64) -> nat {
    arguments.filter(taken_by(Some(id))).len()
}

/// Whether `output` is `input` put in order of count, most first, by a sort
/// that keeps rows of equal count in their input order; `perm` gives, for
/// each output row, its position in the input.
pub open spec fn stably_sorted_by_count(
    input: Seq<(i64, usize)>,
    output: Seq<(i64, usize)>,
    perm: Seq<int>,
) -> bool {
    &&& output.len() == input.len()
    &&& perm.len() == input.len()
    &&& forall|i: int| 0 <= i < output.len() ==> 0 <= #[trigger] perm[i] < input.len() && output[i] == input[perm[i]]
    &&& forall|i: int, j: int| 0 <= i < j < output.len() ==> #[trigger] perm[i] != #[trigger] perm[j]
    &&& forall|k: int|
        #![trigger input[k]]
        0 <= k < input.len() ==> exists|i: int| 0 <= i < output.len() && #[trigger] perm[i] == k
    &&& forall|i: int, j: int| 0 <= i < j < output.len() ==> (#[trigger] output[i]).1 >= (#[trigger] output[j]).1
    &&& forall|i: int, j: int|
        0 <= i < j < output.len() && (#[trigger] output[i]).1 == (#[trigger] output[j]).1 ==> perm[i] < perm[j]
}

/// Orders two leaderboard rows by notch count, the larger count first.
pub fn by_count_descending(a: &(i64, usize), b: &(i64, usize)) -> (order: Ordering)
    ensures
        order == Ordering::Less <==> a.1 > b.1,
        order == Ordering::Equal <==> a.1 == b.1,
        order == Ordering::Greater <==> a.1 < b.1,
{
    if b.1 < a.1 {
        Ordering::Less
    } else if b.1 == a.1 {
        Ordering::Equal
    } else {
        Ordering::Greater
    }
}

/// Groups the arguments by who took their notch, with itertools'
/// `Itertools::into_group_map_by` keyed by the `notch_taker_id` field; the
/// map's entries are handed out as a list.
///
/// Claimed of the outside code: every key that occurs in the input has
/// exactly one group, no other key has one, and a group holds the arguments
/// of its key in their input order (the crate pushes each item onto its key's
/// vector as the input is walked). The order of the groups is that of a
/// `HashMap` walk, and nothing is said of it.
#[verifier::external_body]
fn group_by_notch_taker(arguments: Vec<Argument>) -> (groups: Vec<(Option<i64>, Vec<Argument>)>)
    ensures
        forall|i: int|
            0 <= i < groups@.len() ==> (#[trigger] groups@[i]).1@ == arguments@.filter(taken_by(groups@[i].0))
                && groups@[i].1@.len() > 0,
        forall|i: int, j: int| 0 <= i < j < groups@.len() ==> (#[trigger] groups@[i]).0 != (#[trigger] groups@[j]).0,
        forall|k: int|
            0 <= k < arguments@.len() ==> exists|i: int|
                0 <= i < groups@.len() && (#[trigger] groups@[i]).0 == (#[trigger] arguments@[k]).notch_taker_id,
{
    arguments.into_iter().into_group_map_by(|a| a.notch_taker_id).into_iter().collect()
}

/// Sorts the rows with itertools' `Itertools::sorted_by` and
/// [`by_count_descending`] as the comparator.
///
/// Claimed of the outside code: it collects the rows and sorts them with
/// std's `slice::sort_by`, which is documented as stable; so the result is a
/// permutation of the input, ordered by count with the largest first, and
/// rows of equal count keep their input order.
#[verifier::external_body]
fn sort_by_count_descending(stats: Vec<(i64, usize)>) -> (sorted: Vec<(i64, usize)>)
    ensures
        exists|perm: Seq<int>| stably_sorted_by_count(stats@, sorted@, perm),
{
    stats.into_iter().sorted_by(|a, b| by_count_descending(a, b)).collect()
}

/// Whether a leaderboard row counts the given group: the group's taker with
/// the size of the group.
pub open spec fn row_of_group(row: (i64, usize), group: (Option<i64>, Vec<Argument>)) -> bool {
    group.0 == Some(row.0) && row.1 == group.1@.len()
}

/// One row per group with a notch taker: the taker's id and the size of the
/// group; `source` gives, for each row, the position of its group.
fn taker_rows(groups: &Vec<(Option<i64>, Vec<Argument>)>) -> (result: (Vec<(i64, usize)>, Ghost<Seq<int>>))
    ensures
        result.1@.len() == result.0@.len(),
        forall|m: int|
            0 <= m < result.0@.len() ==> 0 <= #[trigger] result.1@[m] < groups@.len() && row_of_group(
                result.0@[m],
                groups@[result.1@[m]],
            ),
        forall|m1: int, m2: int| 0 <= m1 < m2 < result.0@.len() ==> #[trigger] result.1@[m1] < #[trigger] result.1@[m2],
        forall|j: int|
            0 <= j < groups@.len() && (#[trigger] groups@[j]).0 is Some ==> exists|m: int|
                0 <= m < result.0@.len() && #[trigger] result.1@[m] == j,
{
    let mut rows: Vec<(i64, usize)> = Vec::new();
    let ghost mut source: Seq<int> = Seq::empty();
    let mut g: usize = 0;
    while g < groups.len()
        invariant
            0 <= g <= groups@.len(),
            source.len() == rows@.len(),
            forall|m: int|
                0 <= m < rows@.len() ==> 0 <= #[trigger] source[m] < g && row_of_group(rows@[m], groups@[source[m]]),
            forall|m1: int, m2: int| 0 <= m1 < m2 < rows@.len() ==> #[trigger] source[m1] < #[trigger] source[m2],
            forall|j: int|
                0 <= j < g && (#[trigger] groups@[j]).0 is Some ==> exists|m: int|
                    0 <= m < rows@.len() && #[trigger] source[m] == j,
        decreases groups@.len() - g,
    {
        let ghost old_source = source;
        let key = groups[g].0;
        match key {
            Some(id) => {
                let count = groups[g].1.len();
                rows.push((id, count));
                proof {
                    source = source.push(g as int);
                }
            },
            None => {},
        }
        proof {
            assert forall|j: int|
                0 <= j < g + 1 && (#[trigger] groups@[j]).0 is Some implies exists|m: int|
                    0 <= m < rows@.len() && #[trigger] source[m] == j by {
                if j == g {
                    assert(source[rows@.len() - 1] == j);
                } else {
                    let m = choose|m: int| 0 <= m < old_source.len() && #[trigger] old_source[m] == j;
                    assert(source[m] == old_source[m]);
                }
            }
        }
        g = g + 1;
    }
    (rows, Ghost(source))
}

/// The leaderboard of the taken arguments: one row per member who took a
/// notch, with the number of notches taken, most notches first. Arguments
/// without a notch taker count for nobody.
pub fn leaderboard_stats(taken_arguments: Vec<Argument>) -> (stats: Vec<(i64, usize)>)
    ensures
        forall|i: int, j: int| 0 <= i < j < stats@.len() ==> (#[trigger] stats@[i]).1 >= (#[trigger] stats@[j]).1,
        forall|i: int, j: int| 0 <= i < j < stats@.len() ==> (#[trigger] stats@[i]).0 != (#[trigger] stats@[j]).0,
        forall|i: int|
            0 <= i < stats@.len() ==> (#[trigger] stats@[i]).1 == notch_count(taken_arguments@, stats@[i].0)
                && stats@[i].1 > 0,
        forall|k: int|
            0 <= k < taken_arguments@.len() && (#[trigger] taken_arguments@[k]).notch_taker_id is Some
                ==> exists|i: int|
                0 <= i < stats@.len() && Some((#[trigger] stats@[i]).0) == taken_arguments@[k].notch_taker_id,
{
    let ghost arguments = taken_arguments@;
    let groups = group_by_notch_taker(taken_arguments);
    let (unsorted, Ghost(source)) = taker_rows(&groups);
    assert forall|m: int| 0 <= m < unsorted@.len() implies (#[trigger] unsorted@[m]).1 == notch_count(
        arguments,
        unsorted@[m].0,
    ) && unsorted@[m].1 > 0 by {
        assert(row_of_group(unsorted@[m], groups@[source[m]]));
    }
    assert forall|m1: int, m2: int| 0 <= m1 < m2 < unsorted@.len() implies (#[trigger] unsorted@[m1]).0 != (
    #[trigger] unsorted@[m2]).0 by {
        assert(source[m1] < source[m2]);
        assert(row_of_group(unsorted@[m1], groups@[source[m1]]));
        assert(row_of_group(unsorted@[m2], groups@[source[m2]]));
    }
    let stats = sort_by_count_descending(unsorted);
    let ghost perm = choose|perm: Seq<int>| stably_sorted_by_count(unsorted@, stats@, perm);
    assert forall|i: int, j: int| 0 <= i < j < stats@.len() implies (#[trigger] stats@[i]).0 != (#[trigger] stats@[j]).0 by {
        if stats@[i].0 == stats@[j].0 {
            assert(perm[i] != perm[j]);
            if perm[i] < perm[j] {
                assert(unsorted@[perm[i]].0 != unsorted@[perm[j]].0);
            } else {
                assert(unsorted@[perm[j]].0 != unsorted@[perm[i]].0);
            }
        }
    }
    assert forall|i: int| 0 <= i < stats@.len() implies (#[trigger] stats@[i]).1 == notch_count(arguments, stats@[i].0)
        && stats@[i].1 > 0 by {
        assert(stats@[i] == unsorted@[perm[i]]);
    }
    assert forall|k: int|
        0 <= k < arguments.len() && (#[trigger] arguments[k]).notch_taker_id is Some implies exists|i: int|
            0 <= i < stats@.len() && Some((#[trigger] stats@[i]).0) == arguments[k].notch_taker_id by {
        let j = choose|j: int| 0 <= j < groups@.len() && (#[trigger] groups@[j]).0 == arguments[k].notch_taker_id;
        let m = choose|m: int| 0 <= m < unsorted@.len() && #[trigger] source[m] == j;
        assert(row_of_group(unsorted@[m], groups@[source[m]]));
        let i = choose|i: int| 0 <= i < stats@.len() && #[trigger] perm[i] == m;
        assert(stats@[i] == unsorted@[m]);
    }
    stats
}

} // verus!
