//! Outcomes as the engine and the drivers report them: their order, and
//! the outcomes of a surrender and of a game that ran out of time.

use vstd::prelude::*;
use vstd::relations::{sorted_by, total_ordering};
use vstd::seq_lib::{lemma_sorted_unique, to_multiset_build, to_multiset_insert};
use crate::sc2::PlayerResult;

verus! {

/// Order of reported outcomes: by player id, and for one player id by the
/// rank of the outcome.
pub open spec fn outcome_leq(a: (u32, PlayerResult), b: (u32, PlayerResult)) -> bool {
    a.0 < b.0 || (a.0 == b.0 && a.1.rank() <= b.1.rank())
}

/// [`outcome_leq`] as a relation.
pub open spec fn outcome_order() -> spec_fn((u32, PlayerResult), (u32, PlayerResult)) -> bool {
    |a: (u32, PlayerResult), b: (u32, PlayerResult)| outcome_leq(a, b)
}

/// The order of reported outcomes is total.
pub proof fn outcome_order_is_total()
    ensures
        total_ordering(outcome_order()),
{
    let order = outcome_order();
    assert forall|x: (u32, PlayerResult), y: (u32, PlayerResult)|
        #[trigger] order(x, y) && #[trigger] order(y, x) implies x == y by {
        assert(x.0 == y.0);
        assert(x.1.rank() == y.1.rank());
    }
}

/// Executable form of [`outcome_leq`].
pub fn outcome_before(a: (u32, PlayerResult), b: (u32, PlayerResult)) -> (before: bool)
    ensures
        before == outcome_leq(a, b),
{
    a.0 < b.0 || (a.0 == b.0 && a.1.rank_number() <= b.1.rank_number())
}

/// The outcomes in ascending order.
pub fn sort_outcomes(entries: &Vec<(u32, PlayerResult)>) -> (sorted: Vec<(u32, PlayerResult)>)
    ensures
        sorted@ == entries@.sort_by(outcome_order()),
        sorted_by(sorted@, outcome_order()),
        sorted@.to_multiset() == entries@.to_multiset(),
{
    let mut sorted: Vec<(u32, PlayerResult)> = Vec::new();
    let mut i: usize = 0;
    proof {
        outcome_order_is_total();
        assert(sorted@ =~= entries@.take(0));
    }
    while i < entries.len()
        invariant
            i <= entries.len(),
            total_ordering(outcome_order()),
            sorted_by(sorted@, outcome_order()),
            sorted@.to_multiset() == entries@.take(i as int).to_multiset(),
        decreases entries.len() - i,
    {
        let x = entries[i];
        let mut p: usize = 0;
        while p < sorted.len() && outcome_before(sorted[p], x)
            invariant
                p <= sorted.len(),
                forall|k: int| 0 <= k < p ==> outcome_leq(#[trigger] sorted@[k], x),
            decreases sorted.len() - p,
        {
            p += 1;
        }
        let ghost before = sorted@;
        sorted.insert(p, x);
        proof {
            let order = outcome_order();
            to_multiset_insert(before, p as int, x);
            assert(entries@.take(i + 1) =~= entries@.take(i as int).push(x));
            to_multiset_build(entries@.take(i as int), x);
            assert forall|a: int, b: int| 0 <= a < b < sorted@.len() implies #[trigger] order(
                sorted@[a],
                sorted@[b],
            ) by {
                if b < p {
                    assert(order(before[a], before[b]));
                } else if b == p {
                    assert(outcome_leq(before[a], x));
                } else if a == p {
                    assert(!outcome_leq(before[p as int], x));
                    assert(order(x, before[p as int]) || order(before[p as int], x));
                    if b - 1 > p {
                        assert(order(before[p as int], before[b - 1]));
                    }
                    assert(order(x, before[b - 1]));
                } else if a < p {
                    assert(order(before[a], before[b - 1]));
                } else {
                    assert(order(before[a - 1], before[b - 1]));
                }
            }
        }
        i += 1;
    }
    proof {
        assert(entries@.take(entries.len() as int) =~= entries@);
        entries@.lemma_sort_by_ensures(outcome_order());
        lemma_sorted_unique(sorted@, entries@.sort_by(outcome_order()), outcome_order());
    }
    sorted
}

/// Outcomes of a game that the player with the given id gave up: defeat for
/// that player, victory for the other.
pub open spec fn surrender_results(player_id: u32) -> Seq<PlayerResult> {
    seq![PlayerResult::Victory, PlayerResult::Victory].update(
        player_id - 1,
        PlayerResult::Defeat,
    )
}

/// Outcomes of a game that ran into the time limit.
pub open spec fn tie_results() -> Seq<PlayerResult> {
    seq![PlayerResult::Tie, PlayerResult::Tie]
}

/// Whether every reported outcome is a victory, a defeat or a tie.
pub open spec fn all_decided(results: Seq<(u32, i32)>) -> bool {
    forall|i: int| 0 <= i < results.len() ==> PlayerResult::is_decided_number(#[trigger] results[i].1 as int)
}

/// The reported outcomes with their protocol numbers read.
pub open spec fn outcomes(results: Seq<(u32, i32)>) -> Seq<(u32, PlayerResult)> {
    results.map_values(|r: (u32, i32)| (r.0, PlayerResult::of_proto_number(r.1 as int)))
}

/// The outcomes that a driver reports: those of the engine, ordered by
/// player id.
pub open spec fn final_results(results: Seq<(u32, i32)>) -> Seq<PlayerResult> {
    outcomes(results).sort_by(outcome_order()).map_values(|o: (u32, PlayerResult)| o.1)
}

/// Reads the protocol numbers of reported outcomes; `None` where one of them
/// is no victory, defeat or tie.
pub fn read_outcomes(results: &Vec<(u32, i32)>) -> (entries: Option<Vec<(u32, PlayerResult)>>)
    ensures
        entries is Some <==> all_decided(results@),
        entries matches Some(e) ==> e@ == outcomes(results@),
{
    let mut entries: Vec<(u32, PlayerResult)> = Vec::new();
    let mut i: usize = 0;
    while i < results.len()
        invariant
            i <= results.len(),
            all_decided(results@.take(i as int)),
            entries@ == outcomes(results@.take(i as int)),
        decreases results.len() - i,
    {
        let (player_id, number) = results[i];
        if number < 1 || number > 3 {
            assert(!PlayerResult::is_decided_number(results@[i as int].1 as int));
            return None;
        }
        entries.push((player_id, PlayerResult::from_proto(number)));
        assert(entries@ =~= outcomes(results@.take(i + 1)));
        assert forall|k: int| 0 <= k < i + 1 implies PlayerResult::is_decided_number(
            #[trigger] results@.take(i + 1)[k].1 as int,
        ) by {
            if k < i {
                assert(results@.take(i as int)[k] == results@.take(i + 1)[k]);
            }
        }
        i += 1;
    }
    assert(results@.take(results.len() as int) =~= results@);
    Some(entries)
}

/// The outcomes of the entries, in order.
pub fn outcome_values(entries: &Vec<(u32, PlayerResult)>) -> (values: Vec<PlayerResult>)
    ensures
        values@ == entries@.map_values(|o: (u32, PlayerResult)| o.1),
{
    let mut values: Vec<PlayerResult> = Vec::new();
    let mut i: usize = 0;
    while i < entries.len()
        invariant
            i <= entries.len(),
            values@ == entries@.take(i as int).map_values(|o: (u32, PlayerResult)| o.1),
        decreases entries.len() - i,
    {
        values.push(entries[i].1);
        assert(values@ =~= entries@.take(i + 1).map_values(|o: (u32, PlayerResult)| o.1));
        i += 1;
    }
    assert(entries@.take(entries.len() as int) =~= entries@);
    values
}

} // verus!
