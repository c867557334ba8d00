//! Which items of a dataset are due, and how many new ones a session needs.
use crate::music::{fresh_items, Practice, SpacedRepetition};
use crate::time::Timestamp;
use vstd::prelude::*;

verus! {

/// Positions of the items of `dataset` due at `now`, in dataset order.
pub open spec fn due_positions(dataset: Seq<Practice>, now: Timestamp) -> Seq<usize>
    decreases dataset.len(),
{
    if dataset.len() == 0 {
        Seq::empty()
    } else {
        let rest = due_positions(dataset.drop_last(), now);
        if dataset.last().is_due_spec(now) {
            rest.push((dataset.len() - 1) as usize)
        } else {
            rest
        }
    }
}

/// Positions of the items of `dataset` that are due at `now`, in dataset
/// order.
pub fn select_due(dataset: &Vec<Practice>, now: Timestamp) -> (r: Vec<usize>)
    ensures
        r@ == due_positions(dataset@, now),
{
    let mut r: Vec<usize> = Vec::new();
    let mut i: usize = 0;
    while i < dataset.len()
        invariant
            i <= dataset@.len(),
            r@ == due_positions(dataset@.subrange(0, i as int), now),
        decreases dataset@.len() - i,
    {
        proof {
            let next = dataset@.subrange(0, i + 1);
            assert(next.drop_last() =~= dataset@.subrange(0, i as int));
            assert(next.last() == dataset@[i as int]);
        }
        if dataset[i].is_due(now) {
            r.push(i);
        }
        i = i + 1;
    }
    assert(dataset@.subrange(0, dataset@.len() as int) =~= dataset@);
    r
}

/// How many new items bring `current` up to `minimum`.
pub open spec fn shortfall(current: int, minimum: int) -> int {
    if current < minimum {
        minimum - current
    } else {
        0
    }
}

/// New random items that bring a session of `current` items up to
/// `minimum`; none if it already has as many.
pub fn top_up(current: usize, minimum: usize) -> (r: Vec<Practice>)
    ensures
        r@.len() == shortfall(current as int, minimum as int),
        forall|i: int|
            0 <= i < r@.len() ==> r@[i].repetition_lvl == SpacedRepetition::New && r@[i].created
                == r@[i].last_practiced,
{
    let missing: usize = if current < minimum {
        minimum - current
    } else {
        0
    };
    fresh_items(missing)
}

/// A session that already has `minimum` items gets none; a smaller one gets
/// exactly the missing number, all new.
pub proof fn lemma_top_up_size(current: int, minimum: int)
    ensures
        current >= minimum ==> shortfall(current, minimum) == 0,
        current < minimum ==> shortfall(current, minimum) == minimum - current
            && current + shortfall(current, minimum) == minimum,
{
}

/// The due positions are exactly the positions of the items that are due,
/// each once and in increasing order.
pub proof fn lemma_due_positions(dataset: Seq<Practice>, now: Timestamp)
    requires
        dataset.len() <= usize::MAX,
    ensures
        forall|k: int|
            0 <= k < due_positions(dataset, now).len() ==> (due_positions(dataset, now)[k] as int)
                < dataset.len() && dataset[due_positions(dataset, now)[k] as int].is_due_spec(now),
        forall|k: int, m: int|
            0 <= k < m < due_positions(dataset, now).len() ==> due_positions(dataset, now)[k]
                < due_positions(dataset, now)[m],
        forall|i: int|
            0 <= i < dataset.len() && #[trigger] dataset[i].is_due_spec(now) ==> exists|k: int|
                0 <= k < due_positions(dataset, now).len() && due_positions(dataset, now)[k] == i,
    decreases dataset.len(),
{
    if dataset.len() > 0 {
        let init = dataset.drop_last();
        lemma_due_positions(init, now);
        let rest = due_positions(init, now);
        let r = due_positions(dataset, now);
        assert forall|k: int| 0 <= k < rest.len() implies (rest[k] as int) < init.len()
            && dataset[rest[k] as int] == init[rest[k] as int] by {}
        assert forall|i: int|
            0 <= i < dataset.len() && #[trigger] dataset[i].is_due_spec(now) implies exists|k: int|
                0 <= k < r.len() && r[k] == i by {
            if i < init.len() {
                assert(init[i] == dataset[i]);
                let k = choose|k: int| 0 <= k < rest.len() && rest[k] == i;
                assert(r[k] == rest[k]);
            } else {
                assert(dataset.last() == dataset[i]);
                assert(r[rest.len() as int] == i);
            }
        }
    }
}

/// Records a practice at `now` of each item that the user chose: `chosen`
/// holds distinct positions in `due`, and `due` increasing positions in
/// `dataset`, as `select_due` gives them. Every other item stays as it was.
pub fn record_chosen(dataset: &mut Vec<Practice>, due: &Vec<usize>, chosen: &Vec<usize>, now: Timestamp)
    requires
        forall|k: int| 0 <= k < chosen@.len() ==> (chosen@[k] as int) < due@.len(),
        forall|a: int, b: int| 0 <= a < b < chosen@.len() ==> chosen@[a] != chosen@[b],
        forall|j: int| 0 <= j < due@.len() ==> (due@[j] as int) < old(dataset)@.len(),
        forall|a: int, b: int| 0 <= a < b < due@.len() ==> due@[a] < due@[b],
    ensures
        final(dataset)@.len() == old(dataset)@.len(),
        forall|k: int|
            0 <= k < chosen@.len() ==> final(dataset)@[due@[chosen@[k] as int] as int]
                == old(dataset)@[due@[chosen@[k] as int] as int].practised_at(now),
        forall|i: int|
            0 <= i < old(dataset)@.len() && (forall|k: int|
                0 <= k < chosen@.len() ==> due@[chosen@[k] as int] != i) ==> final(dataset)@[i]
                == old(dataset)@[i],
{
    let ghost start = dataset@;
    let mut k: usize = 0;
    while k < chosen.len()
        invariant
            k <= chosen@.len(),
            dataset@.len() == start.len(),
            forall|c: int| 0 <= c < chosen@.len() ==> (chosen@[c] as int) < due@.len(),
            forall|a: int, b: int| 0 <= a < b < chosen@.len() ==> chosen@[a] != chosen@[b],
            forall|j: int| 0 <= j < due@.len() ==> (due@[j] as int) < start.len(),
            forall|a: int, b: int| 0 <= a < b < due@.len() ==> due@[a] < due@[b],
            forall|c: int|
                0 <= c < k ==> dataset@[due@[chosen@[c] as int] as int]
                    == start[due@[chosen@[c] as int] as int].practised_at(now),
            forall|i: int|
                0 <= i < start.len() && (forall|c: int| 0 <= c < k ==> due@[chosen@[c] as int] != i)
                    ==> dataset@[i] == start[i],
        decreases chosen@.len() - k,
    {
        let pick = chosen[k];
        let idx = due[pick];
        assert forall|c: int| 0 <= c < k implies due@[chosen@[c] as int] != idx by {
            let p = chosen@[c] as int;
            assert(p != pick);
            if p < pick {
                assert(due@[p] < due@[pick as int]);
            } else {
                assert(due@[pick as int] < due@[p]);
            }
        }
        let mut item = dataset[idx];
        item.record_practice(now);
        dataset.set(idx, item);
        k = k + 1;
    }
}

} // verus!
