//! Small collections of ids.

use std::collections::{HashMap, HashSet};

use vstd::prelude::*;
use vstd::std_specs::iter::IteratorSpec;

use crate::wire::Id;

verus! {

broadcast use vstd::std_specs::hash::group_hash_axioms;

/// The most accounts one profile read names.
pub const PROFILE_BATCH: usize = 128;

/// The most topics one presence watch names.
pub const WATCH_BATCH: usize = 128;

/// A copy of some ids.
pub fn copy_ids(ids: &Vec<Id>) -> (copy: Vec<Id>)
    ensures
        copy@ == ids@,
{
    let mut copy: Vec<Id> = Vec::new();
    let mut i: usize = 0;
    while i < ids.len()
        invariant
            i <= ids.len(),
            copy@ == ids@.take(i as int),
        decreases ids.len() - i,
    {
        copy.push(ids[i]);
        assert(ids@.take(i + 1) =~= ids@.take(i as int).push(ids@[i as int]));
        i = i + 1;
    }
    assert(ids@.take(ids@.len() as int) =~= ids@);
    copy
}

/// Every id of a set, once each, in no particular order.
pub fn list_of(set: &HashSet<Id>) -> (ids: Vec<Id>)
    ensures
        ids@.to_set() == set@,
        ids@.no_duplicates(),
{
    let mut ids: Vec<Id> = Vec::new();
    let ghost walked = vstd::std_specs::hash::spec_hash_keys_iter(set).remaining().unref();
    for id in it: set.iter()
        invariant
            it.seq().unref() == walked,
            walked.to_set() == set@,
            it.seq().no_duplicates(),
            ids@ == walked.take(it.index() as int),
            it.seq().len() == walked.len(),
    {
        assert(walked.take(it.index() + 1) =~= walked.take(it.index() as int).push(*id));
        ids.push(*id);
    }
    assert(walked.take(walked.len() as int) =~= walked);
    ids
}

/// A key that maps to an id, if any does.
pub fn key_of(map: &HashMap<Id, Id>, value: Id) -> (key: Option<Id>)
    ensures
        key matches Some(k) ==> map@.contains_key(k) && map@[k] == value,
        key is None ==> forall|k: Id| #[trigger] map@.contains_key(k) ==> map@[k] != value,
{
    let mut found: Option<Id> = None;
    for pair in it: map.iter()
        invariant
            forall|i: int|
                #![trigger it.seq()[i]]
                0 <= i < it.seq().len() ==> map@.contains_key(*it.seq()[i].0)
                    && map@[*it.seq()[i].0] == *it.seq()[i].1,
            forall|k: Id| #[trigger] map@.contains_key(k) ==> it.seq().contains((&k, &map@[k])),
            found matches Some(k) ==> map@.contains_key(k) && map@[k] == value,
            found is None ==> forall|i: int|
                0 <= i < it.index() ==> *(#[trigger] it.seq()[i]).1 != value,
    {
        assert(it.seq()[it.index() as int] == pair);
        if *pair.1 == value {
            found = Some(*pair.0);
        }
    }
    found
}

/// The pairs of a map, in no particular order.
pub fn pairs_of(map: &HashMap<Id, Id>) -> (pairs: Vec<(Id, Id)>)
    ensures
        forall|k: Id, v: Id|
            #[trigger] pairs@.contains((k, v)) <==> map@.contains_key(k) && map@[k] == v,
        pairs@.len() == map@.dom().len(),
{
    let mut pairs: Vec<(Id, Id)> = Vec::new();
    let ghost walked = vstd::std_specs::hash::spec_hash_map_iter(map).remaining();
    for pair in it: map.iter()
        invariant
            it.seq() == walked,
            it.seq().len() == map@.dom().len(),
            forall|i: int|
                #![trigger it.seq()[i]]
                0 <= i < it.seq().len() ==> map@.contains_key(*it.seq()[i].0)
                    && map@[*it.seq()[i].0] == *it.seq()[i].1,
            forall|k: Id| #[trigger] map@.contains_key(k) ==> it.seq().contains((&k, &map@[k])),
            pairs@.len() == it.index(),
            forall|i: int|
                #![trigger pairs@[i]]
                0 <= i < it.index() ==> pairs@[i] == (*it.seq()[i].0, *it.seq()[i].1),
    {
        assert(it.seq()[it.index() as int] == pair);
        pairs.push((*pair.0, *pair.1));
    }
    assert forall|k: Id, v: Id| #[trigger] pairs@.contains((k, v)) <==> map@.contains_key(k) && map@[k]
        == v by {
        if map@.contains_key(k) && map@[k] == v {
            assert(walked.contains((&k, &map@[k])));
            let i = choose|i: int| 0 <= i < walked.len() && walked[i] == (&k, &map@[k]);
            assert(pairs@[i] == (k, v));
        }
    }
    pairs
}

/// Strictly ascending.
pub open spec fn ascending(ids: Seq<Id>) -> bool {
    forall|i: int, j: int| 0 <= i < j < ids.len() ==> #[trigger] ids[i] < #[trigger] ids[j]
}

/// Whether a batch is the first of some ids, in ascending order and each once, up to the batch's
/// bound.
pub open spec fn first_of(ids: Seq<Id>, batch: Seq<Id>) -> bool {
    &&& ascending(batch)
    &&& batch.len() <= PROFILE_BATCH
    &&& forall|i: int| 0 <= i < batch.len() ==> ids.contains(#[trigger] batch[i])
    &&& forall|i: int|
        0 <= i < ids.len() ==> batch.contains(#[trigger] ids[i]) || (batch.len() == PROFILE_BATCH
            && batch.last() < ids[i])
}

/// The accounts one profile read names: each once, in ascending order, up to the batch's bound.
pub fn profile_batch(ids: &Vec<Id>) -> (batch: Vec<Id>)
    ensures
        first_of(ids@, batch@),
        ids@.len() > 0 ==> batch@.len() > 0,
{
    let mut batch: Vec<Id> = Vec::new();
    let mut i: usize = 0;
    while i < ids.len()
        invariant
            i <= ids.len(),
            ascending(batch@),
            forall|j: int| 0 <= j < batch@.len() ==> ids@.take(i as int).contains(#[trigger] batch@[j]),
            forall|j: int| 0 <= j < i ==> batch@.contains(#[trigger] ids@[j]),
            i > 0 ==> batch@.len() > 0,
        decreases ids.len() - i,
    {
        let ghost before = batch@;
        insert_ascending(&mut batch, ids[i]);
        proof {
            let seen = ids@.take(i + 1);
            assert(seen[i as int] == ids@[i as int]);
            assert forall|j: int| 0 <= j < batch@.len() implies seen.contains(#[trigger] batch@[j]) by {
                assert(batch@.contains(batch@[j]));
                if batch@[j] != ids@[i as int] {
                    assert(before.contains(batch@[j]));
                    let k = choose|k: int| 0 <= k < before.len() && before[k] == batch@[j];
                    assert(ids@.take(i as int).contains(before[k]));
                    let m = choose|m: int|
                        0 <= m < ids@.take(i as int).len() && ids@.take(i as int)[m] == batch@[j];
                    assert(seen[m] == batch@[j]);
                }
            }
            assert forall|j: int| 0 <= j < i + 1 implies batch@.contains(#[trigger] ids@[j]) by {
                if j < i {
                    assert(before.contains(ids@[j]));
                }
            }
        }
        i = i + 1;
    }
    let ghost whole = batch@;
    assert(ids@.take(ids@.len() as int) =~= ids@);
    batch.truncate(PROFILE_BATCH);
    proof {
        assert forall|j: int| 0 <= j < batch@.len() implies ids@.contains(#[trigger] batch@[j]) by {
            assert(batch@[j] == whole[j]);
        }
        assert forall|j: int| 0 <= j < ids@.len() implies batch@.contains(#[trigger] ids@[j]) || (
        batch@.len() == PROFILE_BATCH && batch@.last() < ids@[j]) by {
            assert(whole.contains(ids@[j]));
            let k = choose|k: int| 0 <= k < whole.len() && whole[k] == ids@[j];
            if k < batch@.len() {
                assert(batch@[k] == ids@[j]);
            } else {
                assert(batch@.last() == whole[batch@.len() - 1]);
            }
        }
    }
    batch
}

/// Puts an id in its place among ascending ones, unless it is there.
fn insert_ascending(batch: &mut Vec<Id>, id: Id)
    requires
        ascending(old(batch)@),
    ensures
        ascending(final(batch)@),
        forall|x: Id| #[trigger] final(batch)@.contains(x) <==> old(batch)@.contains(x) || x == id,
        final(batch)@.len() > 0,
{
    let mut at: usize = 0;
    while at < batch.len() && batch[at] < id
        invariant
            at <= batch@.len(),
            batch@ == old(batch)@,
            forall|j: int| 0 <= j < at ==> #[trigger] batch@[j] < id,
        decreases batch@.len() - at,
    {
        at = at + 1;
    }
    let ghost before = batch@;
    if at < batch.len() && batch[at] == id {
        assert(before[at as int] == id);
        return;
    }
    batch.insert(at, id);
    proof {
        let after = batch@;
        assert(after[at as int] == id);
        assert forall|x: Id| #[trigger] after.contains(x) <==> before.contains(x) || x == id by {
            if after.contains(x) && x != id {
                let k = choose|k: int| 0 <= k < after.len() && after[k] == x;
                if k < at {
                    assert(before[k] == x);
                } else {
                    assert(before[k - 1] == x);
                }
            }
            if before.contains(x) {
                let k = choose|k: int| 0 <= k < before.len() && before[k] == x;
                if k < at {
                    assert(after[k] == x);
                } else {
                    assert(after[k + 1] == x);
                }
            }
        }
        assert forall|i: int, j: int| 0 <= i < j < after.len() implies #[trigger] after[i] < #[trigger] after[j] by {
            if j < at {
                assert(before[i] < before[j]);
            } else if j == at {
                assert(before[i] < id);
            } else if i < at {
                assert(before[i] < before[j - 1]);
            } else if i == at {
                if at < before.len() {
                    assert(id < before[at as int]);
                    if j - 1 > at {
                        assert(before[at as int] < before[j - 1]);
                    }
                }
            } else {
                assert(before[i - 1] < before[j - 1]);
            }
        }
    }
}

/// The ids of a list that a set does not hold yet, in order and each once, up to a bound.
pub open spec fn fresh(ids: Seq<Id>, seen: Set<Id>, bound: nat) -> Seq<Id>
    decreases ids.len(),
{
    if ids.len() == 0 || bound == 0 {
        Seq::empty()
    } else if seen.contains(ids[0]) {
        fresh(ids.subrange(1, ids.len() as int), seen, bound)
    } else {
        seq![ids[0]] + fresh(
            ids.subrange(1, ids.len() as int),
            seen.insert(ids[0]),
            (bound - 1) as nat,
        )
    }
}

/// Takes up to a bound of ids that a set does not hold, and adds exactly those to it.
pub fn take_fresh(ids: &Vec<Id>, seen: &mut HashSet<Id>, bound: usize) -> (taken: Vec<Id>)
    ensures
        taken@ == fresh(ids@, old(seen)@, bound as nat),
        final(seen)@ == old(seen)@.union(taken@.to_set()),
{
    let mut taken: Vec<Id> = Vec::new();
    let mut i: usize = 0;
    let mut left: usize = bound;
    let ghost start = seen@;
    assert(ids@.subrange(0, ids@.len() as int) =~= ids@);
    assert(taken@ + fresh(ids@, start, bound as nat) =~= fresh(ids@, start, bound as nat));
    assert(taken@.to_set() =~= Set::<Id>::empty());
    assert(start.union(taken@.to_set()) =~= start);
    while i < ids.len() && left > 0
        invariant
            i <= ids@.len(),
            taken@ + fresh(ids@.subrange(i as int, ids@.len() as int), seen@, left as nat) == fresh(
                ids@,
                start,
                bound as nat,
            ),
            seen@ == start.union(taken@.to_set()),
        decreases ids.len() - i,
    {
        let ghost rest = ids@.subrange(i as int, ids@.len() as int);
        let ghost next = ids@.subrange(i + 1, ids@.len() as int);
        assert(rest.subrange(1, rest.len() as int) =~= next);
        let id: Id = ids[i];
        let ghost had = seen@;
        let ghost before = taken@;
        if seen.insert(id) {
            taken.push(id);
            left = left - 1;
            assert(before + (seq![id] + fresh(next, had.insert(id), left as nat)) =~= taken@ + fresh(
                next,
                had.insert(id),
                left as nat,
            ));
            assert(taken@.to_set() =~= before.to_set().insert(id)) by {
                assert forall|x: Id| taken@.to_set().contains(x) <==> before.to_set().insert(id).contains(x) by {
                    if taken@.contains(x) {
                        let k = choose|k: int| 0 <= k < taken@.len() && taken@[k] == x;
                        if k < before.len() {
                            assert(before[k] == x);
                        }
                    }
                    if before.contains(x) {
                        let k = choose|k: int| 0 <= k < before.len() && before[k] == x;
                        assert(taken@[k] == x);
                    }
                    assert(taken@[before.len() as int] == id);
                }
            }
            assert(seen@ =~= start.union(taken@.to_set()));
        } else {
            assert(seen@ =~= had);
        }
        i = i + 1;
    }
    assert(fresh(ids@.subrange(i as int, ids@.len() as int), seen@, left as nat)
        =~= Seq::<Id>::empty());
    assert(taken@ + Seq::<Id>::empty() =~= taken@);
    taken
}

/// A watch names no account twice, none that was watched already, and no more than its bound.
pub proof fn law_a_watch_is_bounded_and_new(ids: Seq<Id>, seen: Set<Id>, bound: nat)
    ensures
        fresh(ids, seen, bound).len() <= bound,
        fresh(ids, seen, bound).no_duplicates(),
        forall|i: int|
            0 <= i < fresh(ids, seen, bound).len() ==> !seen.contains(
                #[trigger] fresh(ids, seen, bound)[i],
            ),
    decreases ids.len(),
{
    if ids.len() > 0 && bound > 0 {
        let rest = ids.subrange(1, ids.len() as int);
        if seen.contains(ids[0]) {
            law_a_watch_is_bounded_and_new(rest, seen, bound);
        } else {
            let more = fresh(rest, seen.insert(ids[0]), (bound - 1) as nat);
            law_a_watch_is_bounded_and_new(rest, seen.insert(ids[0]), (bound - 1) as nat);
            let all = fresh(ids, seen, bound);
            assert(all == seq![ids[0]] + more);
            assert forall|i: int| 0 <= i < all.len() implies !seen.contains(#[trigger] all[i]) by {
                if i > 0 {
                    assert(all[i] == more[i - 1]);
                }
            }
            assert forall|i: int, j: int| 0 <= i < all.len() && 0 <= j < all.len() && i != j implies all[i]
                != all[j] by {
                if i > 0 && j > 0 {
                    assert(all[i] == more[i - 1] && all[j] == more[j - 1]);
                } else if i > 0 {
                    assert(all[i] == more[i - 1]);
                } else {
                    assert(all[j] == more[j - 1]);
                }
            }
        }
    }
}

/// A profile read names each account once, in ascending order, and at most a hundred and
/// twenty-eight. Where it names fewer, it names everyone asked for; who is left out of a full one
/// comes after everyone in it.
pub proof fn law_a_profile_read_leaves_nobody_out(ids: Seq<Id>, batch: Seq<Id>)
    requires
        first_of(ids, batch),
    ensures
        batch.len() <= 128,
        batch.no_duplicates(),
        forall|i: int, j: int| 0 <= i < j < batch.len() ==> #[trigger] batch[i] < #[trigger] batch[j],
        forall|i: int| 0 <= i < batch.len() ==> ids.contains(#[trigger] batch[i]),
        forall|i: int|
            0 <= i < ids.len() && batch.len() < 128 ==> batch.contains(#[trigger] ids[i]),
        forall|i: int, j: int|
            0 <= i < ids.len() && 0 <= j < batch.len() && !batch.contains(#[trigger] ids[i])
                ==> #[trigger] batch[j] < ids[i],
{
}

/// A watch leaves out nobody without cause: whoever was asked for is watched already, is named
/// now, or stands behind a full watch. Nobody is named who was not asked for.
pub proof fn law_a_watch_leaves_nobody_out(ids: Seq<Id>, seen: Set<Id>, bound: nat)
    ensures
        forall|i: int|
            0 <= i < ids.len() ==> seen.contains(#[trigger] ids[i]) || fresh(
                ids,
                seen,
                bound,
            ).contains(ids[i]) || fresh(ids, seen, bound).len() == bound,
        forall|i: int|
            0 <= i < fresh(ids, seen, bound).len() ==> ids.contains(
                #[trigger] fresh(ids, seen, bound)[i],
            ),
    decreases ids.len(),
{
    if ids.len() > 0 && bound > 0 {
        let rest = ids.subrange(1, ids.len() as int);
        let all = fresh(ids, seen, bound);
        let held = seen.contains(ids[0]);
        let (known, left) = if held {
            (seen, bound)
        } else {
            (seen.insert(ids[0]), (bound - 1) as nat)
        };
        let more = fresh(rest, known, left);
        law_a_watch_leaves_nobody_out(rest, known, left);
        assert(all == (if held {
            more
        } else {
            seq![ids[0]] + more
        }));
        if !held {
            assert(all[0] == ids[0]);
        }
        assert forall|i: int| 0 <= i < ids.len() implies seen.contains(#[trigger] ids[i])
            || all.contains(ids[i]) || all.len() == bound by {
            if i > 0 {
                assert(rest[i - 1] == ids[i]);
                if more.contains(ids[i]) {
                    let k = choose|k: int| 0 <= k < more.len() && more[k] == ids[i];
                    assert(all[if held {
                        k
                    } else {
                        k + 1
                    }] == ids[i]);
                }
            }
        }
        assert forall|i: int| 0 <= i < all.len() implies ids.contains(#[trigger] all[i]) by {
            if held || i > 0 {
                let at = if held {
                    i
                } else {
                    i - 1
                };
                assert(all[i] == more[at]);
                let k = choose|k: int| 0 <= k < rest.len() && rest[k] == more[at];
                assert(ids[k + 1] == all[i]);
            } else {
                assert(ids[0] == all[i]);
            }
        }
    }
}

/// A watch names at most a hundred and twenty-eight accounts, and that many where as many are to
/// be had: one that names fewer leaves out only who was watched already.
pub proof fn law_a_watch_is_as_large_as_it_may_be(ids: Seq<Id>, seen: Set<Id>, i: int)
    requires
        0 <= i < ids.len(),
    ensures
        fresh(ids, seen, WATCH_BATCH as nat).len() <= 128,
        fresh(ids, seen, WATCH_BATCH as nat).len() < 128 && !seen.contains(ids[i]) ==> fresh(
            ids,
            seen,
            WATCH_BATCH as nat,
        ).contains(ids[i]),
{
    law_a_watch_is_bounded_and_new(ids, seen, WATCH_BATCH as nat);
    law_a_watch_leaves_nobody_out(ids, seen, WATCH_BATCH as nat);
}

} // verus!
