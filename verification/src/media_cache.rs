//! The opened attachments a session keeps.

use std::collections::VecDeque;

use vstd::prelude::*;

use crate::wire::Id;

verus! {

/// The cache's budget, in bytes.
pub const MEDIA_CACHE_MAX_BYTES: usize = 33_554_432;

/// One opened attachment.
pub enum CachedMedia {
    /// An image, as the sender's original bytes.
    Image { bytes: Vec<u8> },
    /// A voice note, as the samples it plays.
    Audio { samples: Vec<i16>, rate: u32 },
    /// Any other file.
    Document { bytes: Vec<u8> },
}

/// What an opened attachment costs, in bytes.
pub open spec fn cost_of(entry: CachedMedia) -> nat {
    match entry {
        CachedMedia::Image { bytes } => bytes@.len(),
        CachedMedia::Audio { samples, .. } => 2 * samples@.len(),
        CachedMedia::Document { bytes } => bytes@.len(),
    }
}

impl CachedMedia {
    /// What this attachment costs, in bytes.
    pub fn cost(&self) -> (cost: u128)
        ensures
            cost == cost_of(*self),
            cost <= 2 * usize::MAX,
    {
        match self {
            CachedMedia::Image { bytes } => bytes.len() as u128,
            CachedMedia::Audio { samples, .. } => 2 * samples.len() as u128,
            CachedMedia::Document { bytes } => bytes.len() as u128,
        }
    }
}

/// A cache of opened attachments, bounded in bytes, oldest first.
///
/// Eviction is oldest first, and never empties the cache for one entry that is larger than the
/// whole budget.
pub struct MediaCache {
    entries: VecDeque<(Id, CachedMedia)>,
    cost: u128,
}

/// What a run of entries costs.
pub open spec fn total_cost(entries: Seq<(Id, CachedMedia)>) -> int
    decreases entries.len(),
{
    if entries.len() == 0 {
        0
    } else {
        total_cost(entries.drop_last()) + cost_of(entries.last().1)
    }
}

/// Whether some entry of a run has this id.
pub open spec fn holds(entries: Seq<(Id, CachedMedia)>, id: Id) -> bool {
    exists|i: int| 0 <= i < entries.len() && #[trigger] entries[i].0 == id
}

/// A run of entries cut from the front until it is within the budget or down to its newest.
pub open spec fn evicted(entries: Seq<(Id, CachedMedia)>) -> Seq<(Id, CachedMedia)>
    decreases entries.len(),
{
    if total_cost(entries) > MEDIA_CACHE_MAX_BYTES && entries.len() > 1 {
        evicted(entries.subrange(1, entries.len() as int))
    } else {
        entries
    }
}

/// No id occurs twice.
pub open spec fn distinct_ids(entries: Seq<(Id, CachedMedia)>) -> bool {
    forall|i: int, j: int|
        0 <= i < j < entries.len() ==> #[trigger] entries[i].0 != #[trigger] entries[j].0
}

impl View for MediaCache {
    type V = Seq<(Id, CachedMedia)>;

    closed spec fn view(&self) -> Seq<(Id, CachedMedia)> {
        self.entries@
    }
}

impl MediaCache {
    /// The cost kept is the cost of what is held, no id occurs twice, and the budget holds but for
    /// a single oversized entry.
    pub closed spec fn wf(&self) -> bool {
        &&& self.cost == total_cost(self.entries@)
        &&& distinct_ids(self.entries@)
        &&& within_budget(self.entries@)
    }

    pub fn new() -> (cache: Self)
        ensures
            cache.wf(),
            cache@ == Seq::<(Id, CachedMedia)>::empty(),
    {
        MediaCache { entries: VecDeque::new(), cost: 0 }
    }

    /// The entry held under an id.
    pub fn get(&self, id: Id) -> (entry: Option<&CachedMedia>)
        requires
            self.wf(),
        ensures
            entry is Some <==> holds(self@, id),
            entry matches Some(found) ==> exists|i: int|
                0 <= i < self@.len() && #[trigger] self@[i] == (id, *found),
    {
        let mut i: usize = self.entries.len();
        while i > 0
            invariant
                i <= self.entries@.len(),
                forall|j: int| i <= j < self.entries@.len() ==> #[trigger] self.entries@[j].0 != id,
            decreases i,
        {
            i = i - 1;
            let held: &(Id, CachedMedia) = &self.entries[i];
            if held.0 == id {
                assert(self@[i as int] == (id, held.1));
                return Some(&held.1);
            }
        }
        None
    }

    /// Files an entry, unless its id is held already, and makes room from the oldest end.
    pub fn insert(&mut self, id: Id, entry: CachedMedia)
        requires
            old(self).wf(),
        ensures
            final(self).wf(),
            final(self)@ == (if holds(old(self)@, id) {
                old(self)@
            } else {
                evicted(old(self)@.push((id, entry)))
            }),
    {
        if self.get(id).is_some() {
            return;
        }
        let ghost before = self.entries@;
        proof {
            lemma_cost_is_bounded(before);
        }
        self.cost = self.cost + entry.cost();
        self.entries.push_back((id, entry));
        let ghost filed = self.entries@;
        proof {
            assert(filed.drop_last() =~= before);
        }
        while self.cost > MEDIA_CACHE_MAX_BYTES as u128 && self.entries.len() > 1
            invariant
                self.cost == total_cost(self.entries@),
                distinct_ids(self.entries@),
                self.entries@.len() >= 1,
                evicted(filed) == evicted(self.entries@),
            decreases self.entries@.len(),
        {
            let ghost now = self.entries@;
            if let Some(oldest) = self.entries.pop_front() {
                proof {
                    lemma_cost_from_the_front(now);
                    assert(self.entries@ =~= now.subrange(1, now.len() as int));
                }
                self.cost = self.cost - oldest.1.cost();
            }
        }
    }

    /// Drops everything.
    pub fn clear(&mut self)
        ensures
            final(self).wf(),
            final(self)@ == Seq::<(Id, CachedMedia)>::empty(),
    {
        self.entries.clear();
        self.cost = 0;
    }
}

/// Within the budget, or down to one entry.
pub open spec fn within_budget(entries: Seq<(Id, CachedMedia)>) -> bool {
    total_cost(entries) <= MEDIA_CACHE_MAX_BYTES || entries.len() <= 1
}

/// A cache within its budget costs no more than the budget, or than one entry can.
proof fn lemma_cost_is_bounded(entries: Seq<(Id, CachedMedia)>)
    requires
        within_budget(entries),
    ensures
        0 <= total_cost(entries) <= MEDIA_CACHE_MAX_BYTES + 2 * usize::MAX,
{
    if entries.len() == 0 {
    } else {
        lemma_cost_from_the_front(entries);
        if entries.len() == 1 {
            assert(entries.drop_last() =~= Seq::<(Id, CachedMedia)>::empty());
            lemma_cost_of_one(entries.last().1);
        }
    }
}

proof fn lemma_cost_of_one(entry: CachedMedia)
    ensures
        cost_of(entry) <= 2 * usize::MAX,
{
    match entry {
        CachedMedia::Image { bytes } => {
            assert(bytes@.len() == bytes.len());
        },
        CachedMedia::Audio { samples, .. } => {
            assert(samples@.len() == samples.len());
        },
        CachedMedia::Document { bytes } => {
            assert(bytes@.len() == bytes.len());
        },
    }
}

proof fn lemma_cost_from_the_front(entries: Seq<(Id, CachedMedia)>)
    requires
        entries.len() > 0,
    ensures
        total_cost(entries) == cost_of(entries[0].1) + total_cost(
            entries.subrange(1, entries.len() as int),
        ),
        total_cost(entries) >= 0,
        total_cost(entries.subrange(1, entries.len() as int)) >= 0,
    decreases entries.len(),
{
    let rest = entries.subrange(1, entries.len() as int);
    if entries.len() == 1 {
        assert(rest =~= Seq::<(Id, CachedMedia)>::empty());
        assert(entries.drop_last() =~= Seq::<(Id, CachedMedia)>::empty());
    } else {
        lemma_cost_from_the_front(entries.drop_last());
        assert(entries.drop_last().subrange(1, entries.len() - 1) =~= rest.drop_last());
        assert(rest.last() == entries.last());
        assert(entries.drop_last()[0] == entries[0]);
    }
}

/// What eviction leaves is the newest end of what there was, is not empty where there was
/// something, and is within the budget or a single entry.
pub proof fn law_eviction_keeps_the_newest(entries: Seq<(Id, CachedMedia)>)
    ensures
        evicted(entries).len() <= entries.len(),
        evicted(entries) == entries.subrange(
            entries.len() - evicted(entries).len(),
            entries.len() as int,
        ),
        entries.len() > 0 ==> evicted(entries).len() > 0,
        within_budget(evicted(entries)),
    decreases entries.len(),
{
    if total_cost(entries) > MEDIA_CACHE_MAX_BYTES && entries.len() > 1 {
        let rest = entries.subrange(1, entries.len() as int);
        law_eviction_keeps_the_newest(rest);
        assert(evicted(entries) =~= entries.subrange(
            entries.len() - evicted(entries).len(),
            entries.len() as int,
        ));
    } else {
        assert(entries.subrange(0, entries.len() as int) =~= entries);
    }
}

/// What was just filed can be found, however large it is.
pub proof fn law_the_newest_entry_is_held(
    entries: Seq<(Id, CachedMedia)>,
    id: Id,
    entry: CachedMedia,
)
    ensures
        holds(evicted(entries.push((id, entry))), id),
{
    let filed = entries.push((id, entry));
    law_eviction_keeps_the_newest(filed);
    let kept = evicted(filed);
    assert(kept[kept.len() - 1] == filed[filed.len() - 1]);
    assert(kept[kept.len() - 1].0 == id);
}

/// What an attachment costs is what it holds in memory: its bytes, and two for each sample of a
/// note. What is held together costs the sum, and costs nothing where nothing is held.
pub proof fn law_an_attachment_costs_its_bytes(
    entries: Seq<(Id, CachedMedia)>,
    id: Id,
    entry: CachedMedia,
)
    ensures
        entry is Image ==> cost_of(entry) == entry->Image_bytes@.len(),
        entry is Audio ==> cost_of(entry) == entry->samples@.len() + entry->samples@.len(),
        entry is Document ==> cost_of(entry) == entry->Document_bytes@.len(),
        total_cost(Seq::<(Id, CachedMedia)>::empty()) == 0,
        total_cost(entries.push((id, entry))) == total_cost(entries) + cost_of(entry),
{
    assert(entries.push((id, entry)).drop_last() =~= entries);
}

/// Nothing is given up that fits: what is within the budget of thirty-two mebibytes stays whole, and
/// an entry that was given up would not have fitted beside what is kept.
pub proof fn law_nothing_that_fits_is_evicted(entries: Seq<(Id, CachedMedia)>)
    ensures
        total_cost(entries) <= 33_554_432 ==> evicted(entries) == entries,
        evicted(entries).len() < entries.len() ==> total_cost(
            entries.subrange(
                entries.len() - evicted(entries).len() - 1,
                entries.len() as int,
            ),
        ) > 33_554_432,
        evicted(entries).len() > 1 ==> total_cost(evicted(entries)) <= 33_554_432,
    decreases entries.len(),
{
    if total_cost(entries) > MEDIA_CACHE_MAX_BYTES && entries.len() > 1 {
        let rest = entries.subrange(1, entries.len() as int);
        law_nothing_that_fits_is_evicted(rest);
        law_eviction_keeps_the_newest(rest);
        if evicted(rest).len() < rest.len() {
            assert(rest.subrange(rest.len() - evicted(rest).len() - 1, rest.len() as int)
                =~= entries.subrange(
                entries.len() - evicted(entries).len() - 1,
                entries.len() as int,
            ));
        } else {
            assert(entries.subrange(0, entries.len() as int) =~= entries);
        }
    }
}

/// Whatever is held under an id is found under it, and under no other.
pub proof fn law_what_is_held_is_found(entries: Seq<(Id, CachedMedia)>, i: int, id: Id)
    requires
        0 <= i < entries.len(),
    ensures
        holds(entries, entries[i].0),
        (forall|k: int| 0 <= k < entries.len() ==> (#[trigger] entries[k]).0 != id) ==> !holds(
            entries,
            id,
        ),
{
    assert(entries[i].0 == entries[i].0);
}

} // verus!
