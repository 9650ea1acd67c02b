//! Who is in a conversation, and what that means for the keys that seal it.

use vstd::prelude::*;

use crate::wire::{Id, MemberChange};

verus! {

/// One conversation's cached membership.
///
/// A list row carries a capped preview of a membership, a create answer or a roster the whole of
/// it. `complete` tells the two apart.
pub struct MemberCache {
    pub ids: Vec<Id>,
    pub complete: bool,
}

/// Whether a change takes an account out of a membership.
pub open spec fn departs(change: MemberChange) -> bool {
    change == MemberChange::Left || change == MemberChange::Kicked || change
        == MemberChange::Banned
}

/// Whether a change moves the audience a sender key is sealed for.
pub open spec fn moves_audience(change: MemberChange) -> bool {
    change == MemberChange::Joined || departs(change)
}

/// A membership after one change. A join adds the account at the end unless it is there; a
/// departure removes every mention of it; a presence fact or an unknown change does nothing.
pub open spec fn members_after(ids: Seq<Id>, user_id: Id, change: MemberChange) -> Seq<Id> {
    if change == MemberChange::Joined {
        if ids.contains(user_id) {
            ids
        } else {
            ids.push(user_id)
        }
    } else if departs(change) {
        without(ids, user_id)
    } else {
        ids
    }
}

/// The sequence without any mention of one id, order kept.
pub open spec fn without(ids: Seq<Id>, user_id: Id) -> Seq<Id>
    decreases ids.len(),
{
    if ids.len() == 0 {
        ids
    } else if ids.last() == user_id {
        without(ids.drop_last(), user_id)
    } else {
        without(ids.drop_last(), user_id).push(ids.last())
    }
}

/// Whether a member change moves the group's membership, as opposed to a presence flicker inside
/// an unchanged one.
pub fn is_membership_change(change: MemberChange) -> (r: bool)
    ensures
        r == moves_audience(change),
{
    match change {
        MemberChange::Joined
        | MemberChange::Left
        | MemberChange::Kicked
        | MemberChange::Banned => true,
        _ => false,
    }
}

/// Whether `ids` mentions `id`.
pub fn contains_id(ids: &Vec<Id>, id: Id) -> (r: bool)
    ensures
        r == ids@.contains(id),
{
    let mut i: usize = 0;
    while i < ids.len()
        invariant
            i <= ids.len(),
            forall|j: int| 0 <= j < i ==> ids@[j] != id,
        decreases ids.len() - i,
    {
        if ids[i] == id {
            return true;
        }
        i = i + 1;
    }
    false
}

impl MemberCache {
    /// Applies one membership movement onto the cache.
    ///
    /// `complete` is never touched: a preview cannot be made whole by patching it, and a patched
    /// whole stays whole.
    pub fn apply_change(&mut self, user_id: Id, change: MemberChange)
        ensures
            final(self).ids@ == members_after(old(self).ids@, user_id, change),
            final(self).complete == old(self).complete,
    {
        match change {
            MemberChange::Joined => {
                if !contains_id(&self.ids, user_id) {
                    self.ids.push(user_id);
                }
            },
            MemberChange::Left | MemberChange::Kicked | MemberChange::Banned => {
                let mut kept: Vec<Id> = Vec::new();
                let mut i: usize = 0;
                assert(self.ids@.take(0) =~= Seq::<Id>::empty());
                while i < self.ids.len()
                    invariant
                        i <= self.ids.len(),
                        kept@ == without(self.ids@.take(i as int), user_id),
                        *self == *old(self),
                    decreases self.ids.len() - i,
                {
                    assert(self.ids@.take(i + 1).drop_last() =~= self.ids@.take(i as int));
                    if self.ids[i] != user_id {
                        kept.push(self.ids[i]);
                    }
                    i = i + 1;
                }
                assert(self.ids@.take(self.ids@.len() as int) =~= self.ids@);
                self.ids = kept;
            },
            _ => {},
        }
    }

    /// Promotes the cache with a roster's answer.
    ///
    /// The active ids replace the preview wholesale. An empty answer promotes nothing: no
    /// audience can be built from it.
    pub fn promote(&mut self, active: Vec<Id>)
        ensures
            active@.len() == 0 ==> *final(self) == *old(self),
            active@.len() > 0 ==> final(self).ids == active && final(self).complete,
    {
        if active.len() > 0 {
            self.ids = active;
            self.complete = true;
        }
    }

    /// Files a list row's preview. A cache that is already complete keeps what it has.
    pub fn refresh(&mut self, preview: Vec<Id>)
        ensures
            final(self).complete == old(self).complete,
            final(self).ids == (if old(self).complete {
                old(self).ids
            } else {
                preview
            }),
    {
        if !self.complete {
            self.ids = preview;
        }
    }
}

proof fn lemma_without(ids: Seq<Id>, user_id: Id)
    ensures
        forall|x: Id| #[trigger] without(ids, user_id).contains(x) <==> ids.contains(x) && x != user_id,
        ids.no_duplicates() ==> without(ids, user_id).no_duplicates(),
        without(ids, user_id).len() <= ids.len(),
    decreases ids.len(),
{
    if ids.len() > 0 {
        let front = ids.drop_last();
        lemma_without(front, user_id);
        let rest = without(front, user_id);
        assert forall|x: Id| #[trigger] ids.contains(x) <==> front.contains(x) || x == ids.last() by {
            if ids.contains(x) {
                let i = choose|i: int| 0 <= i < ids.len() && ids[i] == x;
                if i < front.len() {
                    assert(front[i] == x);
                }
            }
            if front.contains(x) {
                let i = choose|i: int| 0 <= i < front.len() && front[i] == x;
                assert(ids[i] == x);
            }
            if x == ids.last() {
                assert(ids[ids.len() - 1] == x);
            }
        }
        assert forall|x: Id| #[trigger] rest.push(ids.last()).contains(x) <==> rest.contains(x) || x
            == ids.last() by {
            if rest.push(ids.last()).contains(x) {
                let i = choose|i: int|
                    0 <= i < rest.push(ids.last()).len() && rest.push(ids.last())[i] == x;
                if i < rest.len() {
                    assert(rest[i] == x);
                }
            }
            if rest.contains(x) {
                let i = choose|i: int| 0 <= i < rest.len() && rest[i] == x;
                assert(rest.push(ids.last())[i] == x);
            }
            if x == ids.last() {
                assert(rest.push(ids.last())[rest.len() as int] == x);
            }
        }
        if ids.no_duplicates() {
            assert(front.no_duplicates());
            assert(!front.contains(ids.last()));
            assert(!rest.contains(ids.last()));
            assert(rest.push(ids.last()).no_duplicates());
        }
    }
}

/// A membership change is exactly a change of who is named: after a join the account is named,
/// after a departure it is not, every other account stays as it was, and a presence fact moves
/// nobody. A membership without repetitions keeps none.
pub proof fn law_a_change_moves_one_account(ids: Seq<Id>, user_id: Id, change: MemberChange)
    ensures
        change == MemberChange::Joined ==> members_after(ids, user_id, change).contains(user_id),
        departs(change) ==> !members_after(ids, user_id, change).contains(user_id),
        forall|other: Id|
            other != user_id ==> (#[trigger] members_after(ids, user_id, change).contains(other)
                <==> ids.contains(other)),
        !moves_audience(change) ==> members_after(ids, user_id, change) == ids,
        ids.no_duplicates() ==> members_after(ids, user_id, change).no_duplicates(),
{
    lemma_without(ids, user_id);
    if change == MemberChange::Joined && !ids.contains(user_id) {
        let after = ids.push(user_id);
        assert(after[ids.len() as int] == user_id);
        assert forall|other: Id| other != user_id implies (#[trigger] after.contains(other)
            <==> ids.contains(other)) by {
            if after.contains(other) {
                let i = choose|i: int| 0 <= i < after.len() && after[i] == other;
                assert(ids[i] == other);
            }
            if ids.contains(other) {
                let i = choose|i: int| 0 <= i < ids.len() && ids[i] == other;
                assert(after[i] == other);
            }
        }
    }
}

/// Applying the same change twice is applying it once: a redelivered event is harmless.
pub proof fn law_a_redelivered_change_is_harmless(ids: Seq<Id>, user_id: Id, change: MemberChange)
    ensures
        members_after(members_after(ids, user_id, change), user_id, change) == members_after(
            ids,
            user_id,
            change,
        ),
{
    law_a_change_moves_one_account(ids, user_id, change);
    if departs(change) {
        lemma_without_absent(without(ids, user_id), user_id);
    }
}

proof fn lemma_without_absent(ids: Seq<Id>, user_id: Id)
    requires
        !ids.contains(user_id),
    ensures
        without(ids, user_id) == ids,
    decreases ids.len(),
{
    if ids.len() > 0 {
        assert(ids[ids.len() - 1] == ids.last());
        assert forall|i: int| 0 <= i < ids.drop_last().len() implies ids.drop_last()[i] != user_id by {
            assert(ids[i] == ids.drop_last()[i]);
        }
        lemma_without_absent(ids.drop_last(), user_id);
        assert(ids.drop_last().push(ids.last()) =~= ids);
    }
}

/// Who leaves by a change: one who left, was kicked or was banned, and nobody by any other.
pub proof fn law_who_departs(change: MemberChange)
    ensures
        departs(MemberChange::Left),
        departs(MemberChange::Kicked),
        departs(MemberChange::Banned),
        !departs(MemberChange::Joined),
        departs(change) ==> change == MemberChange::Left || change == MemberChange::Kicked || change
            == MemberChange::Banned,
        moves_audience(change) <==> change == MemberChange::Joined || change == MemberChange::Left
            || change == MemberChange::Kicked || change == MemberChange::Banned,
{
}

/// Whoever left, was kicked or was banned is named no more; whoever joined is named; and nobody else
/// comes or goes.
pub proof fn law_a_departure_is_a_departure(ids: Seq<Id>, user_id: Id, other: Id)
    ensures
        !members_after(ids, user_id, MemberChange::Left).contains(user_id),
        !members_after(ids, user_id, MemberChange::Kicked).contains(user_id),
        !members_after(ids, user_id, MemberChange::Banned).contains(user_id),
        members_after(ids, user_id, MemberChange::Joined).contains(user_id),
        ids.contains(user_id) ==> members_after(ids, user_id, MemberChange::Joined) == ids,
        !ids.contains(user_id) ==> members_after(ids, user_id, MemberChange::Joined) == ids.push(
            user_id,
        ),
        other != user_id ==> (members_after(ids, user_id, MemberChange::Banned).contains(other)
            <==> ids.contains(other)),
{
    law_a_change_moves_one_account(ids, user_id, MemberChange::Left);
    law_a_change_moves_one_account(ids, user_id, MemberChange::Kicked);
    law_a_change_moves_one_account(ids, user_id, MemberChange::Banned);
    law_a_change_moves_one_account(ids, user_id, MemberChange::Joined);
}

} // verus!
