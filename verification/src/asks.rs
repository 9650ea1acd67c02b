//! The asks whose replies do not say what they answer.

use std::collections::HashSet;

use vstd::prelude::*;

use crate::wire::Id;

verus! {

/// What has been asked and not answered. A reply that names nothing is matched to its ask here.
pub struct Asks {
    /// The room a leave is in flight for.
    pub pending_leave: Option<Id>,
    /// The room a membership probe is in flight for.
    pub pending_room_probe: Option<Id>,
    /// The conversation whose roster a send waits for.
    pub pending_roster: Option<Id>,
    /// The conversations whose rosters a panel waits for.
    pub group_rosters: HashSet<Id>,
    /// The conversation a leave is in flight for.
    pub group_leave: Option<Id>,
    /// The conversation and target of a vote in flight.
    pub pending_vote: Option<(Id, Id)>,
    /// The conversation and account of each half of a member view.
    pub member_profile: Option<(Id, Id)>,
    pub member_progression: Option<(Id, Id)>,
    pub member_badges: Option<(Id, Id)>,
    pub member_rank: Option<(Id, Id)>,
    pub member_edge: Option<(Id, Id)>,
}

impl Asks {
    /// Whether nothing is waited for.
    pub open spec fn is_empty(&self) -> bool {
        &&& self.pending_leave is None
        &&& self.pending_room_probe is None
        &&& self.pending_roster is None
        &&& self.group_rosters@ == Set::<Id>::empty()
        &&& self.group_leave is None
        &&& self.pending_vote is None
        &&& self.member_profile is None
        &&& self.member_progression is None
        &&& self.member_badges is None
        &&& self.member_rank is None
        &&& self.member_edge is None
    }

    pub fn new() -> (asks: Self)
        ensures
            asks.is_empty(),
    {
        Asks {
            pending_leave: None,
            pending_room_probe: None,
            pending_roster: None,
            group_rosters: HashSet::new(),
            group_leave: None,
            pending_vote: None,
            member_profile: None,
            member_progression: None,
            member_badges: None,
            member_rank: None,
            member_edge: None,
        }
    }
}

/// Where nothing is waited for, no reply can be taken for the answer to an earlier question: of a
/// leave, a probe, a roster, a vote or any part of a member's view.
pub proof fn law_nothing_is_waited_for(asks: Asks, id: Id)
    requires
        asks.is_empty(),
    ensures
        asks.pending_leave is None,
        asks.pending_room_probe is None,
        asks.pending_roster is None,
        !asks.group_rosters@.contains(id),
        asks.group_leave is None,
        asks.pending_vote is None,
        asks.member_profile is None,
        asks.member_progression is None,
        asks.member_badges is None,
        asks.member_rank is None,
        asks.member_edge is None,
{
}

} // verus!
