//! Groups: their rosters, their members, and the keys that follow them.

use vstd::prelude::*;

use crate::asks::Asks;
use crate::effects::{
    list_request, request_conversations, toast, toasted, Action, Event, Notice, Request,
    RosterMember, ToastKind,
};
use crate::ids::{copy_ids, list_of};
use crate::members::{departs, is_membership_change, members_after, moves_audience};
use crate::sealing::{audience_of, missing_of, redistribute_plan, targets_of, RedistributePlan};
use crate::signed::{caches, Signed};
use crate::wire::{Id, MemberChange};

verus! {

broadcast use vstd::std_specs::hash::group_hash_axioms;

/// A member event off a conversation's topic.
#[derive(Debug, Clone, Copy, PartialEq, Eq, Structural)]
pub struct ConversationMemberEvent {
    pub conversation_id: Id,
    pub user_id: Id,
    pub change: MemberChange,
    /// The key generation the membership change produced.
    pub group_key_epoch: Option<u64>,
}

/// Whether an event takes this account out of a group.
pub open spec fn ends_group(signed: Signed, event: ConversationMemberEvent) -> bool {
    departs(event.change) && event.user_id == signed.account.account_id
}

/// The caches after a member event.
pub open spec fn caches_after_change(signed: Signed, event: ConversationMemberEvent) -> Map<
    Id,
    (Seq<Id>, bool),
> {
    let members = caches(signed.members@);
    let conversation = event.conversation_id;
    if members.contains_key(conversation) {
        members.insert(
            conversation,
            (
                members_after(members[conversation].0, event.user_id, event.change),
                members[conversation].1,
            ),
        )
    } else {
        members
    }
}

/// Whether `after` is `before` with everything a group owns dropped.
pub open spec fn group_forgotten(before: Signed, conversation_id: Id, after: Signed) -> bool {
    &&& caches(after.members@) == caches(before.members@).remove(conversation_id)
    &&& after.e2e@ == before.e2e@.remove(conversation_id)
    &&& after.conversations_watched@ == before.conversations_watched@.remove(conversation_id)
    &&& forall|d: Id| (#[trigger] after.held.of(conversation_id, d)).len() == 0
    &&& forall|c: Id, d: Id|
        c != conversation_id ==> #[trigger] after.held.of(c, d) == before.held.of(c, d)
    &&& after == (Signed {
        members: after.members,
        e2e: after.e2e,
        conversations_watched: after.conversations_watched,
        held: after.held,
        ..before
    })
}

/// The asks without those of one group.
pub open spec fn asks_without(before: Asks, conversation_id: Id, after: Asks) -> bool {
    &&& after.group_rosters@ == before.group_rosters@.remove(conversation_id)
    &&& after == (Asks {
        group_rosters: after.group_rosters,
        group_leave: if before.group_leave == Some(conversation_id) {
            None
        } else {
            before.group_leave
        },
        ..before
    })
}

/// Drops every piece of state a group owns: its asks, its members, what is known of its
/// encryption, its watch, and what was held for it.
pub fn forget_group(signed: &mut Signed, asks: &mut Asks, conversation_id: Id)
    requires
        old(signed).held.wf(),
    ensures
        final(signed).held.wf(),
        group_forgotten(*old(signed), conversation_id, *final(signed)),
        asks_without(*old(asks), conversation_id, *final(asks)),
{
    asks.group_rosters.remove(&conversation_id);
    if let Some(leaving) = asks.group_leave {
        if leaving == conversation_id {
            asks.group_leave = None;
        }
    }
    signed.held.forget(conversation_id);
    signed.members.remove(&conversation_id);
    signed.e2e.remove(&conversation_id);
    signed.conversations_watched.remove(&conversation_id);
    assert(caches(signed.members@) =~= caches(old(signed).members@).remove(conversation_id));
}

/// What the edge does when a group is forgotten: its call seat and its keys go.
pub open spec fn group_forgetting(conversation_id: Id) -> Seq<Action> {
    seq![
        Action::ForgetGroupCall { conversation_id },
        Action::ForgetKeys { conversation_id },
        Action::Emit(Event::GroupLeft { conversation_id }),
    ]
}

/// Whether some actions hand a rotated chain out, as far as it can be.
pub open spec fn hands_out(
    signed: Signed,
    members: Map<Id, (Seq<Id>, bool)>,
    conversation_id: Id,
    actions: Seq<Action>,
) -> bool {
    if !members.contains_key(conversation_id) {
        actions.len() == 0
    } else if !members[conversation_id].1 {
        actions == seq![Action::Request(Request::ConversationRoster { conversation_id })]
    } else {
        let audience = audience_of(members[conversation_id].0, signed.account.account_id);
        let missing = missing_of(audience, signed.devices@);
        if missing.len() > 0 {
            actions == missing.map_values(|user: Id| fetch_keys(user))
        } else {
            &&& actions.len() == 1
            &&& actions[0] matches Action::Distribute { conversation_id: c, targets } && c
                == conversation_id && targets@ == targets_of(
                audience,
                signed.devices@,
                signed.account.device_id,
            )
        }
    }
}

/// Asks for the key bundles of one account.
pub open spec fn fetch_keys(user: Id) -> Action {
    Action::Request(Request::KeyBundleFetch { user_id: user, device_id: None })
}

/// The asks with a roster remembered that a hand-out waits for.
pub open spec fn asks_roster(
    asked: Asks,
    cached: Map<Id, (Seq<Id>, bool)>,
    conversation_id: Id,
) -> Asks {
    if cached.contains_key(conversation_id) && !cached[conversation_id].1 {
        Asks { pending_roster: Some(conversation_id), ..asked }
    } else {
        asked
    }
}

/// Hands a rotated chain to every member device, or asks for what is missing to do so. A roster
/// that is asked for is remembered, so that the next change of the membership finds it complete.
pub fn redistribute_group_key(
    signed: &Signed,
    asks: &mut Asks,
    conversation_id: Id,
    out: &mut Vec<Action>,
)
    ensures
        *final(asks) == asks_roster(*old(asks), caches(signed.members@), conversation_id),
        exists|added: Seq<Action>|
            final(out)@ == old(out)@ + added && #[trigger] hands_out(
                *signed,
                caches(signed.members@),
                conversation_id,
                added,
            ),
{
    let ghost before = out@;
    let me = signed.identity();
    match redistribute_plan(signed.members.get(&conversation_id), &signed.devices, &me) {
        RedistributePlan::Unprimed => {
            assert(out@ =~= before + Seq::<Action>::empty());
            assert(hands_out(
                *signed,
                caches(signed.members@),
                conversation_id,
                Seq::<Action>::empty(),
            ));
        },
        RedistributePlan::NeedRoster => {
            asks.pending_roster = Some(conversation_id);
            out.push(Action::Request(Request::ConversationRoster { conversation_id }));
            let ghost added = seq![Action::Request(Request::ConversationRoster { conversation_id })];
            assert(out@ =~= before + added);
            assert(hands_out(*signed, caches(signed.members@), conversation_id, added));
        },
        RedistributePlan::NeedKeys(users) => {
            let mut i: usize = 0;
            assert(out@ =~= before + users@.take(0).map_values(|user: Id| fetch_keys(user)));
            while i < users.len()
                invariant
                    i <= users@.len(),
                    out@ == before + users@.take(i as int).map_values(|user: Id| fetch_keys(user)),
                decreases users.len() - i,
            {
                out.push(
                    Action::Request(Request::KeyBundleFetch { user_id: users[i], device_id: None }),
                );
                assert(out@ =~= before + users@.take(i + 1).map_values(
                    |user: Id| fetch_keys(user),
                ));
                i = i + 1;
            }
            assert(users@.take(users@.len() as int) =~= users@);
            assert(hands_out(
                *signed,
                caches(signed.members@),
                conversation_id,
                users@.map_values(|user: Id| fetch_keys(user)),
            ));
        },
        RedistributePlan::Distribute(targets) => {
            let ghost added = seq![Action::Distribute { conversation_id, targets }];
            out.push(Action::Distribute { conversation_id, targets });
            assert(out@ =~= before + added);
            assert(hands_out(*signed, caches(signed.members@), conversation_id, added));
        },
    }
}

/// Whether some actions are what a member event asks for.
pub open spec fn member_event_actions(
    signed: Signed,
    event: ConversationMemberEvent,
    out: Seq<Action>,
) -> bool {
    let told = Action::Emit(
        Event::GroupMember {
            conversation_id: event.conversation_id,
            user_id: event.user_id,
            change: event.change,
        },
    );
    if !moves_audience(event.change) {
        out == seq![told]
    } else {
        let rotation = Action::RotateChainTo {
            conversation_id: event.conversation_id,
            epoch: event.group_key_epoch,
        };
        if ends_group(signed, event) {
            out == seq![rotation] + group_forgetting(event.conversation_id) + seq![told]
        } else {
            exists|added: Seq<Action>|
                out == seq![rotation] + added + seq![told] && #[trigger] hands_out(
                    signed,
                    caches_after_change(signed, event),
                    event.conversation_id,
                    added,
                )
        }
    }
}

/// Whether a group's membership event was heard as it should be.
pub open spec fn group_member_heard(
    before: Signed,
    asked: Asks,
    event: ConversationMemberEvent,
    after: Signed,
    left: Asks,
    out: Seq<Action>,
) -> bool {
    &&& member_event_actions(before, event, out)
    &&& ends_group(before, event) ==> {
            &&& group_forgotten(before, event.conversation_id, after)
            &&& asks_without(asked, event.conversation_id, left)
        }
    &&& !ends_group(before, event) ==> {
            &&& caches(after.members@) == caches_after_change(before, event)
            &&& after == (Signed { members: after.members, ..before })
            &&& left == (if moves_audience(event.change) {
                asks_roster(asked, caches_after_change(before, event), event.conversation_id)
            } else {
                asked
            })
        }
}

/// A member event off a watched conversation's topic.
///
/// The membership moves first. A change of audience rotates the chain to the generation the event
/// names and hands it out to the audience as it then is. This account's own departure ends the
/// group for this device instead: there is nobody left whom it may hand a chain to.
pub fn on_conversation_member(
    signed: &mut Signed,
    asks: &mut Asks,
    event: ConversationMemberEvent,
) -> (out: Vec<Action>)
    requires
        old(signed).held.wf(),
    ensures
        final(signed).held.wf(),
        group_member_heard(*old(signed), *old(asks), event, *final(signed), *final(asks), out@),
{
    let mut out: Vec<Action> = Vec::new();
    let conversation_id: Id = event.conversation_id;
    let ghost start = *signed;
    signed.apply_member(conversation_id, event.user_id, event.change);
    let ghost moved = *signed;
    let ghost told = Action::Emit(
        Event::GroupMember { conversation_id, user_id: event.user_id, change: event.change },
    );
    if is_membership_change(event.change) {
        let mine: bool = event.user_id == signed.account.account_id;
        let departed: bool = match event.change {
            MemberChange::Left | MemberChange::Kicked | MemberChange::Banned => true,
            _ => false,
        };
        out.push(Action::RotateChainTo { conversation_id, epoch: event.group_key_epoch });
        let ghost rotation = out@;
        if departed && mine {
            forget_group(signed, asks, conversation_id);
            assert(caches(signed.members@) =~= caches(start.members@).remove(conversation_id));
            out.push(Action::ForgetGroupCall { conversation_id });
            out.push(Action::ForgetKeys { conversation_id });
            out.push(Action::Emit(Event::GroupLeft { conversation_id }));
            out.push(
                Action::Emit(
                    Event::GroupMember {
                        conversation_id,
                        user_id: event.user_id,
                        change: event.change,
                    },
                ),
            );
            assert(out@ =~= rotation + group_forgetting(conversation_id) + seq![told]);
            return out;
        }
        redistribute_group_key(signed, asks, conversation_id, &mut out);
        let ghost added = choose|added: Seq<Action>|
            out@ == rotation + added && #[trigger] hands_out(
                *signed,
                caches(signed.members@),
                conversation_id,
                added,
            );
        out.push(
            Action::Emit(
                Event::GroupMember {
                    conversation_id,
                    user_id: event.user_id,
                    change: event.change,
                },
            ),
        );
        assert(out@ =~= rotation + added + seq![told]);
        assert(hands_out(start, caches_after_change(start, event), conversation_id, added));
        return out;
    }
    out.push(
        Action::Emit(
            Event::GroupMember { conversation_id, user_id: event.user_id, change: event.change },
        ),
    );
    assert(out@ =~= seq![told]);
    out
}

/// The active members of a roster.
pub open spec fn active_of(entries: Seq<RosterMember>) -> Seq<Id>
    decreases entries.len(),
{
    if entries.len() == 0 {
        Seq::empty()
    } else if entries.last().left_at is None {
        active_of(entries.drop_last()).push(entries.last().account_id)
    } else {
        active_of(entries.drop_last())
    }
}

fn active_ids(entries: &Vec<RosterMember>) -> (active: Vec<Id>)
    ensures
        active@ == active_of(entries@),
{
    let mut active: Vec<Id> = Vec::new();
    let mut i: usize = 0;
    assert(entries@.take(0) =~= Seq::<RosterMember>::empty());
    while i < entries.len()
        invariant
            i <= entries@.len(),
            active@ == active_of(entries@.take(i as int)),
        decreases entries.len() - i,
    {
        assert(entries@.take(i + 1).drop_last() =~= entries@.take(i as int));
        if entries[i].left_at.is_none() {
            active.push(entries[i].account_id);
        }
        i = i + 1;
    }
    assert(entries@.take(entries@.len() as int) =~= entries@);
    active
}

/// The conversations a roster answers: the one a send waits for, and every one a panel waits for.
pub open spec fn subjects_of(asks: Asks) -> Set<Id> {
    match asks.pending_roster {
        Some(id) => asks.group_rosters@.insert(id),
        None => asks.group_rosters@,
    }
}

/// The caches with a roster's answer promoted for every subject that has one.
pub open spec fn promoted(
    members: Map<Id, (Seq<Id>, bool)>,
    subjects: Set<Id>,
    active: Seq<Id>,
) -> Map<Id, (Seq<Id>, bool)> {
    Map::new(
        |id: Id| members.contains_key(id),
        |id: Id|
            if subjects.contains(id) && active.len() > 0 {
                (active, true)
            } else {
                members[id]
            },
    )
}

/// Whether a roster was read as it should be.
pub open spec fn roster_read(
    before: Signed,
    asked: Asks,
    entries: Vec<RosterMember>,
    after: Signed,
    left: Asks,
    out: Seq<Action>,
) -> bool {
    &&& after == (Signed { members: after.members, ..before })
    &&& caches(after.members@) == promoted(
            caches(before.members@),
            subjects_of(asked),
            active_of(entries@),
        )
    &&& left == (Asks {
            pending_roster: None,
            group_rosters: left.group_rosters,
            ..asked
        })
    &&& asked.group_rosters@.len() == 0 ==> out.len() == 0 && left.group_rosters@ == asked.group_rosters@
    &&& asked.group_rosters@.len() > 0 ==> {
            &&& out.len() == 1
            &&& out[0] matches Action::Emit(Event::GroupRoster { conversation_id, members })
                && asked.group_rosters@.contains(conversation_id) && members == entries
                && left.group_rosters@ == asked.group_rosters@.remove(conversation_id)
                && (asked.pending_roster matches Some(id) ==> (asked.group_rosters@.contains(
                id,
            ) ==> conversation_id == id))
        }
}

/// A conversation's roster arrived.
///
/// The reply does not say which conversation it is of. Every subject that waits takes the active
/// members as its whole membership; a panel that waits is shown the rows, the send's own
/// conversation before any other, and one panel for one answer.
pub fn on_roster(
    signed: &mut Signed,
    asks: &mut Asks,
    entries: Vec<RosterMember>,
) -> (out: Vec<Action>)
    ensures
        roster_read(*old(signed), *old(asks), entries, *final(signed), *final(asks), out@),
{
    let active: Vec<Id> = active_ids(&entries);
    let panels: Vec<Id> = list_of(&asks.group_rosters);
    let ghost start = caches(signed.members@);
    let ghost waiting = asks.group_rosters@;
    let mut shown: Option<Id> = None;
    let ghost mut done: Set<Id> = Set::empty();
    assert(promoted(start, done, active@) =~= start);
    if let Some(id) = asks.pending_roster.take() {
        signed.promote(id, copy_ids(&active));
        if asks.group_rosters.contains(&id) {
            shown = Some(id);
        }
        proof {
            done = done.insert(id);
            assert(caches(signed.members@) =~= promoted(start, done, active@));
        }
    }
    let ghost asked = done;
    let mut i: usize = 0;
    assert(panels@.take(0).to_set() =~= Set::<Id>::empty());
    assert(asked.union(panels@.take(0).to_set()) =~= asked);
    while i < panels.len()
        invariant
            i <= panels@.len(),
            panels@.to_set() == waiting,
            *signed == (Signed { members: signed.members, ..*old(signed) }),
            caches(signed.members@) == promoted(
                start,
                asked.union(panels@.take(i as int).to_set()),
                active@,
            ),
            *asks == (Asks { pending_roster: None, ..*old(asks) }),
            i > 0 ==> shown is Some,
            shown matches Some(id) ==> waiting.contains(id),
            old(asks).pending_roster matches Some(id) ==> (waiting.contains(id) ==> shown == Some(
                id,
            )),
        decreases panels.len() - i,
    {
        let id: Id = panels[i];
        assert(panels@.contains(id));
        signed.promote(id, copy_ids(&active));
        if shown.is_none() {
            shown = Some(id);
        }
        proof {
            let before = panels@.take(i as int);
            let after = panels@.take(i + 1);
            assert(after =~= before.push(id));
            assert forall|x: Id| after.to_set().contains(x) <==> before.to_set().insert(id).contains(x) by {
                if after.contains(x) {
                    let k = choose|k: int| 0 <= k < after.len() && after[k] == x;
                    if k < before.len() {
                        assert(before[k] == x);
                    }
                }
                if before.contains(x) {
                    let k = choose|k: int| 0 <= k < before.len() && before[k] == x;
                    assert(after[k] == x);
                }
                assert(after[before.len() as int] == id);
            }
            assert(after.to_set() =~= before.to_set().insert(id));
            assert(caches(signed.members@) =~= promoted(
                start,
                asked.union(after.to_set()),
                active@,
            ));
        }
        i = i + 1;
    }
    proof {
        assert(panels@.take(panels@.len() as int) =~= panels@);
        assert(asked.union(waiting) =~= subjects_of(*old(asks)));
        if waiting.len() > 0 {
            if panels@.len() == 0 {
                assert(panels@.to_set() =~= Set::<Id>::empty());
            }
        } else {
            assert(waiting =~= Set::<Id>::empty());
        }
    }
    let mut out: Vec<Action> = Vec::new();
    if let Some(conversation_id) = shown {
        asks.group_rosters.remove(&conversation_id);
        out.push(Action::Emit(Event::GroupRoster { conversation_id, members: entries }));
        assert(out@.len() == 1);
    }
    out
}

/// Whether a leave's answer was taken as it should be.
pub open spec fn group_leave_answered(
    before: Signed,
    asked: Asks,
    ok: bool,
    after: Signed,
    left: Asks,
    out: Seq<Action>,
) -> bool {
    &&& match asked.group_leave {
            Some(conversation_id) if ok => {
                &&& group_forgotten(before, conversation_id, after)
                &&& asks_without(asked, conversation_id, left)
                &&& out == group_forgetting(conversation_id).push(list_request())
            },
            _ => after == before && left == asked && out.len() == 0,
        }
}

/// A group leave was acknowledged. A refused one changes nothing, and its ask stands.
pub fn on_group_left(signed: &mut Signed, asks: &mut Asks, ok: bool) -> (out: Vec<Action>)
    requires
        old(signed).held.wf(),
    ensures
        final(signed).held.wf(),
        group_leave_answered(*old(signed), *old(asks), ok, *final(signed), *final(asks), out@),
{
    let mut out: Vec<Action> = Vec::new();
    if !ok {
        return out;
    }
    if let Some(conversation_id) = asks.group_leave {
        forget_group(signed, asks, conversation_id);
        out.push(Action::ForgetGroupCall { conversation_id });
        out.push(Action::ForgetKeys { conversation_id });
        out.push(Action::Emit(Event::GroupLeft { conversation_id }));
        out.push(request_conversations());
        assert(out@ =~= group_forgetting(conversation_id).push(list_request()));
    }
    out
}

/// Whether a vote's own answer was taken as it should be.
pub open spec fn vote_answered(
    asked: Asks,
    votes: u32,
    needed: u32,
    member_count: u32,
    open: bool,
    left: Asks,
    out: Seq<Action>,
) -> bool {
    &&& left == (Asks { pending_vote: None, ..asked })
    &&& out == (match asked.pending_vote {
            Some((conversation_id, target_id)) => seq![
                Action::Emit(
                    Event::GroupVoteStatus {
                        conversation_id,
                        target_id,
                        votes,
                        needed,
                        member_count,
                        open,
                    },
                ),
            ],
            None => Seq::empty(),
        })
}

/// This account's own vote landed. The reply names neither conversation nor target, so the ask
/// does, and is spent.
pub fn on_group_vote_reply(
    asks: &mut Asks,
    votes: u32,
    needed: u32,
    member_count: u32,
    open: bool,
) -> (out: Vec<Action>)
    ensures
        vote_answered(*old(asks), votes, needed, member_count, open, *final(asks), out@),
{
    let mut out: Vec<Action> = Vec::new();
    if let Some((conversation_id, target_id)) = asks.pending_vote.take() {
        out.push(
            Action::Emit(
                Event::GroupVoteStatus {
                    conversation_id,
                    target_id,
                    votes,
                    needed,
                    member_count,
                    open,
                },
            ),
        );
    }
    out
}

/// A rename's reply: say that it took, where it states a title, and re-read the list.
pub fn on_group_renamed(title: Option<String>) -> (out: Vec<Action>)
    ensures
        out@ == (match title {
            Some(text) => seq![
                toast(Notice::GroupRenamed { title: text }, ToastKind::Success),
                list_request(),
            ],
            None => seq![list_request()],
        }),
{
    match title {
        Some(text) => vec![
            toasted(Notice::GroupRenamed { title: text }, ToastKind::Success),
            request_conversations(),
        ],
        None => vec![request_conversations()],
    }
}

/// A member event is always told, last and as it came.
pub proof fn law_a_member_event_is_told_as_it_came(
    before: Signed,
    asked: Asks,
    event: ConversationMemberEvent,
    after: Signed,
    left: Asks,
    out: Seq<Action>,
)
    requires
        group_member_heard(before, asked, event, after, left, out),
    ensures
        out.len() > 0,
        out.last() == Action::Emit(
            Event::GroupMember {
                conversation_id: event.conversation_id,
                user_id: event.user_id,
                change: event.change,
            },
        ),
{
}

/// Every change of who may read a group moves its chain, first of all, to the generation the event
/// names: a join as well as a departure, whoever it is. Any other event leaves the chain alone and is
/// only told.
pub proof fn law_a_change_of_audience_rotates_the_chain(
    before: Signed,
    asked: Asks,
    event: ConversationMemberEvent,
    after: Signed,
    left: Asks,
    out: Seq<Action>,
)
    requires
        group_member_heard(before, asked, event, after, left, out),
    ensures
        event.change == MemberChange::Joined || event.change == MemberChange::Left || event.change
            == MemberChange::Kicked || event.change == MemberChange::Banned ==> out[0] == (
        Action::RotateChainTo {
            conversation_id: event.conversation_id,
            epoch: event.group_key_epoch,
        }) && out.len() >= 2,
        event.change != MemberChange::Joined && event.change != MemberChange::Left && event.change
            != MemberChange::Kicked && event.change != MemberChange::Banned ==> out.len() == 1
            && left == asked && caches(after.members@) == caches(before.members@),
{
    if !moves_audience(event.change) {
        assert(caches_after_change(before, event) =~= caches(before.members@));
    }
}

/// The membership of a group moves with its events, where it is known: after a join it names the
/// account, after a departure it does not, everybody else stays, and a whole membership stays whole.
/// No other conversation's moves.
pub proof fn law_a_groups_membership_moves_with_its_events(
    before: Signed,
    asked: Asks,
    event: ConversationMemberEvent,
    after: Signed,
    left: Asks,
    out: Seq<Action>,
    member: Id,
    other: Id,
)
    requires
        group_member_heard(before, asked, event, after, left, out),
        event.user_id != before.account.account_id,
        before.members@.contains_key(event.conversation_id),
        member != event.user_id,
        other != event.conversation_id,
    ensures
        after.members@.contains_key(event.conversation_id),
        after.members@[event.conversation_id].complete
            == before.members@[event.conversation_id].complete,
        event.change == MemberChange::Joined
            ==> after.members@[event.conversation_id].ids@.contains(event.user_id),
        event.change == MemberChange::Left || event.change == MemberChange::Kicked || event.change
            == MemberChange::Banned ==> !after.members@[event.conversation_id].ids@.contains(
            event.user_id,
        ),
        after.members@[event.conversation_id].ids@.contains(member)
            <==> before.members@[event.conversation_id].ids@.contains(member),
        after.members@.contains_key(other) <==> before.members@.contains_key(other),
        before.members@.contains_key(other) ==> after.members@[other].ids@
            == before.members@[other].ids@,
{
    let was = caches(before.members@);
    let now = caches(after.members@);
    let c = event.conversation_id;
    crate::members::law_a_change_moves_one_account(was[c].0, event.user_id, event.change);
    crate::members::law_a_departure_is_a_departure(was[c].0, event.user_id, member);
    assert(now.contains_key(c));
    assert(now[c].0 == after.members@[c].ids@);
    assert(was[c].0 == before.members@[c].ids@);
    assert(now.contains_key(other) <==> was.contains_key(other));
    if was.contains_key(other) {
        assert(now[other].0 == was[other].0);
        assert(now[other].0 == after.members@[other].ids@);
        assert(was[other].0 == before.members@[other].ids@);
    }
}

/// This account's own departure ends a group for this device: its keys and its call seat go, the
/// window hears it, and nothing is left of its members, its encryption, its watch or what was held
/// for it. Nobody else's does.
pub proof fn law_an_own_departure_ends_the_group(
    before: Signed,
    asked: Asks,
    event: ConversationMemberEvent,
    after: Signed,
    left: Asks,
    out: Seq<Action>,
    device: Id,
)
    requires
        group_member_heard(before, asked, event, after, left, out),
    ensures
        event.user_id == before.account.account_id && (event.change == MemberChange::Left
            || event.change == MemberChange::Kicked || event.change == MemberChange::Banned) ==> {
            let c = event.conversation_id;
            &&& out.len() == 5
            &&& out[1] == (Action::ForgetGroupCall { conversation_id: c })
            &&& out[2] == (Action::ForgetKeys { conversation_id: c })
            &&& out[3] == Action::Emit(Event::GroupLeft { conversation_id: c })
            &&& !after.members@.contains_key(c)
            &&& !after.e2e@.contains_key(c)
            &&& !after.conversations_watched@.contains(c)
            &&& after.held.of(c, device).len() == 0
            &&& !left.group_rosters@.contains(c)
            &&& left.group_leave != Some(c)
        },
        event.user_id != before.account.account_id || event.change == MemberChange::Joined ==> {
            &&& after.e2e == before.e2e
            &&& after.conversations_watched == before.conversations_watched
            &&& after.held == before.held
            &&& after.devices == before.devices
        },
{
    let c = event.conversation_id;
    assert(caches(after.members@).contains_key(c) <==> after.members@.contains_key(c));
}

/// A group is forgotten alone: every other conversation keeps its members, its encryption, its watch
/// and what is held for it.
pub proof fn law_only_the_left_group_is_forgotten(
    before: Signed,
    conversation_id: Id,
    after: Signed,
    other: Id,
    device: Id,
)
    requires
        group_forgotten(before, conversation_id, after),
        other != conversation_id,
    ensures
        after.members@.contains_key(other) <==> before.members@.contains_key(other),
        before.members@.contains_key(other) ==> after.members@[other].ids@
            == before.members@[other].ids@ && after.members@[other].complete
            == before.members@[other].complete,
        after.e2e@.contains_key(other) <==> before.e2e@.contains_key(other),
        before.e2e@.contains_key(other) ==> after.e2e@[other] == before.e2e@[other],
        after.conversations_watched@.contains(other) <==> before.conversations_watched@.contains(
            other,
        ),
        after.held.of(other, device) == before.held.of(other, device),
        after.account == before.account,
        after.devices == before.devices,
        after.media_keys == before.media_keys,
        after.room_conversations == before.room_conversations,
        after.rooms_watched == before.rooms_watched,
        !after.members@.contains_key(conversation_id),
        !after.e2e@.contains_key(conversation_id),
        !after.conversations_watched@.contains(conversation_id),
        after.held.of(conversation_id, device).len() == 0,
{
    let was = caches(before.members@);
    let now = caches(after.members@);
    assert(now.contains_key(other) <==> was.contains_key(other));
    assert(!now.contains_key(conversation_id));
    if was.contains_key(other) {
        assert(now[other] == was[other]);
        assert(now[other] == (after.members@[other].ids@, after.members@[other].complete));
        assert(was[other] == (before.members@[other].ids@, before.members@[other].complete));
    }
}

/// A rotated chain is handed to exactly the known devices of the membership and of this account,
/// without this one; where the membership is known in part its roster is asked for, and where
/// somebody's devices are not known exactly theirs are fetched. A conversation that is not known is
/// left alone.
pub proof fn law_a_rotated_chain_is_handed_to_the_members(
    signed: Signed,
    members: Map<Id, (Seq<Id>, bool)>,
    conversation_id: Id,
    actions: Seq<Action>,
    user: Id,
    device: Id,
)
    requires
        hands_out(signed, members, conversation_id, actions),
    ensures
        !members.contains_key(conversation_id) ==> actions.len() == 0,
        members.contains_key(conversation_id) && !members[conversation_id].1 ==> actions == seq![
            Action::Request(Request::ConversationRoster { conversation_id }),
        ],
        members.contains_key(conversation_id) && members[conversation_id].1 ==> ({
            let named = members[conversation_id].0.contains(user) || user
                == signed.account.account_id;
            &&& named && !signed.devices@.contains_key(user) <==> actions.contains(
                Action::Request(Request::KeyBundleFetch { user_id: user, device_id: None }),
            )
            &&& actions.len() > 0 ==> (actions[0] matches Action::Distribute {
                conversation_id: c,
                targets,
            } ==> {
                &&& c == conversation_id
                &&& actions.len() == 1
                &&& named ==> signed.devices@.contains_key(user)
                &&& targets@.contains((user, device)) <==> named
                    && signed.devices@[user]@.contains(device) && device
                    != signed.account.device_id
            })
            &&& actions.len() > 0
        }),
{
    if members.contains_key(conversation_id) && members[conversation_id].1 {
        let audience = audience_of(members[conversation_id].0, signed.account.account_id);
        let missing = missing_of(audience, signed.devices@);
        crate::sealing::law_the_audience_is_the_members_and_the_sender(
            members[conversation_id].0,
            signed.account.account_id,
            user,
        );
        crate::sealing::law_what_is_missing_is_not_known(audience, signed.devices@, user);
        crate::sealing::law_a_chain_is_for_the_audiences_devices(
            audience,
            signed.devices@,
            signed.account.device_id,
            user,
            device,
        );
        if missing.len() > 0 {
            let asked = missing.map_values(|u: Id| fetch_keys(u));
            if missing.contains(user) {
                let k = choose|k: int| 0 <= k < missing.len() && missing[k] == user;
                assert(asked[k] == fetch_keys(user));
            }
            if actions.contains(fetch_keys(user)) {
                let k = choose|k: int| 0 <= k < actions.len() && actions[k] == fetch_keys(user);
                assert(asked[k] == fetch_keys(missing[k]));
                assert(missing[k] == user);
                assert(missing.contains(user));
            }
            assert(actions[0] == fetch_keys(missing[0]));
        } else {
            assert(actions[0] is Distribute);
        }
    }
}

/// A departed member is handed no chain: whoever left, was kicked or was banned is no target of what
/// follows, unless it is this account itself.
pub proof fn law_a_departed_member_gets_no_key(
    before: Signed,
    asked: Asks,
    event: ConversationMemberEvent,
    after: Signed,
    left: Asks,
    out: Seq<Action>,
    device: Id,
    i: int,
)
    requires
        group_member_heard(before, asked, event, after, left, out),
        event.change == MemberChange::Left || event.change == MemberChange::Kicked || event.change
            == MemberChange::Banned,
        event.user_id != before.account.account_id,
        0 <= i < out.len(),
        out[i] is Distribute,
    ensures
        out[i]->Distribute_conversation_id == event.conversation_id,
        !out[i]->Distribute_targets@.contains((event.user_id, device)),
{
    let c = event.conversation_id;
    let moved = caches_after_change(before, event);
    let added = choose|added: Seq<Action>|
        out == seq![
            Action::RotateChainTo { conversation_id: c, epoch: event.group_key_epoch },
        ] + added + seq![
            Action::Emit(
                Event::GroupMember {
                    conversation_id: c,
                    user_id: event.user_id,
                    change: event.change,
                },
            ),
        ] && #[trigger] hands_out(before, moved, c, added);
    assert(added[i - 1] == out[i]);
    law_a_rotated_chain_is_handed_to_the_members(
        before,
        moved,
        c,
        added,
        event.user_id,
        device,
    );
    crate::members::law_a_departure_is_a_departure(
        caches(before.members@)[c].0,
        event.user_id,
        event.user_id,
    );
    if i - 1 > 0 {
        let audience = audience_of(moved[c].0, before.account.account_id);
        let missing = missing_of(audience, before.devices@);
        assert(added[i - 1] == fetch_keys(missing[i - 1]));
    }
}

/// Who is active in a roster: those listed that have not left, and nobody else.
pub proof fn law_the_active_are_those_who_have_not_left(entries: Seq<RosterMember>, id: Id)
    ensures
        active_of(entries).contains(id) <==> exists|i: int|
            0 <= i < entries.len() && (#[trigger] entries[i]).account_id == id
                && entries[i].left_at is None,
    decreases entries.len(),
{
    if entries.len() > 0 {
        let front = entries.drop_last();
        let last = entries.last();
        let before = active_of(front);
        let all = active_of(entries);
        law_the_active_are_those_who_have_not_left(front, id);
        assert(entries[entries.len() - 1] == last);
        if before.contains(id) {
            let i = choose|i: int|
                0 <= i < front.len() && (#[trigger] front[i]).account_id == id
                    && front[i].left_at is None;
            assert(entries[i] == front[i]);
            let k = choose|k: int| 0 <= k < before.len() && before[k] == id;
            assert(all[k] == id);
        }
        if last.left_at is None {
            assert(all[before.len() as int] == last.account_id);
        }
        if all.contains(id) && !before.contains(id) {
            let k = choose|k: int| 0 <= k < all.len() && all[k] == id;
            if k < before.len() {
                assert(before[k] == id);
            }
        }
        if exists|i: int|
            0 <= i < entries.len() && (#[trigger] entries[i]).account_id == id
                && entries[i].left_at is None {
            let i = choose|i: int|
                0 <= i < entries.len() && (#[trigger] entries[i]).account_id == id
                    && entries[i].left_at is None;
            if i < front.len() {
                assert(front[i] == entries[i]);
            }
        }
    }
}

/// A roster makes the membership of each conversation that waits for it whole: exactly its active
/// members. A roster of nobody makes none whole, no other conversation changes, and nobody who left
/// is a member.
pub proof fn law_a_roster_makes_a_membership_whole(
    before: Signed,
    asked: Asks,
    entries: Vec<RosterMember>,
    after: Signed,
    left: Asks,
    out: Seq<Action>,
    id: Id,
    member: Id,
)
    requires
        roster_read(before, asked, entries, after, left, out),
        before.members@.contains_key(id),
    ensures
        after.members@.contains_key(id),
        left.pending_roster is None,
        active_of(entries@).len() > 0 && (asked.pending_roster == Some(id)
            || asked.group_rosters@.contains(id)) ==> {
            &&& after.members@[id].complete
            &&& after.members@[id].ids@.contains(member) <==> exists|i: int|
                0 <= i < entries@.len() && (#[trigger] entries@[i]).account_id == member
                    && entries@[i].left_at is None
        },
        active_of(entries@).len() == 0 || (asked.pending_roster != Some(id)
            && !asked.group_rosters@.contains(id)) ==> {
            &&& after.members@[id].complete == before.members@[id].complete
            &&& after.members@[id].ids@ == before.members@[id].ids@
        },
{
    law_the_active_are_those_who_have_not_left(entries@, member);
    let was = caches(before.members@);
    let now = caches(after.members@);
    assert(now.contains_key(id) <==> was.contains_key(id));
    assert(now[id] == (after.members@[id].ids@, after.members@[id].complete));
    assert(was[id] == (before.members@[id].ids@, before.members@[id].complete));
}

/// A group that was left by this account's own wish is forgotten with its keys and its call seat,
/// told, and the list read again; a refused leave changes nothing.
pub proof fn law_an_acknowledged_leave_forgets_the_group(
    before: Signed,
    asked: Asks,
    ok: bool,
    after: Signed,
    left: Asks,
    out: Seq<Action>,
)
    requires
        group_leave_answered(before, asked, ok, after, left, out),
    ensures
        ok && asked.group_leave is Some ==> {
            let c = asked.group_leave.unwrap();
            &&& group_forgotten(before, c, after)
            &&& left.group_leave is None
            &&& !left.group_rosters@.contains(c)
            &&& out.len() == 4
            &&& out[0] == (Action::ForgetGroupCall { conversation_id: c })
            &&& out[1] == (Action::ForgetKeys { conversation_id: c })
            &&& out[2] == Action::Emit(Event::GroupLeft { conversation_id: c })
            &&& out[3] matches Action::Request(request) && request is ConversationList
        },
        !ok || asked.group_leave is None ==> after == before && left == asked && out.len() == 0,
{
}

/// A vote's answer is told of the very group and member that the vote was about, with the server's
/// own count, and spends the ask; without an ask nothing is told.
pub proof fn law_a_votes_answer_is_told_of_its_own_subject(
    asked: Asks,
    votes: u32,
    needed: u32,
    member_count: u32,
    open: bool,
    left: Asks,
    out: Seq<Action>,
)
    requires
        vote_answered(asked, votes, needed, member_count, open, left, out),
    ensures
        left.pending_vote is None,
        left.pending_roster == asked.pending_roster,
        asked.pending_vote is None ==> out.len() == 0,
        asked.pending_vote is Some ==> {
            &&& out.len() == 1
            &&& out[0] is Emit
            &&& out[0]->Emit_0 is GroupVoteStatus
            &&& out[0]->Emit_0->GroupVoteStatus_conversation_id == asked.pending_vote.unwrap().0
            &&& out[0]->Emit_0->GroupVoteStatus_target_id == asked.pending_vote.unwrap().1
            &&& out[0]->Emit_0->GroupVoteStatus_votes == votes
            &&& out[0]->Emit_0->GroupVoteStatus_needed == needed
            &&& out[0]->Emit_0->GroupVoteStatus_member_count == member_count
            &&& out[0]->Emit_0->GroupVoteStatus_open == open
        },
{
}

/// A roster answers one panel, with its rows as they came: the send's own conversation where a
/// panel waits for that one, and otherwise one that waits. That panel waits no longer and every
/// other still does; where no panel waits nothing is shown.
pub proof fn law_a_roster_answers_one_panel(
    before: Signed,
    asked: Asks,
    entries: Vec<RosterMember>,
    after: Signed,
    left: Asks,
    out: Seq<Action>,
    other: Id,
)
    requires
        roster_read(before, asked, entries, after, left, out),
    ensures
        out.len() == (if asked.group_rosters@.len() == 0 {
            0int
        } else {
            1
        }),
        asked.group_rosters@.len() == 0 ==> left.group_rosters@ == asked.group_rosters@,
        asked.group_rosters@.len() > 0 ==> {
            &&& out[0] is Emit
            &&& out[0]->Emit_0 is GroupRoster
            &&& out[0]->Emit_0->GroupRoster_members == entries
            &&& asked.group_rosters@.contains(out[0]->Emit_0->GroupRoster_conversation_id)
            &&& !left.group_rosters@.contains(out[0]->Emit_0->GroupRoster_conversation_id)
            &&& asked.pending_roster is Some && asked.group_rosters@.contains(
                asked.pending_roster.unwrap(),
            ) ==> out[0]->Emit_0->GroupRoster_conversation_id == asked.pending_roster.unwrap()
            &&& other != out[0]->Emit_0->GroupRoster_conversation_id ==> (left.group_rosters@.contains(
                other,
            ) <==> asked.group_rosters@.contains(other))
        },
        left.pending_leave == asked.pending_leave,
        left.group_leave == asked.group_leave,
        left.pending_vote == asked.pending_vote,
        left.member_profile == asked.member_profile,
        left.member_edge == asked.member_edge,
        after.devices == before.devices,
        after.account == before.account,
        after.e2e == before.e2e,
        after.rooms_watched == before.rooms_watched,
        after.conversations_watched == before.conversations_watched,
{
}

} // verus!
