//! Rooms: entering and leaving them, and hearing who does.

use vstd::prelude::*;

use crate::asks::Asks;
use crate::effects::{list_request, request_conversations, Action, Event, Request, RoomRow};
use crate::members::{members_after, MemberCache};
use crate::signed::{caches, Signed};
use crate::text::{non_empty, some_text, trimmed, trimmed_or_none};
use crate::wire::{Id, MemberChange, TopicKind};

verus! {

broadcast use vstd::std_specs::hash::group_hash_axioms;

/// The kinds of room the wire numbers.
pub const ROOM_KIND_OPEN: u32 = 1;

pub const ROOM_KIND_MANAGED: u32 = 2;

/// A member event off a room's topic, or off the account's own.
pub struct RoomMemberEvent {
    pub room_id: Id,
    pub user_id: Id,
    pub change: Option<MemberChange>,
    pub joined: bool,
    pub member_count: Option<u32>,
}

/// What an event says happened: the change it names, and the older flag where it names none.
pub open spec fn change_of(event: RoomMemberEvent) -> MemberChange {
    match event.change {
        Some(change) if change != MemberChange::Unknown => change,
        _ => if event.joined {
            MemberChange::Joined
        } else {
            MemberChange::Left
        },
    }
}

/// What an event says happened.
pub fn room_change(event: &RoomMemberEvent) -> (change: MemberChange)
    ensures
        change == change_of(*event),
{
    let said: MemberChange = match event.change {
        Some(change) => change,
        None => MemberChange::Unknown,
    };
    match said {
        MemberChange::Unknown => {
            if event.joined {
                MemberChange::Joined
            } else {
                MemberChange::Left
            }
        },
        change => change,
    }
}

/// Whether a change leaves somebody outside who may still hold the room's chain.
pub open spec fn kills_chain(change: MemberChange) -> bool {
    crate::members::departs(change) || change == MemberChange::Disconnected
}

fn is_departure(change: MemberChange) -> (r: bool)
    ensures
        r == crate::members::departs(change),
{
    match change {
        MemberChange::Left | MemberChange::Kicked | MemberChange::Banned => true,
        _ => false,
    }
}

/// Whether an event is the bell of a join that this account made on another device: it names this
/// account, joining a room this session has never heard of, and no other bell is being answered.
pub open spec fn rings(signed: Signed, asks: Asks, event: RoomMemberEvent) -> bool {
    &&& change_of(event) == MemberChange::Joined
    &&& event.user_id == signed.account.account_id
    &&& !signed.rooms_watched@.contains(event.room_id)
    &&& !signed.room_conversations@.contains_key(event.room_id)
    &&& asks.pending_room_probe is None
}

/// Whether an event ends a room for this account.
pub open spec fn ends_room(signed: Signed, event: RoomMemberEvent) -> bool {
    crate::members::departs(change_of(event)) && event.user_id == signed.account.account_id
}

/// The conversation behind a room, where it is known.
pub open spec fn behind_room(signed: Signed, room_id: Id) -> Option<Id> {
    if signed.room_conversations@.contains_key(room_id) {
        Some(signed.room_conversations@[room_id])
    } else {
        None
    }
}

/// Whether `after` is `before` with everything a room owns dropped: the watch, the bridge, and of
/// the conversation behind it the watch and what was held for it.
pub open spec fn room_forgotten(before: Signed, room_id: Id, after: Signed) -> bool {
    &&& after.rooms_watched@ == before.rooms_watched@.remove(room_id)
    &&& after.room_conversations@ == before.room_conversations@.remove(room_id)
    &&& after == (Signed {
        rooms_watched: after.rooms_watched,
        room_conversations: after.room_conversations,
        conversations_watched: after.conversations_watched,
        held: after.held,
        ..before
    })
    &&& match behind_room(before, room_id) {
        Some(conversation) => {
            &&& after.conversations_watched@ == before.conversations_watched@.remove(conversation)
            &&& forall|d: Id| (#[trigger] after.held.of(conversation, d)).len() == 0
            &&& forall|c: Id, d: Id|
                c != conversation ==> #[trigger] after.held.of(c, d) == before.held.of(c, d)
        },
        None => {
            &&& after.conversations_watched@ == before.conversations_watched@
            &&& after.held == before.held
        },
    }
}

/// What the edge does when a room is forgotten: the keys of the conversation behind it go, and
/// the bridge is written without it.
pub open spec fn forgetting(conversation: Option<Id>) -> Seq<Action> {
    match conversation {
        Some(conversation_id) => seq![
            Action::ForgetKeys { conversation_id },
            Action::SaveBridges,
        ],
        None => seq![Action::SaveBridges],
    }
}

/// Drops every piece of state a room owns, and names the conversation that was behind it.
pub fn forget_room(
    signed: &mut Signed,
    room_id: Id,
    out: &mut Vec<Action>,
) -> (conversation: Option<Id>)
    requires
        old(signed).held.wf(),
    ensures
        final(signed).held.wf(),
        conversation == behind_room(*old(signed), room_id),
        room_forgotten(*old(signed), room_id, *final(signed)),
        final(out)@ == old(out)@ + forgetting(conversation),
{
    let ghost before = out@;
    let conversation: Option<Id> = match signed.room_conversations.get(&room_id) {
        Some(held) => Some(*held),
        None => None,
    };
    signed.rooms_watched.remove(&room_id);
    signed.room_conversations.remove(&room_id);
    if let Some(conversation_id) = conversation {
        signed.conversations_watched.remove(&conversation_id);
        signed.held.forget(conversation_id);
        out.push(Action::ForgetKeys { conversation_id });
    }
    out.push(Action::SaveBridges);
    assert(out@ =~= before + forgetting(conversation));
    conversation
}

/// What a member event has the edge do.
pub open spec fn member_actions(signed: Signed, asks: Asks, event: RoomMemberEvent) -> Seq<Action> {
    let change = change_of(event);
    let conversation = behind_room(signed, event.room_id);
    let bell = if rings(signed, asks, event) {
        seq![Action::Request(Request::RoomRoster { room_id: event.room_id, limit: 1 })]
    } else {
        Seq::empty()
    };
    let rotation = match conversation {
        Some(conversation_id) if kills_chain(change) => seq![
            Action::RotateChain { conversation_id },
        ],
        _ => Seq::empty(),
    };
    let told = if ends_room(signed, event) {
        forgetting(conversation) + seq![
            Action::Emit(
                Event::RoomLeft {
                    room_id: event.room_id,
                    conversation_id: conversation,
                    self_left: change == MemberChange::Left,
                },
            ),
            list_request(),
        ]
    } else {
        seq![
            Action::Emit(
                Event::RoomMember {
                    room_id: event.room_id,
                    user_id: event.user_id,
                    change,
                    member_count: event.member_count,
                },
            ),
        ]
    };
    bell + rotation + told
}

/// The caches after a member event: the conversation behind the room moves with it.
pub open spec fn caches_after_event(signed: Signed, event: RoomMemberEvent) -> Map<
    Id,
    (Seq<Id>, bool),
> {
    let members = caches(signed.members@);
    match behind_room(signed, event.room_id) {
        Some(conversation) if members.contains_key(conversation) => members.insert(
            conversation,
            (
                members_after(members[conversation].0, event.user_id, change_of(event)),
                members[conversation].1,
            ),
        ),
        _ => members,
    }
}

/// Whether a room's membership event was heard as it should be.
pub open spec fn room_member_heard(
    before: Signed,
    asked: Asks,
    event: RoomMemberEvent,
    after: Signed,
    left: Asks,
    out: Seq<Action>,
) -> bool {
    &&& out == member_actions(before, asked, event)
    &&& left == (if rings(before, asked, event) {
            (Asks { pending_room_probe: Some(event.room_id), ..asked })
        } else {
            asked
        })
    &&& caches(after.members@) == caches_after_event(before, event)
    &&& ends_room(before, event) ==> room_forgotten(
            (Signed { members: after.members, ..before }),
            event.room_id,
            after,
        )
    &&& !ends_room(before, event) ==> after == (Signed {
            members: after.members,
            ..before
        })
}

/// A member event off a watched room's topic, or the bell of a join made on another device.
///
/// A departure kills the room's outbound chain: whoever left may still hold its key. The event
/// also moves the membership that the next message is sealed for. This account's own departure
/// ends the room for this device; a bell is answered with a probe, because only a room that still
/// answers its roster may be joined again.
pub fn on_room_member(
    signed: &mut Signed,
    asks: &mut Asks,
    event: RoomMemberEvent,
) -> (out: Vec<Action>)
    requires
        old(signed).held.wf(),
    ensures
        final(signed).held.wf(),
        room_member_heard(*old(signed), *old(asks), event, *final(signed), *final(asks), out@),
{
    let mut out: Vec<Action> = Vec::new();
    let change: MemberChange = room_change(&event);
    let mine: bool = event.user_id == signed.account.account_id;
    let conversation: Option<Id> = match signed.room_conversations.get(&event.room_id) {
        Some(held) => Some(*held),
        None => None,
    };
    let joined: bool = match change {
        MemberChange::Joined => true,
        _ => false,
    };
    let known: bool = signed.rooms_watched.contains(&event.room_id) || conversation.is_some();
    if joined && mine && !known && asks.pending_room_probe.is_none() {
        asks.pending_room_probe = Some(event.room_id);
        out.push(Action::Request(Request::RoomRoster { room_id: event.room_id, limit: 1 }));
    }
    let ghost bell = out@;
    let outsider: bool = match change {
        MemberChange::Disconnected => true,
        _ => is_departure(change),
    };
    if let Some(conversation_id) = conversation {
        if outsider {
            out.push(Action::RotateChain { conversation_id });
        }
        signed.apply_member(conversation_id, event.user_id, change);
    }
    let ghost rotated = out@;
    if is_departure(change) && mine {
        let room_id: Id = event.room_id;
        let forgotten: Option<Id> = forget_room(signed, room_id, &mut out);
        let self_left: bool = match change {
            MemberChange::Left => true,
            _ => false,
        };
        out.push(Action::Emit(Event::RoomLeft { room_id, conversation_id: forgotten, self_left }));
        out.push(request_conversations());
        assert(out@ =~= member_actions(*old(signed), *old(asks), event));
        return out;
    }
    out.push(
        Action::Emit(
            Event::RoomMember {
                room_id: event.room_id,
                user_id: event.user_id,
                change,
                member_count: event.member_count,
            },
        ),
    );
    assert(out@ =~= member_actions(*old(signed), *old(asks), event));
    out
}

/// A departure that ends a room leaves nothing of it behind: neither the watch nor the bridge, nor
/// anything held for the conversation behind it, and its keys are forgotten.
pub proof fn law_a_left_room_leaves_nothing(before: Signed, after: Signed, room_id: Id)
    requires
        room_forgotten(before, room_id, after),
    ensures
        !after.rooms_watched@.contains(room_id),
        !after.room_conversations@.contains_key(room_id),
        behind_room(before, room_id) matches Some(conversation) ==> {
            &&& !after.conversations_watched@.contains(conversation)
            &&& forall|d: Id| (#[trigger] after.held.of(conversation, d)).len() == 0
            &&& forgetting(Some(conversation)).contains(
                Action::ForgetKeys { conversation_id: conversation },
            )
        },
{
    if let Some(conversation) = behind_room(before, room_id) {
        assert(forgetting(Some(conversation))[0] == Action::ForgetKeys {
            conversation_id: conversation,
        });
    }
}

/// Whether a join was filed as it should be.
pub open spec fn room_joined(
    before: Signed,
    room_id: Id,
    conversation_id: Id,
    title: String,
    after: Signed,
    out: Seq<Action>,
) -> bool {
    &&& after.room_conversations@ == before.room_conversations@.insert(
            room_id,
            conversation_id,
        )
    &&& after.rooms_watched@ == before.rooms_watched@.insert(room_id)
    &&& caches(after.members@) == (if before.members@.contains_key(conversation_id) {
            caches(before.members@)
        } else {
            caches(before.members@).insert(conversation_id, (Seq::empty(), false))
        })
    &&& after == (Signed {
            room_conversations: after.room_conversations,
            rooms_watched: after.rooms_watched,
            members: after.members,
            ..before
        })
    &&& joined_actions(
            room_id,
            conversation_id,
            title,
            !before.rooms_watched@.contains(room_id),
            out,
        )
}

/// A join was accepted: the pair is bridged, the room's topic is watched, and a membership that is
/// not known yet is seeded as a preview of nobody.
pub fn on_room_joined(
    signed: &mut Signed,
    room_id: Id,
    conversation_id: Id,
    title: String,
) -> (out: Vec<Action>)
    ensures
        room_joined(*old(signed), room_id, conversation_id, title, *final(signed), out@),
{
    if !signed.members.contains_key(&conversation_id) {
        signed.members.insert(conversation_id, MemberCache { ids: Vec::new(), complete: false });
        assert(caches(signed.members@) =~= caches(old(signed).members@).insert(
            conversation_id,
            (Seq::empty(), false),
        ));
    }
    signed.room_conversations.insert(room_id, conversation_id);
    let watch: bool = signed.rooms_watched.insert(room_id);
    let mut out: Vec<Action> = Vec::new();
    out.push(Action::SaveBridges);
    out.push(Action::Emit(Event::RoomJoined { conversation_id, room_id, title }));
    if watch {
        let ids: Vec<Id> = vec![room_id];
        assert(ids@ =~= seq![room_id]);
        out.push(Action::Request(Request::Subscribe { kind: TopicKind::Room, ids }));
    }
    out.push(request_conversations());
    out
}

/// What the edge does after a join.
pub open spec fn joined_actions(
    room_id: Id,
    conversation_id: Id,
    title: String,
    watch: bool,
    out: Seq<Action>,
) -> bool {
    &&& out.len() == (if watch {
        4int
    } else {
        3int
    })
    &&& out[0] == Action::SaveBridges
    &&& out[1] == Action::Emit(Event::RoomJoined { conversation_id, room_id, title })
    &&& watch ==> (out[2] matches Action::Request(Request::Subscribe { kind, ids }) && kind
        == TopicKind::Room && ids@ == seq![room_id])
    &&& out.last() == list_request()
}

/// Whether a leave's answer was taken as it should be.
pub open spec fn room_leave_answered(
    before: Signed,
    asked: Asks,
    ok: bool,
    after: Signed,
    left: Asks,
    out: Seq<Action>,
) -> bool {
    &&& left == (Asks { pending_leave: None, ..asked })
    &&& match asked.pending_leave {
            Some(room_id) if ok => {
                &&& room_forgotten(before, room_id, after)
                &&& out == forgetting(behind_room(before, room_id)) + seq![
                    Action::Emit(
                        Event::RoomLeft {
                            room_id,
                            conversation_id: behind_room(before, room_id),
                            self_left: true,
                        },
                    ),
                    list_request(),
                ]
            },
            _ => after == before && out.len() == 0,
        }
}

/// A leave was acknowledged. The acknowledgement names no room, so the ask does; a refused leave
/// spends its ask and changes nothing else.
pub fn on_room_left(signed: &mut Signed, asks: &mut Asks, ok: bool) -> (out: Vec<Action>)
    requires
        old(signed).held.wf(),
    ensures
        final(signed).held.wf(),
        room_leave_answered(*old(signed), *old(asks), ok, *final(signed), *final(asks), out@),
{
    let mut out: Vec<Action> = Vec::new();
    if let Some(room_id) = asks.pending_leave.take() {
        if ok {
            let conversation_id: Option<Id> = forget_room(signed, room_id, &mut out);
            out.push(Action::Emit(Event::RoomLeft { room_id, conversation_id, self_left: true }));
            out.push(request_conversations());
            assert(out@ =~= forgetting(conversation_id) + seq![
                Action::Emit(Event::RoomLeft { room_id, conversation_id, self_left: true }),
                list_request(),
            ]);
        }
    }
    out
}

/// Whether a probe's answer was taken as it should be.
pub open spec fn probe_answered(asked: Asks, answered: bool, left: Asks, out: Seq<Action>) -> bool {
    &&& left == (Asks { pending_room_probe: None, ..asked })
    &&& out == (match asked.pending_room_probe {
            Some(room_id) if answered => seq![Action::Request(Request::RoomJoin { room_id })],
            _ => Seq::empty(),
        })
}

/// A bell's probe was answered: a room that shows its roster is one this account is still in, and
/// is joined again. Anything else spends the probe and does nothing.
pub fn on_room_probe(asks: &mut Asks, answered: bool) -> (out: Vec<Action>)
    ensures
        probe_answered(*old(asks), answered, *final(asks), out@),
{
    let mut out: Vec<Action> = Vec::new();
    if let Some(room_id) = asks.pending_room_probe.take() {
        if answered {
            out.push(Action::Request(Request::RoomJoin { room_id }));
        }
    }
    out
}

/// Asks for the room directory, narrowed by what is left of a query.
pub fn request_rooms(query: &str) -> (action: Action)
    ensures
        action matches Action::Request(Request::RoomList { limit, query: sent }) && limit == 50 && (
        trimmed(query@).len() == 0 <==> sent is None) && (sent matches Some(text) ==> text@
            == trimmed(query@)),
{
    Action::Request(Request::RoomList { limit: 50, query: trimmed_or_none(query) })
}

/// Creates a room.
pub fn create_room(
    slug: String,
    name: String,
    managed: bool,
    topic: Option<String>,
) -> (action: Action)
    ensures
        action == Action::Request(
            (Request::RoomCreate {
                slug,
                name,
                kind: if managed {
                    ROOM_KIND_MANAGED
                } else {
                    ROOM_KIND_OPEN
                },
                topic,
            }),
        ),
{
    let kind: u32 = if managed {
        ROOM_KIND_MANAGED
    } else {
        ROOM_KIND_OPEN
    };
    Action::Request(Request::RoomCreate { slug, name, kind, topic })
}

/// Leaves a room, and remembers which: the acknowledgement will not say.
pub fn leave_room(asks: &mut Asks, room_id: Id) -> (action: Action)
    ensures
        *final(asks) == (Asks { pending_leave: Some(room_id), ..*old(asks) }),
        action == Action::Request(Request::RoomLeave { room_id }),
{
    asks.pending_leave = Some(room_id);
    Action::Request(Request::RoomLeave { room_id })
}

/// One room of the directory, as the wire lists it.
pub struct RoomListing {
    pub room_id: Id,
    pub name: String,
    pub topic: Option<String>,
    pub member_count: u32,
    pub online_count: u32,
    pub category: Option<String>,
    pub verified: Option<bool>,
}

/// The row a listing is drawn as.
pub open spec fn room_row(room: RoomListing) -> RoomRow {
    RoomRow {
        room_id: room.room_id,
        name: room.name,
        topic: some_text(room.topic),
        member_count: room.member_count,
        online_count: room.online_count,
        category: room.category,
        verified: room.verified == Some(true),
    }
}

/// Reduces the room directory to rows.
pub fn on_rooms(rooms: Vec<RoomListing>) -> (rows: Vec<RoomRow>)
    ensures
        rows@ == rooms@.map_values(|room: RoomListing| room_row(room)),
{
    let mut rows: Vec<RoomRow> = Vec::new();
    for room in it: rooms
        invariant
            it.seq() == rooms@,
            rows@.len() == it.index(),
            forall|i: int| 0 <= i < rows@.len() ==> rows@[i] == room_row(rooms@[i]),
    {
        let verified: bool = match room.verified {
            Some(true) => true,
            _ => false,
        };
        rows.push(
            RoomRow {
                room_id: room.room_id,
                name: room.name,
                topic: non_empty(room.topic),
                member_count: room.member_count,
                online_count: room.online_count,
                category: room.category,
                verified,
            },
        );
    }
    rows
}

/// What an event says happened: the change it names where it names one, and otherwise what its older
/// flag says.
pub proof fn law_an_event_says_what_happened(event: RoomMemberEvent)
    ensures
        event.change is Some && event.change.unwrap() != MemberChange::Unknown ==> change_of(event)
            == event.change.unwrap(),
        (event.change is None || event.change.unwrap() == MemberChange::Unknown) && event.joined
            ==> change_of(event) == MemberChange::Joined,
        (event.change is None || event.change.unwrap() == MemberChange::Unknown) && !event.joined
            ==> change_of(event) == MemberChange::Left,
{
}

/// Whoever left a room, was kicked, was banned or lost the connection may still hold its key: the
/// chain of the conversation behind it dies, and only then. A join kills none.
pub proof fn law_a_departure_kills_the_rooms_chain(
    before: Signed,
    asked: Asks,
    event: RoomMemberEvent,
    after: Signed,
    left: Asks,
    out: Seq<Action>,
    c: Id,
)
    requires
        room_member_heard(before, asked, event, after, left, out),
        event.change is Some,
        event.change.unwrap() != MemberChange::Unknown,
    ensures
        ({
            let change = event.change.unwrap();
            out.contains(Action::RotateChain { conversation_id: c }) <==> (change
                == MemberChange::Left || change == MemberChange::Kicked || change
                == MemberChange::Banned || change == MemberChange::Disconnected)
                && before.room_conversations@.contains_key(event.room_id)
                && before.room_conversations@[event.room_id] == c
        }),
{
    let change = event.change.unwrap();
    let rotation = Action::RotateChain { conversation_id: c };
    let bell = if rings(before, asked, event) {
        seq![Action::Request(Request::RoomRoster { room_id: event.room_id, limit: 1 })]
    } else {
        Seq::empty()
    };
    if (change == MemberChange::Left || change == MemberChange::Kicked || change
        == MemberChange::Banned || change == MemberChange::Disconnected)
        && before.room_conversations@.contains_key(event.room_id)
        && before.room_conversations@[event.room_id] == c {
        assert(out[bell.len() as int] == rotation);
    }
    if out.contains(rotation) {
        let k = choose|k: int| 0 <= k < out.len() && out[k] == rotation;
        assert(out[k] is RotateChain);
    }
}

/// A member event of somebody else is told as it came, last, with what the room counts.
pub proof fn law_a_rooms_event_is_told_as_it_came(
    before: Signed,
    asked: Asks,
    event: RoomMemberEvent,
    after: Signed,
    left: Asks,
    out: Seq<Action>,
)
    requires
        room_member_heard(before, asked, event, after, left, out),
        event.user_id != before.account.account_id,
    ensures
        out.len() > 0,
        out.last() == Action::Emit(
            Event::RoomMember {
                room_id: event.room_id,
                user_id: event.user_id,
                change: change_of(event),
                member_count: event.member_count,
            },
        ),
        left == asked,
        after.rooms_watched == before.rooms_watched,
        after.room_conversations == before.room_conversations,
        after.held == before.held,
{
}

/// This account's own departure ends a room: the window hears which room and which conversation
/// ended, and whether it was this account's own wish; the bridge is written, the keys are forgotten,
/// and the list is read again.
pub proof fn law_an_own_departure_ends_the_room(
    before: Signed,
    asked: Asks,
    event: RoomMemberEvent,
    after: Signed,
    left: Asks,
    out: Seq<Action>,
)
    requires
        room_member_heard(before, asked, event, after, left, out),
        event.user_id == before.account.account_id,
        event.change == Some(MemberChange::Left) || event.change == Some(MemberChange::Kicked)
            || event.change == Some(MemberChange::Banned),
    ensures
        out.len() >= 3,
        out.last() matches Action::Request(request) && request is ConversationList,
        out[out.len() - 2] is Emit,
        out[out.len() - 2]->Emit_0 is RoomLeft,
        out[out.len() - 2]->Emit_0->RoomLeft_room_id == event.room_id,
        out[out.len() - 2]->Emit_0->RoomLeft_self_left <==> event.change == Some(
            MemberChange::Left,
        ),
        before.room_conversations@.contains_key(event.room_id) ==> {
            &&& out[out.len() - 2]->Emit_0->RoomLeft_conversation_id == Some(
                before.room_conversations@[event.room_id],
            )
            &&& out[out.len() - 4] == (Action::ForgetKeys {
                conversation_id: before.room_conversations@[event.room_id],
            })
        },
        !before.room_conversations@.contains_key(event.room_id) ==> out[out.len()
            - 2]->Emit_0->RoomLeft_conversation_id is None,
        out[out.len() - 3] == Action::SaveBridges,
        !after.rooms_watched@.contains(event.room_id),
        !after.room_conversations@.contains_key(event.room_id),
{
}

/// The membership of the conversation behind a room moves with the room's events: after a join it
/// names the account, after a departure it does not, and everybody else stays.
pub proof fn law_a_rooms_membership_moves_with_its_events(
    before: Signed,
    asked: Asks,
    event: RoomMemberEvent,
    after: Signed,
    left: Asks,
    out: Seq<Action>,
    member: Id,
)
    requires
        room_member_heard(before, asked, event, after, left, out),
        before.room_conversations@.contains_key(event.room_id),
        before.members@.contains_key(before.room_conversations@[event.room_id]),
        event.change is Some,
        event.change.unwrap() != MemberChange::Unknown,
        member != event.user_id,
    ensures
        ({
            let c = before.room_conversations@[event.room_id];
            let change = event.change.unwrap();
            &&& after.members@.contains_key(c)
            &&& after.members@[c].complete == before.members@[c].complete
            &&& change == MemberChange::Joined ==> after.members@[c].ids@.contains(event.user_id)
            &&& change == MemberChange::Left || change == MemberChange::Kicked || change
                == MemberChange::Banned ==> !after.members@[c].ids@.contains(event.user_id)
            &&& after.members@[c].ids@.contains(member) <==> before.members@[c].ids@.contains(
                member,
            )
        }),
{
    let c = before.room_conversations@[event.room_id];
    let was = caches(before.members@);
    let now = caches(after.members@);
    crate::members::law_a_change_moves_one_account(was[c].0, event.user_id, change_of(event));
    crate::members::law_a_departure_is_a_departure(was[c].0, event.user_id, member);
    assert(now.contains_key(c));
    assert(now[c] == (after.members@[c].ids@, after.members@[c].complete));
    assert(was[c] == (before.members@[c].ids@, before.members@[c].complete));
}

/// A bell is answered with a probe of its own room, exactly where it names this account joining a
/// room that this session does not know and no other probe is out.
pub proof fn law_a_bell_is_answered_with_a_probe(
    before: Signed,
    asked: Asks,
    event: RoomMemberEvent,
    after: Signed,
    left: Asks,
    out: Seq<Action>,
)
    requires
        room_member_heard(before, asked, event, after, left, out),
        event.change == Some(MemberChange::Joined),
    ensures
        ({
            let rung = event.user_id == before.account.account_id && !before.rooms_watched@.contains(
                event.room_id,
            ) && !before.room_conversations@.contains_key(event.room_id)
                && asked.pending_room_probe is None;
            &&& rung ==> left.pending_room_probe == Some(event.room_id) && out[0]
                == Action::Request(Request::RoomRoster { room_id: event.room_id, limit: 1 })
            &&& !rung ==> left == asked && forall|i: int|
                0 <= i < out.len() ==> !(#[trigger] out[i] matches Action::Request(
                    Request::RoomRoster { .. },
                ))
        }),
{
}

/// A room that is forgotten takes with it only itself and the conversation behind it.
pub proof fn law_only_the_left_room_is_forgotten(
    before: Signed,
    room_id: Id,
    after: Signed,
    other_room: Id,
    other: Id,
    device: Id,
)
    requires
        room_forgotten(before, room_id, after),
        other_room != room_id,
        !(before.room_conversations@.contains_key(room_id) && before.room_conversations@[room_id]
            == other),
    ensures
        after.rooms_watched@.contains(other_room) <==> before.rooms_watched@.contains(other_room),
        after.room_conversations@.contains_key(other_room)
            <==> before.room_conversations@.contains_key(other_room),
        before.room_conversations@.contains_key(other_room) ==> after.room_conversations@[other_room]
            == before.room_conversations@[other_room],
        after.conversations_watched@.contains(other) <==> before.conversations_watched@.contains(
            other,
        ),
        after.held.of(other, device) == before.held.of(other, device),
        after.account == before.account,
        after.members == before.members,
        after.devices == before.devices,
        after.e2e == before.e2e,
        !after.rooms_watched@.contains(room_id),
        !after.room_conversations@.contains_key(room_id),
{
}

/// A join that was accepted leads its room to its conversation, is kept over a restart, is told as
/// what it is, and the room is watched from then on; it is subscribed to exactly where it was not.
pub proof fn law_a_joined_room_is_bridged(
    before: Signed,
    room_id: Id,
    conversation_id: Id,
    title: String,
    after: Signed,
    out: Seq<Action>,
    other: Id,
)
    requires
        room_joined(before, room_id, conversation_id, title, after, out),
        other != room_id,
    ensures
        after.room_conversations@.contains_key(room_id),
        after.room_conversations@[room_id] == conversation_id,
        after.rooms_watched@.contains(room_id),
        after.members@.contains_key(conversation_id),
        !before.members@.contains_key(conversation_id) ==> !after.members@[conversation_id].complete
            && after.members@[conversation_id].ids@.len() == 0,
        before.members@.contains_key(conversation_id) ==> after.members@[conversation_id].ids@
            == before.members@[conversation_id].ids@ && after.members@[conversation_id].complete
            == before.members@[conversation_id].complete,
        after.room_conversations@.contains_key(other) <==> before.room_conversations@.contains_key(
            other,
        ),
        out[0] == Action::SaveBridges,
        out[1] == Action::Emit(Event::RoomJoined { conversation_id, room_id, title }),
        out.last() matches Action::Request(request) && request is ConversationList,
        !before.rooms_watched@.contains(room_id) ==> out.len() == 4 && (out[2] matches Action::Request(
            Request::Subscribe { kind, ids },
        ) && kind == TopicKind::Room && ids@ == seq![room_id]),
        before.rooms_watched@.contains(room_id) ==> out.len() == 3,
{
    let was = caches(before.members@);
    let now = caches(after.members@);
    assert(now.contains_key(conversation_id));
    assert(now[conversation_id] == (
        after.members@[conversation_id].ids@,
        after.members@[conversation_id].complete,
    ));
    if was.contains_key(conversation_id) {
        assert(was[conversation_id] == (
            before.members@[conversation_id].ids@,
            before.members@[conversation_id].complete,
        ));
    }
}

/// A leave that was acknowledged forgets the room it asked about and tells that it was this account's
/// own wish; a refused one spends its ask and changes nothing.
pub proof fn law_an_acknowledged_leave_forgets_the_room(
    before: Signed,
    asked: Asks,
    ok: bool,
    after: Signed,
    left: Asks,
    out: Seq<Action>,
)
    requires
        room_leave_answered(before, asked, ok, after, left, out),
    ensures
        left.pending_leave is None,
        left.pending_roster == asked.pending_roster,
        !ok || asked.pending_leave is None ==> after == before && out.len() == 0,
        ok && asked.pending_leave is Some ==> {
            let room_id = asked.pending_leave.unwrap();
            &&& room_forgotten(before, room_id, after)
            &&& out.len() >= 3
            &&& out[out.len() - 3] == Action::SaveBridges
            &&& out[out.len() - 2] is Emit
            &&& out[out.len() - 2]->Emit_0 is RoomLeft
            &&& out[out.len() - 2]->Emit_0->RoomLeft_room_id == room_id
            &&& out[out.len() - 2]->Emit_0->RoomLeft_self_left
            &&& before.room_conversations@.contains_key(room_id) ==> out[0]
                == (Action::ForgetKeys { conversation_id: before.room_conversations@[room_id] })
                && out[out.len() - 2]->Emit_0->RoomLeft_conversation_id == Some(
                before.room_conversations@[room_id],
            )
            &&& out.last() matches Action::Request(request) && request is ConversationList
        },
{
}

/// A room that answered its probe is joined, the very one that was probed; one that did not is not;
/// and either way the probe is spent.
pub proof fn law_a_probed_room_is_joined(
    asked: Asks,
    answered: bool,
    left: Asks,
    out: Seq<Action>,
)
    requires
        probe_answered(asked, answered, left, out),
    ensures
        left.pending_room_probe is None,
        left.pending_leave == asked.pending_leave,
        answered && asked.pending_room_probe is Some ==> out == seq![
            Action::Request(Request::RoomJoin { room_id: asked.pending_room_probe.unwrap() }),
        ],
        !answered || asked.pending_room_probe is None ==> out.len() == 0,
{
}

/// A row of the directory says of its room what the server lists: its name, how many are in it and
/// how many are there now, its category, and that it is verified only where the server says so. An
/// empty topic is none.
pub proof fn law_a_directory_row_is_its_rooms_own(room: RoomListing)
    ensures
        room_row(room).room_id == room.room_id,
        room_row(room).name == room.name,
        room_row(room).member_count == room.member_count,
        room_row(room).online_count == room.online_count,
        room_row(room).category == room.category,
        room_row(room).verified <==> room.verified == Some(true),
        room_row(room).topic is Some <==> room.topic is Some && room.topic.unwrap()@.len() > 0,
        room_row(room).topic is Some ==> room_row(room).topic == room.topic,
{
}

/// Rooms anyone may enter and rooms someone keeps are told apart by the numbers the server knows.
pub proof fn law_kinds_of_rooms_are_told_apart()
    ensures
        ROOM_KIND_OPEN == 1,
        ROOM_KIND_MANAGED == 2,
{
}

} // verus!
