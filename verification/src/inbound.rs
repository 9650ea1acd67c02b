//! What the server sends: one frame at a time, decoded.

use vstd::prelude::*;

use crate::asks::Asks;
use crate::conversations::{
    created_heard, list_heard, on_conversation_created, on_conversations, Summary,
};
use crate::economy::{
    alert_row, gift_actions, gift_row, ledger_row, on_alerts, on_gift_sent, on_gifts,
    on_kick_points_bought, on_ledger, on_people, pack_actions, person_row, Alert, Gift, LedgerEntry,
    Person,
};
use crate::effects::{
    list_request, toast, toasted, Action, BadgeRow, Event, LeaderRow, Notice, Progression,
    Relationship, Request, RosterMember, ToastKind,
};
use crate::gateway::{GatewayError, RefusalCode};
use crate::groups::{
    group_leave_answered, group_member_heard, on_conversation_member, on_group_left,
    on_group_renamed, on_group_vote_reply, on_roster, roster_read, vote_answered,
    ConversationMemberEvent,
};
use crate::link::Link;
use crate::media::{
    attachment_committed, avatar_committed, body_shows, commit_files, content_of, restore,
    restoring, send_kind, AttachmentCommit, Committed, Fetches, TicketFor, Uploads,
};
use crate::peers::{
    complaints, device_lists, devices_after, introductions, law_every_verified_device_is_filed,
    memory_of, observed, on_bundles, seen_after, Bundle,
};
use crate::people::{
    badges_read, board_read, friend_claim, graph_read, on_badges, on_friend_event, on_leaderboard,
    on_presence, on_profile_saved, on_profiles, on_progression, on_relationships, on_social_ack,
    profile_saved, profiles_read, progression_read, UserProfile,
};
use crate::rooms::{
    on_room_joined, on_room_left, on_room_member, on_room_probe, on_rooms, probe_answered,
    room_joined, room_leave_answered, room_member_heard, room_row, RoomListing, RoomMemberEvent,
};
use crate::sealing::Arrival;
use crate::sequence::{count_frame, counted};
use crate::signed::Signed;
use crate::sync::{PageKind, SyncView};
use crate::transcript::{
    event_routed, on_accepted, on_group_key_distribute, page_begins, route_event, Page,
};
use crate::wire::{EncryptionMode, Header, Id, Opcode, Presence, ReceiptKind, Timestamp};
use crate::worker::Worker;

verus! {

broadcast use vstd::std_specs::hash::group_hash_axioms;

/// What a frame carries, by the shape of what was decoded.
#[allow(inconsistent_fields)]
pub enum Payload {
    /// It could not be decoded, or carries nothing.
    Unread,
    Ping { client_time: Timestamp },
    Message(Arrival),
    Accepted { message_id: Id, conversation_id: Id, seq: u64 },
    Receipt { conversation_id: Id, user_id: Option<Id>, kind: ReceiptKind, seq: u64 },
    Typing { conversation_id: Id, user_id: Option<Id>, typing: bool },
    /// A page of history; its events are taken in one by one.
    Page { conversation_id: Id },
    /// A chain sealed for one device, and whether it was adopted here.
    Distribution { conversation_id: Id, from_device: Id, adopted: bool },
    Conversations(Vec<Summary>),
    Created { conversation_id: Id, members: Option<Vec<Id>>, encryption: EncryptionMode },
    Roster(Vec<RosterMember>),
    Member(ConversationMemberEvent),
    Acknowledged { ok: bool },
    Renamed { title: Option<String> },
    State { conversation_id: Id, title: Option<String> },
    Tally { votes: u32, needed: u32, member_count: u32, open: bool },
    Vote {
        conversation_id: Id,
        target_id: Id,
        votes: u32,
        needed: u32,
        member_count: u32,
        closed: Option<bool>,
    },
    Bundles(Vec<Bundle>),
    Profiles(Vec<UserProfile>),
    Profile(UserProfile),
    Graph(Vec<Relationship>),
    Friend { user_id: Id, state: String },
    Presence { user_id: Id, state: Presence },
    People(Vec<Person>),
    Rooms(Vec<RoomListing>),
    RoomJoined { room_id: Id, conversation_id: Id, title: String },
    RoomRoster,
    RoomMember(RoomMemberEvent),
    RoomState { room_id: Id, online_count: Option<u32>, member_count: Option<u32> },
    Alerts(Vec<Alert>),
    /// A cue that carries nothing to show.
    Pushed,
    Game {
        conversation_id: Id,
        game_id: Id,
        event: String,
        actor_id: Option<Id>,
        state_version: u64,
    },
    Balance { coins: u64, points: u64, kick_points: Option<u64> },
    Ledger(Vec<LedgerEntry>),
    Progression { account_id: Id, progression: Progression },
    Badges(Vec<BadgeRow>),
    Board(Vec<LeaderRow>),
    Entitlements(Vec<String>),
    Gifts(Vec<Gift>),
    GiftSent { ok: bool, duplicate: Option<bool> },
    PackBought { duplicate: bool },
    Ticket { upload_id: Id, upload_url: String },
    MediaUrl { url: String },
}

/// What a frame turned out to be.
pub enum Inbound {
    /// The server refused something.
    Refusal(GatewayError),
    Payload(Payload),
}

/// One frame, decoded.
pub struct Frame {
    pub header: Header,
    pub body: Inbound,
}

/// Which plane an opcode belongs to.
#[derive(Debug, Clone, Copy, PartialEq, Eq, Structural)]
pub enum Plane {
    /// Threads: what is said, and when it was read.
    Thread,
    /// Conversations and their members.
    Conversation,
    People,
    Room,
    Economy,
    Media,
    Call,
    /// Acknowledgements with nothing to show, and what this client did not negotiate.
    Nothing,
}

/// The plane of an opcode.
pub open spec fn plane(opcode: Opcode) -> Plane {
    match opcode {
        Opcode::Ping
        | Opcode::MessageEvent
        | Opcode::MessageSend
        | Opcode::MessageDelete
        | Opcode::MessageReceipt
        | Opcode::Sync
        | Opcode::Typing
        | Opcode::GroupKeyDistribute => Plane::Thread,
        Opcode::ConversationList
        | Opcode::ConversationCreate
        | Opcode::ConversationRoster
        | Opcode::ConversationMemberEvent
        | Opcode::ConversationLeave
        | Opcode::ConversationUpdate
        | Opcode::ConversationStateEvent
        | Opcode::ConversationVoteKick
        | Opcode::ConversationVoteEvent => Plane::Conversation,
        Opcode::KeyBundleFetch
        | Opcode::ProfileFetch
        | Opcode::ProfileUpdate
        | Opcode::RelationshipList
        | Opcode::FriendRequest
        | Opcode::FriendRespond
        | Opcode::BlockSet
        | Opcode::MuteSet
        | Opcode::FriendEvent
        | Opcode::PresenceEvent
        | Opcode::Search
        | Opcode::Suggestions => Plane::People,
        Opcode::RoomList
        | Opcode::RoomJoin
        | Opcode::RoomCreate
        | Opcode::RoomLeave
        | Opcode::RoomRoster
        | Opcode::RoomMemberEvent
        | Opcode::RoomStateEvent => Plane::Room,
        Opcode::NotificationList
        | Opcode::NotificationEvent
        | Opcode::GameEvent
        | Opcode::EconomyEvent
        | Opcode::BalanceFetch
        | Opcode::LedgerHistory
        | Opcode::Progression
        | Opcode::Badges
        | Opcode::Leaderboard
        | Opcode::Entitlements
        | Opcode::GiftCatalogue
        | Opcode::GiftSend
        | Opcode::KickPointsBuy => Plane::Economy,
        Opcode::MediaUploadBegin
        | Opcode::MediaUploadCommit
        | Opcode::MediaFetchUrl => Plane::Media,
        Opcode::CallInvite
        | Opcode::CallInviteEvent
        | Opcode::CallSdp
        | Opcode::CallIce
        | Opcode::CallStateEvent
        | Opcode::CallTurnFetch
        | Opcode::CallSfuEvent
        | Opcode::CallKeyUpdate => Plane::Call,
        _ => Plane::Nothing,
    }
}

/// The plane of an opcode.
pub fn plane_of(opcode: Opcode) -> (r: Plane)
    ensures
        r == plane(opcode),
{
    match opcode {
        Opcode::Ping
        | Opcode::MessageEvent
        | Opcode::MessageSend
        | Opcode::MessageDelete
        | Opcode::MessageReceipt
        | Opcode::Sync
        | Opcode::Typing
        | Opcode::GroupKeyDistribute => Plane::Thread,
        Opcode::ConversationList
        | Opcode::ConversationCreate
        | Opcode::ConversationRoster
        | Opcode::ConversationMemberEvent
        | Opcode::ConversationLeave
        | Opcode::ConversationUpdate
        | Opcode::ConversationStateEvent
        | Opcode::ConversationVoteKick
        | Opcode::ConversationVoteEvent => Plane::Conversation,
        Opcode::KeyBundleFetch
        | Opcode::ProfileFetch
        | Opcode::ProfileUpdate
        | Opcode::RelationshipList
        | Opcode::FriendRequest
        | Opcode::FriendRespond
        | Opcode::BlockSet
        | Opcode::MuteSet
        | Opcode::FriendEvent
        | Opcode::PresenceEvent
        | Opcode::Search
        | Opcode::Suggestions => Plane::People,
        Opcode::RoomList
        | Opcode::RoomJoin
        | Opcode::RoomCreate
        | Opcode::RoomLeave
        | Opcode::RoomRoster
        | Opcode::RoomMemberEvent
        | Opcode::RoomStateEvent => Plane::Room,
        Opcode::NotificationList
        | Opcode::NotificationEvent
        | Opcode::GameEvent
        | Opcode::EconomyEvent
        | Opcode::BalanceFetch
        | Opcode::LedgerHistory
        | Opcode::Progression
        | Opcode::Badges
        | Opcode::Leaderboard
        | Opcode::Entitlements
        | Opcode::GiftCatalogue
        | Opcode::GiftSend
        | Opcode::KickPointsBuy => Plane::Economy,
        Opcode::MediaUploadBegin
        | Opcode::MediaUploadCommit
        | Opcode::MediaFetchUrl => Plane::Media,
        Opcode::CallInvite
        | Opcode::CallInviteEvent
        | Opcode::CallSdp
        | Opcode::CallIce
        | Opcode::CallStateEvent
        | Opcode::CallTurnFetch
        | Opcode::CallSfuEvent
        | Opcode::CallKeyUpdate => Plane::Call,
        _ => Plane::Nothing,
    }
}

/// Whether nothing came of a frame.
pub open spec fn unmoved(before: Worker, after: Worker, out: Seq<Action>) -> bool {
    after == before && out.len() == 0
}

/// Whether a frame about a thread was taken in as it should be.
pub open spec fn thread_heard(
    before: Worker,
    signed: Signed,
    opcode: Opcode,
    correlation: u32,
    payload: Payload,
    now: Timestamp,
    after: Worker,
    out: Seq<Action>,
) -> bool {
    match (opcode, payload) {
        (Opcode::Ping, Payload::Ping { client_time }) => {
            &&& after == before
            &&& out =~= seq![
                Action::Answer(correlation, Request::Pong { client_time, server_time: now }),
            ]
        },
        (Opcode::MessageEvent, Payload::Message(arrival)) => {
            &&& after.signed matches Some(left) && event_routed(
                signed,
                before.sync@,
                arrival,
                left,
                after.sync@,
                out,
            )
            &&& after == (Worker { signed: after.signed, sync: after.sync, ..before })
        },
        (
            Opcode::MessageSend | Opcode::MessageDelete,
            Payload::Accepted { message_id, conversation_id, seq },
        ) => {
            &&& after == before
            &&& out =~= seq![Action::Emit(Event::Accepted { message_id, conversation_id, seq })]
        },
        (Opcode::MessageReceipt, Payload::Receipt { conversation_id, user_id, kind, seq }) => {
            &&& after == before
            &&& out =~= (match user_id {
                Some(user_id) if user_id != signed.account.account_id => seq![
                    Action::Emit(Event::Receipt { conversation_id, user_id, kind, seq }),
                ],
                _ => Seq::empty(),
            })
        },
        (Opcode::Typing, Payload::Typing { conversation_id, user_id, typing }) => {
            &&& after == before
            &&& out =~= (match user_id {
                Some(user_id) => seq![
                    Action::Emit(Event::Typing { conversation_id, user_id, typing }),
                ],
                None => Seq::empty(),
            })
        },
        (Opcode::Sync, Payload::Page { conversation_id }) => {
            &&& after == (Worker { sync: after.sync, ..before })
            &&& after.sync@ == (SyncView {
                sync_asks: before.sync@.sync_asks.remove(correlation),
                earlier_asks: before.sync@.earlier_asks.remove(correlation),
                ..before.sync@
            })
            &&& out.len() == 1
            &&& out[0] matches Action::TakePage(page) && page_opens(
                before.sync@,
                correlation,
                conversation_id,
                page,
            )
        },
        (Opcode::Sync, _) => {
            &&& after == (Worker { sync: after.sync, ..before })
            &&& after.sync@ == (SyncView {
                sync_asks: before.sync@.sync_asks.remove(correlation),
                ..before.sync@
            })
            &&& out.len() == 0
        },
        (
            Opcode::GroupKeyDistribute,
            Payload::Distribution { conversation_id, from_device, adopted },
        ) => {
            &&& after == before
            &&& out =~= (if adopted {
                seq![Action::Drain { conversation_id, sender_device: from_device }]
            } else {
                Seq::empty()
            })
        },
        _ => unmoved(before, after, out),
    }
}

/// Whether a page begins as its ask says.
pub open spec fn page_opens(
    sync: SyncView,
    correlation: u32,
    conversation_id: Id,
    page: Page,
) -> bool {
    &&& page.kind == (if sync.earlier_asks.contains_key(correlation) {
        PageKind::Earlier(sync.earlier_asks[correlation])
    } else {
        PageKind::Forward
    })
    &&& page.conversation_id == (match page.kind {
        PageKind::Earlier(asked) => asked,
        PageKind::Forward => conversation_id,
    })
    &&& page.before == sync.watermark(page.conversation_id)
    &&& page.messages@.len() == 0
    &&& page.gap is None
}

/// Whether a frame about a conversation was taken in as it should be.
pub open spec fn conversation_heard(
    before: Worker,
    signed: Signed,
    opcode: Opcode,
    payload: Payload,
    after: Worker,
    out: Seq<Action>,
) -> bool {
    match (opcode, payload) {
        (Opcode::ConversationList, Payload::Conversations(summaries)) => {
            &&& after.signed matches Some(left) && list_heard(
                signed,
                before.sync@,
                summaries@,
                left,
                after.sync@,
                out,
            )
            &&& after == (Worker { signed: after.signed, sync: after.sync, ..before })
        },
        (
            Opcode::ConversationCreate,
            Payload::Created { conversation_id, members, encryption },
        ) => {
            &&& after.signed matches Some(left) && created_heard(
                signed,
                conversation_id,
                members,
                encryption,
                left,
                out,
            )
            &&& after == (Worker { signed: after.signed, ..before })
        },
        (Opcode::ConversationRoster, Payload::Roster(entries)) => {
            &&& after.signed matches Some(left) && roster_read(
                signed,
                before.asks,
                entries,
                left,
                after.asks,
                out,
            )
            &&& after == (Worker { signed: after.signed, asks: after.asks, ..before })
        },
        (Opcode::ConversationMemberEvent, Payload::Member(event)) => {
            &&& after.signed matches Some(left) && group_member_heard(
                signed,
                before.asks,
                event,
                left,
                after.asks,
                out,
            )
            &&& after == (Worker { signed: after.signed, asks: after.asks, ..before })
        },
        (Opcode::ConversationLeave, Payload::Acknowledged { ok }) => {
            &&& after.signed matches Some(left) && group_leave_answered(
                signed,
                before.asks,
                ok,
                left,
                after.asks,
                out,
            )
            &&& after == (Worker { signed: after.signed, asks: after.asks, ..before })
        },
        (Opcode::ConversationUpdate, Payload::Renamed { title }) => {
            &&& after == before
            &&& out =~= (match title {
                Some(text) => seq![
                    toast(Notice::GroupRenamed { title: text }, ToastKind::Success),
                    list_request(),
                ],
                None => seq![list_request()],
            })
        },
        (Opcode::ConversationStateEvent, Payload::State { conversation_id, title }) => {
            &&& after == before
            &&& out =~= (match title {
                Some(title) => seq![Action::Emit(Event::GroupRenamed { conversation_id, title })],
                None => Seq::empty(),
            })
        },
        (Opcode::ConversationVoteKick, Payload::Tally { votes, needed, member_count, open }) => {
            &&& vote_answered(before.asks, votes, needed, member_count, open, after.asks, out)
            &&& after == (Worker { asks: after.asks, ..before })
        },
        (
            Opcode::ConversationVoteEvent,
            Payload::Vote { conversation_id, target_id, votes, needed, member_count, closed },
        ) => {
            &&& after == before
            &&& out =~= seq![
                Action::Emit(
                    Event::GroupVoteBroadcast {
                        conversation_id,
                        target_id,
                        votes,
                        needed,
                        member_count,
                        closed,
                    },
                ),
            ]
        },
        _ => unmoved(before, after, out),
    }
}

/// Whether some key bundles were taken in as they should be.
pub open spec fn bundles_heard(
    before: Worker,
    signed: Signed,
    bundles: Seq<Bundle>,
    after: Worker,
    out: Seq<Action>,
) -> bool {
    let me = signed.account.account_id;
    let shown = observed(bundles, me);
    let seen = memory_of(before.records.peers, me);
    &&& after.signed matches Some(left) && left == (Signed { devices: left.devices, ..signed })
        && device_lists(left.devices@) == devices_after(device_lists(signed.devices@), bundles)
    &&& after == (Worker { signed: after.signed, records: after.records, ..before })
    &&& after.records == (crate::account::Records { peers: after.records.peers, ..before.records })
    &&& memory_of(after.records.peers, me) == (match seen {
        Some(known) => Some(seen_after(known, shown)),
        None => None,
    })
    &&& seen is None ==> after.records.peers == before.records.peers
    &&& out =~= complaints(bundles) + introductions(seen, shown) + seq![Action::RetryGroupKeyAsk]
}

/// Whether a frame about people was taken in as it should be.
pub open spec fn people_heard(
    before: Worker,
    signed: Signed,
    opcode: Opcode,
    payload: Payload,
    after: Worker,
    out: Seq<Action>,
) -> bool {
    let me = signed.account.account_id;
    match (opcode, payload) {
        (Opcode::KeyBundleFetch, Payload::Bundles(bundles)) => bundles_heard(
            before,
            signed,
            bundles@,
            after,
            out,
        ),
        (Opcode::ProfileFetch, Payload::Profiles(profiles)) => {
            &&& profiles_read(before.asks, me, profiles@, after.asks, out)
            &&& after == (Worker { asks: after.asks, ..before })
        },
        (Opcode::ProfileUpdate, Payload::Profile(profile)) => {
            &&& profile_saved(me, profile, out)
            &&& after == before
        },
        (Opcode::RelationshipList, Payload::Graph(edges)) => {
            &&& after.signed matches Some(left) && graph_read(
                signed,
                before.asks,
                edges,
                left,
                after.asks,
                out,
            )
            &&& after == (Worker { signed: after.signed, asks: after.asks, ..before })
        },
        (
            Opcode::FriendRequest | Opcode::FriendRespond | Opcode::BlockSet | Opcode::MuteSet,
            Payload::Acknowledged { ok },
        ) => {
            &&& after == before
            &&& out =~= (if ok {
                seq![crate::effects::graph_request()]
            } else {
                Seq::empty()
            })
        },
        (Opcode::FriendEvent, Payload::Friend { user_id, state }) => {
            &&& after == before
            &&& out =~= seq![
                Action::Emit(Event::FriendChanged { user_id, accepted: friend_claim(state@) }),
            ]
        },
        (Opcode::PresenceEvent, Payload::Presence { user_id, state }) => {
            &&& after == before
            &&& out =~= (if state == Presence::Unknown {
                Seq::empty()
            } else {
                seq![Action::Emit(Event::PresenceChanged { user_id, state })]
            })
        },
        (Opcode::Search | Opcode::Suggestions, Payload::People(people)) => {
            &&& after == before
            &&& out.len() == 1
            &&& out[0] matches Action::Emit(Event::People(rows)) && rows@ == people@.map_values(
                |person: Person| person_row(person),
            )
        },
        _ => unmoved(before, after, out),
    }
}

/// Whether a frame about a room was taken in as it should be.
pub open spec fn room_heard(
    before: Worker,
    signed: Signed,
    opcode: Opcode,
    payload: Payload,
    after: Worker,
    out: Seq<Action>,
) -> bool {
    match (opcode, payload) {
        (Opcode::RoomList, Payload::Rooms(rooms)) => {
            &&& after == before
            &&& out.len() == 1
            &&& out[0] matches Action::Emit(Event::Rooms(rows)) && rows@ == rooms@.map_values(
                |room: RoomListing| room_row(room),
            )
        },
        (
            Opcode::RoomJoin | Opcode::RoomCreate,
            Payload::RoomJoined { room_id, conversation_id, title },
        ) => {
            &&& after.signed matches Some(left) && room_joined(
                signed,
                room_id,
                conversation_id,
                title,
                left,
                out,
            )
            &&& after == (Worker { signed: after.signed, ..before })
        },
        (Opcode::RoomLeave, Payload::Acknowledged { ok }) => {
            &&& after.signed matches Some(left) && room_leave_answered(
                signed,
                before.asks,
                ok,
                left,
                after.asks,
                out,
            )
            &&& after == (Worker { signed: after.signed, asks: after.asks, ..before })
        },
        (Opcode::RoomRoster, payload) => {
            &&& probe_answered(before.asks, payload is RoomRoster, after.asks, out)
            &&& after == (Worker { asks: after.asks, ..before })
        },
        (Opcode::RoomMemberEvent, Payload::RoomMember(event)) => {
            &&& after.signed matches Some(left) && room_member_heard(
                signed,
                before.asks,
                event,
                left,
                after.asks,
                out,
            )
            &&& after == (Worker { signed: after.signed, asks: after.asks, ..before })
        },
        (Opcode::RoomStateEvent, Payload::RoomState { room_id, online_count, member_count }) => {
            &&& after == before
            &&& out =~= seq![
                Action::Emit(Event::RoomState { room_id, online_count, member_count }),
            ]
        },
        _ => unmoved(before, after, out),
    }
}

/// Whether a frame about the economy or the inbox was taken in as it should be.
pub open spec fn economy_heard(
    before: Worker,
    signed: Signed,
    opcode: Opcode,
    payload: Payload,
    after: Worker,
    out: Seq<Action>,
) -> bool {
    let me = signed.account.account_id;
    match (opcode, payload) {
        (Opcode::NotificationList, Payload::Alerts(alerts)) => {
            &&& after == before
            &&& out.len() == 1
            &&& out[0] matches Action::Emit(Event::Alerts(rows)) && rows@ == alerts@.map_values(
                |alert: Alert| alert_row(alert),
            )
        },
        (Opcode::NotificationEvent, Payload::Pushed) => {
            &&& after == before
            &&& out =~= seq![Action::Emit(Event::AlertPushed)]
        },
        (
            Opcode::GameEvent,
            Payload::Game { conversation_id, game_id, event, actor_id, state_version },
        ) => {
            &&& after == before
            &&& out =~= seq![
                Action::Emit(
                    Event::GamePushed { conversation_id, game_id, event, actor_id, state_version },
                ),
            ]
        },
        (Opcode::EconomyEvent, Payload::Pushed) => {
            &&& after == before
            &&& out =~= seq![Action::Emit(Event::EconomyPushed)]
        },
        (Opcode::BalanceFetch, Payload::Balance { coins, points, kick_points }) => {
            &&& after == before
            &&& out =~= seq![Action::Emit(Event::Balance { coins, points, kick_points })]
        },
        (Opcode::LedgerHistory, Payload::Ledger(entries)) => {
            &&& after == before
            &&& out.len() == 1
            &&& out[0] matches Action::Emit(Event::Ledger(rows)) && rows@ == entries@.map_values(
                |entry: LedgerEntry| ledger_row(entry),
            )
        },
        (Opcode::Progression, Payload::Progression { account_id, progression }) => {
            &&& progression_read(before.asks, me, account_id, progression, after.asks, out)
            &&& after == (Worker { asks: after.asks, ..before })
        },
        (Opcode::Badges, Payload::Badges(badges)) => {
            &&& badges_read(before.asks, badges, after.asks, out)
            &&& after == (Worker { asks: after.asks, ..before })
        },
        (Opcode::Leaderboard, Payload::Board(ranks)) => {
            &&& board_read(before.asks, ranks, after.asks, out)
            &&& after == (Worker { asks: after.asks, ..before })
        },
        (Opcode::Entitlements, Payload::Entitlements(skus)) => {
            &&& after == before
            &&& out =~= seq![Action::Emit(Event::Entitlements(skus))]
        },
        (Opcode::GiftCatalogue, Payload::Gifts(gifts)) => {
            &&& after == before
            &&& out.len() == 1
            &&& out[0] matches Action::Emit(Event::Gifts(rows)) && rows@ == gifts@.map_values(
                |gift: Gift| gift_row(gift),
            )
        },
        (Opcode::GiftSend, Payload::GiftSent { ok, duplicate }) => {
            &&& after == before
            &&& out =~= gift_actions(me, ok, duplicate)
        },
        (Opcode::KickPointsBuy, Payload::PackBought { duplicate }) => {
            &&& after == before
            &&& out =~= pack_actions(me, duplicate)
        },
        _ => unmoved(before, after, out),
    }
}

/// Whether an attachment whose object exists goes out as it should: its draft is removed, its row
/// is shown as being sent, and its content goes through the send that every message takes.
pub open spec fn attachment_goes_out(
    before: Worker,
    signed: Signed,
    pending: AttachmentCommit,
    now: Timestamp,
    after: Worker,
    out: Seq<Action>,
) -> bool {
    let head = match pending.voice_note {
        Some(conversation_id) => seq![Action::ClearDraft { conversation_id }],
        None => Seq::empty(),
    };
    let n = head.len() as int;
    let content = content_of(pending.plan, pending.media_id);
    let c = pending.conversation_id;
    &&& after.signed matches Some(left) && left == (Signed { media_keys: left.media_keys, ..signed })
        && commit_files(signed.media_keys.keys@, pending, left.media_keys.keys@)
    &&& out.len() == n + 2
    &&& out.subrange(0, n) =~= head
    &&& out[n] matches Action::Emit(Event::Message(row)) && row.message_id == pending.message_id
        && row.conversation_id == c && row.seq == 0 && row.sender_id == signed.account.account_id
        && row.outgoing && body_shows(row.body, content) && row.sent_at == now && row.delivery
        == crate::content::Delivery::Sending && !row.deleted && !row.edited && row.expires_at
        == crate::content::deadline_of(now, pending.plan.expires_in_ms)
    &&& out[n + 1] == (Action::Send {
        conversation_id: c,
        content,
        outgoing: crate::effects::Outgoing::Message {
            message_id: pending.message_id,
            kind: send_kind(pending.plan.kind),
            expires_in_ms: pending.plan.expires_in_ms,
        },
    })
}

/// Whether a frame about an upload or a fetch was taken in as it should be. The correlation says
/// whose reply it is.
pub open spec fn media_heard(
    before: Worker,
    signed: Signed,
    opcode: Opcode,
    correlation: u32,
    payload: Payload,
    now: Timestamp,
    after: Worker,
    out: Seq<Action>,
) -> bool {
    match (opcode, payload) {
        (Opcode::MediaUploadBegin, Payload::Ticket { upload_id, upload_url }) => {
            &&& after == (Worker { uploads: after.uploads, ..before })
            &&& if before.uploads.attachment_begins@.contains_key(correlation) {
                &&& out =~= seq![
                    Action::PutAttachment {
                        upload_id,
                        url: upload_url,
                        begun: before.uploads.attachment_begins@[correlation],
                    },
                ]
                &&& after.uploads.attachment_begins@
                    == before.uploads.attachment_begins@.remove(correlation)
                &&& after.uploads == (Uploads {
                    attachment_begins: after.uploads.attachment_begins,
                    ..before.uploads
                })
            } else {
                &&& out =~= (match before.uploads.avatar_pending {
                    Some(pending) => seq![
                        Action::PutAvatar { upload_id, url: upload_url, pending },
                    ],
                    None => Seq::empty(),
                })
                &&& after.uploads.attachment_begins@ == before.uploads.attachment_begins@
                &&& after.uploads == (Uploads {
                    attachment_begins: after.uploads.attachment_begins,
                    avatar_pending: None,
                    ..before.uploads
                })
            }
        },
        (Opcode::MediaUploadCommit, _) => {
            &&& after == (Worker { signed: after.signed, uploads: after.uploads, ..before })
            &&& after.uploads.attachment_commits@ == before.uploads.attachment_commits@.remove(
                correlation,
            )
            &&& if before.uploads.attachment_commits@.contains_key(correlation) {
                &&& after.uploads == (Uploads {
                    attachment_commits: after.uploads.attachment_commits,
                    ..before.uploads
                })
                &&& attachment_goes_out(
                    before,
                    signed,
                    before.uploads.attachment_commits@[correlation],
                    now,
                    after,
                    out,
                )
            } else {
                &&& after.signed == Some(signed)
                &&& after.uploads == (Uploads {
                    attachment_commits: after.uploads.attachment_commits,
                    avatar_commit_pending: None,
                    ..before.uploads
                })
                &&& out =~= (match before.uploads.avatar_commit_pending {
                    Some(media_id) => seq![
                        Action::Request(
                            Request::ProfileUpdate {
                                patch: crate::effects::untouched(),
                                avatar_media_id: Some(media_id),
                            },
                        ),
                    ],
                    None => Seq::empty(),
                })
            }
        },
        (Opcode::MediaFetchUrl, Payload::MediaUrl { url }) => {
            &&& after == (Worker { fetches: after.fetches, ..before })
            &&& after.fetches.media_wants@ == before.fetches.media_wants@.remove(correlation)
            &&& after.fetches == (Fetches {
                media_wants: after.fetches.media_wants,
                ..before.fetches
            })
            &&& out =~= (if before.fetches.media_wants@.contains_key(correlation) {
                seq![Action::Download { url, want: before.fetches.media_wants@[correlation] }]
            } else {
                Seq::empty()
            })
        },
        _ => unmoved(before, after, out),
    }
}

/// Whether a frame that carries something was taken in as it should be.
pub open spec fn delivered(
    before: Worker,
    signed: Signed,
    opcode: Opcode,
    correlation: u32,
    payload: Payload,
    now: Timestamp,
    after: Worker,
    out: Seq<Action>,
) -> bool {
    match plane(opcode) {
        Plane::Thread => thread_heard(
            before,
            signed,
            opcode,
            correlation,
            payload,
            now,
            after,
            out,
        ),
        Plane::Conversation => conversation_heard(before, signed, opcode, payload, after, out),
        Plane::People => people_heard(before, signed, opcode, payload, after, out),
        Plane::Room => room_heard(before, signed, opcode, payload, after, out),
        Plane::Economy => economy_heard(before, signed, opcode, payload, after, out),
        Plane::Media => media_heard(
            before,
            signed,
            opcode,
            correlation,
            payload,
            now,
            after,
            out,
        ),
        Plane::Call => after == before && out =~= seq![Action::CallFrame],
        Plane::Nothing => unmoved(before, after, out),
    }
}

/// The state once a frame was counted.
pub open spec fn counting(worker: Worker, header: Header) -> Worker {
    Worker {
        link: Link { session: counted(worker.link.session, header), ..worker.link },
        ..worker
    }
}

/// Whether a refusal answers the probe of a room.
pub open spec fn answers_probe(header: Header) -> bool {
    header.operation matches Some((opcode, _)) && opcode == Opcode::RoomRoster
}

/// Whether a frame was taken in as it should be.
///
/// It is counted before anything else, whatever it is. A refusal retires the walk or the upload
/// that asked, and is told; a voice note whose upload it was goes back to its preview. One that
/// answers a room's probe spends the probe, quietly. An opcode this build does not know is nothing:
/// the server may be newer.
pub open spec fn heard(
    before: Worker,
    frame: Frame,
    now: Timestamp,
    after: Worker,
    out: Seq<Action>,
) -> bool {
    let middle = counting(before, frame.header);
    match frame.body {
        Inbound::Refusal(error) => if answers_probe(frame.header) {
            &&& out.len() == 0
            &&& after == (Worker {
                asks: Asks { pending_room_probe: None, ..before.asks },
                ..middle
            })
        } else {
            &&& after == (Worker { sync: after.sync, uploads: after.uploads, ..middle })
            &&& after.uploads == (Uploads {
                attachment_begins: after.uploads.attachment_begins,
                attachment_commits: after.uploads.attachment_commits,
                ..before.uploads
            })
            &&& after.uploads.attachment_begins@ == before.uploads.attachment_begins@.remove(
                frame.header.correlation,
            )
            &&& after.uploads.attachment_commits@ == before.uploads.attachment_commits@.remove(
                frame.header.correlation,
            )
            &&& after.sync@ == before.sync@.refused(
                frame.header.correlation,
                error.refuses_with(RefusalCode::SequenceGap),
            )
            &&& out =~= seq![out[0]] + restoring(
                before.uploads.note_of_ask(frame.header.correlation),
            )
            &&& out[0] matches Action::Emit(Event::Toast { notice: Notice::Said { text }, kind })
                && text@ == error.says() && kind == ToastKind::Error
        },
        Inbound::Payload(payload) => match (frame.header.operation, before.signed) {
            (Some((opcode, _)), Some(signed)) => delivered(
                middle,
                signed,
                opcode,
                frame.header.correlation,
                payload,
                now,
                after,
                out,
            ),
            _ => unmoved(middle, after, out),
        },
    }
}

impl Worker {
    fn me(&self) -> (me: Id)
        requires
            self.signed is Some,
        ensures
            me == self.signed.unwrap().account.account_id,
    {
        match &self.signed {
            Some(signed) => signed.account.account_id,
            None => 0,
        }
    }

    fn hear_thread(
        &mut self,
        opcode: Opcode,
        correlation: u32,
        payload: Payload,
        now: Timestamp,
    ) -> (out: Vec<Action>)
        requires
            old(self).wf(),
            old(self).signed is Some,
        ensures
            final(self).wf(),
            thread_heard(
                *old(self),
                old(self).signed.unwrap(),
                opcode,
                correlation,
                payload,
                now,
                *final(self),
                out@,
            ),
    {
        match (opcode, payload) {
            (Opcode::Ping, Payload::Ping { client_time }) => vec![
                Action::Answer(correlation, Request::Pong { client_time, server_time: now }),
            ],
            (Opcode::MessageEvent, Payload::Message(arrival)) => match &mut self.signed {
                Some(signed) => route_event(signed, &mut self.sync, arrival),
                None => Vec::new(),
            },
            (
                Opcode::MessageSend | Opcode::MessageDelete,
                Payload::Accepted { message_id, conversation_id, seq },
            ) => on_accepted(message_id, conversation_id, seq),
            (Opcode::MessageReceipt, Payload::Receipt { conversation_id, user_id, kind, seq }) => {
                match user_id {
                    Some(user_id) => {
                        if user_id == self.me() {
                            Vec::new()
                        } else {
                            vec![
                                Action::Emit(
                                    Event::Receipt { conversation_id, user_id, kind, seq },
                                ),
                            ]
                        }
                    },
                    None => Vec::new(),
                }
            },
            (Opcode::Typing, Payload::Typing { conversation_id, user_id, typing }) => {
                match user_id {
                    Some(user_id) => vec![
                        Action::Emit(Event::Typing { conversation_id, user_id, typing }),
                    ],
                    None => Vec::new(),
                }
            },
            (Opcode::Sync, Payload::Page { conversation_id }) => {
                let page: Page = page_begins(&mut self.sync, correlation, conversation_id);
                vec![Action::TakePage(page)]
            },
            (Opcode::Sync, _) => {
                self.sync.unread(correlation);
                Vec::new()
            },
            (
                Opcode::GroupKeyDistribute,
                Payload::Distribution { conversation_id, from_device, adopted },
            ) => on_group_key_distribute(conversation_id, from_device, adopted),
            _ => Vec::new(),
        }
    }

    fn hear_conversation(&mut self, opcode: Opcode, payload: Payload) -> (out: Vec<Action>)
        requires
            old(self).wf(),
            old(self).signed is Some,
        ensures
            final(self).wf(),
            conversation_heard(*old(self), old(self).signed.unwrap(), opcode, payload, *final(self), out@),
    {
        match (opcode, payload) {
            (Opcode::ConversationList, Payload::Conversations(summaries)) => match &mut self.signed {
                Some(signed) => on_conversations(signed, &mut self.sync, summaries),
                None => Vec::new(),
            },
            (
                Opcode::ConversationCreate,
                Payload::Created { conversation_id, members, encryption },
            ) => match &mut self.signed {
                Some(signed) => on_conversation_created(
                    signed,
                    conversation_id,
                    members,
                    encryption,
                ),
                None => Vec::new(),
            },
            (Opcode::ConversationRoster, Payload::Roster(entries)) => match &mut self.signed {
                Some(signed) => on_roster(signed, &mut self.asks, entries),
                None => Vec::new(),
            },
            (Opcode::ConversationMemberEvent, Payload::Member(event)) => match &mut self.signed {
                Some(signed) => on_conversation_member(signed, &mut self.asks, event),
                None => Vec::new(),
            },
            (Opcode::ConversationLeave, Payload::Acknowledged { ok }) => match &mut self.signed {
                Some(signed) => on_group_left(signed, &mut self.asks, ok),
                None => Vec::new(),
            },
            (Opcode::ConversationUpdate, Payload::Renamed { title }) => on_group_renamed(title),
            (Opcode::ConversationStateEvent, Payload::State { conversation_id, title }) => {
                match title {
                    Some(title) => vec![
                        Action::Emit(Event::GroupRenamed { conversation_id, title }),
                    ],
                    None => Vec::new(),
                }
            },
            (
                Opcode::ConversationVoteKick,
                Payload::Tally { votes, needed, member_count, open },
            ) => on_group_vote_reply(&mut self.asks, votes, needed, member_count, open),
            (
                Opcode::ConversationVoteEvent,
                Payload::Vote { conversation_id, target_id, votes, needed, member_count, closed },
            ) => vec![
                Action::Emit(
                    Event::GroupVoteBroadcast {
                        conversation_id,
                        target_id,
                        votes,
                        needed,
                        member_count,
                        closed,
                    },
                ),
            ],
            _ => Vec::new(),
        }
    }

    fn hear_people(&mut self, opcode: Opcode, payload: Payload) -> (out: Vec<Action>)
        requires
            old(self).wf(),
            old(self).signed is Some,
        ensures
            final(self).wf(),
            people_heard(*old(self), old(self).signed.unwrap(), opcode, payload, *final(self), out@),
    {
        let me: Id = self.me();
        match (opcode, payload) {
            (Opcode::KeyBundleFetch, Payload::Bundles(bundles)) => match &mut self.signed {
                Some(signed) => on_bundles(signed, &mut self.records.peers, bundles),
                None => Vec::new(),
            },
            (Opcode::ProfileFetch, Payload::Profiles(profiles)) => on_profiles(
                &mut self.asks,
                me,
                &profiles,
            ),
            (Opcode::ProfileUpdate, Payload::Profile(profile)) => on_profile_saved(me, &profile),
            (Opcode::RelationshipList, Payload::Graph(edges)) => match &mut self.signed {
                Some(signed) => on_relationships(signed, &mut self.asks, edges),
                None => Vec::new(),
            },
            (
                Opcode::FriendRequest | Opcode::FriendRespond | Opcode::BlockSet | Opcode::MuteSet,
                Payload::Acknowledged { ok },
            ) => on_social_ack(ok),
            (Opcode::FriendEvent, Payload::Friend { user_id, state }) => vec![
                on_friend_event(user_id, state.as_str()),
            ],
            (Opcode::PresenceEvent, Payload::Presence { user_id, state }) => on_presence(
                user_id,
                state,
            ),
            (Opcode::Search | Opcode::Suggestions, Payload::People(people)) => vec![
                Action::Emit(Event::People(on_people(people))),
            ],
            _ => Vec::new(),
        }
    }

    fn hear_room(&mut self, opcode: Opcode, payload: Payload) -> (out: Vec<Action>)
        requires
            old(self).wf(),
            old(self).signed is Some,
        ensures
            final(self).wf(),
            room_heard(*old(self), old(self).signed.unwrap(), opcode, payload, *final(self), out@),
    {
        match (opcode, payload) {
            (Opcode::RoomList, Payload::Rooms(rooms)) => vec![
                Action::Emit(Event::Rooms(on_rooms(rooms))),
            ],
            (
                Opcode::RoomJoin | Opcode::RoomCreate,
                Payload::RoomJoined { room_id, conversation_id, title },
            ) => match &mut self.signed {
                Some(signed) => on_room_joined(signed, room_id, conversation_id, title),
                None => Vec::new(),
            },
            (Opcode::RoomLeave, Payload::Acknowledged { ok }) => match &mut self.signed {
                Some(signed) => on_room_left(signed, &mut self.asks, ok),
                None => Vec::new(),
            },
            (Opcode::RoomRoster, payload) => {
                let answered: bool = match payload {
                    Payload::RoomRoster => true,
                    _ => false,
                };
                on_room_probe(&mut self.asks, answered)
            },
            (Opcode::RoomMemberEvent, Payload::RoomMember(event)) => match &mut self.signed {
                Some(signed) => on_room_member(signed, &mut self.asks, event),
                None => Vec::new(),
            },
            (
                Opcode::RoomStateEvent,
                Payload::RoomState { room_id, online_count, member_count },
            ) => vec![Action::Emit(Event::RoomState { room_id, online_count, member_count })],
            _ => Vec::new(),
        }
    }

    fn hear_economy(&mut self, opcode: Opcode, payload: Payload) -> (out: Vec<Action>)
        requires
            old(self).wf(),
            old(self).signed is Some,
        ensures
            final(self).wf(),
            economy_heard(*old(self), old(self).signed.unwrap(), opcode, payload, *final(self), out@),
    {
        let me: Id = self.me();
        match (opcode, payload) {
            (Opcode::NotificationList, Payload::Alerts(alerts)) => vec![
                Action::Emit(Event::Alerts(on_alerts(alerts))),
            ],
            (Opcode::NotificationEvent, Payload::Pushed) => vec![Action::Emit(Event::AlertPushed)],
            (
                Opcode::GameEvent,
                Payload::Game { conversation_id, game_id, event, actor_id, state_version },
            ) => vec![
                Action::Emit(
                    Event::GamePushed { conversation_id, game_id, event, actor_id, state_version },
                ),
            ],
            (Opcode::EconomyEvent, Payload::Pushed) => vec![Action::Emit(Event::EconomyPushed)],
            (Opcode::BalanceFetch, Payload::Balance { coins, points, kick_points }) => vec![
                Action::Emit(Event::Balance { coins, points, kick_points }),
            ],
            (Opcode::LedgerHistory, Payload::Ledger(entries)) => vec![
                Action::Emit(Event::Ledger(on_ledger(entries))),
            ],
            (Opcode::Progression, Payload::Progression { account_id, progression }) => {
                on_progression(&mut self.asks, me, account_id, progression)
            },
            (Opcode::Badges, Payload::Badges(badges)) => on_badges(&mut self.asks, badges),
            (Opcode::Leaderboard, Payload::Board(ranks)) => on_leaderboard(&mut self.asks, ranks),
            (Opcode::Entitlements, Payload::Entitlements(skus)) => vec![
                Action::Emit(Event::Entitlements(skus)),
            ],
            (Opcode::GiftCatalogue, Payload::Gifts(gifts)) => vec![
                Action::Emit(Event::Gifts(on_gifts(gifts))),
            ],
            (Opcode::GiftSend, Payload::GiftSent { ok, duplicate }) => on_gift_sent(
                me,
                ok,
                duplicate,
            ),
            (Opcode::KickPointsBuy, Payload::PackBought { duplicate }) => on_kick_points_bought(
                me,
                duplicate,
            ),
            _ => Vec::new(),
        }
    }

    fn attachment_committed(
        &mut self,
        pending: AttachmentCommit,
        now: Timestamp,
    ) -> (out: Vec<Action>)
        requires
            old(self).wf(),
            old(self).signed is Some,
        ensures
            final(self).wf(),
            attachment_goes_out(
                *old(self),
                old(self).signed.unwrap(),
                pending,
                now,
                *final(self),
                out@,
            ),
            *final(self) == (Worker { signed: final(self).signed, ..*old(self) }),
    {
        let conversation_id: Id = pending.conversation_id;
        let mut out: Vec<Action> = Vec::new();
        if let Some(conversation_id) = pending.voice_note {
            out.push(Action::ClearDraft { conversation_id });
        }
        let ghost head = out@;
        let mut signed: Signed = match self.signed.take() {
            Some(signed) => signed,
            None => {
                return out;
            },
        };
        let sender_id: Id = signed.account.account_id;
        let committed: Committed = attachment_committed(
            &mut signed.media_keys,
            pending,
            sender_id,
            now,
        );
        let Committed { row, content, outgoing }: Committed = committed;
        out.push(Action::Emit(Event::Message(row)));
        out.push(Action::Send { conversation_id, content, outgoing });
        self.signed = Some(signed);
        proof {
            assert(out@.subrange(0, head.len() as int) =~= head);
        }
        out
    }

    fn hear_media(
        &mut self,
        opcode: Opcode,
        correlation: u32,
        payload: Payload,
        now: Timestamp,
    ) -> (out: Vec<Action>)
        requires
            old(self).wf(),
            old(self).signed is Some,
        ensures
            final(self).wf(),
            media_heard(
                *old(self),
                old(self).signed.unwrap(),
                opcode,
                correlation,
                payload,
                now,
                *final(self),
                out@,
            ),
    {
        match (opcode, payload) {
            (Opcode::MediaUploadBegin, Payload::Ticket { upload_id, upload_url }) => {
                match self.uploads.ticket_arrived(correlation) {
                    TicketFor::Attachment(begun) => vec![
                        Action::PutAttachment { upload_id, url: upload_url, begun },
                    ],
                    TicketFor::Avatar(pending) => vec![
                        Action::PutAvatar { upload_id, url: upload_url, pending },
                    ],
                    TicketFor::Nobody => Vec::new(),
                }
            },
            (Opcode::MediaUploadCommit, _) => {
                match self.uploads.commit_acknowledged(correlation) {
                    Some(pending) => self.attachment_committed(pending, now),
                    None => avatar_committed(&mut self.uploads),
                }
            },
            (Opcode::MediaFetchUrl, Payload::MediaUrl { url }) => {
                match self.fetches.url_arrived(correlation) {
                    Some(want) => vec![Action::Download { url, want }],
                    None => Vec::new(),
                }
            },
            _ => Vec::new(),
        }
    }

    /// Takes in one frame.
    pub fn on_frame(&mut self, frame: Frame, now: Timestamp) -> (out: Vec<Action>)
        requires
            old(self).wf(),
        ensures
            final(self).wf(),
            heard(*old(self), frame, now, *final(self), out@),
    {
        count_frame(&mut self.link.session, &frame.header);
        let correlation: u32 = frame.header.correlation;
        let payload: Payload = match frame.body {
            Inbound::Refusal(error) => {
                if let Some((Opcode::RoomRoster, _)) = frame.header.operation {
                    self.asks.pending_room_probe = None;
                    return Vec::new();
                }
                self.sync.on_refusal(correlation, error.is_sequence_gap());
                let voice_note: Option<Id> = self.uploads.ask_refused(correlation);
                let mut out = vec![toasted(Notice::Said { text: error.message() }, ToastKind::Error)];
                let mut back = restore(voice_note);
                out.append(&mut back);
                return out;
            },
            Inbound::Payload(payload) => payload,
        };
        let opcode: Opcode = match frame.header.operation {
            Some((opcode, _)) => opcode,
            None => {
                return Vec::new();
            },
        };
        if self.signed.is_none() {
            return Vec::new();
        }
        match plane_of(opcode) {
            Plane::Thread => self.hear_thread(opcode, correlation, payload, now),
            Plane::Conversation => self.hear_conversation(opcode, payload),
            Plane::People => self.hear_people(opcode, payload),
            Plane::Room => self.hear_room(opcode, payload),
            Plane::Economy => self.hear_economy(opcode, payload),
            Plane::Media => self.hear_media(opcode, correlation, payload, now),
            Plane::Call => vec![Action::CallFrame],
            Plane::Nothing => Vec::new(),
        }
    }
}

/// An upload that the server refuses, at its beginning or at its commit, hands its voice note back
/// to the preview and leaves the draft where it is.
pub proof fn law_a_refused_upload_hands_its_note_back(
    before: Worker,
    frame: Frame,
    now: Timestamp,
    after: Worker,
    out: Seq<Action>,
    conversation_id: Id,
)
    requires
        heard(before, frame, now, after, out),
        frame.body is Refusal,
        !answers_probe(frame.header),
        before.uploads.note_of_ask(frame.header.correlation) == Some(conversation_id),
    ensures
        out.contains(Action::RestoreDraft { conversation_id }),
        forall|i: int| 0 <= i < out.len() ==> !(#[trigger] out[i] is ClearDraft),
        after.uploads.note_of_ask(frame.header.correlation) is None,
{
    assert(out[1] == (Action::RestoreDraft { conversation_id }));
}

/// Of the replies on an upload's way, only the acknowledgement of a commit removes a draft, and then
/// the draft of the very note whose object now exists.
pub proof fn law_a_draft_leaves_only_by_a_commit(
    before: Worker,
    signed: Signed,
    opcode: Opcode,
    correlation: u32,
    payload: Payload,
    now: Timestamp,
    after: Worker,
    out: Seq<Action>,
    i: int,
)
    requires
        media_heard(before, signed, opcode, correlation, payload, now, after, out),
        0 <= i < out.len(),
        out[i] is ClearDraft,
    ensures
        opcode == Opcode::MediaUploadCommit,
        before.uploads.attachment_commits@.contains_key(correlation),
        before.uploads.attachment_commits@[correlation].voice_note == Some(
            out[i]->ClearDraft_conversation_id,
        ),
{
    if opcode == Opcode::MediaUploadCommit
        && before.uploads.attachment_commits@.contains_key(correlation) {
        let pending = before.uploads.attachment_commits@[correlation];
        match pending.voice_note {
            Some(conversation_id) => {
                assert(out.subrange(0, 1)[0] == (Action::ClearDraft { conversation_id }));
            },
            None => {},
        }
    }
}

/// Whatever a frame is and whatever comes of it, it is counted exactly once: what the next resume asks
/// for never depends on how a frame was dispatched.
pub proof fn law_every_frame_is_counted(
    before: Worker,
    frame: Frame,
    now: Timestamp,
    after: Worker,
    out: Seq<Action>,
)
    requires
        heard(before, frame, now, after, out),
    ensures
        after.link.session == counted(before.link.session, frame.header),
        after.link.online == before.link.online,
        after.link.retry == before.link.retry,
        after.link.heartbeat == before.link.heartbeat,
{
}

/// No frame signs anybody in or out: the account that is signed in, and its token, stay what they
/// are.
pub proof fn law_no_frame_changes_the_account(
    before: Worker,
    frame: Frame,
    now: Timestamp,
    after: Worker,
    out: Seq<Action>,
)
    requires
        heard(before, frame, now, after, out),
    ensures
        before.signed is None <==> after.signed is None,
        before.signed matches Some(signed) ==> (after.signed matches Some(left) && left.account
            == signed.account && left.access_token == signed.access_token),
{
}

/// What a frame about a thread does. A ping is answered under its own correlation with its own time.
/// An acceptance is told under its message. A receipt is told of whom it came from, unless that is
/// this account. A chain that was adopted opens what was held of its sender. A page is taken in.
pub proof fn law_what_a_thread_frame_does(
    before: Worker,
    signed: Signed,
    header: Header,
    opcode: Opcode,
    payload: Payload,
    now: Timestamp,
    after: Worker,
    out: Seq<Action>,
)
    requires
        before.signed == Some(signed),
        header.operation is Some,
        header.operation.unwrap().0 == opcode,
        heard(before, Frame { header, body: Inbound::Payload(payload) }, now, after, out),
    ensures
        opcode == Opcode::Ping && payload is Ping ==> out == seq![
            Action::Answer(
                header.correlation,
                Request::Pong { client_time: payload->Ping_client_time, server_time: now },
            ),
        ],
        (opcode == Opcode::MessageSend || opcode == Opcode::MessageDelete) && payload is Accepted
            ==> out == seq![
            Action::Emit(
                Event::Accepted {
                    message_id: payload->Accepted_message_id,
                    conversation_id: payload->Accepted_conversation_id,
                    seq: payload->Accepted_seq,
                },
            ),
        ],
        opcode == Opcode::MessageReceipt && payload is Receipt ==> {
            let told = payload->Receipt_user_id is Some && payload->Receipt_user_id.unwrap()
                != signed.account.account_id;
            &&& told ==> out == seq![
                Action::Emit(
                    Event::Receipt {
                        conversation_id: payload->Receipt_conversation_id,
                        user_id: payload->Receipt_user_id.unwrap(),
                        kind: payload->Receipt_kind,
                        seq: payload->Receipt_seq,
                    },
                ),
            ]
            &&& !told ==> out.len() == 0
        },
        opcode == Opcode::Typing && payload is Typing && payload->Typing_user_id is Some ==> out
            == seq![
            Action::Emit(
                Event::Typing {
                    conversation_id: payload->Typing_conversation_id,
                    user_id: payload->Typing_user_id.unwrap(),
                    typing: payload->Typing_typing,
                },
            ),
        ],
        opcode == Opcode::GroupKeyDistribute && payload is Distribution ==> {
            &&& payload->Distribution_adopted ==> out == seq![
                Action::Drain {
                    conversation_id: payload->Distribution_conversation_id,
                    sender_device: payload->Distribution_from_device,
                },
            ]
            &&& !payload->Distribution_adopted ==> out.len() == 0
        },
        opcode == Opcode::MessageEvent && payload is Message ==> after.signed is Some
            && event_routed(
            signed,
            before.sync@,
            payload->Message_0,
            after.signed.unwrap(),
            after.sync@,
            out,
        ),
        opcode == Opcode::Ping || opcode == Opcode::MessageSend || opcode == Opcode::MessageDelete
            || opcode == Opcode::MessageReceipt || opcode == Opcode::Typing || opcode
            == Opcode::GroupKeyDistribute ==> after.signed == before.signed && after.asks
            == before.asks && after.sync == before.sync && after.uploads == before.uploads,
{
}

/// A page of history goes to the thread that asked: a backwards one by its own correlation, whatever
/// conversation it names; any other to the conversation it names. Its ask is settled, and no other.
pub proof fn law_a_page_goes_to_its_own_thread(
    before: Worker,
    signed: Signed,
    header: Header,
    conversation_id: Id,
    now: Timestamp,
    after: Worker,
    out: Seq<Action>,
    other: u32,
)
    requires
        before.signed == Some(signed),
        header.operation is Some,
        header.operation.unwrap().0 == Opcode::Sync,
        heard(
            before,
            Frame { header, body: Inbound::Payload(Payload::Page { conversation_id }) },
            now,
            after,
            out,
        ),
        other != header.correlation,
    ensures
        out.len() == 1,
        out[0] is TakePage,
        ({
            let page = out[0]->TakePage_0;
            &&& before.sync@.earlier_asks.contains_key(header.correlation) ==> {
                &&& page.conversation_id == before.sync@.earlier_asks[header.correlation]
                &&& page.kind == PageKind::Earlier(page.conversation_id)
            }
            &&& !before.sync@.earlier_asks.contains_key(header.correlation) ==> {
                &&& page.conversation_id == conversation_id
                &&& page.kind == PageKind::Forward
            }
            &&& page.before == before.sync@.watermark(page.conversation_id)
            &&& page.messages@.len() == 0
            &&& page.gap is None
        }),
        !after.sync@.sync_asks.contains_key(header.correlation),
        !after.sync@.earlier_asks.contains_key(header.correlation),
        after.sync@.sync_asks.contains_key(other) <==> before.sync@.sync_asks.contains_key(other),
        after.sync@.earlier_asks.contains_key(other) <==> before.sync@.earlier_asks.contains_key(
            other,
        ),
        after.sync@.sequences == before.sync@.sequences,
        after.sync@.catchups == before.sync@.catchups,
{
}

/// What a frame about a conversation does: each is taken in as what it is, against the account that
/// is signed in; a rename is told with its title and the list read again; a vote is told as counted.
pub proof fn law_what_a_conversation_frame_does(
    before: Worker,
    signed: Signed,
    header: Header,
    opcode: Opcode,
    payload: Payload,
    now: Timestamp,
    after: Worker,
    out: Seq<Action>,
)
    requires
        before.signed == Some(signed),
        header.operation is Some,
        header.operation.unwrap().0 == opcode,
        heard(before, Frame { header, body: Inbound::Payload(payload) }, now, after, out),
    ensures
        opcode == Opcode::ConversationList && payload is Conversations ==> after.signed is Some
            && list_heard(
            signed,
            before.sync@,
            payload->Conversations_0@,
            after.signed.unwrap(),
            after.sync@,
            out,
        ),
        opcode == Opcode::ConversationCreate && payload is Created ==> after.signed is Some
            && created_heard(
            signed,
            payload->Created_conversation_id,
            payload->Created_members,
            payload->Created_encryption,
            after.signed.unwrap(),
            out,
        ),
        opcode == Opcode::ConversationRoster && payload is Roster ==> after.signed is Some
            && roster_read(
            signed,
            before.asks,
            payload->Roster_0,
            after.signed.unwrap(),
            after.asks,
            out,
        ),
        opcode == Opcode::ConversationMemberEvent && payload is Member ==> after.signed is Some
            && group_member_heard(
            signed,
            before.asks,
            payload->Member_0,
            after.signed.unwrap(),
            after.asks,
            out,
        ),
        opcode == Opcode::ConversationLeave && payload is Acknowledged ==> after.signed is Some
            && group_leave_answered(
            signed,
            before.asks,
            payload->Acknowledged_ok,
            after.signed.unwrap(),
            after.asks,
            out,
        ),
        opcode == Opcode::ConversationUpdate && payload is Renamed ==> {
            &&& out.len() > 0
            &&& out.last() matches Action::Request(request) && request is ConversationList
            &&& payload->Renamed_title is Some ==> out.len() == 2 && (out[0] matches Action::Emit(
                Event::Toast { notice, kind },
            ) && notice == (Notice::GroupRenamed { title: payload->Renamed_title.unwrap() }) && kind
                == ToastKind::Success)
            &&& payload->Renamed_title is None ==> out.len() == 1
        },
        opcode == Opcode::ConversationStateEvent && payload is State ==> {
            &&& payload->State_title is Some ==> out == seq![
                Action::Emit(
                    Event::GroupRenamed {
                        conversation_id: payload->State_conversation_id,
                        title: payload->State_title.unwrap(),
                    },
                ),
            ]
            &&& payload->State_title is None ==> out.len() == 0
        },
        opcode == Opcode::ConversationVoteKick && payload is Tally ==> vote_answered(
            before.asks,
            payload->Tally_votes,
            payload->Tally_needed,
            payload->Tally_member_count,
            payload->Tally_open,
            after.asks,
            out,
        ),
        opcode == Opcode::ConversationVoteEvent && payload is Vote ==> out == seq![
            Action::Emit(
                Event::GroupVoteBroadcast {
                    conversation_id: payload->Vote_conversation_id,
                    target_id: payload->Vote_target_id,
                    votes: payload->Vote_votes,
                    needed: payload->Vote_needed,
                    member_count: payload->Vote_member_count,
                    closed: payload->Vote_closed,
                },
            ),
        ],
{
}

/// What a frame about people does: key bundles are filed and introduced, profiles named, the graph
/// told, and a change that took has the graph read again. A presence is told of its own account where
/// it was observed.
pub proof fn law_what_a_people_frame_does(
    before: Worker,
    signed: Signed,
    header: Header,
    opcode: Opcode,
    payload: Payload,
    now: Timestamp,
    after: Worker,
    out: Seq<Action>,
)
    requires
        before.signed == Some(signed),
        header.operation is Some,
        header.operation.unwrap().0 == opcode,
        heard(before, Frame { header, body: Inbound::Payload(payload) }, now, after, out),
    ensures
        opcode == Opcode::KeyBundleFetch && payload is Bundles ==> {
            &&& after.signed is Some
            &&& out.len() > 0
            &&& out.last() == Action::RetryGroupKeyAsk
            &&& device_lists(after.signed.unwrap().devices@) == devices_after(
                device_lists(signed.devices@),
                payload->Bundles_0@,
            )
        },
        opcode == Opcode::ProfileFetch && payload is Profiles ==> profiles_read(
            before.asks,
            signed.account.account_id,
            payload->Profiles_0@,
            after.asks,
            out,
        ),
        opcode == Opcode::ProfileUpdate && payload is Profile ==> profile_saved(
            signed.account.account_id,
            payload->Profile_0,
            out,
        ),
        opcode == Opcode::RelationshipList && payload is Graph ==> after.signed is Some
            && graph_read(
            signed,
            before.asks,
            payload->Graph_0,
            after.signed.unwrap(),
            after.asks,
            out,
        ),
        (opcode == Opcode::FriendRequest || opcode == Opcode::FriendRespond || opcode
            == Opcode::BlockSet || opcode == Opcode::MuteSet) && payload is Acknowledged ==> {
            &&& payload->Acknowledged_ok ==> out.len() == 1 && (out[0] matches Action::Request(
                request,
            ) && request is RelationshipList)
            &&& !payload->Acknowledged_ok ==> out.len() == 0
        },
        opcode == Opcode::FriendEvent && payload is Friend ==> out.len() == 1 && (
        out[0] matches Action::Emit(Event::FriendChanged { user_id, accepted }) && user_id
            == payload->Friend_user_id && accepted == friend_claim(payload->Friend_state@)),
        opcode == Opcode::PresenceEvent && payload is Presence ==> {
            &&& payload->Presence_state != Presence::Unknown ==> out == seq![
                Action::Emit(
                    Event::PresenceChanged {
                        user_id: payload->Presence_user_id,
                        state: payload->Presence_state,
                    },
                ),
            ]
            &&& payload->Presence_state == Presence::Unknown ==> out.len() == 0
        },
        (opcode == Opcode::Search || opcode == Opcode::Suggestions) && payload is People
            ==> out.len() == 1 && (out[0] matches Action::Emit(Event::People(rows)) && rows@.len()
            == payload->People_0@.len() && forall|i: int|
            0 <= i < rows@.len() ==> (#[trigger] rows@[i]).account_id
                == payload->People_0@[i].account_id),
{
}

/// What a frame about a room does: the directory is told, a join bridged, a leave answered, a probe
/// spent, an event of a member heard, and a count told of its own room.
pub proof fn law_what_a_room_frame_does(
    before: Worker,
    signed: Signed,
    header: Header,
    opcode: Opcode,
    payload: Payload,
    now: Timestamp,
    after: Worker,
    out: Seq<Action>,
)
    requires
        before.signed == Some(signed),
        header.operation is Some,
        header.operation.unwrap().0 == opcode,
        heard(before, Frame { header, body: Inbound::Payload(payload) }, now, after, out),
    ensures
        opcode == Opcode::RoomList && payload is Rooms ==> out.len() == 1 && (
        out[0] matches Action::Emit(Event::Rooms(rows)) && rows@.len() == payload->Rooms_0@.len()
            && forall|i: int|
            0 <= i < rows@.len() ==> (#[trigger] rows@[i]).room_id
                == payload->Rooms_0@[i].room_id),
        (opcode == Opcode::RoomJoin || opcode == Opcode::RoomCreate) && payload is RoomJoined
            ==> after.signed is Some && room_joined(
            signed,
            payload->RoomJoined_room_id,
            payload->RoomJoined_conversation_id,
            payload->RoomJoined_title,
            after.signed.unwrap(),
            out,
        ),
        opcode == Opcode::RoomLeave && payload is Acknowledged ==> after.signed is Some
            && room_leave_answered(
            signed,
            before.asks,
            payload->Acknowledged_ok,
            after.signed.unwrap(),
            after.asks,
            out,
        ),
        opcode == Opcode::RoomRoster ==> probe_answered(
            before.asks,
            payload is RoomRoster,
            after.asks,
            out,
        ),
        opcode == Opcode::RoomMemberEvent && payload is RoomMember ==> after.signed is Some
            && room_member_heard(
            signed,
            before.asks,
            payload->RoomMember_0,
            after.signed.unwrap(),
            after.asks,
            out,
        ),
        opcode == Opcode::RoomStateEvent && payload is RoomState ==> out == seq![
            Action::Emit(
                Event::RoomState {
                    room_id: payload->RoomState_room_id,
                    online_count: payload->RoomState_online_count,
                    member_count: payload->RoomState_member_count,
                },
            ),
        ],
{
}

/// What a frame about the economy or the inbox does: what the server counts is told as it counts it,
/// and a cue as a cue.
pub proof fn law_what_an_economy_frame_does(
    before: Worker,
    signed: Signed,
    header: Header,
    opcode: Opcode,
    payload: Payload,
    now: Timestamp,
    after: Worker,
    out: Seq<Action>,
)
    requires
        before.signed == Some(signed),
        header.operation is Some,
        header.operation.unwrap().0 == opcode,
        heard(before, Frame { header, body: Inbound::Payload(payload) }, now, after, out),
    ensures
        opcode == Opcode::NotificationList && payload is Alerts ==> out.len() == 1 && (
        out[0] matches Action::Emit(Event::Alerts(rows)) && rows@.len() == payload->Alerts_0@.len()
            && forall|i: int|
            0 <= i < rows@.len() ==> (#[trigger] rows@[i]).id == payload->Alerts_0@[i].id),
        opcode == Opcode::NotificationEvent && payload is Pushed ==> out == seq![
            Action::Emit(Event::AlertPushed),
        ],
        opcode == Opcode::EconomyEvent && payload is Pushed ==> out == seq![
            Action::Emit(Event::EconomyPushed),
        ],
        opcode == Opcode::GameEvent && payload is Game ==> out == seq![
            Action::Emit(
                Event::GamePushed {
                    conversation_id: payload->Game_conversation_id,
                    game_id: payload->Game_game_id,
                    event: payload->Game_event,
                    actor_id: payload->Game_actor_id,
                    state_version: payload->Game_state_version,
                },
            ),
        ],
        opcode == Opcode::BalanceFetch && payload is Balance ==> out == seq![
            Action::Emit(
                Event::Balance {
                    coins: payload->Balance_coins,
                    points: payload->Balance_points,
                    kick_points: payload->Balance_kick_points,
                },
            ),
        ],
        opcode == Opcode::LedgerHistory && payload is Ledger ==> out.len() == 1 && (
        out[0] matches Action::Emit(Event::Ledger(rows)) && rows@.len() == payload->Ledger_0@.len()
            && forall|i: int|
            0 <= i < rows@.len() ==> (#[trigger] rows@[i]).amount == payload->Ledger_0@[i].amount
                && rows@[i].credit == payload->Ledger_0@[i].credit),
        opcode == Opcode::Progression && payload is Progression ==> progression_read(
            before.asks,
            signed.account.account_id,
            payload->Progression_account_id,
            payload->Progression_progression,
            after.asks,
            out,
        ),
        opcode == Opcode::Badges && payload is Badges ==> badges_read(
            before.asks,
            payload->Badges_0,
            after.asks,
            out,
        ),
        opcode == Opcode::Leaderboard && payload is Board ==> board_read(
            before.asks,
            payload->Board_0,
            after.asks,
            out,
        ),
        opcode == Opcode::Entitlements && payload is Entitlements ==> out == seq![
            Action::Emit(Event::Entitlements(payload->Entitlements_0)),
        ],
        opcode == Opcode::GiftCatalogue && payload is Gifts ==> out.len() == 1 && (
        out[0] matches Action::Emit(Event::Gifts(rows)) && rows@.len() == payload->Gifts_0@.len()
            && forall|i: int|
            0 <= i < rows@.len() ==> (#[trigger] rows@[i]).sku == payload->Gifts_0@[i].sku
                && rows@[i].price == payload->Gifts_0@[i].price),
        opcode == Opcode::GiftSend && payload is GiftSent ==> out == gift_actions(
            signed.account.account_id,
            payload->GiftSent_ok,
            payload->GiftSent_duplicate,
        ),
        opcode == Opcode::KickPointsBuy && payload is PackBought ==> out == pack_actions(
            signed.account.account_id,
            payload->PackBought_duplicate,
        ),
{
}

/// What a frame about an upload or a fetch does. A ticket has the bytes of the very attachment whose
/// correlation it carries put to its address; without one it is the avatar's. An address has the very
/// object fetched that was asked for under its correlation.
pub proof fn law_a_media_reply_answers_its_own_ask(
    before: Worker,
    signed: Signed,
    header: Header,
    opcode: Opcode,
    payload: Payload,
    now: Timestamp,
    after: Worker,
    out: Seq<Action>,
)
    requires
        before.signed == Some(signed),
        header.operation is Some,
        header.operation.unwrap().0 == opcode,
        heard(before, Frame { header, body: Inbound::Payload(payload) }, now, after, out),
    ensures
        opcode == Opcode::MediaUploadBegin && payload is Ticket ==> {
            &&& before.uploads.attachment_begins@.contains_key(header.correlation) ==> {
                &&& out == seq![
                    Action::PutAttachment {
                        upload_id: payload->Ticket_upload_id,
                        url: payload->Ticket_upload_url,
                        begun: before.uploads.attachment_begins@[header.correlation],
                    },
                ]
                &&& !after.uploads.attachment_begins@.contains_key(header.correlation)
                &&& after.uploads.avatar_pending == before.uploads.avatar_pending
            }
            &&& !before.uploads.attachment_begins@.contains_key(header.correlation) ==> {
                &&& before.uploads.avatar_pending is Some ==> out == seq![
                    Action::PutAvatar {
                        upload_id: payload->Ticket_upload_id,
                        url: payload->Ticket_upload_url,
                        pending: before.uploads.avatar_pending.unwrap(),
                    },
                ]
                &&& before.uploads.avatar_pending is None ==> out.len() == 0
                &&& after.uploads.avatar_pending is None
            }
        },
        opcode == Opcode::MediaFetchUrl && payload is MediaUrl ==> {
            &&& before.fetches.media_wants@.contains_key(header.correlation) ==> out == seq![
                Action::Download {
                    url: payload->MediaUrl_url,
                    want: before.fetches.media_wants@[header.correlation],
                },
            ]
            &&& !before.fetches.media_wants@.contains_key(header.correlation) ==> out.len() == 0
            &&& !after.fetches.media_wants@.contains_key(header.correlation)
        },
        opcode == Opcode::MediaUploadCommit && !before.uploads.attachment_commits@.contains_key(
            header.correlation,
        ) ==> {
            &&& before.uploads.avatar_commit_pending is Some ==> out.len() == 1 && (
            out[0] matches Action::Request(Request::ProfileUpdate { avatar_media_id, .. })
                && avatar_media_id == before.uploads.avatar_commit_pending)
            &&& before.uploads.avatar_commit_pending is None ==> out.len() == 0
        },
{
}

/// A committed attachment's message goes out: its row is shown at once, as this account's own, being
/// sent, of the object that was committed; and what is sealed references that object under the slots
/// its bytes were sealed with, in its own conversation, under its row's id.
pub proof fn law_a_committed_attachment_goes_out(
    before: Worker,
    signed: Signed,
    header: Header,
    payload: Payload,
    now: Timestamp,
    after: Worker,
    out: Seq<Action>,
)
    requires
        before.signed == Some(signed),
        header.operation is Some,
        header.operation.unwrap().0 == Opcode::MediaUploadCommit,
        before.uploads.attachment_commits@.contains_key(header.correlation),
        heard(before, Frame { header, body: Inbound::Payload(payload) }, now, after, out),
    ensures
        ({
            let pending = before.uploads.attachment_commits@[header.correlation];
            let send = out.last();
            let shown = out[out.len() - 2];
            &&& out.len() == (if pending.voice_note is Some { 3int } else { 2 })
            &&& pending.voice_note is Some ==> out[0] == (Action::ClearDraft {
                conversation_id: pending.voice_note.unwrap(),
            })
            &&& shown is Emit
            &&& shown->Emit_0 is Message
            &&& ({
                let row = shown->Emit_0->Message_0;
                &&& row.message_id == pending.message_id
                &&& row.conversation_id == pending.conversation_id
                &&& row.sender_id == signed.account.account_id
                &&& row.outgoing
                &&& row.sent_at == now
                &&& row.delivery == crate::content::Delivery::Sending
                &&& match row.body {
                    crate::content::Body::Media { media_id, .. } => media_id == pending.media_id,
                    crate::content::Body::VoiceNote { media_id, .. } => media_id
                        == pending.media_id,
                    _ => false,
                }
            })
            &&& send is Send
            &&& send->Send_conversation_id == pending.conversation_id
            &&& send->Send_outgoing is Message
            &&& send->Send_outgoing->Message_message_id == pending.message_id
            &&& send->Send_outgoing->Message_expires_in_ms == pending.plan.expires_in_ms
            &&& match send->Send_content {
                crate::content::Content::MediaRef { media_id, key, nonce, mime_type, .. } => {
                    &&& media_id == pending.media_id
                    &&& key@ == pending.plan.key@
                    &&& nonce@ == pending.plan.nonce@
                    &&& mime_type@ == pending.plan.mime_type@
                },
                crate::content::Content::VoiceNoteRef { media_id, key, nonce, mime_type, .. } => {
                    &&& media_id == pending.media_id
                    &&& key@ == pending.plan.key@
                    &&& nonce@ == pending.plan.nonce@
                    &&& mime_type@ == pending.plan.mime_type@
                },
                _ => false,
            }
            &&& !after.uploads.attachment_commits@.contains_key(header.correlation)
        }),
{
    let pending = before.uploads.attachment_commits@[header.correlation];
    match pending.voice_note {
        Some(conversation_id) => {
            assert(out.subrange(0, 1)[0] == (Action::ClearDraft { conversation_id }));
        },
        None => {},
    }
}

/// A refusal that is not a probe's is told in the server's own words, first, and ends the walk that
/// asked; a refused probe is spent without a word. Neither touches what is known of anybody.
pub proof fn law_a_refusal_is_told_in_its_own_words(
    before: Worker,
    header: Header,
    error: GatewayError,
    now: Timestamp,
    after: Worker,
    out: Seq<Action>,
)
    requires
        heard(before, Frame { header, body: Inbound::Refusal(error) }, now, after, out),
    ensures
        after.signed == before.signed,
        after.records == before.records,
        after.fetches == before.fetches,
        ({
            let probe = header.operation is Some && header.operation.unwrap().0
                == Opcode::RoomRoster;
            &&& probe ==> out.len() == 0 && after.asks.pending_room_probe is None && after.sync
                == before.sync
            &&& !probe ==> {
                &&& out.len() > 0
                &&& out[0] matches Action::Emit(
                    Event::Toast { notice: Notice::Said { text }, kind },
                ) && kind == ToastKind::Error && text@ == (match error {
                    GatewayError::Transport(said) => said@,
                    GatewayError::Closed(said) => said@,
                    GatewayError::Refused { message, .. } => message@,
                })
                &&& after.asks == before.asks
                &&& before.sync@.sync_asks.contains_key(header.correlation)
                    ==> !after.sync@.catchups.contains_key(
                    before.sync@.sync_asks[header.correlation],
                )
            }
        }),
{
}

/// A frame that nobody is signed in for, or whose opcode this build does not know, does nothing but
/// count; and a frame of a call goes to the call engine alone.
pub proof fn law_a_frame_for_nobody_does_nothing(
    before: Worker,
    header: Header,
    payload: Payload,
    now: Timestamp,
    after: Worker,
    out: Seq<Action>,
)
    requires
        heard(before, Frame { header, body: Inbound::Payload(payload) }, now, after, out),
    ensures
        before.signed is None || header.operation is None ==> out.len() == 0 && after.signed
            == before.signed && after.sync == before.sync && after.asks == before.asks
            && after.uploads == before.uploads && after.fetches == before.fetches && after.voice
            == before.voice && after.records == before.records,
        before.signed is Some && header.operation is Some ==> {
            let opcode = header.operation.unwrap().0;
            opcode == Opcode::CallInvite || opcode == Opcode::CallInviteEvent || opcode
                == Opcode::CallSdp || opcode == Opcode::CallIce || opcode == Opcode::CallStateEvent
                || opcode == Opcode::CallTurnFetch || opcode == Opcode::CallSfuEvent || opcode
                == Opcode::CallKeyUpdate ==> out == seq![Action::CallFrame] && after.signed
                == before.signed
        },
{
}

/// Key bundles that arrive are taken in whole: each device whose bundle verified is listed under
/// its account from then on, the record of identities is this account's own and stays where it is
/// another's, each bad bundle is complained of and each shown identity told, and the keys a send
/// waits for are asked for again last. Nothing else moves.
pub proof fn law_key_bundles_are_taken_in(
    before: Worker,
    signed: Signed,
    bundles: Seq<Bundle>,
    after: Worker,
    out: Seq<Action>,
    i: int,
    other: Id,
)
    requires
        bundles_heard(before, signed, bundles, after, out),
        0 <= i < bundles.len(),
    ensures
        after.signed is Some,
        bundles[i].identity is Some ==> after.signed.unwrap().devices@.contains_key(
            bundles[i].user_id,
        ) && after.signed.unwrap().devices@[bundles[i].user_id]@.contains(bundles[i].device_id),
        (forall|k: int| 0 <= k < bundles.len() ==> (#[trigger] bundles[k]).user_id != other)
            && signed.devices@.contains_key(other) ==> after.signed.unwrap().devices@.contains_key(
            other,
        ) && after.signed.unwrap().devices@[other]@ == signed.devices@[other]@,
        after.signed.unwrap().members == signed.members,
        after.signed.unwrap().account == signed.account,
        after.asks == before.asks,
        after.uploads == before.uploads,
        after.records.txs == before.records.txs,
        before.records.peers is None ==> after.records.peers is None,
        before.records.peers matches Some((owner, _)) ==> owner != signed.account.account_id
            ==> after.records.peers == before.records.peers,
        before.records.peers matches Some((owner, seen)) ==> owner == signed.account.account_id ==> {
            &&& after.records.peers is Some
            &&& after.records.peers.unwrap().0 == owner
            &&& after.records.peers.unwrap().1@ == seen_after(
                seen@,
                observed(bundles, signed.account.account_id),
            )
        },
        out.len() > 0,
        out.last() == Action::RetryGroupKeyAsk,
{
    let was = device_lists(signed.devices@);
    let now = device_lists(after.signed.unwrap().devices@);
    let me = signed.account.account_id;
    if bundles[i].identity is Some {
        law_every_verified_device_is_filed(was, bundles, i);
        assert(now.contains_key(bundles[i].user_id));
    }
    if (forall|k: int| 0 <= k < bundles.len() ==> (#[trigger] bundles[k]).user_id != other)
        && signed.devices@.contains_key(other) {
        lemma_unnamed_lists_stay(was, bundles, other);
        assert(was.contains_key(other));
        assert(now.contains_key(other));
    }
    let shown = observed(bundles, me);
    let seen = memory_of(before.records.peers, me);
    assert((complaints(bundles) + introductions(seen, shown) + seq![
        Action::RetryGroupKeyAsk,
    ]).last() == Action::RetryGroupKeyAsk);
}

proof fn lemma_unnamed_lists_stay(devices: Map<Id, Seq<Id>>, bundles: Seq<Bundle>, other: Id)
    requires
        forall|k: int| 0 <= k < bundles.len() ==> (#[trigger] bundles[k]).user_id != other,
        devices.contains_key(other),
    ensures
        devices_after(devices, bundles).contains_key(other),
        devices_after(devices, bundles)[other] == devices[other],
    decreases bundles.len(),
{
    if bundles.len() > 0 {
        let front = bundles.drop_last();
        assert forall|k: int| 0 <= k < front.len() implies (#[trigger] front[k]).user_id != other by {
            assert(front[k] == bundles[k]);
        }
        assert(bundles[bundles.len() - 1].user_id != other);
        lemma_unnamed_lists_stay(devices, front, other);
    }
}

} // verus!
