//! What each command does.

use vstd::prelude::*;

use crate::asks::Asks;
use crate::command::{at_edge, for_account, is_work, needs_account, Command};
use crate::economy::{
    ack_millis, acknowledge_alerts, instant_bytes, request_wallet, search_people, wallet_reads,
};
use crate::effects::{
    graph_request, list_request, request_conversations, request_relationships, toast, toasted,
    Action, ChainTxRow, Event, Notice, Outgoing, Request, SendKind, ToastKind,
};
use crate::ids::first_of;
use crate::media::{served, serving, MediaIntent, MediaWant, WantStep};
use crate::media_cache::holds;
use crate::people::fetch_profiles;
use crate::rooms::{create_room, request_rooms, ROOM_KIND_MANAGED, ROOM_KIND_OPEN};
use crate::sending::{delete_message, edit_message, send_reaction, send_text, TextSend};
use crate::signed::Signed;
use crate::sync::{Sync, SyncRequest, SyncView, SYNC_PAGE};
use crate::text::{trimmed, trimmed_or_none};
use crate::transcript::history_floor;
use crate::voice::{previews, stopping, Voice};
use crate::voice_listened::set_listened;
use crate::wallet::{
    file_record, first_named, law_a_recorded_instant_can_be_told, record_of, settle, settled, tracks,
    ChainNetwork, TxBody, TxRecord,
};
use crate::wire::{id_of_bytes, ConversationKind, Id, ReceiptKind, Timestamp};
use crate::worker::{forgets_account, rows_tell, signing_out, Worker};

verus! {

broadcast use vstd::std_specs::hash::group_hash_axioms;

/// Whether a command that asks the server for something does so, and remembers what its answer will
/// not say.
pub open spec fn asked(before: Worker, command: Command, after: Worker, out: Seq<Action>) -> bool {
    match command {
        Command::Conversations => after == before && out =~= seq![list_request()],
        Command::PeerKeys { user_id } => after == before && out =~= seq![
            Action::Request(Request::KeyBundleFetch { user_id, device_id: None }),
        ],
        Command::InviteToGroup { conversation_id, members } => after == before && out =~= seq![
            Action::Request(Request::ConversationInvite { conversation_id, members }),
        ],
        Command::LeaveGroup { conversation_id } => {
            &&& after == (Worker {
                asks: Asks { group_leave: Some(conversation_id), ..before.asks },
                ..before
            })
            &&& out =~= seq![Action::Request(Request::ConversationLeave { conversation_id })]
        },
        Command::GroupRoster { conversation_id } => {
            &&& after.asks.group_rosters@ == before.asks.group_rosters@.insert(conversation_id)
            &&& after == (Worker {
                asks: Asks { group_rosters: after.asks.group_rosters, ..before.asks },
                ..before
            })
            &&& out =~= seq![Action::Request(Request::ConversationRoster { conversation_id })]
        },
        Command::MuteGroupMember { conversation_id, target_id, until } => after == before && out
            =~= seq![
            Action::Request(Request::ConversationMute { conversation_id, target_id, until }),
        ],
        Command::KickGroupMember { conversation_id, target_id } => after == before && out =~= seq![
            Action::Request(Request::ConversationKick { conversation_id, target_id }),
        ],
        Command::VoteKickMember { conversation_id, target_id } => {
            &&& after == (Worker {
                asks: Asks { pending_vote: Some((conversation_id, target_id)), ..before.asks },
                ..before
            })
            &&& out =~= seq![
                Action::Request(Request::ConversationVoteKick { conversation_id, target_id }),
            ]
        },
        Command::RenameGroup { conversation_id, title } => after == before && out =~= seq![
            Action::Request(Request::ConversationUpdate { conversation_id, title }),
        ],
        Command::Typing { conversation_id, typing } => after == before && out =~= (
        if before.link.online {
            seq![Action::Request(Request::Typing { conversation_id, typing })]
        } else {
            Seq::empty()
        }),
        Command::MarkRead { conversation_id, seq } => after == before && out =~= seq![
            Action::Request(Request::Receipt { conversation_id, kind: ReceiptKind::Read, seq }),
        ],
        Command::Friends => after == before && out =~= seq![graph_request()],
        Command::AddFriend { target } => after == before && out =~= (match target {
            Some(user_id) => seq![Action::Request(Request::FriendRequest { user_id })],
            None => seq![toast(Notice::EnterFriendId, ToastKind::Info)],
        }),
        Command::RespondFriend { user_id, accept } => after == before && out =~= seq![
            Action::Request(Request::FriendRespond { user_id, accept }),
        ],
        Command::JoinRoom { room_id } => after == before && out =~= seq![
            Action::Request(Request::RoomJoin { room_id }),
        ],
        Command::CreateRoom { slug, name, managed, topic } => after == before && out =~= seq![
            Action::Request(
                Request::RoomCreate {
                    slug,
                    name,
                    kind: if managed {
                        ROOM_KIND_MANAGED
                    } else {
                        ROOM_KIND_OPEN
                    },
                    topic,
                },
            ),
        ],
        Command::LeaveRoom { room_id } => {
            &&& after == (Worker {
                asks: Asks { pending_leave: Some(room_id), ..before.asks },
                ..before
            })
            &&& out =~= seq![Action::Request(Request::RoomLeave { room_id })]
        },
        Command::Notifications => after == before && out =~= seq![
            Action::Request(Request::NotificationList { limit: 50 }),
        ],
        Command::SendGift { sku, recipient, client_key } => after == before && out =~= seq![
            Action::Request(Request::GiftSend { sku, recipient, client_key }),
        ],
        Command::BuyKickPoints { pack_kp, client_key } => after == before && out =~= seq![
            Action::Request(Request::KickPointsBuy { pack_kp, client_key }),
        ],
        Command::Suggestions => after == before && out =~= seq![
            Action::Request(Request::Suggestions { limit: 8 }),
        ],
        Command::MemberStanding { conversation_id, user_id } => {
            &&& after == (Worker {
                asks: Asks {
                    member_progression: Some((conversation_id, user_id)),
                    member_badges: Some((conversation_id, user_id)),
                    ..before.asks
                },
                ..before
            })
            &&& out =~= seq![
                Action::Request(Request::Progression { of_account: user_id }),
                Action::Request(Request::Badges { of_account: user_id }),
            ]
        },
        Command::MemberRank { conversation_id, user_id } => {
            &&& after == (Worker {
                asks: Asks { member_rank: Some((conversation_id, user_id)), ..before.asks },
                ..before
            })
            &&& out =~= seq![Action::Request(Request::XpLeaderboard { limit: 100 })]
        },
        Command::MemberEdge { conversation_id, user_id } => {
            &&& after == (Worker {
                asks: Asks { member_edge: Some((conversation_id, user_id)), ..before.asks },
                ..before
            })
            &&& out =~= seq![graph_request()]
        },
        Command::Entitlements => after == before && out =~= seq![
            Action::Request(Request::Entitlements),
        ],
        Command::GiftCatalogue => after == before && out =~= seq![
            Action::Request(Request::GiftCatalogue),
        ],
        Command::SaveProfile(patch) => after == before && out =~= seq![
            Action::Request(Request::ProfileUpdate { patch, avatar_media_id: None }),
        ],
        Command::BlockUser { user_id } => after == before && out =~= seq![
            Action::Request(Request::BlockSet { user_id }),
        ],
        Command::MuteUser { user_id, on } => after == before && out =~= seq![
            Action::Request(Request::MuteSet { user_id, on }),
        ],
        Command::DeleteMessage { conversation_id, message_id } => after == before && out =~= seq![
            Action::Request(
                Request::MessageDelete { conversation_id, message_id, for_everyone: true },
            ),
        ],
        _ => after == before && out.len() == 0,
    }
}

/// Whether some actions start a direct chat with a peer.
pub open spec fn starts_direct(me: Id, peer: Id, out: Seq<Action>) -> bool {
    &&& out.len() == 1
    &&& out[0] matches Action::Request(Request::ConversationCreate { kind, members, title }) && kind
        == ConversationKind::Direct && members@ == seq![me, peer] && title is None
}

/// Whether a command that asks the server for something it first has to put together does so.
pub open spec fn composed(
    before: Worker,
    command: Command,
    after: Worker,
    out: Seq<Action>,
) -> bool {
    match command {
        Command::StartDirect { peer } => after == before && match (peer, before.signed) {
            (None, _) => out =~= seq![toast(Notice::EnterPeerId, ToastKind::Info)],
            (Some(peer), Some(signed)) => starts_direct(signed.account.account_id, peer, out),
            (Some(_), None) => out.len() == 0,
        },
        Command::StartDirectById { peer } => after == before && match before.signed {
            Some(signed) => starts_direct(signed.account.account_id, peer, out),
            None => out.len() == 0,
        },
        Command::CreateGroup { members, title } => {
            &&& after == before
            &&& out.len() == 1
            &&& out[0] matches Action::Request(
                Request::ConversationCreate { kind, members: named, title: called },
            ) && kind == ConversationKind::Group && named == members && (called is None <==> trimmed(
                title@,
            ).len() == 0) && (called matches Some(text) ==> text@ == trimmed(title@))
        },
        Command::Rooms { query } => {
            &&& after == before
            &&& out.len() == 1
            &&& out[0] matches Action::Request(Request::RoomList { limit, query: sent }) && limit
                == 50 && (trimmed(query@).len() == 0 <==> sent is None) && (sent matches Some(text)
                ==> text@ == trimmed(query@))
        },
        Command::AcknowledgeAlerts { through_unix_ms } => {
            &&& after == before
            &&& out.len() == 1
            &&& out[0] matches Action::Request(Request::NotificationAck { id }) && id
                == id_of_bytes(instant_bytes(ack_millis(through_unix_ms)))
        },
        Command::Wallet => after == before && out =~= (match before.signed {
            Some(signed) => wallet_reads(signed.account.account_id),
            None => seq![
                Action::Request(Request::BalanceFetch),
                Action::Request(Request::LedgerHistory { limit: 10 }),
                Action::Request(Request::XpLeaderboard { limit: 10 }),
                Action::Request(Request::GiftCatalogue),
            ],
        }),
        Command::SearchPeople { query } => {
            &&& after == before
            &&& out.len() == 1
            &&& out[0] matches Action::Request(Request::Search { query: sent, limit }) && limit == 10
                && sent@ == trimmed(query@)
        },
        Command::OwnProfile => after == before && match before.signed {
            Some(signed) => out.len() == 1 && (out[0] matches Action::Request(
                Request::ProfileFetch { user_ids },
            ) && user_ids@ == seq![signed.account.account_id]),
            None => out.len() == 0,
        },
        Command::MemberProfile { conversation_id, user_id } => {
            &&& after == (Worker {
                asks: Asks { member_profile: Some((conversation_id, user_id)), ..before.asks },
                ..before
            })
            &&& out.len() == 1
            &&& out[0] matches Action::Request(Request::ProfileFetch { user_ids }) && first_of(
                seq![user_id],
                user_ids@,
            )
        },
        _ => asked(before, command, after, out),
    }
}

/// The sync state, and what it asks for, once a thread's history is wanted.
pub open spec fn history_wanted(sync: SyncView, conversation_id: Id, held: bool) -> (
    SyncView,
    Seq<Action>,
) {
    if sync.refuses(conversation_id, None) {
        (sync, Seq::empty())
    } else {
        (
            sync.walking(conversation_id, None),
            seq![
                Action::AskSync(
                    SyncRequest {
                        conversation_id,
                        have_seq: if held {
                            sync.watermark(conversation_id)
                        } else {
                            0
                        },
                        limit: SYNC_PAGE,
                        to_seq: None,
                        backwards: None,
                    },
                ),
            ],
        )
    }
}

/// Whether an attachment that is wanted is served, asked for, or refused.
pub open spec fn wanted(
    before: Worker,
    media_id: Id,
    intent: MediaIntent,
    after: Worker,
    out: Seq<Action>,
) -> bool {
    let has_key = before.signed matches Some(signed) && signed.media_keys.keys@.contains_key(
        media_id,
    );
    &&& after == (Worker { fetches: after.fetches, ..before })
    &&& after.fetches.cache == before.fetches.cache
    &&& after.fetches.media_wants == before.fetches.media_wants
    &&& if holds(before.fetches.cache@, media_id) {
        &&& after.fetches.media_fetching@ == before.fetches.media_fetching@
        &&& exists|i: int|
            0 <= i < before.fetches.cache@.len() && (#[trigger] before.fetches.cache@[i]).0
                == media_id && out =~= serving(
                media_id,
                served(before.fetches.cache@[i].1),
                intent,
            )
    } else if before.fetches.media_fetching@.contains(media_id) {
        &&& after.fetches.media_fetching@ == before.fetches.media_fetching@
        &&& out.len() == 0
    } else if !has_key {
        &&& after.fetches.media_fetching@ == before.fetches.media_fetching@
        &&& out =~= seq![
            Action::Emit(
                Event::MediaFailed {
                    media_id,
                    failure: crate::effects::MediaFailure::KeyNotInSession,
                },
            ),
        ]
    } else {
        &&& after.fetches.media_fetching@ == before.fetches.media_fetching@.insert(media_id)
        &&& out =~= seq![
            Action::AskMedia {
                request: Request::MediaFetchUrl { object_id: media_id },
                want: MediaWant { media_id, intent },
            },
        ]
    }
}

/// Whether a mark was set or cleared as asked, and kept where there is an account to keep it for.
pub open spec fn marked(
    before: Worker,
    media_id: Id,
    listened: bool,
    told: bool,
    after: Worker,
    out: Seq<Action>,
) -> bool {
    let changed = before.listened@.contains(media_id) != listened;
    &&& after == (Worker { listened: after.listened, ..before })
    &&& after.listened@ == (if listened {
        before.listened@.insert(media_id)
    } else {
        before.listened@.remove(media_id)
    })
    &&& out =~= (if changed && before.signed is Some {
        seq![Action::SaveListened]
    } else {
        Seq::empty()
    }) + (if changed && told {
        seq![Action::Emit(Event::VoiceNoteListened { media_id })]
    } else {
        Seq::empty()
    })
}

/// Whether a transaction that ended is recorded as it should be. Only the first record of its hash
/// moves.
pub open spec fn chain_ended(
    before: Worker,
    tx_hash: String,
    outcome: String,
    block: Option<u64>,
    gas_used: Option<u128>,
    after: Worker,
    out: Seq<Action>,
) -> bool {
    &&& after == (Worker {
        records: crate::account::Records { txs: after.records.txs, ..before.records },
        ..before
    })
    &&& match before.records.txs {
        None => after.records.txs is None,
        Some((owner, records)) => after.records.txs matches Some((kept, ended)) && kept == owner
            && ended@.len() == records@.len() && (forall|i: int|
            0 <= i < records@.len() ==> if first_named(records@, tx_hash@, i) {
                settled(records@[i], #[trigger] ended@[i], outcome@, block, gas_used)
            } else {
                ended@[i] == records@[i]
            }),
    }
    &&& out.len() == 2
    &&& out[0] matches Action::Emit(Event::ChainSettled { tx_hash: told, outcome: how }) && told
        == tx_hash && how@ == outcome@
    &&& out[1] matches Action::Emit(Event::ChainActivity(rows)) && rows_tell(rows@, after.records)
}

/// Whether a command was carried out as it should be.
pub open spec fn handled(
    before: Worker,
    command: Command,
    now: Timestamp,
    after: Worker,
    out: Seq<Action>,
) -> bool {
    if is_work(command) {
        &&& after == before
        &&& out =~= (if needs_account(command) && before.signed is None {
            Seq::empty()
        } else {
            seq![Action::Run(command)]
        })
    } else {
        match command {
            Command::SignOut => forgets_account(before, after) && out =~= signing_out(before),
            Command::History { conversation_id, held } => {
                &&& after == (Worker { sync: after.sync, ..before })
                &&& after.sync@ == history_wanted(before.sync@, conversation_id, held).0
                &&& out =~= history_wanted(before.sync@, conversation_id, held).1
            },
            Command::HistoryEarlier { conversation_id, before_seq } => {
                &&& after == before
                &&& out =~= seq![
                    Action::AskSync(
                        SyncRequest {
                            conversation_id,
                            have_seq: before_seq,
                            limit: SYNC_PAGE,
                            to_seq: None,
                            backwards: Some(true),
                        },
                    ),
                ]
            },
            Command::SendText { message_id, conversation_id, text, expires_in_ms } => {
                &&& after == before
                &&& before.signed is None ==> out.len() == 0
                &&& before.signed matches Some(signed) ==> {
                    &&& out.len() == 2
                    &&& out[0] matches Action::Emit(Event::Message(row)) && shows_text(
                        row,
                        signed,
                        message_id,
                        conversation_id,
                        text@,
                        expires_in_ms,
                        now,
                    )
                    &&& out[1] == (Action::Send {
                        conversation_id,
                        content: crate::content::Content::Text { text, expires_in_ms },
                        outgoing: Outgoing::Message {
                            message_id,
                            kind: SendKind::Text,
                            expires_in_ms,
                        },
                    })
                }
            },
            Command::SendReaction { conversation_id, target_message_id, emoji } => {
                &&& after == before
                &&& out =~= seq![
                    Action::Send {
                        conversation_id,
                        content: crate::content::Content::Reaction {
                            target_message_id,
                            emoji,
                            remove: false,
                        },
                        outgoing: Outgoing::Reaction { target_message_id },
                    },
                ]
            },
            Command::EditMessage { conversation_id, message_id, text } => {
                &&& after == before
                &&& out =~= seq![
                    Action::Send {
                        conversation_id,
                        content: crate::content::Content::Text { text, expires_in_ms: None },
                        outgoing: Outgoing::Edit { message_id },
                    },
                ]
            },
            Command::FetchMedia { media_id } => wanted(
                before,
                media_id,
                MediaIntent::Show,
                after,
                out,
            ),
            Command::SaveMedia { media_id, path } => wanted(
                before,
                media_id,
                MediaIntent::SaveTo(path),
                after,
                out,
            ),
            Command::PlayVoiceNote { media_id } => plays(before, media_id, after, out),
            Command::StopVoiceNote => {
                &&& after == (Worker { voice: Voice { playing: None, ..before.voice }, ..before })
                &&& out =~= stopping(before.voice.playing)
            },
            Command::SetVoiceSpeed { percent } => {
                &&& after == (Worker {
                    voice: Voice { speed_percent: percent, ..before.voice },
                    ..before
                })
                &&& out =~= (if before.voice.playing is Some {
                    seq![Action::SetPace { percent }]
                } else {
                    Seq::empty()
                })
            },
            Command::SetVoiceNoteListened { media_id, listened } => marked(
                before,
                media_id,
                listened,
                false,
                after,
                out,
            ),
            Command::VoiceNoteHeard { media_id } => marked(
                before,
                media_id,
                true,
                true,
                after,
                out,
            ),
            Command::VoiceNoteEnded { media_id } => if before.voice.playing == Some(media_id) {
                &&& after == (Worker { voice: Voice { playing: None, ..before.voice }, ..before })
                &&& out =~= stopping(before.voice.playing)
            } else {
                after == before && out.len() == 0
            },
            Command::UndoVoiceNoteDiscard => match before.voice.held_note {
                Some(note) => {
                    &&& after == (Worker {
                        voice: Voice { undo_open: false, ..before.voice },
                        ..before
                    })
                    &&& out.len() == 1
                    &&& previews(out[0], note)
                },
                None => after == before && out.len() == 0,
            },
            Command::ChainState { tx_hash, state } => after == before && out =~= seq![
                Action::Emit(Event::ChainState { tx_hash, state }),
            ],
            Command::ChainSettled { tx_hash, outcome, block, gas_used, .. } => chain_ended(
                before,
                tx_hash,
                outcome,
                block,
                gas_used,
                after,
                out,
            ),
            _ => composed(before, command, after, out),
        }
    }
}

/// Whether a row shows a text as being sent.
pub open spec fn shows_text(
    row: crate::content::Message,
    signed: Signed,
    message_id: Id,
    conversation_id: Id,
    text: Seq<char>,
    expires_in_ms: Option<u32>,
    now: Timestamp,
) -> bool {
    &&& row.message_id == message_id
    &&& row.conversation_id == conversation_id
    &&& row.seq == 0
    &&& row.sender_id == signed.account.account_id
    &&& row.outgoing
    &&& row.body matches crate::content::Body::Text(shown) && shown@ == text
    &&& row.sent_at == now
    &&& row.delivery == crate::content::Delivery::Sending
    &&& !row.deleted
    &&& !row.edited
    &&& row.expires_at == crate::content::deadline_of(now, expires_in_ms)
}

/// Whether a note is played, or stopped where it is the one that plays. Any other note is stopped
/// first: there is one speaker.
pub open spec fn plays(before: Worker, media_id: Id, after: Worker, out: Seq<Action>) -> bool {
    let stopped = Worker { voice: Voice { playing: None, ..before.voice }, ..before };
    let head = stopping(before.voice.playing);
    &&& out.len() >= head.len()
    &&& out.subrange(0, head.len() as int) =~= head
    &&& if before.voice.playing == Some(media_id) {
        after == stopped && out.len() == head.len()
    } else {
        wanted(
            stopped,
            media_id,
            MediaIntent::Play,
            after,
            out.subrange(head.len() as int, out.len() as int),
        )
    }
}

impl Worker {
    fn ask(&mut self, command: Command) -> (out: Vec<Action>)
        requires
            old(self).wf(),
        ensures
            final(self).wf(),
            asked(*old(self), command, *final(self), out@),
    {
        match command {
            Command::Conversations => vec![request_conversations()],
            Command::PeerKeys { user_id } => vec![
                Action::Request(Request::KeyBundleFetch { user_id, device_id: None }),
            ],
            Command::InviteToGroup { conversation_id, members } => vec![
                Action::Request(Request::ConversationInvite { conversation_id, members }),
            ],
            Command::LeaveGroup { conversation_id } => {
                self.asks.group_leave = Some(conversation_id);
                vec![Action::Request(Request::ConversationLeave { conversation_id })]
            },
            Command::GroupRoster { conversation_id } => {
                self.asks.group_rosters.insert(conversation_id);
                vec![Action::Request(Request::ConversationRoster { conversation_id })]
            },
            Command::MuteGroupMember { conversation_id, target_id, until } => vec![
                Action::Request(Request::ConversationMute { conversation_id, target_id, until }),
            ],
            Command::KickGroupMember { conversation_id, target_id } => vec![
                Action::Request(Request::ConversationKick { conversation_id, target_id }),
            ],
            Command::VoteKickMember { conversation_id, target_id } => {
                self.asks.pending_vote = Some((conversation_id, target_id));
                vec![Action::Request(Request::ConversationVoteKick { conversation_id, target_id })]
            },
            Command::RenameGroup { conversation_id, title } => vec![
                Action::Request(Request::ConversationUpdate { conversation_id, title }),
            ],
            Command::Typing { conversation_id, typing } => {
                if self.link.online {
                    vec![Action::Request(Request::Typing { conversation_id, typing })]
                } else {
                    Vec::new()
                }
            },
            Command::MarkRead { conversation_id, seq } => vec![
                Action::Request(
                    Request::Receipt { conversation_id, kind: ReceiptKind::Read, seq },
                ),
            ],
            Command::Friends => vec![request_relationships()],
            Command::AddFriend { target } => match target {
                Some(user_id) => vec![Action::Request(Request::FriendRequest { user_id })],
                None => vec![toasted(Notice::EnterFriendId, ToastKind::Info)],
            },
            Command::RespondFriend { user_id, accept } => vec![
                Action::Request(Request::FriendRespond { user_id, accept }),
            ],
            Command::JoinRoom { room_id } => vec![Action::Request(Request::RoomJoin { room_id })],
            Command::CreateRoom { slug, name, managed, topic } => vec![
                create_room(slug, name, managed, topic),
            ],
            Command::LeaveRoom { room_id } => vec![
                crate::rooms::leave_room(&mut self.asks, room_id),
            ],
            Command::Notifications => vec![
                Action::Request(Request::NotificationList { limit: 50 }),
            ],
            Command::SendGift { sku, recipient, client_key } => vec![
                Action::Request(Request::GiftSend { sku, recipient, client_key }),
            ],
            Command::BuyKickPoints { pack_kp, client_key } => vec![
                Action::Request(Request::KickPointsBuy { pack_kp, client_key }),
            ],
            Command::Suggestions => vec![Action::Request(Request::Suggestions { limit: 8 })],
            Command::MemberStanding { conversation_id, user_id } => {
                self.asks.member_progression = Some((conversation_id, user_id));
                self.asks.member_badges = Some((conversation_id, user_id));
                vec![
                    Action::Request(Request::Progression { of_account: user_id }),
                    Action::Request(Request::Badges { of_account: user_id }),
                ]
            },
            Command::MemberRank { conversation_id, user_id } => {
                self.asks.member_rank = Some((conversation_id, user_id));
                vec![Action::Request(Request::XpLeaderboard { limit: 100 })]
            },
            Command::MemberEdge { conversation_id, user_id } => {
                self.asks.member_edge = Some((conversation_id, user_id));
                vec![request_relationships()]
            },
            Command::Entitlements => vec![Action::Request(Request::Entitlements)],
            Command::GiftCatalogue => vec![Action::Request(Request::GiftCatalogue)],
            Command::SaveProfile(patch) => vec![
                Action::Request(Request::ProfileUpdate { patch, avatar_media_id: None }),
            ],
            Command::BlockUser { user_id } => vec![Action::Request(Request::BlockSet { user_id })],
            Command::MuteUser { user_id, on } => vec![
                Action::Request(Request::MuteSet { user_id, on }),
            ],
            Command::DeleteMessage { conversation_id, message_id } => vec![
                delete_message(conversation_id, message_id),
            ],
            _ => Vec::new(),
        }
    }

    fn start_direct(&self, peer: Id) -> (out: Vec<Action>)
        ensures
            match self.signed {
                Some(signed) => starts_direct(signed.account.account_id, peer, out@),
                None => out@.len() == 0,
            },
    {
        match &self.signed {
            Some(signed) => {
                let members: Vec<Id> = vec![signed.account.account_id, peer];
                assert(members@ =~= seq![signed.account.account_id, peer]);
                vec![
                    Action::Request(
                        Request::ConversationCreate {
                            kind: ConversationKind::Direct,
                            members,
                            title: None,
                        },
                    ),
                ]
            },
            None => Vec::new(),
        }
    }

    fn compose(&mut self, command: Command) -> (out: Vec<Action>)
        requires
            old(self).wf(),
        ensures
            final(self).wf(),
            composed(*old(self), command, *final(self), out@),
    {
        match command {
            Command::StartDirect { peer } => match peer {
                Some(peer) => self.start_direct(peer),
                None => vec![toasted(Notice::EnterPeerId, ToastKind::Info)],
            },
            Command::StartDirectById { peer } => self.start_direct(peer),
            Command::CreateGroup { members, title } => vec![
                Action::Request(
                    Request::ConversationCreate {
                        kind: ConversationKind::Group,
                        members,
                        title: trimmed_or_none(title.as_str()),
                    },
                ),
            ],
            Command::Rooms { query } => vec![request_rooms(query.as_str())],
            Command::AcknowledgeAlerts { through_unix_ms } => vec![
                acknowledge_alerts(through_unix_ms),
            ],
            Command::Wallet => match &self.signed {
                Some(signed) => request_wallet(signed.account.account_id),
                None => vec![
                    Action::Request(Request::BalanceFetch),
                    Action::Request(Request::LedgerHistory { limit: 10 }),
                    Action::Request(Request::XpLeaderboard { limit: 10 }),
                    Action::Request(Request::GiftCatalogue),
                ],
            },
            Command::SearchPeople { query } => vec![search_people(query.as_str())],
            Command::OwnProfile => match &self.signed {
                Some(signed) => {
                    let user_ids: Vec<Id> = vec![signed.account.account_id];
                    assert(user_ids@ =~= seq![signed.account.account_id]);
                    vec![Action::Request(Request::ProfileFetch { user_ids })]
                },
                None => Vec::new(),
            },
            Command::MemberProfile { conversation_id, user_id } => {
                self.asks.member_profile = Some((conversation_id, user_id));
                let ids: Vec<Id> = vec![user_id];
                assert(ids@ =~= seq![user_id]);
                fetch_profiles(&ids)
            },
            command => self.ask(command),
        }
    }

    fn want(&mut self, media_id: Id, intent: MediaIntent) -> (out: Vec<Action>)
        requires
            old(self).wf(),
        ensures
            final(self).wf(),
            wanted(*old(self), media_id, intent, *final(self), out@),
    {
        let has_key: bool = match &self.signed {
            Some(signed) => signed.media_keys.keys.contains_key(&media_id),
            None => false,
        };
        match self.fetches.want_media(media_id, intent, has_key) {
            WantStep::Done(out) => out,
            WantStep::Ask(request, want) => vec![Action::AskMedia { request, want }],
        }
    }

    fn mark(&mut self, media_id: Id, listened: bool, told: bool) -> (out: Vec<Action>)
        requires
            old(self).wf(),
        ensures
            final(self).wf(),
            marked(*old(self), media_id, listened, told, *final(self), out@),
    {
        let mut out: Vec<Action> = Vec::new();
        if set_listened(&mut self.listened, media_id, listened) {
            if self.signed.is_some() {
                out.push(Action::SaveListened);
            }
            if told {
                out.push(Action::Emit(Event::VoiceNoteListened { media_id }));
            }
        }
        out
    }

    fn chain_settled(
        &mut self,
        tx_hash: String,
        outcome: String,
        block: Option<u64>,
        gas_used: Option<u128>,
    ) -> (out: Vec<Action>)
        requires
            old(self).wf(),
        ensures
            final(self).wf(),
            chain_ended(*old(self), tx_hash, outcome, block, gas_used, *final(self), out@),
    {
        if let Some((owner, mut records)) = self.records.txs.take() {
            let ghost before = records@;
            settle(&mut records, tx_hash.as_str(), outcome.as_str(), block, gas_used);
            assert forall|i: int| 0 <= i < records@.len() implies (
            #[trigger] records@[i]).at_unix == before[i].at_unix by {
                if first_named(before, tx_hash@, i) {
                    assert(settled(before[i], records@[i], outcome@, block, gas_used));
                }
            }
            self.records.txs = Some((owner, records));
        }
        let rows: Vec<ChainTxRow> = self.chain_rows();
        vec![
            Action::Emit(Event::ChainSettled { tx_hash, outcome }),
            Action::Emit(Event::ChainActivity(rows)),
        ]
    }

    /// Carries a command out.
    pub fn handle(&mut self, command: Command, now: Timestamp) -> (out: Vec<Action>)
        requires
            old(self).wf(),
        ensures
            final(self).wf(),
            handled(*old(self), command, now, *final(self), out@),
    {
        if at_edge(&command) {
            if for_account(&command) && self.signed.is_none() {
                return Vec::new();
            }
            return vec![Action::Run(command)];
        }
        match command {
            Command::SignOut => self.sign_out(),
            Command::History { conversation_id, held } => {
                let from: u64 = history_floor(&self.sync, conversation_id, held);
                let mut out: Vec<Action> = Vec::new();
                if let Some(page) = self.sync.catch_up(conversation_id, from, None) {
                    out.push(Action::AskSync(page));
                }
                out
            },
            Command::HistoryEarlier { conversation_id, before_seq } => vec![
                Action::AskSync(Sync::earlier_page(conversation_id, before_seq)),
            ],
            Command::SendText { message_id, conversation_id, text, expires_in_ms } => {
                let send: TextSend = match &self.signed {
                    Some(signed) => send_text(
                        signed,
                        message_id,
                        conversation_id,
                        text,
                        expires_in_ms,
                        now,
                    ),
                    None => {
                        return Vec::new();
                    },
                };
                let TextSend { row, content, outgoing }: TextSend = send;
                vec![
                    Action::Emit(Event::Message(row)),
                    Action::Send { conversation_id, content, outgoing },
                ]
            },
            Command::SendReaction { conversation_id, target_message_id, emoji } => {
                let (content, outgoing) = send_reaction(target_message_id, emoji);
                vec![Action::Send { conversation_id, content, outgoing }]
            },
            Command::EditMessage { conversation_id, message_id, text } => {
                let (content, outgoing) = edit_message(message_id, text);
                vec![Action::Send { conversation_id, content, outgoing }]
            },
            Command::FetchMedia { media_id } => self.want(media_id, MediaIntent::Show),
            Command::SaveMedia { media_id, path } => self.want(media_id, MediaIntent::SaveTo(path)),
            Command::PlayVoiceNote { media_id } => {
                let mut out: Vec<Action> = Vec::new();
                let play: bool = self.voice.toggle_playback(media_id, &mut out);
                let ghost head = out@;
                if play {
                    let mut rest: Vec<Action> = self.want(media_id, MediaIntent::Play);
                    let ghost tail = rest@;
                    out.append(&mut rest);
                    assert(out@.subrange(head.len() as int, out@.len() as int) =~= tail);
                }
                assert(out@.subrange(0, head.len() as int) =~= head);
                out
            },
            Command::StopVoiceNote => self.voice.stop_voice_note(),
            Command::SetVoiceSpeed { percent } => self.voice.set_voice_speed(percent),
            Command::SetVoiceNoteListened { media_id, listened } => self.mark(
                media_id,
                listened,
                false,
            ),
            Command::VoiceNoteHeard { media_id } => self.mark(media_id, true, true),
            Command::VoiceNoteEnded { media_id } => self.voice.voice_note_ended(media_id),
            Command::UndoVoiceNoteDiscard => self.voice.undo_note_discard(),
            Command::ChainState { tx_hash, state } => vec![
                Action::Emit(Event::ChainState { tx_hash, state }),
            ],
            Command::ChainSettled { tx_hash, outcome, block, gas_used, .. } => self.chain_settled(
                tx_hash,
                outcome,
                block,
                gas_used,
            ),
            command => self.compose(command),
        }
    }

    /// A transaction was broadcast: it is recorded at once, told, and followed to its end.
    /// `tx_hash` is its hash, and `answered` the text the network answered with.
    pub fn chain_sent(
        &mut self,
        network: ChainNetwork,
        body: &TxBody,
        tx_hash: [u8; 32],
        answered: String,
        now: Timestamp,
    ) -> (out: Vec<Action>)
        requires
            old(self).wf(),
            old(self).signed is Some,
        ensures
            final(self).wf(),
            chain_recorded(
                *old(self),
                network,
                *body,
                tx_hash,
                answered,
                now,
                *final(self),
                out@,
            ),
    {
        let me: Id = match &self.signed {
            Some(signed) => signed.account.account_id,
            None => 0,
        };
        let record: TxRecord = record_of(body, tx_hash, now);
        proof {
            law_a_recorded_instant_can_be_told(now);
        }
        file_record(&mut self.records.txs, me, record);
        let rows: Vec<ChainTxRow> = self.chain_rows();
        vec![
            Action::Emit(Event::ChainSent(Ok(answered.clone()))),
            Action::Emit(Event::ChainActivity(rows)),
            Action::TrackTransaction { network, tx_hash: answered },
        ]
    }
}

/// Whether a broadcast transaction was recorded, told, and is followed to its end, as it should
/// be: before everything that was recorded earlier.
pub open spec fn chain_recorded(
    before: Worker,
    network: ChainNetwork,
    body: TxBody,
    tx_hash: [u8; 32],
    answered: String,
    now: Timestamp,
    after: Worker,
    out: Seq<Action>,
) -> bool {
    let me = before.signed.unwrap().account.account_id;
    let (owner, earlier) = match before.records.txs {
        Some((owner, records)) => (owner, records@),
        None => (me, Seq::empty()),
    };
    &&& after.records.txs matches Some((kept, records)) && kept == owner && records@.len()
        == earlier.len() + 1 && records@.subrange(1, records@.len() as int) =~= earlier && recorded(
        records@[0],
        body,
        tx_hash,
        now,
    )
    &&& after == (Worker {
        records: crate::account::Records { txs: after.records.txs, ..before.records },
        ..before
    })
    &&& out.len() == 3
    &&& out[0] matches Action::Emit(Event::ChainSent(Ok(told))) && told@ == answered@
    &&& out[1] matches Action::Emit(Event::ChainActivity(rows)) && rows_tell(rows@, after.records)
    &&& out[2] == (Action::TrackTransaction { network, tx_hash: answered })
}

/// Whether a record is what a broadcast transaction leaves.
pub open spec fn recorded(
    record: TxRecord,
    body: TxBody,
    tx_hash: [u8; 32],
    now: Timestamp,
) -> bool {
    &&& record.tx_hash == tx_hash
    &&& record.chain_id == body.chain_id
    &&& record.to == body.to
    &&& record.value_wei == body.value
    &&& record.fee_wei == crate::wallet::worst_fee(body.max_fee_per_gas, body.gas_limit)
    &&& record.gas_limit == body.gas_limit
    &&& record.at_unix == crate::wallet::unix_seconds(now)
    &&& record.outcome@ == crate::wallet::pending_label()
    &&& record.block is None
    &&& record.gas_used is None
}

/// What is typed goes out as what it is. A text is shown at once, under its id, as this account's own
/// and as being sent, and then sent with its lifetime; a reaction is set on its target; an edit
/// replaces its own message; and a message is withdrawn for everyone.
pub proof fn law_what_is_typed_goes_out(
    before: Worker,
    command: Command,
    now: Timestamp,
    after: Worker,
    out: Seq<Action>,
)
    requires
        handled(before, command, now, after, out),
    ensures
        command is SendText && before.signed is Some ==> {
            &&& out.len() == 2
            &&& out[0] is Emit
            &&& out[0]->Emit_0 is Message
            &&& ({
                let row = out[0]->Emit_0->Message_0;
                &&& row.message_id == command->SendText_message_id
                &&& row.conversation_id == command->SendText_conversation_id
                &&& row.sender_id == before.signed.unwrap().account.account_id
                &&& row.outgoing
                &&& row.body is Text
                &&& row.body->Text_0@ == command->SendText_text@
                &&& row.sent_at == now
                &&& row.delivery == crate::content::Delivery::Sending
                &&& row.expires_at is Some <==> command->SendText_expires_in_ms is Some
            })
            &&& out[1] is Send
            &&& out[1]->Send_conversation_id == command->SendText_conversation_id
            &&& out[1]->Send_content is Text
            &&& out[1]->Send_content->Text_text == command->SendText_text
            &&& out[1]->Send_content->Text_expires_in_ms == command->SendText_expires_in_ms
            &&& out[1]->Send_outgoing is Message
            &&& out[1]->Send_outgoing->Message_message_id == command->SendText_message_id
            &&& out[1]->Send_outgoing->Message_kind == SendKind::Text
            &&& out[1]->Send_outgoing->Message_expires_in_ms == command->SendText_expires_in_ms
        },
        command is SendText && before.signed is None ==> out.len() == 0,
        command is SendReaction ==> {
            &&& out.len() == 1
            &&& out[0] is Send
            &&& out[0]->Send_conversation_id == command->SendReaction_conversation_id
            &&& out[0]->Send_content is Reaction
            &&& out[0]->Send_content->Reaction_target_message_id
                == command->SendReaction_target_message_id
            &&& out[0]->Send_content->Reaction_emoji == command->SendReaction_emoji
            &&& !out[0]->Send_content->remove
            &&& out[0]->Send_outgoing is Reaction
            &&& out[0]->Send_outgoing->target_message_id == command->SendReaction_target_message_id
        },
        command is EditMessage ==> {
            &&& out.len() == 1
            &&& out[0] is Send
            &&& out[0]->Send_conversation_id == command->EditMessage_conversation_id
            &&& out[0]->Send_content is Text
            &&& out[0]->Send_content->Text_text == command->EditMessage_text
            &&& out[0]->Send_content->Text_expires_in_ms is None
            &&& out[0]->Send_outgoing is Edit
            &&& out[0]->Send_outgoing->Edit_message_id == command->EditMessage_message_id
        },
        command is DeleteMessage ==> out == seq![
            Action::Request(
                Request::MessageDelete {
                    conversation_id: command->DeleteMessage_conversation_id,
                    message_id: command->DeleteMessage_message_id,
                    for_everyone: true,
                },
            ),
        ],
        command is SendText || command is SendReaction || command is EditMessage || command
            is DeleteMessage ==> after == before,
{
}

/// What is done in a thread asks for just that: a read is acknowledged to its number, typing is told
/// while there is a connection, and earlier history is asked for below the number that was given.
pub proof fn law_what_is_done_in_a_thread(
    before: Worker,
    command: Command,
    now: Timestamp,
    after: Worker,
    out: Seq<Action>,
)
    requires
        handled(before, command, now, after, out),
    ensures
        command is MarkRead ==> after == before && out == seq![
            Action::Request(
                Request::Receipt {
                    conversation_id: command->MarkRead_conversation_id,
                    kind: ReceiptKind::Read,
                    seq: command->MarkRead_seq,
                },
            ),
        ],
        command is Typing && before.link.online ==> out == seq![
            Action::Request(
                Request::Typing {
                    conversation_id: command->Typing_conversation_id,
                    typing: command->Typing_typing,
                },
            ),
        ],
        command is Typing && !before.link.online ==> out.len() == 0,
        command is HistoryEarlier ==> after == before && out.len() == 1 && (
        out[0] matches Action::AskSync(page) && page.conversation_id
            == command->HistoryEarlier_conversation_id && page.have_seq
            == command->HistoryEarlier_before_seq && page.backwards == Some(true)
            && page.to_seq is None && page.limit == 200),
        command is History ==> out.len() <= 1 && (out.len() == 1 ==> (
        out[0] matches Action::AskSync(page) && page.conversation_id
            == command->History_conversation_id && page.have_seq == (if command->History_held {
            before.sync@.watermark(command->History_conversation_id)
        } else {
            0
        }) && page.backwards is None && page.to_seq is None && page.limit == 200)),
        command is History && !before.sync@.refuses(command->History_conversation_id, None) ==> {
            &&& out.len() == 1
            &&& after.sync@.catchups.contains_key(command->History_conversation_id)
        },
        command is History && before.sync@.refuses(command->History_conversation_id, None)
            ==> out.len() == 0 && after.sync@ == before.sync@,
{
}

/// What is done with a group is asked of that group and that member, and what the answer will not say
/// is remembered: which group is left, whose roster is wanted, whom a vote is about.
pub proof fn law_what_is_done_with_a_group(
    before: Worker,
    command: Command,
    now: Timestamp,
    after: Worker,
    out: Seq<Action>,
)
    requires
        handled(before, command, now, after, out),
    ensures
        command is InviteToGroup ==> out == seq![
            Action::Request(
                Request::ConversationInvite {
                    conversation_id: command->InviteToGroup_conversation_id,
                    members: command->InviteToGroup_members,
                },
            ),
        ],
        command is LeaveGroup ==> after.asks.group_leave == Some(
            command->LeaveGroup_conversation_id,
        ) && out == seq![
            Action::Request(
                Request::ConversationLeave { conversation_id: command->LeaveGroup_conversation_id },
            ),
        ],
        command is GroupRoster ==> after.asks.group_rosters@.contains(
            command->GroupRoster_conversation_id,
        ) && out == seq![
            Action::Request(
                Request::ConversationRoster {
                    conversation_id: command->GroupRoster_conversation_id,
                },
            ),
        ],
        command is MuteGroupMember ==> out == seq![
            Action::Request(
                Request::ConversationMute {
                    conversation_id: command->MuteGroupMember_conversation_id,
                    target_id: command->MuteGroupMember_target_id,
                    until: command->MuteGroupMember_until,
                },
            ),
        ],
        command is KickGroupMember ==> out == seq![
            Action::Request(
                Request::ConversationKick {
                    conversation_id: command->KickGroupMember_conversation_id,
                    target_id: command->KickGroupMember_target_id,
                },
            ),
        ],
        command is VoteKickMember ==> after.asks.pending_vote == Some(
            (
                command->VoteKickMember_conversation_id,
                command->VoteKickMember_target_id,
            ),
        ) && out == seq![
            Action::Request(
                Request::ConversationVoteKick {
                    conversation_id: command->VoteKickMember_conversation_id,
                    target_id: command->VoteKickMember_target_id,
                },
            ),
        ],
        command is RenameGroup ==> out == seq![
            Action::Request(
                Request::ConversationUpdate {
                    conversation_id: command->RenameGroup_conversation_id,
                    title: command->RenameGroup_title,
                },
            ),
        ],
        command is CreateGroup ==> out.len() == 1 && (out[0] matches Action::Request(
            Request::ConversationCreate { kind, members, .. },
        ) && kind == ConversationKind::Group && members == command->CreateGroup_members),
        command is LeaveGroup || command is GroupRoster || command is VoteKickMember
            ==> after.signed == before.signed && after.sync == before.sync,
{
}

/// A direct chat is started between this account and its peer, without a title; without a peer, or an
/// account, none is.
pub proof fn law_a_direct_chat_is_between_two(
    before: Worker,
    command: Command,
    now: Timestamp,
    after: Worker,
    out: Seq<Action>,
    peer: Id,
)
    requires
        handled(before, command, now, after, out),
        command == (Command::StartDirect { peer: Some(peer) }) || command == (
        Command::StartDirectById { peer }),
    ensures
        after == before,
        before.signed is None ==> out.len() == 0,
        before.signed is Some ==> out.len() == 1 && (out[0] matches Action::Request(
            Request::ConversationCreate { kind, members, title },
        ) && kind == ConversationKind::Direct && title is None && members@.len() == 2
            && members@[0] == before.signed.unwrap().account.account_id && members@[1] == peer),
{
}

/// What is done with people asks for just that, of just them.
pub proof fn law_what_is_done_with_people(
    before: Worker,
    command: Command,
    now: Timestamp,
    after: Worker,
    out: Seq<Action>,
)
    requires
        handled(before, command, now, after, out),
    ensures
        command is PeerKeys ==> out == seq![
            Action::Request(
                Request::KeyBundleFetch { user_id: command->PeerKeys_user_id, device_id: None },
            ),
        ],
        command is AddFriend && command->target is Some ==> out == seq![
            Action::Request(Request::FriendRequest { user_id: command->target.unwrap() }),
        ],
        command is AddFriend && command->target is None ==> out.len() == 1 && (
        out[0] matches Action::Emit(Event::Toast { notice, .. }) && notice
            == Notice::EnterFriendId),
        command is RespondFriend ==> out == seq![
            Action::Request(
                Request::FriendRespond {
                    user_id: command->RespondFriend_user_id,
                    accept: command->accept,
                },
            ),
        ],
        command is BlockUser ==> out == seq![
            Action::Request(Request::BlockSet { user_id: command->BlockUser_user_id }),
        ],
        command is MuteUser ==> out == seq![
            Action::Request(
                Request::MuteSet { user_id: command->MuteUser_user_id, on: command->on },
            ),
        ],
        command is SaveProfile ==> out == seq![
            Action::Request(
                Request::ProfileUpdate { patch: command->SaveProfile_0, avatar_media_id: None },
            ),
        ],
        command is OwnProfile && before.signed is Some ==> out.len() == 1 && (
        out[0] matches Action::Request(Request::ProfileFetch { user_ids }) && user_ids@ == seq![
            before.signed.unwrap().account.account_id,
        ]),
        command is MemberProfile ==> after.asks.member_profile == Some(
            (command->MemberProfile_conversation_id, command->MemberProfile_user_id),
        ) && out.len() == 1,
        command is MemberStanding ==> {
            &&& after.asks.member_progression == Some(
                (command->MemberStanding_conversation_id, command->MemberStanding_user_id),
            )
            &&& after.asks.member_badges == Some(
                (command->MemberStanding_conversation_id, command->MemberStanding_user_id),
            )
            &&& out == seq![
                Action::Request(
                    Request::Progression { of_account: command->MemberStanding_user_id },
                ),
                Action::Request(Request::Badges { of_account: command->MemberStanding_user_id }),
            ]
        },
        command is MemberRank ==> after.asks.member_rank == Some(
            (command->MemberRank_conversation_id, command->MemberRank_user_id),
        ) && out == seq![Action::Request(Request::XpLeaderboard { limit: 100 })],
        command is MemberEdge ==> after.asks.member_edge == Some(
            (command->MemberEdge_conversation_id, command->MemberEdge_user_id),
        ) && out.len() == 1 && (out[0] matches Action::Request(request) && request
            is RelationshipList),
        command is Friends ==> out.len() == 1 && (out[0] matches Action::Request(request) && request
            is RelationshipList),
        command is Conversations ==> out.len() == 1 && (out[0] matches Action::Request(request)
            && request is ConversationList),
{
}

/// What is done with rooms and with money asks for just that: the room, the gift, its recipient, the
/// pack, and the key that makes a purchase safe to repeat.
pub proof fn law_what_is_done_with_rooms_and_money(
    before: Worker,
    command: Command,
    now: Timestamp,
    after: Worker,
    out: Seq<Action>,
)
    requires
        handled(before, command, now, after, out),
    ensures
        command is JoinRoom ==> out == seq![
            Action::Request(Request::RoomJoin { room_id: command->JoinRoom_room_id }),
        ],
        command is LeaveRoom ==> after.asks.pending_leave == Some(command->LeaveRoom_room_id) && out
            == seq![Action::Request(Request::RoomLeave { room_id: command->LeaveRoom_room_id })],
        command is CreateRoom ==> out == seq![
            Action::Request(
                Request::RoomCreate {
                    slug: command->slug,
                    name: command->CreateRoom_name,
                    kind: if command->managed { 2 } else { 1 },
                    topic: command->topic,
                },
            ),
        ],
        command is SendGift ==> out == seq![
            Action::Request(
                Request::GiftSend {
                    sku: command->sku,
                    recipient: command->SendGift_recipient,
                    client_key: command->SendGift_client_key,
                },
            ),
        ],
        command is BuyKickPoints ==> out == seq![
            Action::Request(
                Request::KickPointsBuy {
                    pack_kp: command->pack_kp,
                    client_key: command->BuyKickPoints_client_key,
                },
            ),
        ],
        command is Notifications ==> out == seq![
            Action::Request(Request::NotificationList { limit: 50 }),
        ],
        command is Suggestions ==> out == seq![Action::Request(Request::Suggestions { limit: 8 })],
        command is Entitlements ==> out == seq![Action::Request(Request::Entitlements)],
        command is GiftCatalogue ==> out == seq![Action::Request(Request::GiftCatalogue)],
        command is SearchPeople ==> out.len() == 1 && (out[0] matches Action::Request(
            Request::Search { query, limit },
        ) && limit == 10 && query@ == trimmed(command->SearchPeople_query@)),
        command is Rooms ==> out.len() == 1 && (out[0] matches Action::Request(
            Request::RoomList { limit, query },
        ) && limit == 50 && (query is Some ==> query.unwrap()@ == trimmed(
            command->Rooms_query@,
        )) && (query is None <==> trimmed(command->Rooms_query@).len() == 0)),
        command is Wallet && before.signed is Some ==> out == wallet_reads(
            before.signed.unwrap().account.account_id,
        ),
        command is ChainState ==> after == before && out == seq![
            Action::Emit(
                Event::ChainState { tx_hash: command->ChainState_tx_hash, state: command->state },
            ),
        ],
{
}

/// What is carried out at the edge changes nothing here, and is handed on as it was given; what needs
/// an account is dropped where nobody is signed in.
pub proof fn law_what_is_handed_to_the_edge(
    before: Worker,
    command: Command,
    now: Timestamp,
    after: Worker,
    out: Seq<Action>,
)
    requires
        handled(before, command, now, after, out),
        is_work(command),
    ensures
        after == before,
        needs_account(command) && before.signed is None ==> out.len() == 0,
        !needs_account(command) || before.signed is Some ==> out == seq![Action::Run(command)],
{
}

/// An attachment that is wanted is served from what was opened, or fetched once, or said to have no
/// key here; and it is fetched for the intent it was wanted for.
pub proof fn law_a_wanted_attachment_is_fetched_once(
    before: Worker,
    media_id: Id,
    intent: MediaIntent,
    after: Worker,
    out: Seq<Action>,
    other: Id,
)
    requires
        wanted(before, media_id, intent, after, out),
        other != media_id,
    ensures
        ({
            let cached = holds(before.fetches.cache@, media_id);
            let fetching = before.fetches.media_fetching@.contains(media_id);
            let keyed = before.signed is Some
                && before.signed.unwrap().media_keys.keys@.contains_key(media_id);
            &&& !cached && !fetching && keyed ==> {
                &&& after.fetches.media_fetching@.contains(media_id)
                &&& out.len() == 1
                &&& out[0] is AskMedia
                &&& out[0]->AskMedia_request == (Request::MediaFetchUrl { object_id: media_id })
                &&& out[0]->AskMedia_want.media_id == media_id
                &&& out[0]->AskMedia_want.intent == intent
            }
            &&& !cached && !fetching && !keyed ==> out.len() == 1 && (out[0] matches Action::Emit(
                Event::MediaFailed { media_id: failed, .. },
            ) && failed == media_id)
            &&& !cached && fetching ==> out.len() == 0
            &&& cached || fetching || !keyed ==> after.fetches.media_fetching@
                == before.fetches.media_fetching@
            &&& cached ==> forall|i: int|
                0 <= i < out.len() ==> !(#[trigger] out[i] is AskMedia)
        }),
        after.fetches.media_fetching@.contains(other) <==> before.fetches.media_fetching@.contains(
            other,
        ),
        after.signed == before.signed,
{
}

/// What a fetch, a save or a play wants is the object the command names, for showing, for saving
/// where it says, and for playing.
pub proof fn law_what_a_press_wants(
    before: Worker,
    command: Command,
    now: Timestamp,
    after: Worker,
    out: Seq<Action>,
)
    requires
        handled(before, command, now, after, out),
    ensures
        command is FetchMedia ==> wanted(
            before,
            command->FetchMedia_media_id,
            MediaIntent::Show,
            after,
            out,
        ),
        command is SaveMedia ==> wanted(
            before,
            command->SaveMedia_media_id,
            MediaIntent::SaveTo(command->SaveMedia_path),
            after,
            out,
        ),
        command is PlayVoiceNote && before.voice.playing == Some(command->PlayVoiceNote_media_id)
            ==> after.voice.playing is None && out.contains(Action::StopPlayback),
        command is PlayVoiceNote && before.voice.playing is None ==> wanted(
            Worker { voice: crate::voice::Voice { playing: None, ..before.voice }, ..before },
            command->PlayVoiceNote_media_id,
            MediaIntent::Play,
            after,
            out,
        ),
        command is StopVoiceNote ==> after.voice.playing is None && (before.voice.playing is Some
            ==> out.contains(Action::StopPlayback)),
        command is SetVoiceSpeed ==> after.voice.speed_percent == command->SetVoiceSpeed_percent
            && (before.voice.playing is Some <==> out.len() == 1) && (out.len() == 1 ==> out[0] == (
        Action::SetPace { percent: command->SetVoiceSpeed_percent })),
{
    if command is PlayVoiceNote {
        if before.voice.playing == Some(command->PlayVoiceNote_media_id) {
            let head = stopping(before.voice.playing);
            assert(out.subrange(0, head.len() as int)[0] == out[0]);
            assert(out[0] == Action::StopPlayback);
        } else if before.voice.playing is None {
            assert(stopping(before.voice.playing).len() == 0);
            assert(out.subrange(0, out.len() as int) =~= out);
        }
    }
    if command is StopVoiceNote && before.voice.playing is Some {
        assert(out[0] == Action::StopPlayback);
    }
}

/// A mark is set or cleared as it was asked, of its own note alone; it is written where it changed and
/// there is an account to write it for; and a note that was heard is told once.
pub proof fn law_a_mark_is_kept_as_asked(
    before: Worker,
    media_id: Id,
    listened: bool,
    told: bool,
    after: Worker,
    out: Seq<Action>,
    other: Id,
)
    requires
        marked(before, media_id, listened, told, after, out),
        other != media_id,
    ensures
        after.listened@.contains(media_id) <==> listened,
        after.listened@.contains(other) <==> before.listened@.contains(other),
        before.listened@.contains(media_id) == listened ==> out.len() == 0,
        before.listened@.contains(media_id) != listened && before.signed is Some ==> out.contains(
            Action::SaveListened,
        ),
        before.listened@.contains(media_id) != listened && told ==> out.contains(
            Action::Emit(Event::VoiceNoteListened { media_id }),
        ),
        !told ==> forall|i: int| 0 <= i < out.len() ==> !(#[trigger] out[i] is Emit),
{
    if before.listened@.contains(media_id) != listened {
        if before.signed is Some {
            assert(out[0] == Action::SaveListened);
        }
        if told {
            assert(out[out.len() - 1] == Action::Emit(Event::VoiceNoteListened { media_id }));
        }
    }
}

/// What a listener marks and what was heard: a mark by hand is not told back, one that was heard is.
pub proof fn law_what_was_heard_is_marked(
    before: Worker,
    command: Command,
    now: Timestamp,
    after: Worker,
    out: Seq<Action>,
)
    requires
        handled(before, command, now, after, out),
    ensures
        command is VoiceNoteHeard ==> after.listened@.contains(command->VoiceNoteHeard_media_id) && (
        !before.listened@.contains(command->VoiceNoteHeard_media_id) ==> out.contains(
            Action::Emit(
                Event::VoiceNoteListened { media_id: command->VoiceNoteHeard_media_id },
            ),
        )),
        command is SetVoiceNoteListened ==> (after.listened@.contains(
            command->SetVoiceNoteListened_media_id,
        ) <==> command->listened),
        command is VoiceNoteEnded && before.voice.playing == Some(
            command->VoiceNoteEnded_media_id,
        ) ==> after.voice.playing is None,
        command is VoiceNoteEnded && before.voice.playing != Some(
            command->VoiceNoteEnded_media_id,
        ) ==> after == before && out.len() == 0,
{
    if command is VoiceNoteHeard && !before.listened@.contains(command->VoiceNoteHeard_media_id) {
        assert(out[out.len() - 1] == Action::Emit(
            Event::VoiceNoteListened { media_id: command->VoiceNoteHeard_media_id },
        ));
    }
}

/// A transaction that ended is told under its own hash with its own outcome, and only records that
/// bear its hash can change; the account's other records stay.
pub proof fn law_an_ended_transaction_moves_its_own_record(
    before: Worker,
    tx_hash: String,
    outcome: String,
    block: Option<u64>,
    gas_used: Option<u128>,
    after: Worker,
    out: Seq<Action>,
)
    requires
        chain_ended(before, tx_hash, outcome, block, gas_used, after, out),
    ensures
        after.signed == before.signed,
        after.records.peers == before.records.peers,
        after.records.last_backup_at == before.records.last_backup_at,
        out.len() == 2,
        out[0] is Emit,
        out[0]->Emit_0 is ChainSettled,
        out[0]->Emit_0->ChainSettled_tx_hash == tx_hash,
        out[0]->Emit_0->ChainSettled_outcome@ == outcome@,
        out[1] is Emit,
        out[1]->Emit_0 is ChainActivity,
        before.records.txs is Some ==> after.records.txs is Some && after.records.txs.unwrap().0
            == before.records.txs.unwrap().0 && after.records.txs.unwrap().1@.len()
            == before.records.txs.unwrap().1@.len(),
{
}

/// A broadcast transaction is recorded before every earlier one, under its own hash, with what it
/// was signed to move and the most it can cost, as pending and unmined; it is told under the hash
/// the network answered with, and followed on its own network. Nothing else moves.
pub proof fn law_a_broadcast_is_recorded_as_signed(
    before: Worker,
    network: ChainNetwork,
    body: TxBody,
    tx_hash: [u8; 32],
    answered: String,
    now: Timestamp,
    after: Worker,
    out: Seq<Action>,
)
    requires
        before.signed is Some,
        chain_recorded(before, network, body, tx_hash, answered, now, after, out),
    ensures
        after.signed == before.signed,
        after.asks == before.asks,
        after.uploads == before.uploads,
        after.records.peers == before.records.peers,
        after.records.last_backup_at == before.records.last_backup_at,
        after.records.txs is Some,
        ({
            let all = after.records.txs.unwrap().1@;
            let record = all[0];
            &&& before.records.txs is None ==> after.records.txs.unwrap().0
                == before.signed.unwrap().account.account_id && all.len() == 1
            &&& before.records.txs matches Some((owner, earlier)) ==> after.records.txs.unwrap().0
                == owner && all.len() == earlier@.len() + 1 && (forall|i: int|
                0 <= i < earlier@.len() ==> all[i + 1] == #[trigger] earlier@[i])
            &&& record.tx_hash == tx_hash
            &&& record.chain_id == body.chain_id
            &&& record.to == body.to
            &&& record.value_wei == body.value
            &&& record.fee_wei <= body.max_fee_per_gas * body.gas_limit
            &&& body.max_fee_per_gas * body.gas_limit <= u128::MAX ==> record.fee_wei
                == body.max_fee_per_gas * body.gas_limit
            &&& record.gas_limit == body.gas_limit
            &&& now >= 0 ==> record.at_unix * 1000 <= now < record.at_unix * 1000 + 1000
            &&& record.outcome@ == "PENDING"@
            &&& record.block is None
            &&& record.gas_used is None
        }),
        out.len() == 3,
        out[0] is Emit,
        out[0]->Emit_0 is ChainSent,
        out[0]->Emit_0->ChainSent_0 is Ok,
        out[0]->Emit_0->ChainSent_0->Ok_0@ == answered@,
        out[1] is Emit,
        out[1]->Emit_0 is ChainActivity,
        out[2] is TrackTransaction,
        out[2]->TrackTransaction_network == network,
        out[2]->TrackTransaction_tx_hash == answered,
{
    let all = after.records.txs.unwrap().1@;
    let rest = all.subrange(1, all.len() as int);
    if let Some((owner, earlier)) = before.records.txs {
        assert forall|i: int| 0 <= i < earlier@.len() implies all[i + 1] == #[trigger] earlier@[i] by {
            assert(rest[i] == all[i + 1]);
        }
    }
}

/// An ending goes to the first record that bears the hash, and to no other: that one takes the
/// outcome, and the block and the cost where they are known; each other stays as it was.
pub proof fn law_an_ending_goes_to_the_first_of_its_hash(
    before: Worker,
    tx_hash: String,
    outcome: String,
    block: Option<u64>,
    gas_used: Option<u128>,
    after: Worker,
    out: Seq<Action>,
    i: int,
)
    requires
        chain_ended(before, tx_hash, outcome, block, gas_used, after, out),
        before.records.txs is Some,
        0 <= i < before.records.txs.unwrap().1@.len(),
    ensures
        ({
            let was = before.records.txs.unwrap().1@;
            let now = after.records.txs.unwrap().1@;
            let first = tracks(was[i], tx_hash@) && forall|j: int|
                0 <= j < i ==> !tracks(#[trigger] was[j], tx_hash@);
            &&& !first ==> now[i] == was[i]
            &&& first ==> now[i].outcome@ == outcome@ && now[i].tx_hash == was[i].tx_hash
                && now[i].value_wei == was[i].value_wei && now[i].to == was[i].to
            &&& first && block is Some ==> now[i].block == block
            &&& first && block is None ==> now[i].block == was[i].block
            &&& first && gas_used is Some ==> now[i].gas_used == gas_used
            &&& first && gas_used is None ==> now[i].gas_used == was[i].gas_used
        }),
{
    let now = after.records.txs.unwrap().1@;
    assert(now[i] == now[i]);
}

/// There is one speaker: pressing the note that plays stops it and asks for nothing more, and
/// pressing another stops the one that plays before anything else. Neither touches the account or
/// its records.
pub proof fn law_one_note_plays_at_a_time(
    before: Worker,
    media_id: Id,
    after: Worker,
    out: Seq<Action>,
)
    requires
        plays(before, media_id, after, out),
    ensures
        before.voice.playing is Some ==> out.len() > 0 && out[0] == Action::StopPlayback,
        before.voice.playing == Some(media_id) ==> {
            &&& after.voice.playing is None
            &&& after.signed == before.signed
            &&& after.records == before.records
            &&& after.fetches == before.fetches
            &&& forall|i: int| 0 <= i < out.len() ==> #[trigger] out[i] == Action::StopPlayback
                || out[i] is Emit
        },
{
    let head = stopping(before.voice.playing);
    if before.voice.playing is Some {
        assert(out.subrange(0, head.len() as int)[0] == out[0]);
    }
    if before.voice.playing == Some(media_id) {
        assert(out =~= head);
    }
}

/// A note that ended is no longer the one that plays; the end of any other changes nothing.
pub proof fn law_an_ended_note_no_longer_plays(
    before: Worker,
    media_id: Id,
    now: Timestamp,
    after: Worker,
    out: Seq<Action>,
)
    requires
        handled(before, Command::VoiceNoteEnded { media_id }, now, after, out),
    ensures
        after.signed == before.signed,
        after.records == before.records,
        after.voice.held_note == before.voice.held_note,
        after.voice.recording == before.voice.recording,
        before.voice.playing == Some(media_id) ==> after.voice.playing is None && out.len() > 0
            && out[0] == Action::StopPlayback,
        before.voice.playing != Some(media_id) ==> after == before && out.len() == 0,
{
}

} // verus!
