use std::collections::{HashMap, HashSet};

use migo_net::account::VaultKeys;
use migo_net::admin::{
    archive_wallet, fetch_contact_standing, fetch_wallets, publish_root_material, revoke_admin,
    set_contact,
};
use migo_net::command::Command;
use migo_net::economy::{Alert, Gift, LedgerEntry, Person};
use migo_net::effects::{
    Action, BadgeRow, Event, LeaderRow, MediaKind, Notice, OwnProfile, Progression, Relationship,
    Request, RosterMember, ToastKind,
};
use migo_net::gateway::{GatewayError, RefusalCode};
use migo_net::groups::ConversationMemberEvent;
use migo_net::ids::pairs_of;
use migo_net::inbound::{Frame, Inbound, Payload};
use migo_net::link::Welcome;
use migo_net::media::{
    attachment_not_put, attachment_not_sealed, attachment_put, attachment_seal, avatar_not_put,
    avatar_put,
    begin_attachment, commit_not_asked, AvatarPending, OutgoingMedia, SealDomain, TicketFor,
    Uploads, WireBytes,
};
use migo_net::notices::{fallback_text, media_failure_text, notice_text};
use migo_net::peers::{Bundle, Shown};
use migo_net::people::UserProfile;
use migo_net::rest::{
    os_name, DeviceRequest, Method, Os, Payload as Body, RegisteredWallet, Rest, RestCall,
    RestError,
};
use migo_net::rooms::{RoomListing, RoomMemberEvent};
use migo_net::server_probe::Transport;
use migo_net::signed::Account;
use migo_net::spending::{SpendAsk, SpendEvent, Spending};
use migo_net::wallet::{
    balance_read, may_prepare, refusal_text, ChainNetwork, PreparedTx, SendFacts,
};
use migo_net::wire::{
    DeliveryClass, EncryptionMode, Header, Id, MemberChange, Opcode, Presence, RelationshipKind,
    TopicKind,
};
use migo_net::worker::Worker;

const ME: Id = 1;
const PEER: Id = 10;
const CHAT: Id = 100;
const FUJI: ChainNetwork = ChainNetwork { place: 2 };

fn online() -> Worker {
    let mut worker = Worker::new(100);
    let keys = VaultKeys {
        session: None,
        root: None,
        rotated_identity_seed: None,
        txs: Vec::new(),
        peer_fingerprints: HashMap::new(),
        last_backup_at: None,
    };
    let account = Account {
        account_id: ME,
        device_id: 2,
        session_id: 3,
        username: "ada".to_owned(),
        safety_number: "1".to_owned(),
        holds_root: false,
    };
    let _ = worker.establish(
        account,
        Transport::WebSocket,
        "token".to_owned(),
        keys,
        &Vec::new(),
        HashSet::new(),
    );
    let stated = Welcome {
        session_id: 400,
        rich_presence: false,
        heartbeat_ms: 30_000,
        resumed: None,
    };
    let signed = worker.signed.as_mut().expect("signed in");
    let _ = worker
        .link
        .connected(signed, &mut worker.sync, stated, None, 100, 20);
    worker
}

fn hear(worker: &mut Worker, opcode: Opcode, payload: Payload) -> Vec<Action> {
    let header = Header {
        operation: Some((opcode, DeliveryClass::Critical)),
        correlation: 7,
        error: false,
    };
    worker.on_frame(
        Frame {
            header,
            body: Inbound::Payload(payload),
        },
        0,
    )
}

fn profile(user_id: Id, display_name: &str, presence: Option<Presence>) -> UserProfile {
    UserProfile {
        user_id,
        username: "handle".to_owned(),
        display_name: display_name.to_owned(),
        public_id: None,
        bio: Some("bio".to_owned()),
        presence,
        verified: true,
        custom_status: None,
        birth_year: Some(1815),
        country: None,
        language: None,
    }
}

#[test]
fn profiles_tell_names_and_answer_the_member_view() {
    let mut worker = online();
    let asked = worker.handle(
        Command::MemberProfile {
            conversation_id: CHAT,
            user_id: PEER,
        },
        0,
    );
    assert!(matches!(&asked[..], [Action::Request(Request::ProfileFetch { user_ids })]
        if user_ids == &vec![PEER]));
    let out = hear(
        &mut worker,
        Opcode::ProfileFetch,
        Payload::Profiles(vec![
            profile(ME, "", None),
            profile(PEER, "Grace", Some(Presence::Away)),
        ]),
    );
    assert_eq!(out.len(), 4);
    assert!(matches!(&out[0], Action::Emit(Event::OwnProfile(OwnProfile { presence, .. }))
        if *presence == Presence::Online));
    assert!(matches!(
        out[1],
        Action::Emit(Event::PresenceChanged { user_id: PEER, state: Presence::Away })
    ));
    assert!(matches!(&out[2], Action::Emit(Event::MemberProfile { conversation_id: CHAT, card })
        if card.verified && card.presence == Presence::Away));
    let Action::Emit(Event::Names(names)) = &out[3] else {
        panic!("names follow");
    };
    assert_eq!(names.get(&ME).map(String::as_str), Some("handle"));
    assert_eq!(names.get(&PEER).map(String::as_str), Some("Grace"));
    assert!(worker.asks.member_profile.is_none());
}

#[test]
fn only_an_own_card_is_a_save() {
    let mut worker = online();
    let other = Payload::Profile(profile(PEER, "Grace", None));
    assert!(hear(&mut worker, Opcode::ProfileUpdate, other).is_empty());
    let own = Payload::Profile(profile(ME, "Ada", None));
    let out = hear(&mut worker, Opcode::ProfileUpdate, own);
    assert!(matches!(
        &out[0],
        Action::Emit(Event::Toast { notice: Notice::ProfileSaved, kind: ToastKind::Success })
    ));
    assert!(matches!(&out[1], Action::Emit(Event::ProfileSaved(card)) if card.display_name == "Ada"));
}

#[test]
fn a_graph_answers_its_edge_and_watches_friends() {
    let mut worker = online();
    let _ = worker.handle(
        Command::MemberEdge {
            conversation_id: CHAT,
            user_id: 99,
        },
        0,
    );
    let edges = vec![
        Relationship { user_id: PEER, kind: RelationshipKind::Friend },
        Relationship { user_id: 11, kind: RelationshipKind::Blocked },
    ];
    let out = hear(&mut worker, Opcode::RelationshipList, Payload::Graph(edges.clone()));
    assert_eq!(out.len(), 4);
    assert!(matches!(out[0], Action::Emit(Event::MemberEdge { conversation_id: CHAT, kind: None })));
    assert!(matches!(&out[1], Action::Emit(Event::Relationships(told)) if told.len() == 2));
    assert!(matches!(&out[2], Action::Request(Request::ProfileFetch { user_ids })
        if user_ids == &vec![PEER, 11]));
    assert!(matches!(&out[3], Action::Request(Request::Subscribe { kind: TopicKind::User, ids })
        if ids == &vec![PEER]));
    let again = hear(&mut worker, Opcode::RelationshipList, Payload::Graph(edges));
    assert_eq!(again.len(), 2, "the friend is watched already, and nobody asked for an edge");
}

#[test]
fn social_events_say_what_they_claim() {
    let mut worker = online();
    let claim = |worker: &mut Worker, state: &str| {
        let out = hear(
            worker,
            Opcode::FriendEvent,
            Payload::Friend { user_id: PEER, state: state.to_owned() },
        );
        match &out[0] {
            Action::Emit(Event::FriendChanged { accepted, .. }) => *accepted,
            _ => panic!("a change is told"),
        }
    };
    assert_eq!(claim(&mut worker, "request"), Some(false));
    assert_eq!(claim(&mut worker, "accepted"), Some(true));
    assert_eq!(claim(&mut worker, "removed"), None);
    let unseen = Payload::Presence { user_id: PEER, state: Presence::Unknown };
    assert!(hear(&mut worker, Opcode::PresenceEvent, unseen).is_empty());
    let seen = Payload::Presence { user_id: PEER, state: Presence::Busy };
    assert_eq!(hear(&mut worker, Opcode::PresenceEvent, seen).len(), 1);
    let moved = Payload::Acknowledged { ok: true };
    assert!(matches!(
        hear(&mut worker, Opcode::BlockSet, moved)[..],
        [Action::Request(Request::RelationshipList { .. })]
    ));
    let refused = Payload::Acknowledged { ok: false };
    assert!(hear(&mut worker, Opcode::MuteSet, refused).is_empty());
}

fn standing(level: u32) -> Progression {
    Progression {
        level,
        xp: 5,
        xp_into_level: 1,
        xp_for_next_level: 9,
    }
}

#[test]
fn a_standing_goes_to_whoever_asked() {
    let mut worker = online();
    let _ = worker.handle(
        Command::MemberStanding {
            conversation_id: CHAT,
            user_id: PEER,
        },
        0,
    );
    let stranger = Payload::Progression { account_id: 77, progression: standing(1) };
    assert!(hear(&mut worker, Opcode::Progression, stranger).is_empty());
    assert!(worker.asks.member_progression.is_none(), "the ask is spent, matched or not");
    let own = Payload::Progression { account_id: ME, progression: standing(3) };
    assert!(matches!(
        hear(&mut worker, Opcode::Progression, own)[..],
        [Action::Emit(Event::ProgressionArrived(Progression { level: 3, .. }))]
    ));
    let badge = || BadgeRow { code: "first".to_owned(), awarded_at: 4 };
    assert!(matches!(
        hear(&mut worker, Opcode::Badges, Payload::Badges(vec![badge()]))[..],
        [Action::Emit(Event::MemberBadges { conversation_id: CHAT, .. })]
    ));
    assert!(matches!(&hear(&mut worker, Opcode::Badges, Payload::Badges(vec![badge()]))[..],
        [Action::Emit(Event::Badges(codes))] if codes == &vec!["first".to_owned()]));

    let _ = worker.handle(
        Command::MemberRank {
            conversation_id: CHAT,
            user_id: PEER,
        },
        0,
    );
    let row = LeaderRow { position: 4, account_id: PEER, xp: 1, level: 1 };
    assert!(matches!(
        hear(&mut worker, Opcode::Leaderboard, Payload::Board(vec![row]))[..],
        [Action::Emit(Event::MemberRank { conversation_id: CHAT, position: Some(4) })]
    ));
    assert!(matches!(
        hear(&mut worker, Opcode::Leaderboard, Payload::Board(vec![row]))[..],
        [Action::Emit(Event::Leaderboard(_))]
    ));
}

#[test]
fn the_wallet_is_read_again_after_a_purchase() {
    let mut worker = online();
    let out = hear(&mut worker, Opcode::KickPointsBuy, Payload::PackBought { duplicate: true });
    assert_eq!(out.len(), 7);
    assert!(matches!(
        &out[0],
        Action::Emit(Event::Toast { notice: Notice::KickPointsAlreadyBought, .. })
    ));
    assert!(matches!(out[1], Action::Request(Request::BalanceFetch)));
    let entry = LedgerEntry {
        credit: true,
        reason: "gift".to_owned(),
        amount: 5,
        balance_after: 9,
        at: 3,
    };
    assert!(matches!(&hear(&mut worker, Opcode::LedgerHistory, Payload::Ledger(vec![entry]))[..],
        [Action::Emit(Event::Ledger(rows))] if rows[0].credit && rows[0].amount == 5));
    let gift = Gift {
        sku: "rose".to_owned(),
        name: "Rose".to_owned(),
        price: 2,
        category: "flower".to_owned(),
    };
    assert!(matches!(&hear(&mut worker, Opcode::GiftCatalogue, Payload::Gifts(vec![gift]))[..],
        [Action::Emit(Event::Gifts(rows))] if rows[0].sku == "rose" && rows[0].price == 2));
    let alert = Alert {
        id: 1,
        kind: "mention".to_owned(),
        title: None,
        at: 8,
    };
    assert!(matches!(&hear(&mut worker, Opcode::NotificationList, Payload::Alerts(vec![alert]))[..],
        [Action::Emit(Event::Alerts(rows))] if rows[0].kind == "mention"));
    let person = Person {
        account_id: PEER,
        username: "grace".to_owned(),
        display_name: "Grace".to_owned(),
        mutual_friends: 3,
    };
    assert!(matches!(&hear(&mut worker, Opcode::Search, Payload::People(vec![person]))[..],
        [Action::Emit(Event::People(rows))] if rows[0].mutual_friends == 3));
    assert!(matches!(&worker.handle(Command::SearchPeople { query: " grace ".to_owned() }, 0)[..],
        [Action::Request(Request::Search { query, limit: 10 })] if query == "grace"));
}

#[test]
fn a_room_is_joined_and_its_bell_is_probed() {
    let mut worker = online();
    let joined = Payload::RoomJoined {
        room_id: 60,
        conversation_id: CHAT,
        title: "lobby".to_owned(),
    };
    let out = hear(&mut worker, Opcode::RoomJoin, joined);
    assert_eq!(out.len(), 4);
    assert!(matches!(out[0], Action::SaveBridges));
    assert!(matches!(&out[2], Action::Request(Request::Subscribe { kind: TopicKind::Room, ids })
        if ids == &vec![60]));
    let signed = worker.signed.as_ref().expect("signed in");
    assert_eq!(pairs_of(&signed.room_conversations), vec![(60, CHAT)]);

    let bell = |room_id: Id| RoomMemberEvent {
        room_id,
        user_id: ME,
        change: None,
        joined: true,
        member_count: Some(4),
    };
    let out = hear(&mut worker, Opcode::RoomMemberEvent, Payload::RoomMember(bell(61)));
    assert!(matches!(out[0], Action::Request(Request::RoomRoster { room_id: 61, limit: 1 })));
    assert_eq!(worker.asks.pending_room_probe, Some(61));
    let out = hear(&mut worker, Opcode::RoomRoster, Payload::RoomRoster);
    assert!(matches!(out[..], [Action::Request(Request::RoomJoin { room_id: 61 })]));
    assert_eq!(worker.asks.pending_room_probe, None);
    let out = hear(&mut worker, Opcode::RoomMemberEvent, Payload::RoomMember(bell(60)));
    assert!(matches!(
        out[..],
        [Action::Emit(Event::RoomMember { room_id: 60, change: MemberChange::Joined, .. })]
    ));
    let left = RoomMemberEvent {
        room_id: 60,
        user_id: PEER,
        change: Some(MemberChange::Left),
        joined: false,
        member_count: None,
    };
    let out = hear(&mut worker, Opcode::RoomMemberEvent, Payload::RoomMember(left));
    assert!(matches!(out[0], Action::RotateChain { conversation_id: CHAT }));
}

#[test]
fn rooms_are_listed_and_asked_for() {
    let mut worker = online();
    let listing = RoomListing {
        room_id: 60,
        name: "lobby".to_owned(),
        topic: None,
        member_count: 9,
        online_count: 2,
        category: None,
        verified: None,
    };
    assert!(matches!(&hear(&mut worker, Opcode::RoomList, Payload::Rooms(vec![listing]))[..],
        [Action::Emit(Event::Rooms(rows))] if !rows[0].verified && rows[0].online_count == 2));
    assert!(matches!(&worker.handle(Command::Rooms { query: "  ".to_owned() }, 0)[..],
        [Action::Request(Request::RoomList { limit: 50, query: None })]));
    let create = Command::CreateRoom {
        slug: "lobby".to_owned(),
        name: "Lobby".to_owned(),
        managed: true,
        topic: None,
    };
    assert!(matches!(
        worker.handle(create, 0)[..],
        [Action::Request(Request::RoomCreate { kind: 2, topic: None, .. })]
    ));
    assert!(matches!(
        worker.handle(Command::LeaveRoom { room_id: 60 }, 0)[..],
        [Action::Request(Request::RoomLeave { room_id: 60 })]
    ));
    assert_eq!(worker.asks.pending_leave, Some(60));
}

#[test]
fn a_vote_is_told_of_the_conversation_it_was_cast_in() {
    let mut worker = online();
    let _ = worker.handle(
        Command::VoteKickMember {
            conversation_id: CHAT,
            target_id: PEER,
        },
        0,
    );
    let tally = || Payload::Tally {
        votes: 1,
        needed: 3,
        member_count: 5,
        open: true,
    };
    assert!(matches!(
        hear(&mut worker, Opcode::ConversationVoteKick, tally())[..],
        [Action::Emit(Event::GroupVoteStatus {
            conversation_id: CHAT,
            target_id: PEER,
            votes: 1,
            needed: 3,
            member_count: 5,
            open: true,
        })]
    ));
    assert!(hear(&mut worker, Opcode::ConversationVoteKick, tally()).is_empty());
    let renamed = Payload::Renamed { title: Some("crew".to_owned()) };
    let out = hear(&mut worker, Opcode::ConversationUpdate, renamed);
    assert!(matches!(&out[0], Action::Emit(Event::Toast { notice, .. })
        if matches!(notice, Notice::GroupRenamed { title } if title == "crew")));
    assert!(matches!(out[1], Action::Request(Request::ConversationList { .. })));
}

#[test]
fn a_roster_answers_the_panel_that_asked() {
    let mut worker = online();
    let created = Payload::Created {
        conversation_id: CHAT,
        members: Some(vec![ME]),
        encryption: EncryptionMode::EndToEnd,
    };
    let _ = hear(&mut worker, Opcode::ConversationCreate, created);
    let out = worker.handle(Command::GroupRoster { conversation_id: CHAT }, 0);
    assert!(matches!(
        out[..],
        [Action::Request(Request::ConversationRoster { conversation_id: CHAT })]
    ));
    let member = |account_id: Id, left_at| RosterMember {
        account_id,
        role: 0,
        joined_at: 1,
        muted_until: None,
        left_at,
    };
    let entries = vec![member(ME, None), member(PEER, None), member(12, Some(5))];
    let out = hear(&mut worker, Opcode::ConversationRoster, Payload::Roster(entries));
    assert!(matches!(&out[0], Action::Emit(Event::GroupRoster { conversation_id: CHAT, members })
        if members.len() == 3));
    assert!(worker.asks.group_rosters.is_empty());
    let signed = worker.signed.as_ref().expect("signed in");
    let cache = signed.members.get(&CHAT).expect("the membership is held");
    assert!(cache.complete);
    assert_eq!(cache.ids, vec![ME, PEER], "who left is no member");
    let removed = ConversationMemberEvent {
        conversation_id: CHAT,
        user_id: ME,
        change: MemberChange::Kicked,
        group_key_epoch: None,
    };
    let out = hear(&mut worker, Opcode::ConversationMemberEvent, Payload::Member(removed));
    assert!(out.iter().any(|action| matches!(
        action,
        Action::Emit(Event::GroupLeft { conversation_id: CHAT })
    )));
    let signed = worker.signed.as_ref().expect("signed in");
    assert!(!signed.members.contains_key(&CHAT));
}

fn plan(kind: MediaKind) -> OutgoingMedia {
    OutgoingMedia {
        kind,
        mime_type: "application/octet-stream".to_owned(),
        size_bytes: 3,
        key: Vec::new(),
        nonce: Vec::new(),
        width: None,
        height: None,
        duration_ms: None,
        waveform: None,
        caption: None,
        expires_in_ms: None,
    }
}

#[test]
fn a_document_is_sealed_even_into_a_room() {
    let mut worker = online();
    let created = Payload::Created {
        conversation_id: CHAT,
        members: Some(vec![ME]),
        encryption: EncryptionMode::ServerReadable,
    };
    let _ = hear(&mut worker, Opcode::ConversationCreate, created);
    let seal = |worker: &Worker, conversation_id, kind| {
        attachment_seal(&worker.signed, conversation_id, kind, None).ok().expect("signed in")
    };
    assert_eq!(seal(&worker, CHAT, MediaKind::Document), Some(SealDomain::Media));
    assert_eq!(seal(&worker, CHAT, MediaKind::Image), None);
    assert_eq!(seal(&worker, CHAT, MediaKind::VoiceNote), None);
    assert_eq!(seal(&worker, 555, MediaKind::VoiceNote), Some(SealDomain::Voice));
    let out = attachment_seal(&None, CHAT, MediaKind::VoiceNote, Some(CHAT));
    assert!(matches!(&out.err().expect("signed out")[..], [Action::RestoreDraft { .. }]));
    assert_eq!(attachment_not_sealed("torn".to_owned(), Some(CHAT)).len(), 2);
}

#[test]
fn an_upload_that_fails_gives_its_note_back() {
    let wire = WireBytes {
        sealed: true,
        key: vec![1],
        nonce: vec![2],
        bytes: vec![3, 4],
    };
    let (_, begun) = begin_attachment(CHAT, 9, plan(MediaKind::VoiceNote), wire, Some(CHAT));
    assert_eq!(begun.plan.key, vec![1]);
    assert_eq!(begun.wire_bytes, vec![3, 4]);
    let mut uploads = Uploads::new();
    uploads.asked_begin(5, begun);
    assert!(matches!(uploads.ticket_arrived(6), TicketFor::Nobody));
    assert!(matches!(uploads.ticket_arrived(5), TicketFor::Attachment(kept) if kept.message_id == 9));
    let out = attachment_not_put(7, "no route".to_owned(), Some(CHAT));
    assert_eq!(out.len(), 3);
    assert!(out.iter().any(|action| matches!(action, Action::Request(Request::MediaAbort { upload_id: 7 }))));
    assert!(out.iter().any(|action| matches!(action, Action::RestoreDraft { conversation_id: CHAT })));
    let out = commit_not_asked(7, None);
    assert!(out.iter().all(|action| !matches!(action, Action::RestoreDraft { .. })));
    let pending = AvatarPending { bytes: b"abc".to_vec() };
    assert!(matches!(avatar_put(8, &pending), Request::MediaCommit { upload_id: 8, digest }
        if digest.len() == 32 && digest[0] == 0xba));
    let out = avatar_not_put(8, "no route".to_owned());
    assert!(out.iter().any(|action| matches!(action, Action::Emit(Event::AvatarChangeFailed { .. }))));
}

fn refused() -> RestError {
    RestError::Server {
        code: 4,
        symbol: "NO".to_owned(),
        message: "not yours".to_owned(),
        captcha: None,
    }
}

fn told(action: &Action) -> String {
    match action {
        Action::Emit(Event::Toast { notice, .. }) => notice_text(notice),
        _ => String::new(),
    }
}

#[test]
fn the_panels_are_read_again_after_a_change() {
    let out = revoke_admin(Ok(()));
    assert!(matches!(out.last(), Some(Action::ReadAdmins)));
    let out = revoke_admin(Err(refused()));
    assert!(matches!(&out[..], [Action::Emit(Event::AdminChangeFailed { reason })]
        if reason == "not yours"));
    let out = archive_wallet(Ok(()));
    assert!(matches!(out.last(), Some(Action::ReadWallets)));
    assert_eq!(told(&archive_wallet(Err(refused()))[0]), "not yours");
    assert!(publish_root_material(Ok(())).is_empty());
    assert_eq!(publish_root_material(Err(refused())).len(), 1);
    assert!(matches!(set_contact(Ok(())),
        Action::Emit(Event::Toast { notice: Notice::ContactSaved, kind: ToastKind::Success })));
    assert_eq!(told(&set_contact(Err(refused()))), "not yours");
    assert!(matches!(fetch_contact_standing(Ok(true)), Event::ContactStanding(Ok(true))));
    assert!(matches!(fetch_contact_standing(Err(refused())), Event::ContactStanding(Err(reason))
        if reason == "not yours"));
    let wallet = RegisteredWallet {
        wallet_id: 5,
        address: "0xab".to_owned(),
        label: None,
        derivation_index: 0,
        status: "active".to_owned(),
    };
    assert!(matches!(fetch_wallets(Ok(vec![wallet])), Event::Wallets(Ok(rows))
        if rows[0].address == "0xab" && rows[0].derivation_index == 0));
    assert!(matches!(fetch_wallets(Err(refused())), Event::Wallets(Err(_))));
}

#[test]
fn a_transaction_is_prepared_only_from_a_root() {
    let to = [7u8; 20];
    assert!(matches!(may_prepare(Ok(to), Some(5), true, Some("0xme".to_owned())),
        Ok((kept, 5, from)) if kept == to && from == "0xme"));
    let text = |r: Result<([u8; 20], u128, String), _>| refusal_text(&r.err().expect("refused"));
    assert_eq!(text(may_prepare(Err("bad checksum".to_owned()), None, false, None)), "bad checksum");
    let without_root = text(may_prepare(Ok(to), Some(5), false, None));
    let without_wallet = text(may_prepare(Ok(to), Some(5), true, None));
    assert_eq!(without_wallet, "the account root did not derive a wallet");
    assert_ne!(without_root, without_wallet);
    assert!(matches!(balance_read(FUJI, "0xme".to_owned(), Ok(9)),
        Event::ChainBalance { network: FUJI, balance: Ok(9), .. }));
    assert!(matches!(balance_read(FUJI, "0xme".to_owned(), Err("offline".to_owned())),
        Event::ChainBalance { balance: Err(refusal), .. } if refusal_text(&refusal) == "offline"));
}

#[test]
fn what_was_sent_is_recorded_before_it_settles() {
    let mut worker = online();
    let tx = PreparedTx {
        network: FUJI,
        from: "0xme".to_owned(),
        to: "0xyou".to_owned(),
        value_wei: 5,
        max_priority_fee_per_gas: 1,
        max_fee_per_gas: u128::MAX,
        gas_limit: 21_000,
        nonce: 0,
    };
    let facts = SendFacts {
        chain_id: 43_113,
        to: Ok([7; 20]),
        holds_root: true,
        own_address: Some("0xme".to_owned()),
    };
    let at = Spending::Checking { tx };
    let (at, ask) = worker.chain_send(at, SpendEvent::Checked(facts), 4_999);
    assert!(matches!(ask, SpendAsk::Sign { body }
        if body.to == [7; 20] && body.value == 5 && body.chain_id == 43_113 && body.nonce == 0));
    let (at, ask) = worker.chain_send(at, SpendEvent::Signed(Ok([9; 32])), 4_999);
    assert!(matches!(ask, SpendAsk::Broadcast { network: FUJI }));
    let accepted = SpendEvent::Broadcast(Ok("0x09".to_owned()));
    let (at, ask) = worker.chain_send(at, accepted, 4_999);
    assert!(matches!(at, Spending::Ended));
    let SpendAsk::End { told: out } = ask else {
        panic!("it is over");
    };
    assert_eq!(out.len(), 3);
    assert!(matches!(&out[0], Action::Emit(Event::ChainSent(Ok(hash))) if hash == "0x09"));
    let Action::Emit(Event::ChainActivity(rows)) = &out[1] else {
        panic!("the list follows");
    };
    assert_eq!(rows[0].fee_wei, u128::MAX, "the fee's bound saturates");
    assert_eq!(rows[0].at, 4_000);
    assert_eq!(rows[0].outcome, "PENDING");
    assert!(matches!(&out[2], Action::TrackTransaction { network: FUJI, tx_hash }
        if tx_hash == "0x09"));
}

#[test]
fn each_state_of_a_followed_transaction_is_told() {
    let mut worker = online();
    let passed = Command::ChainState {
        tx_hash: "0x09".to_owned(),
        state: "PENDING".to_owned(),
    };
    assert!(matches!(&worker.handle(passed, 0)[..],
        [Action::Emit(Event::ChainState { tx_hash, state })]
            if tx_hash == "0x09" && state == "PENDING"));
}

#[test]
fn an_identity_is_told_by_the_number_of_the_pair() {
    let mut worker = online();
    let bundle = |fingerprint: [u8; 32]| Bundle {
        user_id: PEER,
        device_id: 20,
        identity: Some(Shown {
            fingerprint,
            safety_number: "12345 67890".to_owned(),
        }),
    };
    let bundles = Payload::Bundles(vec![bundle([1; 32])]);
    let out = hear(&mut worker, Opcode::KeyBundleFetch, bundles);
    assert!(matches!(&out[..], [
        Action::Emit(Event::PeerIdentity { user_id: PEER, safety_number, changed: false, .. }),
        Action::RetryGroupKeyAsk,
    ] if safety_number == "12345 67890"));
    let bundles = Payload::Bundles(vec![bundle([2; 32])]);
    let out = hear(&mut worker, Opcode::KeyBundleFetch, bundles);
    assert!(matches!(out[0], Action::Emit(Event::PeerIdentity { changed: true, .. })));
}

#[test]
fn a_committed_note_leaves_its_draft() {
    let mut worker = online();
    let wire = WireBytes {
        sealed: true,
        key: vec![1],
        nonce: vec![2],
        bytes: vec![3, 4],
    };
    let (_, begun) = begin_attachment(CHAT, 9, plan(MediaKind::VoiceNote), wire, Some(CHAT));
    let (_, commit) = attachment_put(70, begun);
    worker.uploads.asked_commit(7, commit);
    let done = Payload::Acknowledged { ok: true };
    let out = hear(&mut worker, Opcode::MediaUploadCommit, done);
    assert!(matches!(out[0], Action::ClearDraft { conversation_id: CHAT }));
    assert!(matches!(out[2], Action::Send { conversation_id: CHAT, .. }));
    let again = Payload::Acknowledged { ok: true };
    assert!(hear(&mut worker, Opcode::MediaUploadCommit, again).is_empty());
}

#[test]
fn a_refused_upload_hands_its_note_back() {
    let voice_note = || {
        let wire = WireBytes {
            sealed: true,
            key: vec![1],
            nonce: vec![2],
            bytes: vec![3, 4],
        };
        begin_attachment(CHAT, 9, plan(MediaKind::VoiceNote), wire, Some(CHAT)).1
    };
    let refusal = |opcode: Opcode| Frame {
        header: Header {
            operation: Some((opcode, DeliveryClass::Critical)),
            correlation: 7,
            error: true,
        },
        body: Inbound::Refusal(GatewayError::Refused {
            code: RefusalCode::Other(3),
            message: "too large".to_owned(),
        }),
    };
    let mut worker = online();
    worker.uploads.asked_begin(7, voice_note());
    let out = worker.on_frame(refusal(Opcode::MediaUploadBegin), 0);
    assert!(matches!(out[..], [
        Action::Emit(Event::Toast { .. }),
        Action::RestoreDraft { conversation_id: CHAT },
    ]));
    assert_eq!(told(&out[0]), "too large");
    let again = worker.on_frame(refusal(Opcode::MediaUploadBegin), 0);
    assert!(matches!(again[..], [Action::Emit(Event::Toast { .. })]), "nothing waits any more");

    let (_, commit) = attachment_put(70, voice_note());
    worker.uploads.asked_commit(7, commit);
    let out = worker.on_frame(refusal(Opcode::MediaUploadCommit), 0);
    assert!(matches!(out[1], Action::RestoreDraft { conversation_id: CHAT }));
    assert!(worker.uploads.attachment_commits.is_empty());
}

#[test]
fn a_send_that_is_refused_records_nothing() {
    let mut worker = online();
    let tx = PreparedTx {
        network: FUJI,
        from: "0xanother".to_owned(),
        to: "0xyou".to_owned(),
        value_wei: 5,
        max_priority_fee_per_gas: 1,
        max_fee_per_gas: 2,
        gas_limit: 21_000,
        nonce: 0,
    };
    let facts = SendFacts {
        chain_id: 43_113,
        to: Ok([7; 20]),
        holds_root: true,
        own_address: Some("0xme".to_owned()),
    };
    let at = Spending::Checking { tx };
    let (_, ask) = worker.chain_send(at, SpendEvent::Checked(facts), 0);
    assert!(matches!(ask, SpendAsk::End { told } if matches!(&told[..],
        [Action::Emit(Event::ChainSent(Err(refusal)))] if refusal_text(refusal)
            == "the prepared transaction names a different sender; prepare it again here")));
    let kept = worker.records.txs.as_ref().map(|(_, records)| records.len());
    assert_eq!(kept, Some(0));
}

fn goes(call: &RestCall, method: Method, path: &str, token: Option<&str>) -> bool {
    call.method == method
        && call.url == format!("https://migo.example{path}")
        && call.token.as_deref() == token
}

#[test]
fn every_call_goes_to_its_own_route() {
    let rest = Rest::new("https://migo.example").ok().expect("usable");
    let device = || DeviceRequest::describe(Some(4), Os::Windows, "1.0");
    assert!(goes(&rest.request_captcha(Some("audio")), Method::Post, "/v1/auth/captcha", None));
    let call = rest.login("ada", "words", device(), None);
    assert!(goes(&call, Method::Post, "/v1/auth/login", None));
    assert!(matches!(call.body, Body::Login { identifier, captcha: None, .. } if identifier == "ada"));
    assert!(goes(&rest.logout("t", 3), Method::Post, "/v1/auth/logout", Some("t")));
    let call = rest.identity_login_challenge("ada", 4);
    assert!(goes(&call, Method::Post, "/v1/auth/identity/challenge", None));
    assert!(matches!(call.body, Body::IdentityChallenge { device_id: Some(4), account_id: None, .. }));
    let call = rest.identity_add_device_challenge(1, device());
    assert!(goes(&call, Method::Post, "/v1/auth/identity/challenge", None));
    assert!(matches!(call.body, Body::IdentityChallenge { account_id: Some(1), device: Some(_), .. }));
    let call = rest.identity_add_device(9, &vec![0], &vec![1], &vec![2]);
    assert!(goes(&call, Method::Post, "/v1/auth/identity/add-device", None));
    assert!(matches!(call.body, Body::AddDevice { challenge_id: 9, device_public_key, .. }
        if device_public_key == "AQ=="));
    let call = rest.publish_identity_key("t", &vec![0], None);
    assert!(goes(&call, Method::Post, "/v1/auth/identity/key", Some("t")));
    assert!(matches!(call.body, Body::PublishKey { identity_public_key, device_public_key: None }
        if identity_public_key == "AA=="));
    assert!(goes(&rest.devices("t"), Method::Get, "/v1/devices", Some("t")));
    assert!(goes(&rest.wallets("t"), Method::Get, "/v1/wallets", Some("t")));
    let call = rest.register_wallet("t", "0xab", 2, None);
    assert!(goes(&call, Method::Put, "/v1/wallets", Some("t")));
    assert!(matches!(call.body, Body::Wallet { address, derivation_index: 2, .. } if address == "0xab"));
    assert!(goes(&rest.archive_wallet("t", "w"), Method::Post, "/v1/wallets/w", Some("t")));
    assert!(goes(&rest.revoke_device("t", "d"), Method::Post, "/v1/devices/d/revoke", Some("t")));
    assert!(goes(&rest.set_contact("t", "a@b"), Method::Put, "/v1/auth/contact", Some("t")));
    assert!(goes(&rest.admin_standing("t"), Method::Get, "/v1/admins/whoami", Some("t")));
    assert!(goes(&rest.global_admins("t"), Method::Get, "/v1/admins", Some("t")));
    assert!(goes(&rest.grant_global_admin("t", "ada"), Method::Put, "/v1/admins", Some("t")));
    assert!(goes(&rest.revoke_global_admin("t", "a"), Method::Delete, "/v1/admins/a", Some("t")));
    assert_ne!(os_name(Os::Linux), os_name(Os::MacOs));
}

#[test]
fn a_fallback_and_a_failed_picture_have_their_sentences() {
    let text = fallback_text(migo_net::effects::FallbackReason::TcpUnreachable);
    assert_eq!(text, "could not reach the TCP listener; connected over WebSocket");
    let text = fallback_text(migo_net::effects::FallbackReason::QuicNotNegotiated);
    assert_eq!(text, "the server did not negotiate QUIC; connected over WebSocket");
    let failure = migo_net::effects::MediaFailure::NotOpened { reason: "torn".to_owned() };
    assert!(media_failure_text(&failure).contains("torn"));
}
