use std::collections::{HashMap, HashSet};

use migo_net::account::VaultKeys;
use migo_net::command::Command;
use migo_net::content::{Body, Content, Delivery};
use migo_net::conversations::Summary;
use migo_net::effects::{
    Action, Connection, Event, FallbackReason, Failure, Notice, Outgoing, Request, RosterMember,
    SendKind,
};
use migo_net::gateway::{GatewayError, RefusalCode};
use migo_net::groups::ConversationMemberEvent;
use migo_net::inbound::{Frame, Inbound, Payload};
use migo_net::link::{
    connect_websocket, first_dial, hello, next_dial, Dial, Feature, NativeAnswer, SocketAddress,
    Welcome,
};
use migo_net::peers::{Bundle, Shown};
use migo_net::rooms::RoomMemberEvent;
use migo_net::sealing::{Arrival, MessageEvent, Opened};
use migo_net::sending::{
    envelope_for, key_exchanges, not_encoded, redistributions, DeviceSeal, SealedContent, SendAsk,
    SendEvent, Sending,
};
use migo_net::server_probe::Transport;
use migo_net::signed::Account;
use migo_net::sync::PageKind;
use migo_net::transcript::{drain_pending, page_ends, page_event, redeliver};
use migo_net::wire::{
    ConversationKind, DeliveryClass, EncryptionMode, Header, Id, MemberChange, MessageKind, Opcode,
    TopicKind,
};
use migo_net::worker::Worker;

const ME: Id = 1;
const MY_DEVICE: Id = 2;
const PEER: Id = 10;
const PEER_DEVICE: Id = 20;
const CHAT: Id = 100;

fn keys() -> VaultKeys {
    VaultKeys {
        session: None,
        root: None,
        rotated_identity_seed: None,
        txs: Vec::new(),
        peer_fingerprints: HashMap::new(),
        last_backup_at: Some(9),
    }
}

fn worker() -> Worker {
    let mut worker = Worker::new(100);
    let account = Account {
        account_id: ME,
        device_id: MY_DEVICE,
        session_id: 3,
        username: "ada".to_owned(),
        safety_number: "12345".to_owned(),
        holds_root: true,
    };
    let out = worker.establish(
        account,
        Transport::WebSocket,
        "token".to_owned(),
        keys(),
        &vec![(50, 51)],
        HashSet::from([77]),
    );
    assert_eq!(out.len(), 5);
    assert!(matches!(&out[0], Action::Emit(Event::SignedIn(told)) if told.username == "ada"));
    assert!(matches!(out[1], Action::Emit(Event::BackupState { last_backup_at: Some(9) })));
    assert!(matches!(&out[3], Action::Emit(Event::VoiceNotesListened { media_ids }) if media_ids == &vec![77]));
    assert!(matches!(out[4], Action::Connect));
    worker
}

fn welcome(resumed: Option<bool>) -> Welcome {
    Welcome {
        session_id: 400,
        rich_presence: true,
        heartbeat_ms: 30_000,
        resumed,
    }
}

fn connect(worker: &mut Worker, stated: Welcome) -> Vec<Action> {
    let signed = worker.signed.as_mut().expect("signed in");
    worker
        .link
        .connected(signed, &mut worker.sync, stated, None, 100, 20)
}

fn online() -> Worker {
    let mut worker = worker();
    let _ = connect(&mut worker, welcome(None));
    worker
}

fn frame(opcode: Opcode, payload: Payload) -> Frame {
    Frame {
        header: Header {
            operation: Some((opcode, DeliveryClass::Critical)),
            correlation: 7,
            error: false,
        },
        body: Inbound::Payload(payload),
    }
}

fn event(seq: u64) -> MessageEvent {
    MessageEvent {
        message_id: 1000 + seq as Id,
        conversation_id: CHAT,
        seq,
        sender_id: PEER,
        sender_device: PEER_DEVICE,
        kind: MessageKind::Content,
        envelope: vec![1, 2, 3],
        created_at: 5_000,
        edited_at: None,
        deleted: None,
    }
}

fn says(seq: u64, text: &str) -> Arrival {
    Arrival {
        event: event(seq),
        opened: Opened::Content(Content::Text {
            text: text.to_owned(),
            expires_in_ms: Some(60),
        }),
        adopted: false,
    }
}

fn listed(kind: ConversationKind, encryption: EncryptionMode) -> Payload {
    Payload::Conversations(vec![Summary {
        conversation_id: CHAT,
        title: None,
        members: Some(vec![ME, PEER]),
        encryption,
        last_seq: 0,
        read_seq: 0,
        kind,
        last_message: None,
    }])
}

#[test]
fn a_fresh_session_opens_with_every_first_read() {
    let mut worker = worker();
    let out = connect(&mut worker, welcome(None));
    assert!(matches!(out[0], Action::Emit(Event::RichPresence(true))));
    assert!(matches!(out[1], Action::Emit(Event::Connection(Connection::Online))));
    assert!(matches!(out[2], Action::Request(Request::KeyPublish)));
    assert!(matches!(&out[3], Action::Request(Request::Subscribe { kind: TopicKind::Room, ids }) if ids == &vec![50]));
    assert!(matches!(&out[4], Action::Request(Request::Subscribe { kind: TopicKind::User, ids }) if ids == &vec![ME]));
    assert_eq!(out.len(), 17);
    let held = worker.link.session.as_ref().expect("a session");
    assert_eq!((held.id, held.sequenced), (400, 0));
    let timers = worker.timers();
    assert_eq!(timers.heartbeat.map(|d| d.nanos), Some(15_000_000_000));
    assert_eq!(timers.retry_ms, None);
}

#[test]
fn few_one_time_keys_are_told() {
    let mut worker = worker();
    let signed = worker.signed.as_mut().expect("signed in");
    let out = worker.link.connected(
        signed,
        &mut worker.sync,
        welcome(None),
        Some(FallbackReason::QuicUnreachable),
        5,
        20,
    );
    assert!(matches!(
        out[1],
        Action::Emit(Event::Connection(Connection::Fallback(FallbackReason::QuicUnreachable)))
    ));
    assert!(matches!(&out[3], Action::Emit(Event::Toast { notice: Notice::FewOneTimeKeys { left: 5 }, .. })));
}

#[test]
fn a_resumed_session_keeps_its_count_and_reads_nothing() {
    let mut worker = online();
    let _ = worker.on_frame(frame(Opcode::MessageEvent, Payload::Message(says(1, "hi"))), 0);
    let out = worker.link.on_disconnect(true, &GatewayError::Closed("gone".to_owned()), [0, 0]);
    assert!(matches!(out[0], Action::CallsOffline));
    assert!(matches!(&out[1], Action::Emit(Event::Connection(Connection::Failed(_)))));
    assert_eq!(worker.timers().retry_ms, Some(500));
    let signed = worker.signed.as_ref().expect("signed in");
    let stated = hello(signed, &worker.link, Transport::WebSocket);
    let ask = stated.resume.expect("asks for its session");
    assert_eq!((ask.session_id, ask.last_frame_seq), (400, 1));
    let out = connect(&mut worker, welcome(Some(true)));
    assert_eq!(out.len(), 2);
    assert_eq!(worker.link.session.as_ref().expect("kept").sequenced, 1);
    assert_eq!(worker.sync.watermark(CHAT), 1);
}

#[test]
fn a_refused_resume_connects_once_more_asking_for_nothing() {
    let mut worker = online();
    let refused = GatewayError::Refused {
        code: RefusalCode::ResumeRequired,
        message: "gone".to_owned(),
    };
    let out = worker.link.connect_failed(&refused, [0, 0]);
    assert!(matches!(out[..], [Action::Connect]));
    assert!(worker.link.session.is_none());
    let out = worker.link.connect_failed(&refused, [0, 0]);
    assert!(matches!(&out[..], [Action::Emit(Event::Connection(Connection::Failed(_)))]));
    assert_eq!(worker.timers().retry_ms, Some(500), "a connect that failed is tried again");
}

#[test]
fn reconnecting_gives_up_after_its_last_attempt() {
    let mut worker = online();
    let lost = GatewayError::Transport("reset".to_owned());
    let _ = worker.link.on_disconnect(true, &lost, [0, 0]);
    let mut attempts: u32 = 0;
    let told = loop {
        let plan = worker.link.reconnect(true).expect("a plan");
        attempts += 1;
        let out = worker.link.reconnected(plan, [0, 0]);
        if !out.is_empty() {
            break out;
        }
    };
    assert_eq!(attempts, 8);
    assert!(matches!(
        told[..],
        [Action::Emit(Event::Connection(Connection::Failed(Failure::CouldNotReconnect)))]
    ));
    assert!(worker.link.reconnect(true).is_none());
    assert!(worker.link.send_heartbeat(1).is_empty());
}

#[test]
fn a_lost_connection_of_nobody_is_just_offline() {
    let mut worker = Worker::new(100);
    let out = worker.link.on_disconnect(false, &GatewayError::Closed(String::new()), [0, 0]);
    assert!(matches!(out[1], Action::Emit(Event::Connection(Connection::Offline))));
    assert_eq!(worker.timers().retry_ms, None);
}

#[test]
fn a_native_dial_falls_back_to_the_websocket() {
    assert_eq!(first_dial(Transport::Tcp), Dial::Native);
    assert_eq!(first_dial(Transport::WebSocket), Dial::WebSocket(None));
    assert_eq!(
        next_dial(Transport::Tcp, NativeAnswer::Unreachable),
        Some(Dial::WebSocket(Some(FallbackReason::TcpUnreachable)))
    );
    assert_eq!(
        next_dial(Transport::Quic, NativeAnswer::Welcomed { negotiated: false }),
        Some(Dial::WebSocket(Some(FallbackReason::QuicNotNegotiated)))
    );
    assert_eq!(next_dial(Transport::Quic, NativeAnswer::Welcomed { negotiated: true }), None);
    assert_eq!(connect_websocket(Transport::WebSocket), SocketAddress::Gateway);
    assert_eq!(connect_websocket(Transport::Tcp), SocketAddress::Origin);
    let worker = online();
    let signed = worker.signed.as_ref().expect("signed in");
    assert!(hello(signed, &worker.link, Transport::Tcp).features.contains(&Feature::TcpTransport));
}

#[test]
fn a_heartbeat_goes_out_while_the_link_stands() {
    let worker = online();
    assert!(matches!(
        worker.link.send_heartbeat(12)[..],
        [Action::Heartbeat { client_time: 12 }]
    ));
}

#[test]
fn a_message_is_shown_and_counted() {
    let mut worker = online();
    let out = worker.on_frame(frame(Opcode::MessageEvent, Payload::Message(says(1, "hi"))), 0);
    let [Action::Emit(Event::Message(row))] = &out[..] else {
        panic!("one row");
    };
    assert!(matches!(&row.body, Body::Text(text) if text == "hi"));
    assert_eq!(row.seq, 1);
    assert!(!row.outgoing);
    assert_eq!(row.expires_at, Some(5_060));
    assert_eq!(row.delivery, Delivery::Received);
    assert_eq!(worker.link.session.as_ref().expect("held").sequenced, 1);
}

#[test]
fn a_hole_is_walked_from_the_watermark() {
    let mut worker = online();
    let _ = worker.on_frame(frame(Opcode::MessageEvent, Payload::Message(says(1, "one"))), 0);
    let out = worker.on_frame(frame(Opcode::MessageEvent, Payload::Message(says(4, "four"))), 0);
    let asked = out
        .iter()
        .find_map(|action| match action {
            Action::AskSync(request) => Some(request),
            _ => None,
        })
        .expect("asks for the hole");
    assert_eq!((asked.conversation_id, asked.have_seq, asked.to_seq), (CHAT, 1, Some(4)));

    worker.sync.asked(9, asked);
    let mut page_frame = frame(Opcode::Sync, Payload::Page { conversation_id: CHAT });
    page_frame.header.correlation = 9;
    let mut out = worker.on_frame(page_frame, 0);
    let Some(Action::TakePage(mut page)) = out.pop() else {
        panic!("a page");
    };
    assert!(matches!(page.kind, PageKind::Forward));
    let signed = worker.signed.as_mut().expect("signed in");
    for seq in [2, 3] {
        let _ = page_event(signed, &mut worker.sync, &mut page, says(seq, "between"));
    }
    let out = page_ends(&mut worker.sync, page, 1, false);
    assert!(out.iter().any(|action| matches!(action,
        Action::Emit(Event::History { conversation_id: CHAT, messages, more: false })
            if messages.len() == 2)));
    assert_eq!(worker.sync.watermark(CHAT), 4);
}

#[test]
fn an_event_that_is_not_shown_still_fills_its_hole() {
    let exchange = |adopted: bool| {
        let mut event = event(4);
        event.kind = MessageKind::KeyExchange;
        Arrival { event, opened: Opened::Unreadable, adopted }
    };
    let held = Arrival {
        event: event(4),
        opened: Opened::UnknownChain,
        adopted: false,
    };
    for (arrival, drains) in [(exchange(true), 1), (exchange(false), 0), (held, 0)] {
        let mut worker = online();
        let first = Payload::Message(says(1, "one"));
        let _ = worker.on_frame(frame(Opcode::MessageEvent, first), 0);
        let out = worker.on_frame(frame(Opcode::MessageEvent, Payload::Message(arrival)), 0);
        let asked = match out.last() {
            Some(Action::AskSync(request)) => request,
            _ => panic!("asks for the hole"),
        };
        assert_eq!((asked.conversation_id, asked.have_seq, asked.to_seq), (CHAT, 1, Some(4)));
        assert_eq!(out.len(), drains + 1);
        assert!(out[..drains].iter().all(|action| matches!(action, Action::Drain { .. })));
        let next = Payload::Message(says(5, "five"));
        let out = worker.on_frame(frame(Opcode::MessageEvent, next), 0);
        assert!(!out.iter().any(|action| matches!(action, Action::AskSync(_))), "it is walked");
    }
}

#[test]
fn a_purged_hole_is_not_asked_for_again() {
    let mut worker = online();
    let _ = worker.on_frame(frame(Opcode::MessageEvent, Payload::Message(says(1, "one"))), 0);
    let out = worker.on_frame(frame(Opcode::MessageEvent, Payload::Message(says(4, "four"))), 0);
    for action in &out {
        if let Action::AskSync(request) = action {
            worker.sync.asked(7, request);
        }
    }
    let refusal = Frame {
        header: Header {
            operation: Some((Opcode::Sync, DeliveryClass::Critical)),
            correlation: 7,
            error: true,
        },
        body: Inbound::Refusal(GatewayError::Refused {
            code: RefusalCode::SequenceGap,
            message: "purged".to_owned(),
        }),
    };
    let _ = worker.on_frame(refusal, 0);
    let out = worker.on_frame(frame(Opcode::MessageEvent, Payload::Message(says(5, "five"))), 0);
    assert!(!out.iter().any(|action| matches!(action, Action::AskSync(_))));
}

#[test]
fn a_message_without_its_chain_waits_for_it() {
    let mut worker = online();
    let waiting = Arrival {
        event: event(1),
        opened: Opened::UnknownChain,
        adopted: false,
    };
    let out = worker.on_frame(frame(Opcode::MessageEvent, Payload::Message(waiting)), 0);
    assert!(!out.iter().any(|action| matches!(action, Action::Emit(Event::Message(_)))));
    let chain = Payload::Distribution {
        conversation_id: CHAT,
        from_device: PEER_DEVICE,
        adopted: true,
    };
    let out = worker.on_frame(frame(Opcode::GroupKeyDistribute, chain), 0);
    assert!(matches!(
        out[..],
        [Action::Drain { conversation_id: CHAT, sender_device: PEER_DEVICE }]
    ));
    let signed = worker.signed.as_mut().expect("signed in");
    let events = drain_pending(signed, CHAT, PEER_DEVICE);
    assert_eq!(events.len(), 1);
    let out = redeliver(signed, says(1, "late"));
    assert!(matches!(&out[..], [Action::Emit(Event::Message(row))] if row.seq == 1));
    assert!(drain_pending(signed, CHAT, PEER_DEVICE).is_empty());
}

#[test]
fn a_message_that_will_not_open_says_so() {
    let mut worker = online();
    let broken = Arrival {
        event: event(1),
        opened: Opened::Unreadable,
        adopted: false,
    };
    let out = worker.on_frame(frame(Opcode::MessageEvent, Payload::Message(broken)), 0);
    assert!(matches!(&out[0], Action::Emit(Event::Message(row)) if matches!(row.body, Body::Undecryptable)));
}

#[test]
fn frames_of_nobody_change_nothing() {
    let mut worker = Worker::new(100);
    let out = worker.on_frame(frame(Opcode::MessageEvent, Payload::Message(says(1, "hi"))), 0);
    assert!(out.is_empty());
}

#[test]
fn a_ping_is_answered_under_its_correlation() {
    let mut worker = online();
    let out = worker.on_frame(frame(Opcode::Ping, Payload::Ping { client_time: 3 }), 8);
    assert!(matches!(
        out[..],
        [Action::Answer(7, Request::Pong { client_time: 3, server_time: 8 })]
    ));
}

fn send(worker: &mut Worker, text: &str) -> Vec<Action> {
    worker.handle(
        Command::SendText {
            message_id: 900,
            conversation_id: CHAT,
            text: text.to_owned(),
            expires_in_ms: None,
        },
        6_000,
    )
}

/// Encodes what the last action sends, and gives what is asked for next.
fn encode(worker: &mut Worker, out: Vec<Action>) -> (Sending, SendAsk) {
    let Some(Action::Send { conversation_id, content, outgoing }) = out.into_iter().last() else {
        panic!("it goes out");
    };
    assert!(matches!(content, Content::Text { text, expires_in_ms: None } if text == "hello"));
    let at = Sending::Encoding { conversation_id, outgoing };
    let encoded = SendEvent::Encoded(Some(vec![1, 2]));
    envelope_for(&worker.signed, &mut worker.asks, at, encoded)
}

#[test]
fn a_text_waits_for_the_roster_and_the_keys_before_it_is_sealed() {
    let mut worker = online();
    let _ = worker.on_frame(
        frame(Opcode::ConversationList, listed(ConversationKind::Group, EncryptionMode::EndToEnd)),
        0,
    );
    let out = send(&mut worker, "hello");
    assert!(matches!(&out[0], Action::Emit(Event::Message(row))
        if row.message_id == 900 && row.outgoing && row.delivery == Delivery::Sending));
    let (_, ask) = encode(&mut worker, out);
    let SendAsk::End { told } = ask else {
        panic!("nothing is sealed");
    };
    assert!(matches!(told[..], [
        Action::Request(Request::ConversationRoster { conversation_id: CHAT }),
        Action::Emit(Event::Toast { .. }),
        Action::Emit(Event::SendFailed { message_id: 900 }),
    ]));
    assert_eq!(worker.asks.pending_roster, Some(CHAT));

    let entry = |account_id| RosterMember {
        account_id,
        role: 0,
        joined_at: 0,
        muted_until: None,
        left_at: None,
    };
    let _ = worker.on_frame(
        frame(Opcode::ConversationRoster, Payload::Roster(vec![entry(ME), entry(PEER)])),
        0,
    );
    let out = send(&mut worker, "hello");
    let (_, ask) = encode(&mut worker, out);
    assert!(matches!(ask, SendAsk::End { told }
        if matches!(told[0], Action::Request(Request::KeyBundleFetch { .. }))));

    let bundle = |user_id, device_id| Bundle {
        user_id,
        device_id,
        identity: Some(Shown {
            fingerprint: [1; 32],
            safety_number: "1".to_owned(),
        }),
    };
    let _ = worker.on_frame(
        frame(
            Opcode::KeyBundleFetch,
            Payload::Bundles(vec![bundle(ME, MY_DEVICE), bundle(PEER, PEER_DEVICE)]),
        ),
        0,
    );
    let out = send(&mut worker, "hello");
    let (at, ask) = encode(&mut worker, out);
    assert!(matches!(ask, SendAsk::SealChain { conversation_id: CHAT, targets }
        if targets == vec![(PEER, PEER_DEVICE)]));
    let handed = SendEvent::Handed(vec![(PEER_DEVICE, DeviceSeal::Sealed(vec![5]))]);
    let (at, ask) = envelope_for(&worker.signed, &mut worker.asks, at, handed);
    let SendAsk::SealContent { exchanges, handed, plaintext, .. } = ask else {
        panic!("the chain goes first");
    };
    assert!(matches!(exchanges[..], [Action::Request(Request::KeyExchange { .. })]));
    assert_eq!(handed, vec![PEER_DEVICE]);
    assert_eq!(plaintext, vec![1, 2]);
    let sealed = SendEvent::Sealed(Some(SealedContent { envelope: vec![9], chain_id: 3 }));
    let (_, ask) = envelope_for(&worker.signed, &mut worker.asks, at, sealed);
    let SendAsk::End { told } = ask else {
        panic!("it is sent");
    };
    assert!(matches!(&told[..], [Action::Request(Request::MessageSend {
        message_id: 900,
        conversation_id: CHAT,
        kind: SendKind::Text,
        envelope,
        expires_in_ms: None,
        sender_key_id: 3,
    })] if envelope == &vec![9]));
}

#[test]
fn nothing_is_sealed_for_a_conversation_nobody_listed() {
    let mut worker = online();
    let out = send(&mut worker, "hello");
    assert_eq!(out.len(), 2);
    let (at, ask) = encode(&mut worker, out);
    assert!(matches!(at, Sending::Ended));
    assert!(matches!(ask, SendAsk::End { told }
        if matches!(told[..], [Action::Emit(Event::SendFailed { message_id: 900 })])));
    let editing = || Sending::Encoding {
        conversation_id: CHAT,
        outgoing: Outgoing::Edit { message_id: 4 },
    };
    let encoded = SendEvent::Encoded(Some(Vec::new()));
    let (_, ask) = envelope_for(&worker.signed, &mut worker.asks, editing(), encoded);
    assert!(matches!(ask, SendAsk::End { told } if told.is_empty()));
    let unread = SendEvent::Encoded(None);
    let (_, ask) = envelope_for(&worker.signed, &mut worker.asks, editing(), unread);
    assert!(matches!(ask, SendAsk::End { told } if told.len() == 1));
    let out = not_encoded(Outgoing::Edit { message_id: 4 });
    assert!(matches!(
        out[..],
        [Action::Emit(Event::Toast { notice: Notice::EditNotSealed, .. })]
    ));
    let sealing = Sending::Sealing {
        conversation_id: CHAT,
        outgoing: Outgoing::Reaction { target_message_id: 8 },
    };
    let sealed = SendEvent::Sealed(Some(SealedContent { envelope: vec![9], chain_id: 3 }));
    let (_, ask) = envelope_for(&None, &mut worker.asks, sealing, sealed);
    assert!(matches!(ask, SendAsk::End { told } if matches!(
        told[..],
        [Action::Request(Request::ReactionSet { target_message_id: 8, conversation_id: CHAT, .. })]
    )));
}

#[test]
fn a_chain_goes_to_the_devices_that_lack_it() {
    let (out, seeded) = key_exchanges(
        CHAT,
        vec![(1, DeviceSeal::NotNeeded), (2, DeviceSeal::Sealed(vec![5])), (3, DeviceSeal::NoSession)],
    );
    assert!(matches!(&out[..], [Action::Request(Request::KeyExchange { conversation_id: CHAT, envelope })]
        if envelope == &vec![5]));
    assert_eq!(seeded, vec![2]);
    let out = redistributions(CHAT, MY_DEVICE, vec![((PEER, PEER_DEVICE), DeviceSeal::Sealed(vec![6]))]);
    assert!(matches!(&out[..], [Action::Request(Request::GroupKeyDistribute { to_account: PEER, to_device: PEER_DEVICE, .. })]));
}

#[test]
fn a_departure_rotates_the_chain() {
    let mut worker = online();
    let _ = worker.on_frame(
        frame(Opcode::ConversationList, listed(ConversationKind::Group, EncryptionMode::EndToEnd)),
        0,
    );
    let left = ConversationMemberEvent {
        conversation_id: CHAT,
        user_id: PEER,
        change: MemberChange::Left,
        group_key_epoch: Some(3),
    };
    let out = worker.on_frame(frame(Opcode::ConversationMemberEvent, Payload::Member(left)), 0);
    assert!(out.iter().any(|action| matches!(action,
        Action::RotateChainTo { conversation_id: CHAT, epoch: Some(3) })));
    let held = &worker.signed.as_ref().expect("signed in").members[&CHAT];
    assert!(!held.ids.contains(&PEER));
}

#[test]
fn a_change_in_a_group_known_in_part_reads_its_roster() {
    let mut worker = online();
    let _ = worker.on_frame(
        frame(Opcode::ConversationList, listed(ConversationKind::Group, EncryptionMode::EndToEnd)),
        0,
    );
    let joined = ConversationMemberEvent {
        conversation_id: CHAT,
        user_id: 11,
        change: MemberChange::Joined,
        group_key_epoch: Some(4),
    };
    let _ = worker.on_frame(frame(Opcode::ConversationMemberEvent, Payload::Member(joined)), 0);
    let entry = RosterMember {
        account_id: PEER,
        role: 0,
        joined_at: 0,
        muted_until: None,
        left_at: None,
    };
    let _ = worker.on_frame(frame(Opcode::ConversationRoster, Payload::Roster(vec![entry])), 0);
    let held = &worker.signed.as_ref().expect("signed in").members[&CHAT];
    assert!(held.complete, "the next change finds the membership whole");
}

#[test]
fn a_list_that_moved_past_a_hole_is_caught_up_with() {
    let mut worker = online();
    let _ = worker.on_frame(frame(Opcode::MessageEvent, Payload::Message(says(1, "one"))), 0);
    assert_eq!(worker.sync.track_seq(CHAT, 4), Some(4), "a hole that no walk fills");
    let moved = Payload::Conversations(vec![Summary {
        conversation_id: CHAT,
        title: None,
        members: None,
        encryption: EncryptionMode::EndToEnd,
        last_seq: 4,
        read_seq: 4,
        kind: ConversationKind::Group,
        last_message: None,
    }]);
    let out = worker.on_frame(frame(Opcode::ConversationList, moved), 0);
    assert!(out.iter().any(|action| matches!(action,
        Action::AskSync(request) if request.have_seq == 1 && request.to_seq.is_none())));
}

#[test]
fn a_room_that_is_left_is_forgotten() {
    let mut worker = online();
    let gone = RoomMemberEvent {
        room_id: 50,
        user_id: ME,
        change: Some(MemberChange::Kicked),
        joined: false,
        member_count: None,
    };
    let out = worker.on_frame(frame(Opcode::RoomMemberEvent, Payload::RoomMember(gone)), 0);
    assert!(out.iter().any(|action| matches!(action,
        Action::Emit(Event::RoomLeft { room_id: 50, conversation_id: Some(51), .. }))));
    assert!(worker.signed.as_ref().expect("signed in").room_conversations.is_empty());
}

#[test]
fn commands_need_a_link() {
    let mut worker = worker();
    let mut next: u32 = 4;
    assert!(matches!(
        worker.link.request(&mut next),
        Err(Action::Emit(Event::Toast { notice: Notice::NotConnected, .. }))
    ));
    assert_eq!(next, 4);
    let out = worker.handle(Command::Typing { conversation_id: CHAT, typing: true }, 0);
    assert!(out.is_empty());
    let mut worker = online();
    assert!(matches!(worker.link.request(&mut next), Ok(4)));
    assert_eq!(next, 5);
    let out = worker.handle(Command::Conversations, 0);
    assert!(matches!(&out[..], [Action::Request(Request::ConversationList { limit: 100 })]));
    let out = worker.handle(Command::StartDirect { peer: None }, 0);
    assert!(matches!(&out[..], [Action::Emit(Event::Toast { notice: Notice::EnterPeerId, .. })]));
}

#[test]
fn work_is_the_edges() {
    let mut worker = Worker::new(100);
    let out = worker.handle(Command::Unlock { passphrase: "p".to_owned() }, 0);
    assert!(matches!(&out[..], [Action::Run(Command::Unlock { .. })]));
    assert!(worker.handle(Command::Sessions, 0).is_empty());
    let mut worker = online();
    let out = worker.handle(Command::Sessions, 0);
    assert!(matches!(&out[..], [Action::Run(Command::Sessions)]));
}

#[test]
fn an_own_reading_is_marked_once() {
    let mut worker = online();
    let out = worker.handle(Command::VoiceNoteHeard { media_id: 5 }, 0);
    assert!(out.iter().any(|action| matches!(action, Action::SaveListened)));
    assert!(worker.listened.contains(&5));
    let out = worker.handle(Command::VoiceNoteHeard { media_id: 5 }, 0);
    assert!(!out.iter().any(|action| matches!(action, Action::SaveListened)));
}

#[test]
fn signing_out_leaves_nothing() {
    let mut worker = online();
    let out = worker.handle(Command::SignOut, 0);
    assert!(matches!(out[0], Action::CloseGateway));
    assert!(matches!(&out[1], Action::Logout { access_token, session_id: 3 } if access_token == "token"));
    assert!(matches!(out.last(), Some(Action::Emit(Event::Toast { notice: Notice::SignedOut, .. }))));
    assert!(worker.signed.is_none());
    assert!(worker.link.session.is_none());
    assert!(worker.timers().heartbeat.is_none());
    assert!(worker.listened.is_empty());
    assert!(worker.sync.sequences.is_empty());
}

#[test]
fn the_first_screen_is_told_of_the_vault() {
    assert!(matches!(Worker::greeting(true), Action::Emit(Event::VaultFound)));
    assert!(matches!(Worker::greeting(false), Action::Emit(Event::VaultMissing)));
    assert!(worker().chain_rows().is_empty());
}
