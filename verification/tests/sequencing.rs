use migo_net::gateway::{GatewayError, RefusalCode};
use migo_net::sequence::{count_frame, is_sequenced, GatewaySession, SeqAccount};
use migo_net::server_probe::{health_latency, pick_fastest, resolve, ServerEndpoint, Transport};
use migo_net::sync::{CatchUp, PageKind, Sync, MAX_CATCHUP_PAGES, SYNC_PAGE};
use migo_net::text::canonical_address;
use migo_net::timing::{heartbeat_interval, Duration, Retry, MIN_HEARTBEAT_SECS};
use migo_net::wire::{id_from_bytes, DeliveryClass, Header, Id, Opcode};

fn id_of(n: u8) -> Id {
    let mut bytes = [0u8; 16];
    bytes[15] = n;
    id_from_bytes(bytes)
}

fn frame_of(opcode: Opcode, class: DeliveryClass) -> Header {
    Header {
        operation: Some((opcode, class)),
        correlation: 1,
        error: false,
    }
}

#[test]
fn the_counter_counts_exactly_what_the_server_numbers() {
    assert!(
        is_sequenced(&frame_of(Opcode::MessageEvent, DeliveryClass::Critical)),
        "a Critical event is numbered"
    );
    assert!(
        is_sequenced(&frame_of(Opcode::Sync, DeliveryClass::Critical)),
        "a Critical reply is numbered"
    );
    assert!(
        !is_sequenced(&frame_of(Opcode::Typing, DeliveryClass::Coalescable)),
        "a Coalescable event is never numbered"
    );
    assert!(
        !is_sequenced(&frame_of(Opcode::PresenceEvent, DeliveryClass::Coalescable)),
        "presence is Coalescable and never numbered"
    );
    assert!(
        !is_sequenced(&frame_of(Opcode::ReconnectHint, DeliveryClass::Critical)),
        "the hint is written past the mailbox and never numbered"
    );

    let refused = Header {
        operation: Some((Opcode::MessageSend, DeliveryClass::Critical)),
        correlation: 1,
        error: true,
    };
    assert!(
        is_sequenced(&refused),
        "an error reply rides a Critical header and is numbered"
    );

    let unknown = Header {
        operation: None,
        correlation: 1,
        error: false,
    };
    assert!(
        !is_sequenced(&unknown),
        "an opcode this build cannot name is not guessed at"
    );
}

#[test]
fn the_resume_ask_names_the_session_and_its_own_count() {
    let session = GatewaySession {
        id: id_of(7),
        sequenced: 42,
    };
    let ask = session.resume_request();
    assert_eq!(ask.session_id, id_of(7), "the ask names its session");
    assert_eq!(ask.last_frame_seq, 42, "the ask asks from what was read");
}

#[test]
fn the_count_is_how_many_frames_were_numbered() {
    let mut session = Some(GatewaySession {
        id: id_of(7),
        sequenced: 0,
    });
    for header in [
        frame_of(Opcode::MessageEvent, DeliveryClass::Critical),
        frame_of(Opcode::Typing, DeliveryClass::Coalescable),
        frame_of(Opcode::Sync, DeliveryClass::Critical),
    ] {
        count_frame(&mut session, &header);
    }
    assert_eq!(session.expect("held").sequenced, 2);
    let mut none = None;
    count_frame(&mut none, &frame_of(Opcode::Sync, DeliveryClass::Critical));
    assert!(none.is_none());
}

#[test]
fn a_walk_asks_for_five_pages_and_no_more() {
    let room = id_of(1);
    let mut sync = Sync::new();
    let mut asked: u32 = 0;
    let mut page = sync.catch_up(room, 0, None);
    let mut seq: u64 = 1;
    while page.is_some() {
        asked += 1;
        let before = sync.watermark(room);
        sync.track_seq(room, seq);
        seq += 1;
        page = sync.after_page(room, before, true).next;
    }
    assert_eq!(asked, MAX_CATCHUP_PAGES);
    assert!(sync.catch_up(room, 0, None).is_some(), "a new walk may start");
}

#[test]
fn a_page_that_moves_nothing_stalls_its_hole() {
    let room = id_of(1);
    let mut sync = Sync::new();
    sync.track_seq(room, 5);
    assert_eq!(sync.track_seq(room, 9), Some(9));
    let page = sync.catch_up(room, sync.watermark(room), Some(9)).expect("a walk");
    assert_eq!(page.have_seq, 5);
    assert_eq!(page.to_seq, Some(9));
    assert_eq!(page.limit, SYNC_PAGE);
    assert!(sync.catch_up(room, 5, Some(9)).is_none(), "one walk at a time");
    let verdict = sync.after_page(room, 5, true);
    assert!(verdict.next.is_none());
    assert!(!verdict.more, "a repair never says that history remains");
    assert!(sync.catch_up(room, 5, Some(9)).is_none(), "the stall refuses the same hole");
    sync.track_seq(room, 6);
    assert!(sync.catch_up(room, 6, Some(9)).is_some(), "the watermark moved");
}

#[test]
fn a_refused_repair_retires_its_walk() {
    let room = id_of(1);
    let mut sync = Sync::new();
    sync.track_seq(room, 5);
    sync.track_seq(room, 9);
    let page = sync.catch_up(room, 5, Some(9)).expect("a walk");
    sync.asked(77, &page);
    let gone = GatewayError::Refused {
        code: RefusalCode::SequenceGap,
        message: "purged".to_owned(),
    };
    sync.on_refusal(77, gone.is_sequence_gap());
    assert!(sync.catchups.is_empty());
    assert_eq!(sync.sequences[&room].stalled_at, Some(5));
}

#[test]
fn an_earlier_page_is_told_by_its_correlation() {
    let room = id_of(1);
    let mut sync = Sync::new();
    let page = Sync::earlier_page(room, 40);
    assert_eq!(page.backwards, Some(true));
    sync.asked(3, &page);
    assert_eq!(sync.settle(3), PageKind::Earlier(room));
    assert_eq!(sync.settle(3), PageKind::Forward);
}

#[test]
fn the_backoff_doubles_to_its_cap_and_ends() {
    let mut plan = Retry::first([0, 0]);
    let mut waits = vec![plan.wait_ms];
    while let Some(next) = plan.after_failure([0, 0]) {
        waits.push(next.wait_ms);
        plan = next;
    }
    assert_eq!(waits, vec![500, 1000, 2000, 4000, 8000, 16_000, 30_000, 30_000]);
    assert_eq!(Retry::first([0xff, 0x01]).wait_ms, 500 + 511 % 500);
    assert_eq!(Retry::jitter([0xf4, 0x01]), 0);
}

fn endpoint(host: &str) -> ServerEndpoint {
    ServerEndpoint {
        host: host.to_owned(),
        port: 8080,
        gateway_port: 8080,
        transport: Transport::WebSocket,
        secure: false,
        rest_secure: false,
    }
}

#[test]
fn the_fastest_responder_is_the_one_that_is_picked() {
    let candidates = vec![
        endpoint("node1.example.com"),
        endpoint("node2.example.com"),
        endpoint("node3.example.com"),
    ];
    let latencies = vec![
        Some(Duration::from_millis(200)),
        Some(Duration::from_millis(80)),
        None,
    ];
    let picked = resolve(&candidates, &latencies);
    assert_eq!(picked.map(|endpoint| endpoint.host.as_str()), Some("node2.example.com"));
    let nobody = vec![None, None, None];
    assert!(resolve(&candidates, &nobody).is_none());
}

#[test]
fn only_a_healthy_answer_has_a_latency() {
    let took = Duration::from_millis(12);
    assert_eq!(health_latency(Some(200), took), Some(took));
    assert_eq!(health_latency(Some(503), took), None);
    assert_eq!(health_latency(None, took), None);
}

#[test]
fn the_heartbeat_is_half_the_advertised_interval_floored() {
    assert_eq!(heartbeat_interval(30_000), Duration::from_secs(15));
    assert_eq!(heartbeat_interval(10_000), Duration::from_secs(5));
    assert_eq!(heartbeat_interval(0), Duration::from_secs(MIN_HEARTBEAT_SECS));
}

#[test]
fn the_watermark_advances_only_over_contiguous_ground() {
    let mut account = SeqAccount::default();

    assert_eq!(account.track(5), None);
    assert_eq!(account.watermark, 5);

    assert_eq!(account.track(6), None, "the next brick advances the prefix");
    assert_eq!(account.watermark, 6);

    assert_eq!(account.track(4), None, "a redelivery moves nothing");
    assert_eq!(account.watermark, 6);

    assert_eq!(account.track(9), Some(9), "a hole is named as its own top");
    assert_eq!(account.watermark, 6, "the watermark waits at the hole");
    assert_eq!(account.highest_seen, 9);

    assert_eq!(account.track(7), None);
    assert_eq!(account.track(8), None);
    assert_eq!(account.watermark, 9, "the hole closed, the prefix stands on its top");
    assert_eq!(account.track(10), None);
    assert_eq!(account.watermark, 10);
}

#[test]
fn a_stall_lifts_only_when_the_watermark_moves() {
    let mut account = SeqAccount::default();
    account.track(10);
    account.stalled_at = Some(10);

    assert_eq!(account.track(12), Some(12), "the new hole is still named");
    assert_eq!(account.stalled_at, Some(10), "a stall survives events that do not close it");

    assert_eq!(account.track(11), None, "the closing brick is no gap");
    assert_eq!(account.stalled_at, None, "the watermark moving lifts the stall");
    assert_eq!(account.watermark, 12);
}

#[test]
fn a_walk_continues_only_while_it_moves_within_its_bound() {
    let gap_walk = CatchUp {
        to_seq: Some(20),
        pages_left: 3,
    };
    assert!(gap_walk.continues(true, false, 15));
    assert!(!gap_walk.continues(true, true, 20));
    assert!(!gap_walk.continues(false, true, 10));

    let replay = CatchUp {
        to_seq: None,
        pages_left: 2,
    };
    assert!(replay.continues(true, true, 400));
    assert!(!replay.continues(true, false, 400));

    let spent = CatchUp {
        to_seq: None,
        pages_left: 0,
    };
    assert!(!spent.continues(true, true, 400));
}

#[test]
fn canonical_address_folds_every_written_form_together() {
    const CHECKSUMMED: &str = "0x5aAeb6053F3E94C9b9A09f33669435E7Ef1BeAed";
    const LOWERCASE: &str = "5aaeb6053f3e94c9b9a09f33669435e7ef1beaed";
    assert_eq!(canonical_address(CHECKSUMMED), LOWERCASE);
    assert_eq!(canonical_address(&format!("0x{LOWERCASE}")), LOWERCASE);
    assert_eq!(canonical_address(LOWERCASE), LOWERCASE);
    assert_eq!(canonical_address(&format!("  {CHECKSUMMED} ")), LOWERCASE);
}

#[test]
fn pick_fastest_takes_the_lowest_latency() {
    let latencies = [
        Some(Duration::from_millis(200)),
        Some(Duration::from_millis(80)),
        Some(Duration::from_millis(400)),
    ];
    assert_eq!(pick_fastest(&latencies), Some(1));
}

#[test]
fn pick_fastest_breaks_ties_by_list_order() {
    let latencies = [
        Some(Duration::from_millis(120)),
        None,
        Some(Duration::from_millis(120)),
    ];
    assert_eq!(pick_fastest(&latencies), Some(0));
}

#[test]
fn pick_fastest_without_a_responder_is_none() {
    assert_eq!(pick_fastest(&[None, None, None]), None);
    assert_eq!(pick_fastest(&[]), None);
}
