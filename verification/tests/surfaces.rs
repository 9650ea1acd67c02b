use std::collections::HashSet;

use migo_net::admin::{
    admins_gate, contact_call, fetch_admins, fetch_devices, fetch_sessions, grant_admin,
    revoke_device, wallet_registered, wallets_synced,
};
use migo_net::codec::{b64, base64_decode, upload_digest};
use migo_net::economy::{acknowledge_alerts, on_alerts, on_gift_sent, request_wallet, Alert};
use migo_net::effects::{Action, AdminsAnswer, Event, Notice, ProfilePatch, Request};
use migo_net::media::{send_attachment, MediaLimits};
use migo_net::notices::notice_text;
use migo_net::rest::{
    failure, outcome, AccountDevice, AdminStanding, AdminView, CaptchaChallenge, DeviceRequest,
    DeviceRevoked, DeviceSummary, ErrorBody, Method, Os, Payload, Reply, Rest, RestError,
    SessionSummary,
};
use migo_net::room_bridge;
use migo_net::text::{decimal_of, hex_of, image_mime_of, trim};
use migo_net::voice_draft;
use migo_net::voice_listened;
use migo_net::spending::{chain_prepare, PrepareAsk, PrepareEvent, PrepareFacts, Preparing};
use migo_net::wallet::{
    chain_balance, may_send, network_name, record_of, refusal_text, settle, wallets_to_register,
    ChainNetwork, Fees, PreparedTx, SendFacts, TxBody, TxDraft, WALLET_INDEXES,
};
use migo_net::wire::Id;

/// The error body of an envelope, as the edge reads it.
fn error_body(text: &str) -> ErrorBody {
    let value: serde_json::Value = serde_json::from_str(text).expect("an envelope parses");
    let error = &value["error"];
    let captcha = error.get("captcha").map(|captcha| CaptchaChallenge {
        challenge_id: captcha["challenge_id"].as_str().expect("text").to_owned(),
        image_png_base64: captcha["image_png_base64"].as_str().expect("text").to_owned(),
        mode: captcha["mode"].as_str().expect("text").to_owned(),
        ttl_seconds: captcha["ttl_seconds"].as_u64().expect("a number") as u32,
    });
    ErrorBody {
        code: error["code"].as_u64().expect("a number") as u32,
        symbol: error["symbol"].as_str().expect("text").to_owned(),
        message: error["message"].as_str().expect("text").to_owned(),
        captcha,
    }
}

#[test]
fn the_error_body_parses_a_replacement_captcha_and_tolerates_its_absence() {
    let with = error_body(
        r#"{"error":{"code":1306,"symbol":"USERNAME_TAKEN","message":"that name is taken",
            "captcha":{"challenge_id":"01ARZ3NDEKTSV4RRFFQ69G5FAV",
            "image_png_base64":"aGVsbG8=","mode":"image","ttl_seconds":120}}}"#,
    );
    let RestError::Server { code, symbol, message, captcha } = failure(Some(with)) else {
        panic!("a server's own refusal");
    };
    assert_eq!(code, 1306);
    assert_eq!(symbol, "USERNAME_TAKEN");
    assert_eq!(message, "that name is taken");
    let challenge = captcha.expect("the captcha crossed");
    assert_eq!(challenge.challenge_id, "01ARZ3NDEKTSV4RRFFQ69G5FAV");
    assert_eq!(challenge.image_png_base64, "aGVsbG8=");
    assert_eq!(challenge.mode, "image");
    assert_eq!(challenge.ttl_seconds, 120);

    let without =
        error_body(r#"{"error":{"code":1300,"symbol":"VALIDATION_FAILED","message":"no"}}"#);
    assert!(without.captcha.is_none());
}

#[test]
fn an_answer_without_an_envelope_is_in_the_wrong_form() {
    assert!(matches!(failure(None), RestError::Malformed));
    assert!(matches!(outcome::<u32>(Reply::Lost), Err(RestError::Transport)));
    assert!(matches!(outcome(Reply::Success(Some(3u32))), Ok(3)));
    assert!(matches!(outcome::<u32>(Reply::Success(None)), Err(RestError::Malformed)));
    assert!(matches!(outcome::<u32>(Reply::Failure(None)), Err(RestError::Malformed)));
}

#[test]
fn a_client_speaks_to_one_host() {
    let rest = Rest::new("https://migo.example//").ok().expect("usable");
    assert_eq!(rest.base(), "https://migo.example");
    assert_eq!(rest.gateway_url(), "wss://migo.example/ws");
    let local = Rest::new("http://127.0.0.1:8080").ok().expect("usable");
    assert_eq!(local.gateway_url(), "ws://127.0.0.1:8080/ws");
    assert!(matches!(Rest::new("ftp://migo.example"), Err(RestError::BadUrl)));
    assert!(matches!(Rest::new(""), Err(RestError::BadUrl)));
    let call = rest.refresh("once", 7);
    assert_eq!(call.method, Method::Post);
    assert!(call.token.is_none());
    assert!(matches!(call.body, Payload::Refresh { refresh_token, device_id: 7 } if refresh_token == "once"));
    let call = rest.revoke_session("token", "SESSION");
    assert_eq!(call.token.as_deref(), Some("token"));
    assert!(call.url.starts_with("https://migo.example/v1/"));
    assert!(call.url.contains("SESSION"));
    let call = contact_call(&rest, "token", "  ada@migo.example ");
    assert!(matches!(call.body, Payload::Contact { email_or_phone } if email_or_phone == "ada@migo.example"));
    let device = DeviceRequest::describe(None, Os::Linux, "1.0");
    assert!(device.device_id.is_none());
    assert_eq!(device.app_version, "1.0");
}

#[test]
fn a_signature_crosses_as_padded_base64() {
    assert_eq!(b64(b"hello"), "aGVsbG8=");
    assert_eq!(b64(b""), "");
    assert_eq!(base64_decode("aGVsbG8="), Some(b"hello".to_vec()));
    assert_eq!(base64_decode("aGVsbG8"), None);
    let rest = Rest::new("https://migo.example").ok().expect("usable");
    let call = rest.identity_login(9, &vec![0, 1], &vec![2]);
    assert!(matches!(call.body, Payload::IdentityLogin { identity_signature, device_signature, .. }
        if identity_signature == "AAE=" && device_signature == "Ag=="));
}

#[test]
fn an_upload_is_committed_with_its_own_digest() {
    let digest = upload_digest(&b"abc".to_vec());
    assert_eq!(
        hex_of(&digest),
        "ba7816bf8f01cfea414140de5dae2223b00361a396177a9cb410ff61f20015ad"
    );
}

#[test]
fn an_image_is_told_by_its_bytes() {
    let png = base64_decode(
        "iVBORw0KGgoAAAANSUhEUgAAAAEAAAABCAYAAAAfFcSJAAAADUlEQVR42mNk+M9QDwADhgGAWjR9awAAAABJRU5ErkJggg==",
    )
    .expect("base64");
    let limits = MediaLimits {
        image_max_bytes: 1_000,
        document_max_bytes: 1_000,
    };
    let attach = |bytes: &Vec<u8>| {
        let types = ("image/png".to_owned(), "text/plain".to_owned());
        send_attachment(Ok(bytes), types.0, types.1, None, &limits).ok().expect("it may be sent")
    };
    let image = attach(&png);
    assert_eq!((image.width, image.height), (Some(1), Some(1)));
    assert_eq!(image.mime_type, "image/png");
    let document = attach(&b"hello".to_vec());
    assert_eq!((document.width, document.mime_type.as_str()), (None, "text/plain"));
    assert_eq!(image_mime_of(Some("PNG")), "image/png");
    assert_eq!(image_mime_of(Some("txt")), "application/octet-stream");
    assert_eq!(image_mime_of(None), "application/octet-stream");
}

#[test]
fn texts_are_written_as_they_are_read() {
    assert_eq!(trim(" \t two words \n"), "two words");
    assert_eq!(decimal_of(0), "0");
    assert_eq!(decimal_of(u64::MAX), "18446744073709551615");
    assert_eq!(hex_of(&[0, 15, 255]), "000fff");
}

#[test]
fn the_bridge_reads_back_what_it_wrote() {
    let pairs = vec![
        ("A2".to_owned(), "A3".to_owned()),
        ("A4".to_owned(), "A5".to_owned()),
    ];
    let text = room_bridge::save(&pairs);
    assert_eq!(room_bridge::rows(&text), pairs);
    assert_eq!(room_bridge::save(&Vec::new()), "");
    assert!(room_bridge::rows("").is_empty());
    assert_ne!(
        room_bridge::RoomBridgeStore::path("ONE"),
        room_bridge::RoomBridgeStore::path("TWO")
    );
}

#[test]
fn the_stores_lie_in_directories_of_their_own() {
    let home = Some("/home/u/migo");
    assert_eq!(
        voice_draft::VoiceDraftStore::beside(home).dir,
        "/home/u/migo/voice-note-drafts"
    );
    assert_eq!(room_bridge::RoomBridgeStore::beside(home).dir, "/home/u/migo/room-bridges");
    assert_eq!(
        voice_listened::VoiceListenedStore::beside(home).dir,
        "/home/u/migo/voice-listened"
    );
    assert_eq!(voice_draft::VoiceDraftStore::beside(None).dir, "./voice-note-drafts");
    assert_eq!(voice_draft::VoiceDraftStore::beside(Some("")).dir, "voice-note-drafts");
    assert_eq!(room_bridge::RoomBridgeStore::beside(Some("/")).dir, "/room-bridges");
    assert_eq!(voice_draft::VoiceDraftStore::dir_name(), "voice-note-drafts");
    assert_eq!(voice_draft::VoiceDraftStore::pcm_path("C"), "C.pcm");
    assert_eq!(voice_draft::VoiceDraftStore::descriptor_path("C"), "C.draft");
}

#[test]
fn a_saved_bridge_loads_as_the_same_ids() {
    let text = |id: Id| format!("R{id}");
    let parse = |word: &str| word.strip_prefix('R').and_then(|digits| digits.parse::<Id>().ok());
    let bridges: Vec<(Id, Id)> = vec![(2, 3), (4, 5), (2, 3)];
    let pairs = bridges.iter().map(|pair| (text(pair.0), text(pair.1))).collect();
    let rows = room_bridge::rows(&room_bridge::save(&pairs))
        .iter()
        .map(|(room, conversation)| (parse(room), parse(conversation)))
        .collect();
    assert_eq!(room_bridge::load(&rows), bridges);
    let marks = voice_listened::rows(&voice_listened::save(&vec![text(7), text(8)]));
    let parsed = marks.iter().map(|row| parse(row)).collect();
    assert_eq!(voice_listened::load(&parsed), HashSet::from([7, 8]));
}

#[test]
fn a_line_that_names_no_pair_is_skipped() {
    let rows = room_bridge::rows("not-an-id-at-all\n\nA2 A3\nonly-one\n");
    let parsed: Vec<(Option<Id>, Option<Id>)> = rows
        .iter()
        .map(|(room, conversation)| {
            let id = |text: &str| match text {
                "A2" => Some(2),
                "A3" => Some(3),
                _ => None,
            };
            (id(room), id(conversation))
        })
        .collect();
    assert_eq!(room_bridge::load(&parsed), vec![(2, 3)]);
}

#[test]
fn the_marks_read_back_what_they_wrote() {
    let marks = vec!["A2".to_owned(), "A3".to_owned()];
    let text = voice_listened::save(&marks);
    assert_eq!(voice_listened::rows(&text), marks);
    assert_eq!(
        voice_listened::load(&vec![None, Some(5), Some(5)]),
        HashSet::from([5])
    );
    let mut heard: HashSet<Id> = HashSet::new();
    assert!(voice_listened::set_listened(&mut heard, 4, true));
    assert!(!voice_listened::set_listened(&mut heard, 4, true));
    assert!(voice_listened::set_listened(&mut heard, 4, false));
    assert!(heard.is_empty());
}

#[test]
fn a_draft_reads_back_what_it_stated() {
    let descriptor = voice_draft::save(2_500, &vec![3, 40, 250]);
    let draft = voice_draft::load(&descriptor, true).expect("the draft reads back");
    assert_eq!(draft.duration_ms, 2_500);
    assert_eq!(draft.amplitudes, vec![3, 40, 250]);
    assert_eq!(voice_draft::read_samples(&vec![1u8, 0, 0xFF, 0]), Some(vec![1, 255]));
    assert_eq!(voice_draft::read_samples(&vec![1u8]), None);
    assert!(voice_draft::load(&descriptor, false).is_none(), "no recording, no draft");
    assert!(voice_draft::load(&Vec::new(), true).is_none());
    assert_eq!(draft.waveform(vec![9]), Some(vec![9]));
    let mut bytes = Vec::new();
    voice_draft::push_sample(&mut bytes, -2);
    assert_eq!(bytes, vec![0xfe, 0xff]);
    assert_eq!(voice_draft::read_samples(&bytes), Some(vec![-2]));
}

#[test]
fn an_acknowledged_instant_is_the_head_of_its_id() {
    let Action::Request(Request::NotificationAck { id }) = acknowledge_alerts(0x0102_0304_0506)
    else {
        panic!("an acknowledgement");
    };
    assert_eq!(id, 0x0102_0304_0506_u128 << 80);
    let Action::Request(Request::NotificationAck { id }) = acknowledge_alerts(-9) else {
        panic!("an acknowledgement");
    };
    assert_eq!(id, 0);
}

#[test]
fn a_purchase_reads_the_wallet_again() {
    assert_eq!(request_wallet(5).len(), 6);
    let out = on_gift_sent(5, true, None);
    assert_eq!(out.len(), 7);
    assert!(matches!(&out[0], Action::Emit(Event::Toast { notice: Notice::GiftSent, .. })));
    let out = on_gift_sent(5, true, Some(true));
    assert!(matches!(&out[0], Action::Emit(Event::Toast { notice: Notice::GiftAlreadySent, .. })));
    let out = on_gift_sent(5, false, None);
    assert_eq!(out.len(), 1);
    let rows = on_alerts(vec![Alert {
        id: 1,
        kind: "friend".to_owned(),
        title: Some(String::new()),
        at: 2,
    }]);
    assert_eq!(rows[0].title, None);
}

#[test]
fn the_admin_list_is_the_owners_alone() {
    assert!(matches!(
        admins_gate(Ok(AdminStanding { owner: false, admin: true })),
        Some(Event::Admins(AdminsAnswer::Closed))
    ));
    assert!(admins_gate(Ok(AdminStanding { owner: true, admin: false })).is_none());
    assert!(matches!(
        admins_gate(Err(RestError::Transport)),
        Some(Event::Admins(AdminsAnswer::Failed(reason))) if reason == "cannot reach the server"
    ));
    let view = AdminView {
        account_id: 1,
        username: "ada".to_owned(),
        granted_by: 2,
        granted_at_ms: 3,
    };
    let Event::Admins(AdminsAnswer::Owner(rows)) = fetch_admins(Ok(vec![view])) else {
        panic!("the list");
    };
    assert_eq!(rows[0].granted_at, 3);
    let out = grant_admin(Err(RestError::Malformed));
    assert!(matches!(&out[0], Action::Emit(Event::AdminChangeFailed { .. })));
    assert!(matches!(AdminsAnswer::default(), AdminsAnswer::Loading));
    assert!(ProfilePatch::default().bio.is_none());
}

#[test]
fn rows_are_named_by_what_says_something() {
    let session = |display_name: Option<&str>, platform: Option<&str>| SessionSummary {
        session_id: 1,
        short_id: "01AB".to_owned(),
        device: Some(DeviceSummary {
            platform: platform.map(str::to_owned),
            display_name: display_name.map(str::to_owned),
        }),
        created_at: None,
        last_active_at: None,
        current: false,
    };
    let Event::Sessions(Ok(rows)) = fetch_sessions(Ok(vec![
        session(Some("laptop"), Some("linux")),
        session(Some(""), Some("linux")),
        session(None, Some("")),
    ])) else {
        panic!("the rows");
    };
    assert_eq!(rows[0].device, "laptop");
    assert_eq!(rows[1].device, "linux");
    assert_eq!(rows[2].device, "01AB");
    let Event::Devices(Ok(rows)) = fetch_devices(Ok(vec![AccountDevice {
        device_id: 1,
        short_id: "01AB".to_owned(),
        display_name: String::new(),
        platform: "desktop".to_owned(),
        status: "ACTIVE".to_owned(),
        created_at_ms: 5,
        last_seen_at_ms: 6,
        has_credential: true,
        is_current: false,
    }])) else {
        panic!("the rows");
    };
    assert_eq!(rows[0].display_name, "01AB");
    assert_eq!(rows[0].last_seen, Some(6));
    let out = revoke_device(Ok(DeviceRevoked { revoked: 1 }));
    let Action::Emit(Event::Toast { notice, .. }) = &out[0] else {
        panic!("a word");
    };
    assert_eq!(notice_text(notice), "Device removed; 1 session ended");
    assert_eq!(
        notice_text(&Notice::DeviceRemoved { sessions: 2 }),
        "Device removed; 2 sessions ended"
    );
}

const AVAX: ChainNetwork = ChainNetwork { place: 1 };

fn prepared(from: &str) -> PreparedTx {
    PreparedTx {
        network: AVAX,
        from: from.to_owned(),
        to: "0xto".to_owned(),
        value_wei: 7,
        max_priority_fee_per_gas: 1,
        max_fee_per_gas: 30,
        gas_limit: 21_000,
        nonce: 4,
    }
}

#[test]
fn what_is_signed_is_what_was_shown() {
    let facts = |own: Option<&str>, holds_root: bool| SendFacts {
        chain_id: 43_114,
        to: Ok([9; 20]),
        holds_root,
        own_address: own.map(str::to_owned),
    };
    assert_eq!(may_send(&prepared("0xme"), facts(Some("0xme"), true)).ok(), Some([9; 20]));
    assert!(may_send(&prepared("0xme"), facts(Some("0xyou"), true)).is_err());
    assert!(may_send(&prepared("0xme"), facts(None, true)).is_err());
    assert!(may_send(&prepared("0xme"), facts(Some("0xme"), false)).is_err());
    let body = TxBody {
        chain_id: 43_114,
        nonce: 4,
        max_priority_fee_per_gas: 1,
        max_fee_per_gas: 30,
        gas_limit: 21_000,
        to: [9; 20],
        value: 7,
    };
    let record = record_of(&body, [1; 32], 5_999);
    assert_eq!(record.chain_id, 43_114);
    assert_eq!(network_name(43_114, Some("Avalanche".to_owned())), "Avalanche");
    assert_eq!(network_name(7, None), "chain 7");
    assert_eq!(record.fee_wei, 630_000);
    assert_eq!(record.at_unix, 5);
    assert_eq!(record.outcome, "PENDING");
    let mut records = vec![record];
    settle(&mut records, &hex_of(&[1; 32]), "CONFIRMED", Some(8), None);
    assert_eq!(records[0].outcome, "CONFIRMED");
    assert_eq!(records[0].block, Some(8));
    settle(&mut records, "other", "FAILED", None, None);
    assert_eq!(records[0].outcome, "CONFIRMED");
}

#[test]
fn a_transaction_is_put_together_from_answers_alone() {
    let facts = PrepareFacts {
        to: Ok([9; 20]),
        shown: "0xTo".to_owned(),
        value: Some(3),
        holds_root: true,
        own_address: Some("0xme".to_owned()),
    };
    let at = Preparing::Checking { network: AVAX };
    let (at, ask) = chain_prepare(at, PrepareEvent::Checked(facts));
    assert!(matches!(ask, PrepareAsk::Fees { network: AVAX }));
    let fees = Fees {
        max_priority_fee_per_gas: 1,
        max_fee_per_gas: 2,
    };
    let (at, ask) = chain_prepare(at, PrepareEvent::Fees(Ok(fees)));
    assert!(matches!(ask, PrepareAsk::Gas { network: AVAX, from, to, value_wei: 3 }
        if from == "0xme" && to == [9; 20]));
    let (at, ask) = chain_prepare(at, PrepareEvent::Gas(Ok(21_000)));
    assert!(matches!(ask, PrepareAsk::Nonce { network: AVAX, from } if from == "0xme"));
    let (at, ask) = chain_prepare(at, PrepareEvent::Nonce(Ok(4)));
    assert!(matches!(at, Preparing::Ended));
    assert!(matches!(ask, PrepareAsk::End { event: Event::ChainPrepared(Ok(tx)) }
        if tx.nonce == 4 && tx.gas_limit == 21_000 && tx.value_wei == 3 && tx.to == "0xTo"
            && tx.from == "0xme" && tx.max_fee_per_gas == 2));
    let draft = || TxDraft {
        network: AVAX,
        from: "0xme".to_owned(),
        to: "0xTo".to_owned(),
        value_wei: 3,
    };
    let gauging = Preparing::Gauging { draft: draft(), fees };
    let (_, ask) = chain_prepare(gauging, PrepareEvent::Gas(Err("no gas".to_owned())));
    assert!(matches!(ask, PrepareAsk::End { event: Event::ChainPrepared(Err(refusal)) }
        if refusal_text(&refusal) == "no gas"));
    let misspelt = PrepareFacts {
        to: Ok([9; 20]),
        shown: "0xTo".to_owned(),
        value: None,
        holds_root: true,
        own_address: Some("0xme".to_owned()),
    };
    let at = Preparing::Checking { network: AVAX };
    let (_, ask) = chain_prepare(at, PrepareEvent::Checked(misspelt));
    assert!(matches!(ask, PrepareAsk::End { event: Event::ChainPrepared(Err(refusal)) }
        if refusal_text(&refusal) == "the amount is not a valid AVAX amount, e.g. 1.5"));
    assert!(chain_balance(AVAX, false, Some("0xme".to_owned())).is_err());
    assert!(chain_balance(AVAX, true, None).is_err());
    assert_eq!(chain_balance(AVAX, true, Some("0xme".to_owned())).ok().as_deref(), Some("0xme"));
}

#[test]
fn a_registered_wallet_is_not_registered_again() {
    let known = vec!["0x5aAeb6053F3E94C9b9A09f33669435E7Ef1BeAed".to_owned()];
    let derived = vec![
        "5aaeb6053f3e94c9b9a09f33669435e7ef1beaed".to_owned(),
        "0xfB6916095ca1df60bB79Ce92cE3Ea74c37c5d359".to_owned(),
    ];
    assert_eq!(wallets_to_register(&known, &derived), vec![1]);
    assert_eq!(wallets_to_register(&Vec::new(), &derived), vec![0, 1]);
    assert!(wallet_registered(0, Ok(())).is_none());
    assert!(matches!(
        wallet_registered(3, Err(RestError::Transport)),
        Some(Action::Emit(Event::Toast { notice, .. }))
            if notice_text(&notice) == "could not register wallet 3: cannot reach the server"
    ));
    assert!(wallets_synced(&derived).is_empty(), "a wallet did not derive");
    let all = vec![String::new(); WALLET_INDEXES];
    assert!(matches!(wallets_synced(&all)[..], [Action::ReadWallets]));
}
