use std::collections::HashMap;

use migo_net::account::{
    captcha_fetched, ceremony_login, change_passphrase, export_container, import_door,
    install_restored, peer_fingerprint_changed, refresh_saved, restored_username, root_follow_ups,
    vault_holds_this_account, Bootstrap, CeremonyEvent, CeremonyStep, Door, KeySource, Records,
    SavedSession, VaultKeys, VaultState,
};
use migo_net::codec::b64;
use migo_net::effects::{Action, Connection, Event, Failure, Notice, ToastKind};
use migo_net::entry::{
    bootstrap, import_container, unlock, Container, EntryAsk, EntryEvent, FormEntry, RestoreEntry,
    RestoreForm, UnlockEntry,
};
use migo_net::notices::{failure_text, notice_text};
use migo_net::rest::{CaptchaChallenge, Grant, IdentityChallenge, RestError};
use migo_net::rotation::{
    may_rotate, rotate_identity, Rotating, Rotation, RotationAsk, RotationEvent, RotationStep,
};
use migo_net::server_probe::Transport;
use migo_net::signed::{Account, Signed};
use migo_net::wallet::TxRecord;
use migo_net::wire::{id_from_bytes, Id};

const ROOT: [u8; 32] = [11; 32];

fn account_id() -> Id {
    id_from_bytes([1; 16])
}

fn keys_of(root: Option<[u8; 32]>, account_id: Id) -> VaultKeys {
    VaultKeys {
        session: Some(SavedSession {
            server_url: "https://migo.example".to_owned(),
            account_id,
            device_id: id_from_bytes([2; 16]),
            username: "whoever".to_owned(),
            refresh_token: "single-use".to_owned(),
        }),
        root,
        rotated_identity_seed: None,
        txs: Vec::new(),
        peer_fingerprints: HashMap::new(),
        last_backup_at: Some(40),
    }
}

fn grant() -> Grant {
    Grant {
        account_id: account_id(),
        device_id: id_from_bytes([3; 16]),
        session_id: id_from_bytes([4; 16]),
        access_token: "token".to_owned(),
        refresh_token: "next".to_owned(),
    }
}

fn refusal(symbol: &str) -> RestError {
    RestError::Server {
        code: 1,
        symbol: symbol.to_owned(),
        message: "no".to_owned(),
        captcha: None,
    }
}

fn challenge(payload: &str) -> IdentityChallenge {
    IdentityChallenge {
        payload: payload.to_owned(),
        challenge_id: 99,
    }
}

fn failed_with(out: &[Action], words: &str) -> bool {
    let [first, second] = out else { return false };
    let told = match first {
        Action::Emit(Event::Connection(Connection::Failed(failure))) => {
            failure_text(failure) == words
        }
        _ => false,
    };
    told && matches!(second, Action::Emit(Event::Toast { notice, kind: ToastKind::Error })
        if notice_text(notice) == words)
}

#[test]
fn the_same_account_and_root_open_the_tier_one_door() {
    let keys = keys_of(Some(ROOT), account_id());
    assert!(vault_holds_this_account(&keys, account_id(), ROOT));
}

#[test]
fn a_different_account_does_not_open_the_tier_one_door() {
    let keys = keys_of(Some(ROOT), account_id());
    assert!(!vault_holds_this_account(&keys, id_from_bytes([9; 16]), ROOT));
}

#[test]
fn a_different_root_does_not_open_the_tier_one_door() {
    let keys = keys_of(Some(ROOT), account_id());
    let mut other = ROOT;
    other[0] ^= 0xff;
    assert!(!vault_holds_this_account(&keys, account_id(), other));
}

#[test]
fn a_vault_without_a_root_does_not_open_the_tier_one_door() {
    let keys = keys_of(None, account_id());
    assert!(!vault_holds_this_account(&keys, account_id(), [7u8; 32]));
}

#[test]
fn a_vault_without_a_session_does_not_open_the_tier_one_door() {
    let mut keys = keys_of(Some(ROOT), account_id());
    keys.session = None;
    assert!(!vault_holds_this_account(&keys, account_id(), ROOT));
}

#[test]
fn a_peer_fingerprint_changes_only_when_a_known_device_changes_it() {
    let mut seen: HashMap<Id, [u8; 32]> = HashMap::new();
    let device = id_from_bytes([3; 16]);

    assert!(!peer_fingerprint_changed(&mut seen, device, [1; 32]));
    assert!(!peer_fingerprint_changed(&mut seen, device, [1; 32]));
    assert!(peer_fingerprint_changed(&mut seen, device, [2; 32]));
    assert_eq!(seen.get(&device), Some(&[2; 32]));
    assert!(!peer_fingerprint_changed(&mut seen, device, [2; 32]));

    assert!(!peer_fingerprint_changed(
        &mut seen,
        id_from_bytes([4; 16]),
        [3; 32]
    ));
}

fn form(register: bool) -> Bootstrap {
    Bootstrap {
        register,
        server_url: "https://migo.example".to_owned(),
        identifier: "ada".to_owned(),
    }
}

#[test]
fn keys_are_made_only_where_there_are_none() {
    let mut records = Records::new();
    let vault = Some(keys_of(Some(ROOT), account_id()));
    assert_eq!(form(true).ask(&vault, &records).source, KeySource::Vault);
    assert_eq!(form(false).ask(&vault, &records).source, KeySource::Vault);
    assert_eq!(
        form(false).ask(&vault, &records).device_id,
        Some(id_from_bytes([2; 16]))
    );
    assert_eq!(form(true).ask(&None, &records).source, KeySource::Founding);
    assert_eq!(form(false).ask(&None, &records).source, KeySource::Additional);
    records.pending_registration = true;
    assert_eq!(form(true).ask(&None, &records).source, KeySource::Pending);
    assert_eq!(form(false).ask(&None, &records).source, KeySource::Additional);
}

#[test]
fn a_registration_that_fails_keeps_its_keys_for_the_retry() {
    let mut records = Records::new();
    let keys = keys_of(Some(ROOT), account_id());
    let answered = form(true).answered(&mut records, keys, Err(RestError::Transport));
    let out = answered.err().expect("refused");
    assert!(failed_with(&out, "cannot reach the server"));
    assert!(records.pending_registration);

    let keys = keys_of(Some(ROOT), account_id());
    let (sealed, given) = form(true)
        .answered(&mut records, keys, Ok(grant()))
        .ok()
        .expect("granted");
    let saved = sealed.session.expect("saved");
    assert_eq!(saved.username, "ada");
    assert_eq!(saved.refresh_token, "next");
    assert_eq!(saved.device_id, given.device_id);
    assert!(records.pending_registration, "the vault is not written yet");

    let failed = form(true).sealed(&mut records, Err("disk full".to_owned()));
    assert!(failed_with(&failed.expect("failed"), "disk full"));
    assert!(records.pending_registration, "the keys are nowhere else");
    assert!(form(true).sealed(&mut records, Ok(())).is_none());
    assert!(!records.pending_registration);
}

#[test]
fn a_captcha_refusal_hands_over_the_next_challenge() {
    let mut records = Records::new();
    let error = RestError::Server {
        code: 1,
        symbol: "INVALID_CAPTCHA".to_owned(),
        message: "wrong".to_owned(),
        captcha: Some(Box::new(CaptchaChallenge {
            challenge_id: "c".to_owned(),
            image_png_base64: String::new(),
            mode: "image".to_owned(),
            ttl_seconds: 120,
        })),
    };
    let out = form(false)
        .answered(&mut records, keys_of(None, account_id()), Err(error))
        .err()
        .expect("refused");
    assert!(matches!(&out[0], Action::Emit(Event::CaptchaChallenge(c)) if c.challenge_id == "c"));
    assert!(failed_with(&out[1..], "wrong"));
    assert!(!records.pending_registration);

    for symbol in ["INVALID_CAPTCHA", "CAPTCHA_EXPIRED", "CAPTCHA_REQUIRED"] {
        let out = form(false)
            .answered(&mut records, keys_of(None, account_id()), Err(refusal(symbol)))
            .err()
            .expect("refused");
        assert!(matches!(out[0], Action::Emit(Event::CaptchaRefused)));
        assert!(failed_with(&out[1..], "no"));
    }
    let out = form(false)
        .answered(&mut records, keys_of(None, account_id()), Err(refusal("OTHER")))
        .err()
        .expect("refused");
    assert!(failed_with(&out, "no"));
}

#[test]
fn a_challenge_that_does_not_load_is_no_failed_sign_in() {
    assert!(matches!(
        captcha_fetched(Err(RestError::BadUrl)),
        Action::Emit(Event::CaptchaUnavailable { reason }) if reason == "that server address is not a valid URL"
    ));
}

#[test]
fn a_second_account_inherits_nothing() {
    let record = TxRecord {
        tx_hash: [1; 32],
        chain_id: 1,
        to: [2; 20],
        value_wei: 3,
        fee_wei: 4,
        gas_limit: 5,
        at_unix: 6,
        outcome: "PENDING".to_owned(),
        block: None,
        gas_used: None,
    };
    let mut records = Records::new();
    records.txs = Some((account_id(), vec![record]));
    records.last_backup_at = Some((account_id(), None));
    let mut other = keys_of(None, id_from_bytes([9; 16]));
    records.carry_live_records(&mut other, id_from_bytes([9; 16]));
    assert!(other.txs.is_empty());
    assert_eq!(other.last_backup_at, Some(40));
    let mut own = keys_of(None, account_id());
    records.carry_live_records(&mut own, account_id());
    assert_eq!(own.txs.len(), 1);
    assert_eq!(own.last_backup_at, None);
}

#[test]
fn a_form_goes_from_the_server_to_a_sealed_session() {
    let mut records = Records::new();
    let (at, ask) = bootstrap(
        FormEntry::Dialling { form: form(true) },
        &mut records,
        EntryEvent::Dialled(Ok(())),
    );
    assert!(matches!(ask, EntryAsk::OpenVault));
    let (at, ask) = bootstrap(
        at,
        &mut records,
        EntryEvent::Vault { exists: false, opened: Err("none".to_owned()) },
    );
    assert!(matches!(ask, EntryAsk::TakeKeys { source: KeySource::Founding }));
    let mut fresh = keys_of(Some(ROOT), account_id());
    fresh.session = None;
    let (at, ask) = bootstrap(at, &mut records, EntryEvent::Keys(fresh));
    assert!(matches!(ask, EntryAsk::Request { device_id: None }));
    assert!(at.to_seal().is_none());
    let (at, ask) = bootstrap(at, &mut records, EntryEvent::Sealed(Ok(())));
    assert!(matches!(ask, EntryAsk::Wait), "nothing was asked to be sealed");
    let (at, ask) = bootstrap(at, &mut records, EntryEvent::Answered(Ok(grant())));
    assert!(matches!(ask, EntryAsk::Seal));
    let sealed = at.to_seal().expect("keys to seal");
    assert_eq!(sealed.session.as_ref().expect("saved").username, "ada");
    let (at, ask) = bootstrap(at, &mut records, EntryEvent::Sealed(Ok(())));
    assert!(matches!(at, FormEntry::Ended));
    let EntryAsk::Establish { keys, grant, username, next } = ask else {
        panic!("a session begins");
    };
    assert_eq!(keys.root, Some(ROOT));
    assert_eq!(grant.access_token, "token");
    assert_eq!(username, "ada");
    assert!(matches!(next[..], [Action::PublishIdentity, Action::SyncWallets]));
}

#[test]
fn a_form_that_opens_a_vault_keeps_its_device() {
    let mut records = Records::new();
    let (_, ask) = bootstrap(
        FormEntry::Dialling { form: form(false) },
        &mut records,
        EntryEvent::Dialled(Err(RestError::BadUrl)),
    );
    assert!(matches!(ask, EntryAsk::Stop { told }
        if failed_with(&told, "that server address is not a valid URL")));
    let (at, ask) = bootstrap(
        FormEntry::Opening { form: form(false) },
        &mut records,
        EntryEvent::Vault { exists: true, opened: Ok(keys_of(None, account_id())) },
    );
    assert!(matches!(ask, EntryAsk::Request { device_id: Some(device) }
        if device == id_from_bytes([2; 16])));
    let (at, ask) = bootstrap(at, &mut records, EntryEvent::Answered(Ok(grant())));
    assert!(matches!(ask, EntryAsk::Seal));
    let (_, ask) = bootstrap(at, &mut records, EntryEvent::Sealed(Ok(())));
    assert!(matches!(ask, EntryAsk::Establish { next, .. } if next.is_empty()));
    assert!(root_follow_ups(false).is_empty());
}

#[test]
fn a_registration_is_retried_on_the_same_keys() {
    let mut records = Records::new();
    let at = FormEntry::Requesting { form: form(true), keys: keys_of(Some(ROOT), account_id()) };
    let (_, ask) = bootstrap(at, &mut records, EntryEvent::Answered(Err(RestError::Transport)));
    assert!(matches!(ask, EntryAsk::Stop { .. }));
    let (_, ask) = bootstrap(
        FormEntry::Opening { form: form(true) },
        &mut records,
        EntryEvent::Vault { exists: false, opened: Err("none".to_owned()) },
    );
    assert!(matches!(ask, EntryAsk::TakeKeys { source: KeySource::Pending }));
}

fn opened(keys: VaultKeys) -> EntryEvent {
    EntryEvent::Vault { exists: true, opened: Ok(keys) }
}

#[test]
fn an_unlock_falls_back_to_the_ceremony() {
    let records = Records::new();
    let locked = EntryEvent::Vault { exists: true, opened: Err("locked".to_owned()) };
    let (_, ask) = unlock(UnlockEntry::Opening, &records, locked);
    assert!(matches!(ask, EntryAsk::Stop { told } if failed_with(&told, "locked")));
    let mut bare = keys_of(None, account_id());
    bare.session = None;
    let (_, ask) = unlock(UnlockEntry::Opening, &records, opened(bare));
    assert!(matches!(ask, EntryAsk::Stop { told }
        if failed_with(&told, "this vault has no saved sign-in; sign in again")));

    let vault = opened(keys_of(None, account_id()));
    let (at, ask) = unlock(UnlockEntry::Opening, &records, vault);
    assert!(matches!(ask, EntryAsk::DialSaved { server_url } if server_url == "https://migo.example"));
    let (at, ask) = unlock(at, &records, EntryEvent::Dialled(Ok(())));
    assert!(matches!(ask, EntryAsk::Refresh { refresh_token, device_id }
        if refresh_token == "single-use" && device_id == id_from_bytes([2; 16])));
    let (at, ask) = unlock(at, &records, EntryEvent::Answered(Err(RestError::Malformed)));
    assert!(matches!(ask, EntryAsk::LogIn { username, .. } if username == "whoever"));
    let (at, ask) = unlock(at, &records, EntryEvent::LoggedIn(Some(grant())));
    assert!(matches!(ask, EntryAsk::Seal));
    let sealed = at.to_seal().expect("keys to seal");
    assert_eq!(sealed.session.as_ref().expect("kept").refresh_token, "next");
    let (_, ask) = unlock(at, &records, EntryEvent::Sealed(Ok(())));
    assert!(matches!(ask, EntryAsk::Establish { username, next, .. }
        if username == "whoever" && next.is_empty()));
}

#[test]
fn an_unlock_that_cannot_go_on_says_what_the_refresh_met() {
    let records = Records::new();
    let at = UnlockEntry::Refreshing { keys: keys_of(None, account_id()) };
    let (at, _) = unlock(at, &records, EntryEvent::Answered(Err(RestError::Malformed)));
    let (at, ask) = unlock(at, &records, EntryEvent::LoggedIn(None));
    assert!(matches!(at, UnlockEntry::Ended));
    assert!(matches!(ask, EntryAsk::Stop { told }
        if failed_with(&told, "the server's answer was not in the expected form")));
    let at = UnlockEntry::Refreshing { keys: keys_of(None, account_id()) };
    let (at, ask) = unlock(at, &records, EntryEvent::Answered(Ok(grant())));
    assert!(matches!(ask, EntryAsk::Seal));
    let (_, ask) = unlock(at, &records, EntryEvent::Sealed(Err("disk full".to_owned())));
    assert!(matches!(ask, EntryAsk::Stop { told } if failed_with(&told, "disk full")));

    let mut keys = keys_of(None, account_id());
    refresh_saved(&records, &mut keys, &grant());
    let saved = keys.session.expect("kept");
    assert_eq!(saved.refresh_token, "next");
    assert_eq!(saved.username, "whoever");
    assert_eq!(saved.device_id, id_from_bytes([2; 16]));
}

#[test]
fn the_ceremony_signs_what_was_sent() {
    let payload = vec![0u8, 1, 2, 250];
    assert!(matches!(
        ceremony_login(CeremonyEvent::Looked { identity: true, credential: false }),
        CeremonyStep::GiveUp
    ));
    assert!(matches!(
        ceremony_login(CeremonyEvent::Looked { identity: true, credential: true }),
        CeremonyStep::AskChallenge
    ));
    let step = ceremony_login(CeremonyEvent::Challenged(Some(challenge(&b64(&payload)))));
    assert!(matches!(step, CeremonyStep::Sign { challenge_id: 99, payload: signed } if signed == payload));
    assert!(matches!(
        ceremony_login(CeremonyEvent::Challenged(Some(challenge("not base64!")))),
        CeremonyStep::GiveUp
    ));
    let step = ceremony_login(CeremonyEvent::Signed {
        challenge_id: 99,
        identity: Some(vec![1]),
        device: Some(vec![2]),
    });
    assert!(matches!(step, CeremonyStep::Answer { challenge_id: 99, identity, device }
        if identity == vec![1] && device == vec![2]));
    let step = ceremony_login(CeremonyEvent::Signed {
        challenge_id: 99,
        identity: Some(vec![1]),
        device: None,
    });
    assert!(matches!(step, CeremonyStep::GiveUp));
    assert!(matches!(
        ceremony_login(CeremonyEvent::Answered(Some(grant()))),
        CeremonyStep::Granted(_)
    ));
    assert!(matches!(
        ceremony_login(CeremonyEvent::Answered(None)),
        CeremonyStep::GiveUp
    ));
}

#[test]
fn a_container_opens_the_door_its_vault_decides() {
    assert!(matches!(
        import_door(None, ROOT, VaultState::Absent),
        Door::Refused(Failure::ContainerNamesNoAccount)
    ));
    assert!(matches!(
        import_door(Some(account_id()), ROOT, VaultState::Absent),
        Door::NewDevice
    ));
    assert!(matches!(
        import_door(Some(account_id()), ROOT, VaultState::Locked),
        Door::Refused(Failure::VaultDidNotOpen)
    ));
    let home = VaultState::Opened(keys_of(Some(ROOT), account_id()));
    assert!(matches!(
        import_door(Some(account_id()), ROOT, home),
        Door::Return(_)
    ));
    let other = VaultState::Opened(keys_of(Some(ROOT), id_from_bytes([9; 16])));
    assert!(matches!(
        import_door(Some(account_id()), ROOT, other),
        Door::Refused(Failure::VaultInTheWay)
    ));
}

fn restore_form() -> RestoreForm {
    RestoreForm {
        username: "  ada ".to_owned(),
        server_url: "https://migo.example".to_owned(),
    }
}

fn container(successor: Result<Option<[u8; 32]>, String>) -> Container {
    Container {
        account: Some((account_id(), "account-text".to_owned())),
        root: ROOT,
        successor,
    }
}

fn choosing(successor: Result<Option<[u8; 32]>, String>) -> RestoreEntry {
    let (at, ask) = import_container(
        RestoreEntry::Reading { form: restore_form() },
        &Records::new(),
        EntryEvent::Container(Ok(container(successor))),
    );
    assert!(matches!(ask, EntryAsk::OpenVault));
    at
}

#[test]
fn a_restore_onto_a_new_device_adds_it() {
    let records = Records::new();
    let absent = EntryEvent::Vault { exists: false, opened: Err("none".to_owned()) };
    let (at, ask) = import_container(choosing(Ok(Some([8; 32]))), &records, absent);
    assert!(matches!(ask, EntryAsk::Dial));
    let (at, ask) = import_container(at, &records, EntryEvent::Dialled(Ok(())));
    assert!(matches!(ask, EntryAsk::TakeKeys { source: KeySource::Additional }));
    let mut fresh = keys_of(None, account_id());
    fresh.session = None;
    let (at, ask) = import_container(at, &records, EntryEvent::Keys(fresh));
    assert!(matches!(ask, EntryAsk::ReadSeed { seed } if seed == [8; 32]));
    assert_eq!(at.to_hold().expect("installed").rotated_identity_seed, Some([8; 32]));
    let (at, ask) = import_container(at, &records, EntryEvent::SeedRead(Ok(())));
    assert!(matches!(ask, EntryAsk::AskChallenge { account_id: id } if id == account_id()));
    assert_eq!(at.to_hold().expect("installed").root, Some(ROOT));
    let challenged = EntryEvent::Challenged(Ok(challenge(&b64(&[1, 2, 3]))));
    let (at, ask) = import_container(at, &records, challenged);
    assert!(matches!(ask, EntryAsk::Sign { payload } if payload == vec![1, 2, 3]));
    let (at, ask) = import_container(at, &records, EntryEvent::Signed(Ok((vec![4], vec![5]))));
    assert!(matches!(ask, EntryAsk::AddDevice { challenge_id: 99, identity, device }
        if identity == vec![4] && device == vec![5]));
    let (at, ask) = import_container(at, &records, EntryEvent::Answered(Ok(grant())));
    assert!(matches!(ask, EntryAsk::Seal));
    let saved = at.to_hold().expect("keys").session.as_ref().expect("saved");
    assert_eq!(saved.username, "ada");
    assert_eq!(saved.refresh_token, "next");
    let (_, ask) = import_container(at, &records, EntryEvent::Sealed(Ok(())));
    assert!(matches!(ask, EntryAsk::Establish { username, next, .. }
        if username == "ada" && next.len() == 2));
}

#[test]
fn a_restore_onto_its_own_device_signs_in_again() {
    let records = Records::new();
    let vault = opened(keys_of(Some(ROOT), account_id()));
    let (at, ask) = import_container(choosing(Ok(None)), &records, vault);
    assert!(matches!(ask, EntryAsk::Dial));
    let (at, ask) = import_container(at, &records, EntryEvent::Dialled(Ok(())));
    assert!(matches!(ask, EntryAsk::LogIn { username, .. } if username == "whoever"));
    let (at, ask) = import_container(at, &records, EntryEvent::LoggedIn(Some(grant())));
    assert!(matches!(ask, EntryAsk::Seal));
    let (_, ask) = import_container(at, &records, EntryEvent::Sealed(Ok(())));
    assert!(matches!(ask, EntryAsk::Establish { username, next, .. }
        if username == "whoever" && next.is_empty()));
    let at = RestoreEntry::LoggingIn { keys: keys_of(Some(ROOT), account_id()) };
    let (_, ask) = import_container(at, &records, EntryEvent::LoggedIn(None));
    assert!(matches!(ask, EntryAsk::Stop { told } if failed_with(
        &told,
        "this device already holds this account's keys, but signing back in as this device was \
         refused; unlock the vault with its passphrase instead",
    )));
}

#[test]
fn a_restore_that_cannot_go_on_says_why() {
    let records = Records::new();
    let reading = || RestoreEntry::Reading { form: restore_form() };
    let unread = EntryEvent::Container(Err("no such file".to_owned()));
    let (_, ask) = import_container(reading(), &records, unread);
    assert!(matches!(ask, EntryAsk::Stop { told } if failed_with(&told, "no such file")));
    let mut nameless = container(Ok(None));
    nameless.account = None;
    let (_, ask) = import_container(reading(), &records, EntryEvent::Container(Ok(nameless)));
    assert!(matches!(ask, EntryAsk::Stop { told } if failed_with(
        &told,
        "this container does not name its account (it was sealed by an older build); sign in \
         with your passphrase instead",
    )));
    let other = opened(keys_of(Some([1; 32]), account_id()));
    let (at, ask) = import_container(choosing(Ok(None)), &records, other);
    assert!(matches!(at, RestoreEntry::Ended));
    assert!(matches!(ask, EntryAsk::Stop { told } if failed_with(
        &told,
        "this device already has a vault; remove it deliberately before restoring onto this \
         machine",
    )));
    let challenging = || RestoreEntry::Challenging {
        form: restore_form(),
        keys: keys_of(Some(ROOT), account_id()),
        account: (account_id(), "account-text".to_owned()),
    };
    let broken = EntryEvent::Challenged(Ok(challenge("%")));
    let (_, ask) = import_container(challenging(), &records, broken);
    assert!(matches!(ask, EntryAsk::Stop { told }
        if failed_with(&told, "the server's challenge payload was not base64")));
    let keying = RestoreEntry::Keying {
        form: restore_form(),
        container: container(Err("a torn seed".to_owned())),
        account: (account_id(), "account-text".to_owned()),
    };
    let fresh = EntryEvent::Keys(keys_of(None, account_id()));
    let (_, ask) = import_container(keying, &records, fresh);
    assert!(matches!(ask, EntryAsk::Stop { told } if failed_with(&told, "a torn seed")));
}

#[test]
fn a_restore_signs_with_the_key_the_server_knows() {
    let mut keys = keys_of(None, account_id());
    install_restored(&mut keys, ROOT, None);
    assert_eq!(keys.root, Some(ROOT));
    assert_eq!(keys.rotated_identity_seed, None);
    install_restored(&mut keys, ROOT, Some([8; 32]));
    assert_eq!(keys.rotated_identity_seed, Some([8; 32]));
    assert_eq!(restored_username("  ada ", "id"), "ada");
    assert_eq!(restored_username("  ", "id"), "id");
}

fn sealing(records: &mut Records, keys: VaultKeys) -> Rotating {
    let at = Rotating::Opening { account_id: account_id() };
    let (at, ask) = rotate_identity(at, records, RotationEvent::Opened(Ok((keys, true))));
    assert!(matches!(ask, RotationAsk::Challenge));
    let challenged = RotationEvent::Challenged(Ok(challenge(&b64(&[7, 7]))));
    let (at, ask) = rotate_identity(at, records, challenged);
    assert!(matches!(ask, RotationAsk::Sign { payload } if payload == vec![7, 7]));
    let (at, ask) = rotate_identity(at, records, RotationEvent::Signed(Ok(vec![1])));
    assert!(matches!(ask, RotationAsk::Mint));
    let minted = RotationEvent::Minted { seed: [5; 32], successor: Ok(vec![2]) };
    let (at, ask) = rotate_identity(at, records, minted);
    assert!(matches!(ask, RotationAsk::Seal { told } if told.is_empty()));
    assert_eq!(at.to_seal().expect("keys").rotated_identity_seed, Some([5; 32]));
    at
}

fn asking(records: &mut Records, keys: VaultKeys) -> Rotating {
    let at = sealing(records, keys);
    let (at, ask) = rotate_identity(at, records, RotationEvent::Sealed(Ok(())));
    assert!(matches!(ask, RotationAsk::Rotate { challenge_id: 99, signature, successor }
        if signature == vec![1] && successor == vec![2]));
    at
}

fn toasted(ask: &RotationAsk, words: &str) -> bool {
    let RotationAsk::End { told } = ask else { return false };
    matches!(&told[..], [Action::Emit(Event::Toast { notice, kind: ToastKind::Error })]
        if notice_text(notice) == words)
}

#[test]
fn a_refused_rotation_puts_the_vault_back() {
    let mut records = Records::new();
    let at = asking(&mut records, keys_of(Some(ROOT), account_id()));
    let refused = RotationEvent::Answered(Err(refusal("INVALID_CREDENTIALS")));
    let (at, ask) = rotate_identity(at, &mut records, refused);
    assert!(matches!(ask, RotationAsk::Seal { told } if told.is_empty()));
    let keys = at.to_seal().expect("keys");
    assert_eq!(keys.rotated_identity_seed, None, "no successor stood before it");
    assert_eq!(keys.last_backup_at, Some(40));
    let (at, ask) = rotate_identity(at, &mut records, RotationEvent::Sealed(Ok(())));
    assert!(matches!(at, Rotating::Ended));
    assert!(toasted(&ask, "the identity key was not rotated: no"));

    let at = asking(&mut records, keys_of(Some(ROOT), account_id()));
    let refused = RotationEvent::Answered(Err(refusal("OTHER")));
    let (at, _) = rotate_identity(at, &mut records, refused);
    let unsealed = RotationEvent::Sealed(Err("full".to_owned()));
    let (_, ask) = rotate_identity(at, &mut records, unsealed);
    assert!(toasted(
        &ask,
        "the identity key was not rotated (no), and the vault could not be restored: full — \
         rotate again to retry the ceremony",
    ));
}

#[test]
fn a_lost_answer_keeps_the_successor() {
    let mut records = Records::new();
    let at = asking(&mut records, keys_of(Some(ROOT), account_id()));
    let lost = RotationEvent::Answered(Err(RestError::Transport));
    let (at, ask) = rotate_identity(at, &mut records, lost);
    assert!(matches!(ask, RotationAsk::Seal { told } if told.is_empty()));
    let keys = at.to_seal().expect("keys");
    assert_eq!(keys.rotated_identity_seed, Some([5; 32]));
    assert_eq!(keys.last_backup_at, None);
    assert_eq!(records.last_backup_at, Some((account_id(), None)));
    let (_, ask) = rotate_identity(at, &mut records, RotationEvent::Sealed(Ok(())));
    let RotationAsk::End { told } = ask else { panic!("it ends") };
    assert_eq!(told.len(), 2);
    assert!(matches!(told[0], Action::Emit(Event::BackupState { last_backup_at: None })));
    assert!(matches!(&told[1],
        Action::Emit(Event::Toast { notice: Notice::RotationUnanswered, kind: ToastKind::Info })));
}

#[test]
fn a_vault_ahead_of_the_server_tries_the_root() {
    let mut records = Records::new();
    let mut keys = keys_of(Some(ROOT), account_id());
    keys.rotated_identity_seed = Some([4; 32]);
    let at = asking(&mut records, keys);
    let refused = RotationEvent::Answered(Err(refusal("INVALID_CREDENTIALS")));
    let (at, ask) = rotate_identity(at, &mut records, refused);
    assert!(matches!(ask, RotationAsk::SignWithRoot { payload } if payload == vec![7, 7]));
    let (at, ask) = rotate_identity(at, &mut records, RotationEvent::RootSigned(Some(vec![9])));
    assert!(matches!(ask, RotationAsk::Rotate { challenge_id: 99, signature, successor }
        if signature == vec![9] && successor == vec![2]));
    let (at, ask) = rotate_identity(at, &mut records, RotationEvent::Answered(Ok(())));
    let RotationAsk::Seal { told } = ask else { panic!("it seals") };
    assert!(matches!(told[0], Action::AdoptIdentity { seed } if seed == [5; 32]));
    let keys = at.to_seal().expect("keys");
    assert_eq!(keys.rotated_identity_seed, Some([5; 32]));
    assert_eq!(keys.last_backup_at, None);
    let unsealed = RotationEvent::Sealed(Err("full".to_owned()));
    let (_, ask) = rotate_identity(at, &mut records, unsealed);
    let RotationAsk::End { told } = ask else { panic!("it ends") };
    assert_eq!(told.len(), 2);
    assert!(matches!(&told[0],
        Action::Emit(Event::Toast { notice: Notice::BackupDateKept { .. }, .. })));

    let mut keys = keys_of(Some(ROOT), account_id());
    keys.rotated_identity_seed = Some([4; 32]);
    let at = asking(&mut records, keys);
    let refused = RotationEvent::Answered(Err(refusal("INVALID_CREDENTIALS")));
    let (at, _) = rotate_identity(at, &mut records, refused);
    let (at, ask) = rotate_identity(at, &mut records, RotationEvent::RootSigned(None));
    assert!(matches!(ask, RotationAsk::Seal { .. }));
    assert_eq!(at.to_seal().expect("keys").rotated_identity_seed, Some([4; 32]));
    assert_eq!(Rotation::retried(&Err(refusal("INVALID_CREDENTIALS"))), RotationStep::RollBack);
    assert_eq!(Rotation::retried(&Err(RestError::Transport)), RotationStep::Unanswered);
}

#[test]
fn a_successor_that_is_not_sealed_is_not_offered() {
    let mut records = Records::new();
    let at = sealing(&mut records, keys_of(Some(ROOT), account_id()));
    let unsealed = RotationEvent::Sealed(Err("full".to_owned()));
    let (at, ask) = rotate_identity(at, &mut records, unsealed);
    assert!(matches!(at, Rotating::Ended));
    assert!(toasted(&ask, "the vault could not be re-sealed (full); nothing was rotated"));
    let at = Rotating::Challenging {
        account_id: account_id(),
        keys: keys_of(Some(ROOT), account_id()),
    };
    let broken = RotationEvent::Challenged(Ok(challenge("%")));
    let (_, ask) = rotate_identity(at, &mut records, broken);
    assert!(toasted(&ask, "the server's challenge payload was not base64"));
}

#[test]
fn only_this_accounts_vault_rotates() {
    let keys = keys_of(Some(ROOT), account_id());
    assert!(may_rotate(account_id(), &keys, true).is_none());
    let told = |action: Option<Action>| match action {
        Some(Action::Emit(Event::Toast { notice, kind: ToastKind::Error })) => notice_text(&notice),
        _ => String::new(),
    };
    assert_eq!(
        told(may_rotate(account_id(), &keys, false)),
        "this device holds no identity key, so it cannot rotate one"
    );
    assert_eq!(
        told(may_rotate(id_from_bytes([9; 16]), &keys, true)),
        "this vault belongs to another account; the identity key was not rotated"
    );
    let mut records = Records::new();
    let at = Rotating::Opening { account_id: account_id() };
    let locked = RotationEvent::Opened(Err("bad".to_owned()));
    let (_, ask) = rotate_identity(at, &mut records, locked);
    assert!(toasted(&ask, "the vault did not open (bad); the identity key was not rotated"));
}

#[test]
fn a_backup_carries_the_successor() {
    let mut keys = keys_of(Some(ROOT), account_id());
    keys.rotated_identity_seed = Some([4; 32]);
    let plan = export_container(&keys, account_id(), 12_999).ok().expect("a plan");
    assert_eq!(plan.root, ROOT);
    assert_eq!(plan.at_unix, 12);
    assert_eq!(plan.successor, Some([4; 32]));
    let none = keys_of(None, account_id());
    assert!(matches!(
        export_container(&none, account_id(), 0),
        Err(Action::Emit(Event::Toast { notice: Notice::NoRootForBackup, kind: ToastKind::Error }))
    ));
}

#[test]
fn a_changed_passphrase_moves_the_session() {
    let account = Account {
        account_id: account_id(),
        device_id: 2,
        session_id: 3,
        username: "ada".to_owned(),
        safety_number: "1".to_owned(),
        holds_root: false,
    };
    let mut signed = Signed::begin(account, Transport::Tcp, "old".to_owned(), &Vec::new());
    let action = change_passphrase(&mut signed, Err(refusal("X")));
    assert!(matches!(&action, Action::Emit(Event::Toast { notice, kind: ToastKind::Error })
        if notice_text(notice) == "no"));
    assert_eq!(signed.access_token, "old");
    let action = change_passphrase(&mut signed, Ok(grant()));
    assert!(matches!(&action, Action::Emit(Event::Toast { notice: Notice::PassphraseChanged, .. })));
    assert_eq!(signed.access_token, "token");
    assert_eq!(signed.account.session_id, id_from_bytes([4; 16]));
}
