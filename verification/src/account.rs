//! The account's ceremonies: signing in, unlocking, restoring, rotating the identity.
//!
//! Keys and vaults are handled at the edge. What is decided about them is decided here, over what
//! the vault holds as plain values and what the server answered.

use std::collections::HashMap;

use vstd::prelude::*;

use crate::codec::{base64_bytes, base64_decode};
use crate::effects::{toast, toasted, Action, Connection, Event, Failure, Notice, ToastKind};
use crate::rest::{CaptchaChallenge, Grant, IdentityChallenge, RestError};
use crate::signed::{Account, Signed};
use crate::text::{same_text, trimmed};
use crate::wallet::{copy_records, same_records, TxRecord};
use crate::wire::Id;

verus! {

broadcast use vstd::std_specs::hash::group_hash_axioms;

/// A captcha answer on its way from a form. It has no printed form.
pub struct CaptchaAnswer {
    pub challenge_id: String,
    pub answer: String,
}

/// The sign-in a vault remembers.
pub struct SavedSession {
    pub server_url: String,
    pub account_id: Id,
    pub device_id: Id,
    pub username: String,
    pub refresh_token: String,
}

/// What a vault holds besides the keys that only the edge can use.
pub struct VaultKeys {
    pub session: Option<SavedSession>,
    /// The account root, on a device that holds it.
    pub root: Option<[u8; 32]>,
    /// The seed of the identity that a rotation put in the root's place.
    pub rotated_identity_seed: Option<[u8; 32]>,
    pub txs: Vec<TxRecord>,
    pub peer_fingerprints: HashMap<Id, [u8; 32]>,
    pub last_backup_at: Option<u64>,
}

/// The account records this process keeps between two passphrase moments, each with the account it
/// belongs to, and whether keys of an unanswered registration are held for its retry.
pub struct Records {
    pub txs: Option<(Id, Vec<TxRecord>)>,
    pub peers: Option<(Id, HashMap<Id, [u8; 32]>)>,
    pub last_backup_at: Option<(Id, Option<u64>)>,
    pub pending_registration: bool,
}

/// Whether some actions report a failure: the connection's state, and the same sentence in passing.
pub open spec fn reports(out: Seq<Action>, failure: Failure) -> bool {
    &&& out.len() == 2
    &&& out[0] == Action::Emit(Event::Connection(Connection::Failed(failure)))
    &&& out[1] matches Action::Emit(Event::Toast { notice: Notice::Said { text }, kind }) && kind
        == ToastKind::Error && text@ == crate::notices::failure_says(failure)
}

/// Reports a failure that left the client signed out.
pub fn fail(failure: Failure) -> (out: Vec<Action>)
    ensures
        reports(out@, failure),
{
    let text: String = crate::notices::failure_text(&failure);
    vec![
        Action::Emit(Event::Connection(Connection::Failed(failure))),
        toasted(Notice::Said { text }, ToastKind::Error),
    ]
}

impl Records {
    pub fn new() -> (records: Self)
        ensures
            records.txs is None,
            records.peers is None,
            records.last_backup_at is None,
            !records.pending_registration,
    {
        Records { txs: None, peers: None, last_backup_at: None, pending_registration: false }
    }

    /// Whether `after` is `before` with this account's live records folded in, and no other's.
    pub open spec fn carried(self, account_id: Id, before: VaultKeys, after: VaultKeys) -> bool {
        &&& match self.txs {
            Some((owner, records)) if owner == account_id => same_records(after.txs@, records@),
            _ => after.txs == before.txs,
        }
        &&& match self.peers {
            Some((owner, seen)) if owner == account_id => after.peer_fingerprints@ == seen@,
            _ => after.peer_fingerprints == before.peer_fingerprints,
        }
        &&& after.last_backup_at == (match self.last_backup_at {
            Some((owner, at)) if owner == account_id => at,
            _ => before.last_backup_at,
        })
        &&& after == (VaultKeys {
            txs: after.txs,
            peer_fingerprints: after.peer_fingerprints,
            last_backup_at: after.last_backup_at,
            ..before
        })
    }

    /// Folds this process's live account records into the keys that are about to be sealed.
    ///
    /// They are newer than what the vault last sealed; a different account's never cross over.
    pub fn carry_live_records(&self, keys: &mut VaultKeys, account_id: Id)
        ensures
            self.carried(account_id, *old(keys), *final(keys)),
    {
        if let Some((owner, records)) = &self.txs {
            if *owner == account_id {
                keys.txs = copy_records(records);
            }
        }
        if let Some((owner, seen)) = &self.peers {
            if *owner == account_id {
                keys.peer_fingerprints = seen.clone();
            }
        }
        if let Some((owner, at)) = self.last_backup_at {
            if owner == account_id {
                keys.last_backup_at = at;
            }
        }
    }
}

/// A second account inherits nothing: records that belong to another account leave its vault as it
/// was.
pub proof fn law_records_do_not_cross_accounts(
    records: Records,
    account_id: Id,
    before: VaultKeys,
    after: VaultKeys,
)
    requires
        records.carried(account_id, before, after),
        records.txs matches Some((owner, _)) ==> owner != account_id,
        records.peers matches Some((owner, _)) ==> owner != account_id,
        records.last_backup_at matches Some((owner, _)) ==> owner != account_id,
    ensures
        after == before,
{
}

/// Where the keys of a sign-in come from.
#[derive(Debug, Clone, Copy, PartialEq, Eq, Structural)]
pub enum KeySource {
    /// The vault that the passphrase opened: an identity peers have verified is never replaced.
    Vault,
    /// The founding keys of an attempt that was not answered.
    Pending,
    /// Fresh founding keys, with a root.
    Founding,
    /// Fresh keys of an additional device, without a root.
    Additional,
}

/// Where the keys of a sign-in come from: keys are made only where this device has none yet.
///
/// A registration's keys are resolved before it asks, and kept for a retry, so that a retry
/// reconciles into the account the first attempt made. A sign-in that opens no vault is an
/// additional device.
pub open spec fn keys_from(register: bool, vault_opened: bool, pending: bool) -> KeySource {
    if vault_opened {
        KeySource::Vault
    } else if !register {
        KeySource::Additional
    } else if pending {
        KeySource::Pending
    } else {
        KeySource::Founding
    }
}

/// Keys that a vault gave back are never replaced by fresh ones.
pub proof fn law_held_keys_are_kept(register: bool, pending: bool)
    ensures
        keys_from(register, true, pending) == KeySource::Vault,
{
}

/// The records after an attempt that came to nothing: a registration's keys are held for its
/// retry.
pub open spec fn holding(records: Records, register: bool) -> Records {
    Records { pending_registration: records.pending_registration || register, ..records }
}

/// A registration that is tried again, with no vault written in between, presents the keys of the
/// attempt before it, whatever sign-ins failed meanwhile.
pub proof fn law_a_retry_presents_the_same_keys(records: Records, meanwhile: bool)
    ensures
        keys_from(
            true,
            false,
            holding(holding(records, true), meanwhile).pending_registration,
        ) == KeySource::Pending,
{
}

/// Whether a refusal's symbol says that the captcha proof is dead: wrong, expired, or never sent.
pub open spec fn kills_captcha(symbol: Seq<char>) -> bool {
    symbol == "INVALID_CAPTCHA"@ || symbol == "CAPTCHA_EXPIRED"@ || symbol == "CAPTCHA_REQUIRED"@
}

fn is_captcha_refusal(symbol: &str) -> (r: bool)
    ensures
        r == kills_captcha(symbol@),
{
    same_text(symbol, "INVALID_CAPTCHA") || same_text(symbol, "CAPTCHA_EXPIRED") || same_text(
        symbol,
        "CAPTCHA_REQUIRED",
    )
}

/// Whether some actions are what a refused sign-in asks for: the refusal's own replacement
/// challenge, or word that the held one is dead, and then the failure.
pub open spec fn refused_actions(error: RestError, out: Seq<Action>) -> bool {
    match error {
        RestError::Server { captcha: Some(challenge), message, .. } => {
            &&& out.len() == 3
            &&& out[0] == Action::Emit(Event::CaptchaChallenge(*challenge))
            &&& said(out.subrange(1, 3), message@)
        },
        RestError::Server { symbol, message, captcha: None, .. } => if kills_captcha(symbol@) {
            &&& out.len() == 3
            &&& out[0] == Action::Emit(Event::CaptchaRefused)
            &&& said(out.subrange(1, 3), message@)
        } else {
            said(out, message@)
        },
        _ => said(out, error.says()),
    }
}

/// Whether some actions report a failure in these words.
pub open spec fn said(out: Seq<Action>, words: Seq<char>) -> bool {
    &&& out.len() == 2
    &&& out[0] matches Action::Emit(
        Event::Connection(Connection::Failed(Failure::Said { text })),
    ) && text@ == words
    &&& out[1] matches Action::Emit(Event::Toast { notice: Notice::Said { text }, kind }) && kind
        == ToastKind::Error && text@ == words
}

/// Reports a failure in these words.
pub fn say(text: String) -> (out: Vec<Action>)
    ensures
        said(out@, text@),
{
    fail(Failure::Said { text })
}

/// A registration or sign-in was refused.
///
/// The attempt failed, not the account: a registration's keys are held for the retry. A captcha
/// refusal is no dead form: a fresh challenge replaces the one the attempt spent.
pub fn bootstrap_refused(
    records: &mut Records,
    register: bool,
    error: RestError,
) -> (out: Vec<Action>)
    ensures
        *final(records) == holding(*old(records), register),
        refused_actions(error, out@),
{
    if register {
        records.pending_registration = true;
    }
    let text: String = error.message();
    let mut out: Vec<Action> = Vec::new();
    match error {
        RestError::Server { captcha: Some(challenge), .. } => {
            out.push(Action::Emit(Event::CaptchaChallenge(*challenge)));
        },
        RestError::Server { symbol, captcha: None, .. } => {
            if is_captcha_refusal(symbol.as_str()) {
                out.push(Action::Emit(Event::CaptchaRefused));
            }
        },
        _ => {},
    }
    let ghost head = out@;
    let mut told: Vec<Action> = say(text);
    let ghost tail = told@;
    out.append(&mut told);
    proof {
        assert(out@ =~= head + tail);
        if head.len() == 1 {
            assert(out@.subrange(1, 3) =~= tail);
        } else {
            assert(out@ =~= tail);
        }
    }
    out
}

/// A captcha challenge was fetched for a form, or was not. A challenge that does not load is no
/// failed sign-in.
pub fn captcha_fetched(outcome: Result<CaptchaChallenge, RestError>) -> (action: Action)
    ensures
        match outcome {
            Ok(challenge) => action == Action::Emit(Event::CaptchaChallenge(challenge)),
            Err(error) => action matches Action::Emit(Event::CaptchaUnavailable { reason }) && reason@
                == error.says(),
        },
{
    match outcome {
        Ok(challenge) => Action::Emit(Event::CaptchaChallenge(challenge)),
        Err(error) => Action::Emit(Event::CaptchaUnavailable { reason: error.message() }),
    }
}

/// Whether keys hold a sign-in that a grant began, and this account's live records with it.
pub open spec fn signs_in(
    records: Records,
    before: VaultKeys,
    account_id: Id,
    grant: Grant,
    server_url: Seq<char>,
    username: Seq<char>,
    after: VaultKeys,
) -> bool {
    &&& after.session matches Some(saved) && saved.server_url@ == server_url && saved.account_id
        == account_id && saved.device_id == grant.device_id && saved.username@ == username
        && saved.refresh_token@ == grant.refresh_token@
    &&& records.carried(account_id, (VaultKeys { session: after.session, ..before }), after)
}

/// Files the sign-in that a grant began, and the live records with it.
pub fn file_session(
    records: &Records,
    keys: &mut VaultKeys,
    account_id: Id,
    grant: &Grant,
    server_url: &str,
    username: &str,
)
    ensures
        signs_in(
            *records,
            *old(keys),
            account_id,
            *grant,
            server_url@,
            username@,
            *final(keys),
        ),
{
    keys.session = Some(
        SavedSession {
            server_url: server_url.to_owned(),
            account_id,
            device_id: grant.device_id,
            username: username.to_owned(),
            refresh_token: grant.refresh_token.clone(),
        },
    );
    records.carry_live_records(keys, account_id);
}

/// A registration or a sign-in under way.
pub struct Bootstrap {
    pub register: bool,
    pub server_url: String,
    pub identifier: String,
}

/// What a registration or a sign-in asks with.
#[derive(Debug, Clone, Copy, PartialEq, Eq, Structural)]
pub struct BootstrapAsk {
    pub source: KeySource,
    /// The device the vault saved, so that signing in again orphans no verified identity.
    pub device_id: Option<Id>,
}

/// The device a vault saved a sign-in of.
pub open spec fn saved_device(vault: Option<VaultKeys>) -> Option<Id> {
    match vault {
        Some(keys) => match keys.session {
            Some(saved) => Some(saved.device_id),
            None => None,
        },
        None => None,
    }
}

impl Bootstrap {
    /// What is asked, given the vault that the passphrase opened, if it opened one.
    pub fn ask(&self, vault: &Option<VaultKeys>, records: &Records) -> (ask: BootstrapAsk)
        ensures
            ask.source == keys_from(self.register, vault is Some, records.pending_registration),
            ask.device_id == saved_device(*vault),
    {
        let device_id: Option<Id> = match vault {
            Some(keys) => match &keys.session {
                Some(saved) => Some(saved.device_id),
                None => None,
            },
            None => None,
        };
        let source: KeySource = if vault.is_some() {
            KeySource::Vault
        } else if !self.register {
            KeySource::Additional
        } else if records.pending_registration {
            KeySource::Pending
        } else {
            KeySource::Founding
        };
        BootstrapAsk { source, device_id }
    }

    /// What the answer comes to: keys to seal, or what a refusal asks for.
    pub fn answered(
        &self,
        records: &mut Records,
        keys: VaultKeys,
        outcome: Result<Grant, RestError>,
    ) -> (r: Result<(VaultKeys, Grant), Vec<Action>>)
        ensures
            match outcome {
                Ok(grant) => {
                    &&& *final(records) == *old(records)
                    &&& r matches Ok((sealed, given)) && given == grant && signs_in(
                        *old(records),
                        keys,
                        grant.account_id,
                        grant,
                        self.server_url@,
                        self.identifier@,
                        sealed,
                    )
                },
                Err(error) => {
                    &&& *final(records) == holding(*old(records), self.register)
                    &&& r matches Err(out) && refused_actions(error, out@)
                },
            },
    {
        match outcome {
            Ok(grant) => {
                let mut keys: VaultKeys = keys;
                file_session(
                    records,
                    &mut keys,
                    grant.account_id,
                    &grant,
                    self.server_url.as_str(),
                    self.identifier.as_str(),
                );
                Ok((keys, grant))
            },
            Err(error) => Err(bootstrap_refused(records, self.register, error)),
        }
    }

    /// The vault was written, or was not. From the moment it is written it is the keys' home, and
    /// whatever an unanswered registration left is spent; until then its keys are held.
    pub fn sealed(
        &self,
        records: &mut Records,
        outcome: Result<(), String>,
    ) -> (failed: Option<Vec<Action>>)
        ensures
            match outcome {
                Ok(_) => {
                    &&& failed is None
                    &&& *final(records) == (Records { pending_registration: false, ..*old(records) })
                },
                Err(reason) => {
                    &&& failed matches Some(out) && said(out@, reason@)
                    &&& *final(records) == holding(*old(records), self.register)
                },
            },
    {
        match outcome {
            Ok(_) => {
                records.pending_registration = false;
                None
            },
            Err(reason) => {
                if self.register {
                    records.pending_registration = true;
                }
                Some(say(reason))
            },
        }
    }
}

/// What follows a sign-in on a device that holds the root, or does not: the root's public halves
/// are published and its wallets registered, each time, because both reconcile to what exists.
pub fn root_follow_ups(holds_root: bool) -> (out: Vec<Action>)
    ensures
        out@ == (if holds_root {
            seq![Action::PublishIdentity, Action::SyncWallets]
        } else {
            Seq::empty()
        }),
{
    if holds_root {
        vec![Action::PublishIdentity, Action::SyncWallets]
    } else {
        Vec::new()
    }
}

/// Files the refresh token that an exchange rotated, and the live records with it. Nothing else of
/// the saved sign-in changes: the next unlock must not present a token the server has retired.
pub fn refresh_saved(records: &Records, keys: &mut VaultKeys, grant: &Grant)
    ensures
        match old(keys).session {
            Some(saved) => {
                &&& final(keys).session matches Some(kept) && kept.refresh_token@
                    == grant.refresh_token@ && kept == (SavedSession {
                    refresh_token: kept.refresh_token,
                    ..saved
                })
                &&& records.carried(
                    grant.account_id,
                    (VaultKeys { session: final(keys).session, ..*old(keys) }),
                    *final(keys),
                )
            },
            None => records.carried(grant.account_id, *old(keys), *final(keys)),
        },
{
    match keys.session.take() {
        Some(saved) => {
            keys.session = Some(
                SavedSession {
                    server_url: saved.server_url,
                    account_id: saved.account_id,
                    device_id: saved.device_id,
                    username: saved.username,
                    refresh_token: grant.refresh_token.clone(),
                },
            );
        },
        None => {},
    }
    records.carry_live_records(keys, grant.account_id);
}

/// What came of a step of the passphraseless sign-in.
#[allow(inconsistent_fields)]
pub enum CeremonyEvent {
    /// The vault was looked through for the two keys that sign.
    Looked { identity: bool, credential: bool },
    /// The challenge was issued, or was not.
    Challenged(Option<IdentityChallenge>),
    /// Both halves were signed, as far as they could be.
    Signed { challenge_id: Id, identity: Option<Vec<u8>>, device: Option<Vec<u8>> },
    /// The server answered with a grant, or did not.
    Answered(Option<Grant>),
}

/// What the passphraseless sign-in does next.
pub enum CeremonyStep {
    /// This device cannot sign in this way.
    GiveUp,
    AskChallenge,
    /// Sign these bytes, exactly as they were sent.
    Sign { challenge_id: Id, payload: Vec<u8> },
    Answer { challenge_id: Id, identity: Vec<u8>, device: Vec<u8> },
    Granted(Grant),
}

/// Whether a step of the passphraseless sign-in is the one an event asks for.
pub open spec fn ceremony_goes(event: CeremonyEvent, step: CeremonyStep) -> bool {
    match event {
        CeremonyEvent::Looked { identity, credential } => step == (if identity && credential {
            CeremonyStep::AskChallenge
        } else {
            CeremonyStep::GiveUp
        }),
        CeremonyEvent::Challenged(Some(challenge)) => match base64_bytes(challenge.payload@) {
            Some(bytes) => step matches CeremonyStep::Sign { challenge_id, payload } && challenge_id
                == challenge.challenge_id && payload@ == bytes,
            None => step == CeremonyStep::GiveUp,
        },
        CeremonyEvent::Signed { challenge_id, identity: Some(i), device: Some(d) } => step
            == (CeremonyStep::Answer { challenge_id, identity: i, device: d }),
        CeremonyEvent::Answered(Some(grant)) => step == CeremonyStep::Granted(grant),
        _ => step == CeremonyStep::GiveUp,
    }
}

/// The passphraseless sign-in, one step at a time. Whatever fails, it gives up without a reason:
/// the caller reports the failure of what it was actually trying.
pub fn ceremony_login(event: CeremonyEvent) -> (step: CeremonyStep)
    ensures
        ceremony_goes(event, step),
{
    match event {
        CeremonyEvent::Looked { identity, credential } => {
            if identity && credential {
                CeremonyStep::AskChallenge
            } else {
                CeremonyStep::GiveUp
            }
        },
        CeremonyEvent::Challenged(Some(challenge)) => match challenge_payload(&challenge) {
            Some((challenge_id, payload)) => CeremonyStep::Sign { challenge_id, payload },
            None => CeremonyStep::GiveUp,
        },
        CeremonyEvent::Challenged(None) => CeremonyStep::GiveUp,
        CeremonyEvent::Signed { challenge_id, identity: Some(identity), device: Some(device) } => {
            CeremonyStep::Answer { challenge_id, identity, device }
        },
        CeremonyEvent::Signed { .. } => CeremonyStep::GiveUp,
        CeremonyEvent::Answered(Some(grant)) => CeremonyStep::Granted(grant),
        CeremonyEvent::Answered(None) => CeremonyStep::GiveUp,
    }
}

/// The bytes a challenge asks to be signed, exactly as they were sent, with the challenge's id.
pub fn challenge_payload(challenge: &IdentityChallenge) -> (payload: Option<(Id, Vec<u8>)>)
    ensures
        payload is Some <==> base64_bytes(challenge.payload@) is Some,
        payload matches Some((id, bytes)) ==> id == challenge.challenge_id && base64_bytes(
            challenge.payload@,
        ) == Some(bytes@),
{
    match base64_decode(challenge.payload.as_str()) {
        Some(bytes) => Some((challenge.challenge_id, bytes)),
        None => None,
    }
}

/// Whether a vault is a container's own account come home: it saved a sign-in of the same account,
/// and holds the same root.
pub open spec fn comes_home(keys: VaultKeys, account_id: Id, root: [u8; 32]) -> bool {
    &&& keys.session matches Some(saved) && saved.account_id == account_id
    &&& keys.root matches Some(held) && held@ == root@
}

fn same_key(a: &[u8; 32], b: &[u8; 32]) -> (r: bool)
    ensures
        r == (a@ == b@),
{
    let mut i: usize = 0;
    while i < 32
        invariant
            i <= 32,
            forall|j: int| 0 <= j < i ==> a@[j] == b@[j],
        decreases 32 - i,
    {
        if a[i] != b[i] {
            return false;
        }
        i = i + 1;
    }
    assert(a@ =~= b@);
    true
}

/// Whether a vault is a container's own account come home.
///
/// Both halves are required: the account id is the container's claim, and the root is what this
/// device can actually check.
pub fn vault_holds_this_account(keys: &VaultKeys, account_id: Id, root: [u8; 32]) -> (r: bool)
    ensures
        r == comes_home(*keys, account_id, root),
{
    let same_account: bool = match &keys.session {
        Some(saved) => saved.account_id == account_id,
        None => false,
    };
    let same_root: bool = match &keys.root {
        Some(held) => same_key(held, &root),
        None => false,
    };
    same_account && same_root
}

/// What stands where a vault would be.
pub enum VaultState {
    /// No vault.
    Absent,
    /// A vault the passphrase opened.
    Opened(VaultKeys),
    /// A vault the passphrase did not open.
    Locked,
}

/// The door a container restores through.
pub enum Door {
    /// The same device returning with its file: sign in as the device the vault saved.
    Return(VaultKeys),
    /// A new device of the account.
    NewDevice,
    /// Neither: an identity that stands in the way is not overwritten.
    Refused(Failure),
}

/// The door a container opens.
pub open spec fn door_of(account_id: Option<Id>, root: [u8; 32], vault: VaultState) -> Door {
    match account_id {
        None => Door::Refused(Failure::ContainerNamesNoAccount),
        Some(account) => match vault {
            VaultState::Absent => Door::NewDevice,
            VaultState::Locked => Door::Refused(Failure::VaultDidNotOpen),
            VaultState::Opened(keys) => if comes_home(keys, account, root) {
                Door::Return(keys)
            } else {
                Door::Refused(Failure::VaultInTheWay)
            },
        },
    }
}

/// Decides which door a container opens.
pub fn import_door(account_id: Option<Id>, root: [u8; 32], vault: VaultState) -> (door: Door)
    ensures
        door == door_of(account_id, root, vault),
{
    let account: Id = match account_id {
        Some(account) => account,
        None => {
            return Door::Refused(Failure::ContainerNamesNoAccount);
        },
    };
    match vault {
        VaultState::Absent => Door::NewDevice,
        VaultState::Locked => Door::Refused(Failure::VaultDidNotOpen),
        VaultState::Opened(keys) => {
            if vault_holds_this_account(&keys, account, root) {
                Door::Return(keys)
            } else {
                Door::Refused(Failure::VaultInTheWay)
            }
        },
    }
}

/// A vault that stands is overwritten by no restore: the new-device door opens only where there is
/// none, and a returning device goes on with the keys its vault holds.
pub proof fn law_a_restore_overwrites_no_vault(
    account_id: Option<Id>,
    root: [u8; 32],
    vault: VaultState,
)
    ensures
        door_of(account_id, root, vault) is NewDevice ==> vault is Absent,
        door_of(account_id, root, vault) matches Door::Return(kept) ==> vault
            == VaultState::Opened(kept) && kept.root is Some && kept.root.unwrap()@ == root@
            && kept.session is Some && account_id == Some(kept.session.unwrap().account_id),
{
}

/// The name a restored session greets with: what was typed, or the account's id where nothing was.
pub fn restored_username(typed: &str, account: &str) -> (name: String)
    ensures
        name@ == (if trimmed(typed@).len() == 0 {
            account@
        } else {
            trimmed(typed@)
        }),
{
    match crate::text::trimmed_or_none(typed) {
        Some(name) => name,
        None => account.to_owned(),
    }
}

/// Puts what a container carries into a new device's fresh keys: the root, and the successor's
/// seed where the account rotated, because the server knows no other key then.
pub fn install_restored(keys: &mut VaultKeys, root: [u8; 32], successor: Option<[u8; 32]>)
    ensures
        *final(keys) == (VaultKeys {
            root: Some(root),
            rotated_identity_seed: if successor is Some {
                successor
            } else {
                old(keys).rotated_identity_seed
            },
            ..*old(keys)
        }),
{
    keys.root = Some(root);
    if successor.is_some() {
        keys.rotated_identity_seed = successor;
    }
}

/// What a container is sealed with.
#[derive(Clone, Copy)]
pub struct ContainerPlan {
    pub root: [u8; 32],
    pub account_id: Id,
    pub at_unix: u64,
    /// The successor's seed, on a device that rotated its identity: without it the container would
    /// restore a device whose signature the server refuses.
    pub successor: Option<[u8; 32]>,
}

/// What a backup is sealed with, or why there is none.
pub fn export_container(
    keys: &VaultKeys,
    account_id: Id,
    now: crate::wire::Timestamp,
) -> (r: Result<ContainerPlan, Action>)
    ensures
        r == (match keys.root {
            Some(root) => Ok::<ContainerPlan, Action>(
                ContainerPlan {
                    root,
                    account_id,
                    at_unix: crate::wallet::unix_seconds(now) as u64,
                    successor: keys.rotated_identity_seed,
                },
            ),
            None => Err(toast(Notice::NoRootForBackup, ToastKind::Error)),
        }),
{
    match keys.root {
        Some(root) => Ok(
            ContainerPlan {
                root,
                account_id,
                at_unix: crate::wallet::seconds_of(now),
                successor: keys.rotated_identity_seed,
            },
        ),
        None => Err(toasted(Notice::NoRootForBackup, ToastKind::Error)),
    }
}

/// A backup was written at some second.
pub fn backup_written(
    records: &mut Records,
    account_id: Id,
    at_unix: u64,
    path: String,
) -> (out: Vec<Action>)
    ensures
        *final(records) == (Records {
            last_backup_at: Some((account_id, Some(at_unix))),
            ..*old(records)
        }),
        out@ == seq![
            Action::Emit(Event::BackupState { last_backup_at: Some(at_unix) }),
            toast(Notice::BackupWritten { path }, ToastKind::Success),
        ],
{
    records.last_backup_at = Some((account_id, Some(at_unix)));
    vec![
        Action::Emit(Event::BackupState { last_backup_at: Some(at_unix) }),
        toasted(Notice::BackupWritten { path }, ToastKind::Success),
    ]
}

/// The passphrase was changed, or was not. The server ended every session of the account and
/// answered with a replacement, which this session goes on under.
pub fn change_passphrase(signed: &mut Signed, outcome: Result<Grant, RestError>) -> (action: Action)
    ensures
        match outcome {
            Ok(grant) => {
                &&& action == toast(Notice::PassphraseChanged, ToastKind::Success)
                &&& *final(signed) == (Signed {
                    access_token: grant.access_token,
                    account: Account { session_id: grant.session_id, ..old(signed).account },
                    ..*old(signed)
                })
            },
            Err(error) => {
                &&& tells(action, error)
                &&& *final(signed) == *old(signed)
            },
        },
{
    match outcome {
        Ok(grant) => {
            signed.access_token = grant.access_token;
            signed.account.session_id = grant.session_id;
            toasted(Notice::PassphraseChanged, ToastKind::Success)
        },
        Err(error) => tell(&error),
    }
}

/// Whether an action tells a person what a request failed with.
pub open spec fn tells(action: Action, error: RestError) -> bool {
    action matches Action::Emit(Event::Toast { notice: Notice::Said { text }, kind }) && kind
        == ToastKind::Error && text@ == error.says()
}

/// Tells a person what a request failed with.
pub fn tell(error: &RestError) -> (action: Action)
    ensures
        tells(action, *error),
{
    toasted(Notice::Said { text: error.message() }, ToastKind::Error)
}

/// Files one observed fingerprint against the last-seen ones, and says whether it changed.
///
/// First sight is no change. The map moves to the new fingerprint either way, so that a change is
/// reported once.
pub fn peer_fingerprint_changed(
    seen: &mut HashMap<Id, [u8; 32]>,
    device: Id,
    fingerprint: [u8; 32],
) -> (changed: bool)
    ensures
        final(seen)@ == old(seen)@.insert(device, fingerprint),
        changed == differs(old(seen)@, device, fingerprint),
{
    match seen.insert(device, fingerprint) {
        Some(previous) => !same_key(&previous, &fingerprint),
        None => false,
    }
}

/// Whether a device was seen before with another fingerprint.
pub open spec fn differs(seen: Map<Id, [u8; 32]>, device: Id, fingerprint: [u8; 32]) -> bool {
    seen.contains_key(device) && seen[device]@ != fingerprint@
}

/// A change is reported once: seeing the same fingerprint again is none.
pub proof fn law_a_change_is_reported_once(
    seen: Map<Id, [u8; 32]>,
    device: Id,
    fingerprint: [u8; 32],
)
    ensures
        !differs(seen.insert(device, fingerprint), device, fingerprint),
        !seen.contains_key(device) ==> !differs(seen, device, fingerprint),
{
}

/// What is sealed of an account are its newest records: those that this process holds of it, and
/// what the vault held of it where the process holds none. Its keys and its sign-in are not touched.
pub proof fn law_the_newest_records_are_sealed(
    records: Records,
    account_id: Id,
    before: VaultKeys,
    after: VaultKeys,
    i: int,
)
    requires
        records.carried(account_id, before, after),
    ensures
        records.txs is Some && records.txs.unwrap().0 == account_id ==> {
            &&& after.txs@.len() == records.txs.unwrap().1@.len()
            &&& 0 <= i < after.txs@.len() ==> {
                &&& after.txs@[i].tx_hash == records.txs.unwrap().1@[i].tx_hash
                &&& after.txs@[i].value_wei == records.txs.unwrap().1@[i].value_wei
                &&& after.txs@[i].outcome@ == records.txs.unwrap().1@[i].outcome@
            }
        },
        !(records.txs is Some && records.txs.unwrap().0 == account_id) ==> after.txs == before.txs,
        records.peers is Some && records.peers.unwrap().0 == account_id
            ==> after.peer_fingerprints@ == records.peers.unwrap().1@,
        !(records.peers is Some && records.peers.unwrap().0 == account_id)
            ==> after.peer_fingerprints == before.peer_fingerprints,
        records.last_backup_at is Some && records.last_backup_at.unwrap().0 == account_id
            ==> after.last_backup_at == records.last_backup_at.unwrap().1,
        !(records.last_backup_at is Some && records.last_backup_at.unwrap().0 == account_id)
            ==> after.last_backup_at == before.last_backup_at,
        after.session == before.session,
        after.root == before.root,
        after.rotated_identity_seed == before.rotated_identity_seed,
{
}

/// Where a sign-in's keys come from: an opened vault first; without one a sign-in is an additional
/// device, and a registration founds, on the keys that an unanswered one left, or on fresh ones.
pub proof fn law_where_keys_come_from(register: bool, vault_opened: bool, pending: bool)
    ensures
        vault_opened <==> keys_from(register, vault_opened, pending) == KeySource::Vault,
        !vault_opened && !register <==> keys_from(register, vault_opened, pending)
            == KeySource::Additional,
        !vault_opened && register && pending <==> keys_from(register, vault_opened, pending)
            == KeySource::Pending,
        !vault_opened && register && !pending <==> keys_from(register, vault_opened, pending)
            == KeySource::Founding,
{
}

/// A registration that failed holds its keys, a sign-in that failed holds none that were not held,
/// and neither touches an account's records.
pub proof fn law_a_failed_registration_holds_its_keys(records: Records, register: bool)
    ensures
        holding(records, true).pending_registration,
        holding(records, false) == records,
        holding(records, register).txs == records.txs,
        holding(records, register).peers == records.peers,
        holding(records, register).last_backup_at == records.last_backup_at,
{
}

/// A captcha proof is dead by the three words for it, and by no other refusal.
pub proof fn law_which_refusals_kill_a_captcha(symbol: Seq<char>)
    ensures
        kills_captcha("INVALID_CAPTCHA"@),
        kills_captcha("CAPTCHA_EXPIRED"@),
        kills_captcha("CAPTCHA_REQUIRED"@),
        kills_captcha(symbol) ==> symbol == "INVALID_CAPTCHA"@ || symbol == "CAPTCHA_EXPIRED"@
            || symbol == "CAPTCHA_REQUIRED"@,
{
}

/// A failure is reported twice in the same words: as what the connection came to, and in passing.
pub proof fn law_a_failure_is_reported_in_its_words(out: Seq<Action>, words: Seq<char>)
    requires
        said(out, words),
    ensures
        out.len() == 2,
        out[0] matches Action::Emit(
            Event::Connection(Connection::Failed(Failure::Said { text })),
        ) && text@ == words,
        out[1] matches Action::Emit(Event::Toast { notice: Notice::Said { text }, kind }) && text@
            == words && kind == ToastKind::Error,
{
}

/// A refused sign-in says what the server said; it hands over the challenge that the refusal came
/// with, or says that the one that was held is dead, where the refusal means that.
pub proof fn law_a_refused_sign_in_says_why(error: RestError, out: Seq<Action>)
    requires
        refused_actions(error, out),
        error is Server,
    ensures
        ({
            let words = error->message@;
            let tail = out.skip(out.len() - 2);
            &&& out.len() >= 2
            &&& tail[0] matches Action::Emit(
                Event::Connection(Connection::Failed(Failure::Said { text })),
            ) && text@ == words
            &&& error->captcha is Some ==> out.len() == 3 && out[0] == Action::Emit(
                Event::CaptchaChallenge(*error->captcha.unwrap()),
            )
            &&& error->captcha is None && kills_captcha(error->symbol@) ==> out.len() == 3 && out[0]
                == Action::Emit(Event::CaptchaRefused)
            &&& error->captcha is None && !kills_captcha(error->symbol@) ==> out.len() == 2
        }),
{
    let tail = out.skip(out.len() - 2);
    if out.len() == 3 {
        assert(out.subrange(1, 3)[0] == tail[0]);
    }
}

/// A sign-in is saved as what was granted: the account, the device and the token of the grant, the
/// server it was made to, and the name it was made by; and the keys are those it was made with.
pub proof fn law_a_sign_in_is_saved_as_granted(
    records: Records,
    before: VaultKeys,
    account_id: Id,
    grant: Grant,
    server_url: Seq<char>,
    username: Seq<char>,
    after: VaultKeys,
)
    requires
        signs_in(records, before, account_id, grant, server_url, username, after),
    ensures
        after.session is Some,
        after.session.unwrap().server_url@ == server_url,
        after.session.unwrap().account_id == account_id,
        after.session.unwrap().device_id == grant.device_id,
        after.session.unwrap().username@ == username,
        after.session.unwrap().refresh_token@ == grant.refresh_token@,
        after.root == before.root,
        after.rotated_identity_seed == before.rotated_identity_seed,
{
}

/// The device that a vault saved is its sign-in's, and there is none without a sign-in.
pub proof fn law_a_saved_device_is_its_sign_ins(keys: VaultKeys)
    ensures
        saved_device(None) is None,
        saved_device(Some(keys)) is Some <==> keys.session is Some,
        keys.session is Some ==> saved_device(Some(keys)) == Some(
            keys.session.unwrap().device_id,
        ),
{
}

/// The passphraseless sign-in: it asks for a challenge only where both keys are held, signs exactly
/// the bytes that were sent under their own challenge, answers with both signatures, and takes up
/// what was granted. Anything else gives up.
pub proof fn law_the_ceremony_signs_what_was_sent(event: CeremonyEvent, step: CeremonyStep)
    requires
        ceremony_goes(event, step),
    ensures
        event is Looked ==> (step is AskChallenge <==> event->Looked_identity && event->credential),
        event is Looked && !(step is AskChallenge) ==> step is GiveUp,
        event is Challenged && event->Challenged_0 is Some ==> {
            let challenge = event->Challenged_0.unwrap();
            &&& step is Sign <==> base64_bytes(challenge.payload@) is Some
            &&& step is Sign ==> step->Sign_challenge_id == challenge.challenge_id && Some(
                step->Sign_payload@,
            ) == base64_bytes(challenge.payload@)
        },
        event is Challenged && event->Challenged_0 is None ==> step is GiveUp,
        event is Signed ==> {
            &&& step is Answer <==> event->Signed_identity is Some && event->device is Some
            &&& step is Answer ==> step->Answer_challenge_id == event->Signed_challenge_id && Some(
                step->Answer_identity,
            ) == event->Signed_identity && Some(step->Answer_device) == event->device
        },
        event is Answered ==> {
            &&& event->Answered_0 is Some ==> step == CeremonyStep::Granted(
                event->Answered_0.unwrap(),
            )
            &&& event->Answered_0 is None ==> step is GiveUp
        },
{
}

/// A vault is a container's own account come home only where both say the same account and hold the
/// same root.
pub proof fn law_who_comes_home(keys: VaultKeys, account_id: Id, root: [u8; 32])
    ensures
        comes_home(keys, account_id, root) <==> keys.session is Some
            && keys.session.unwrap().account_id == account_id && keys.root is Some
            && keys.root.unwrap()@ == root@,
{
}

/// Which door a container opens: none where it names no account or a vault stands in the way, and
/// each refusal says which; a new device's only where there is no vault; and the known device's where
/// the vault is its own.
pub proof fn law_which_door_a_container_opens(
    account_id: Option<Id>,
    root: [u8; 32],
    vault: VaultState,
)
    ensures
        account_id is None ==> door_of(account_id, root, vault) == Door::Refused(
            Failure::ContainerNamesNoAccount,
        ),
        account_id is Some && vault is Absent ==> door_of(account_id, root, vault) is NewDevice,
        account_id is Some && vault is Locked ==> door_of(account_id, root, vault) == Door::Refused(
            Failure::VaultDidNotOpen,
        ),
        account_id is Some && vault is Opened && comes_home(
            vault->Opened_0,
            account_id.unwrap(),
            root,
        ) ==> door_of(account_id, root, vault) == Door::Return(vault->Opened_0),
        account_id is Some && vault is Opened && !comes_home(
            vault->Opened_0,
            account_id.unwrap(),
            root,
        ) ==> door_of(account_id, root, vault) == Door::Refused(Failure::VaultInTheWay),
{
}

/// A device's fingerprint changed exactly where another one was seen before; first sight is none.
pub proof fn law_when_a_fingerprint_changed(
    seen: Map<Id, [u8; 32]>,
    device: Id,
    fingerprint: [u8; 32],
)
    ensures
        !seen.contains_key(device) ==> !differs(seen, device, fingerprint),
        seen.contains_key(device) ==> (differs(seen, device, fingerprint) <==> seen[device]@
            != fingerprint@),
{
}

/// What a request failed with is told in its own words, as an error.
pub proof fn law_a_failed_request_is_told(action: Action, error: RestError)
    requires
        tells(action, error),
    ensures
        action is Emit,
        action->Emit_0 is Toast,
        action->Emit_0->Toast_kind == ToastKind::Error,
        action->Emit_0->Toast_notice matches Notice::Said { text } && text@ == error.says(),
{
}

/// A failure is the connection's state, and is said once as an error, in the failure's own
/// sentence.
pub proof fn law_a_failure_is_reported_as_an_error(out: Seq<Action>, failure: Failure)
    requires
        reports(out, failure),
    ensures
        out.len() == 2,
        out[0] is Emit,
        out[0]->Emit_0 == Event::Connection(Connection::Failed(failure)),
        out[1] is Emit,
        out[1]->Emit_0 is Toast,
        out[1]->Emit_0->Toast_kind == ToastKind::Error,
        out[1]->Emit_0->Toast_notice is Said,
        out[1]->Emit_0->Toast_notice->Said_text@ == crate::notices::failure_says(failure),
{
}

} // verus!
