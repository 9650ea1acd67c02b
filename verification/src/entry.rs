//! The ways into an account: a form, the vault's passphrase, and a recovery container.
//!
//! Each is a ceremony between a person's vault and the server. The edge carries out one step at a
//! time and says what came of it; an event that is not waited for is not heard.

use vstd::prelude::*;

use crate::account::{
    challenge_payload, door_of, fail, file_session, holding, import_door, install_restored,
    keys_from, refresh_saved, refused_actions, reports, restored_username, root_follow_ups, said,
    saved_device, say, signs_in, Bootstrap, BootstrapAsk, Door, KeySource, Records, SavedSession,
    VaultKeys, VaultState,
};
use crate::codec::base64_bytes;
use crate::effects::{Action, Failure};
use crate::rest::{Grant, IdentityChallenge, RestError};
use crate::text::trimmed;
use crate::wire::Id;

verus! {

/// What a recovery container says.
pub struct Container {
    /// The account it names, with the id's text; older ones name none.
    pub account: Option<(Id, String)>,
    pub root: [u8; 32],
    /// The seed of the identity that a rotation put in the root's place, or why it does not read.
    pub successor: Result<Option<[u8; 32]>, String>,
}

/// What came of a step into an account.
#[allow(inconsistent_fields)]
pub enum EntryEvent {
    /// A client for the server was made, or its address makes none.
    Dialled(Result<(), RestError>),
    /// Whether a vault stands, and what opening it with the passphrase gave.
    Vault { exists: bool, opened: Result<VaultKeys, String> },
    /// What the keys that were taken or made hold.
    Keys(VaultKeys),
    /// The container was read and opened, or was not.
    Container(Result<Container, String>),
    /// The successor's seed makes a key, or does not.
    SeedRead(Result<(), String>),
    Challenged(Result<IdentityChallenge, RestError>),
    /// Both halves were signed; the first failure where one was not.
    Signed(Result<(Vec<u8>, Vec<u8>), String>),
    /// The server answered what was asked of it.
    Answered(Result<Grant, RestError>),
    /// The passphraseless sign-in ended.
    LoggedIn(Option<Grant>),
    Sealed(Result<(), String>),
}

/// What a way into an account asks for next.
#[allow(inconsistent_fields)]
pub enum EntryAsk {
    /// Nothing: it still waits for what it asked before.
    Wait,
    /// A client for the server that the form names.
    Dial,
    /// A client for the server that the saved sign-in used.
    DialSaved { server_url: String },
    OpenVault,
    /// Take these keys up.
    TakeKeys { source: KeySource },
    /// Register or sign in, as this device where the vault saved one.
    Request { device_id: Option<Id> },
    Refresh { refresh_token: String, device_id: Id },
    /// Sign in without a passphrase, as the device that the vault saved.
    LogIn { username: String, device_id: Id },
    ReadSeed { seed: [u8; 32] },
    AskChallenge { account_id: Id },
    /// Sign these bytes, exactly as they were sent, with the identity and the device's credential.
    Sign { payload: Vec<u8> },
    AddDevice { challenge_id: Id, identity: Vec<u8>, device: Vec<u8> },
    /// Seal the keys that are held.
    Seal,
    /// Begin a session on these keys, and go on with the rest.
    Establish { keys: VaultKeys, grant: Grant, username: String, next: Vec<Action> },
    /// Carry these out; it ended without a session.
    Stop { told: Vec<Action> },
}

/// Whether it stops, having reported a failure in these words.
pub open spec fn stops_saying(ask: EntryAsk, words: Seq<char>) -> bool {
    ask matches EntryAsk::Stop { told } && said(told@, words)
}

/// Whether it stops, having reported a failure.
pub open spec fn stops_on(ask: EntryAsk, failure: Failure) -> bool {
    ask matches EntryAsk::Stop { told } && reports(told@, failure)
}

/// Whether a session begins on these keys.
pub open spec fn establishes(
    ask: EntryAsk,
    keys: VaultKeys,
    grant: Grant,
    username: Seq<char>,
    next: Seq<Action>,
) -> bool {
    ask matches EntryAsk::Establish { keys: held, grant: given, username: name, next: then }
        && held == keys && given == grant && name@ == username && then@ == next
}

/// What follows on a device that holds the root, or does not.
pub open spec fn follow_ups(holds_root: bool) -> Seq<Action> {
    if holds_root {
        seq![Action::PublishIdentity, Action::SyncWallets]
    } else {
        Seq::empty()
    }
}

/// A registration or a sign-in from a form, by what it waits for.
pub enum FormEntry {
    Dialling { form: Bootstrap },
    Opening { form: Bootstrap },
    Keying { form: Bootstrap },
    Requesting { form: Bootstrap, keys: VaultKeys },
    Sealing { form: Bootstrap, keys: VaultKeys, grant: Grant },
    Ended,
}

impl FormEntry {
    /// The keys that are to be sealed, where sealing is what is waited for.
    pub open spec fn sealable(self) -> Option<VaultKeys> {
        match self {
            FormEntry::Sealing { keys, .. } => Some(keys),
            _ => None,
        }
    }

    /// The keys that are to be sealed, where sealing is what is waited for.
    pub fn to_seal(&self) -> (keys: Option<&VaultKeys>)
        ensures
            match keys {
                Some(keys) => self.sealable() == Some(*keys),
                None => self.sealable() is None,
            },
    {
        match self {
            FormEntry::Sealing { keys, .. } => Some(keys),
            _ => None,
        }
    }
}

/// Whether a registration or a sign-in goes from one state to another, on an event.
pub open spec fn bootstraps(
    from: FormEntry,
    records: Records,
    event: EntryEvent,
    to: FormEntry,
    after: Records,
    ask: EntryAsk,
) -> bool {
    match (from, event) {
        (FormEntry::Dialling { form }, EntryEvent::Dialled(outcome)) => {
            &&& after == records
            &&& match outcome {
                Ok(_) => to == (FormEntry::Opening { form }) && ask == EntryAsk::OpenVault,
                Err(error) => to == FormEntry::Ended && stops_saying(ask, error.says()),
            }
        },
        (FormEntry::Opening { form }, EntryEvent::Vault { opened, .. }) => {
            &&& after == records
            &&& match opened {
                Ok(keys) => {
                    &&& to == (FormEntry::Requesting { form, keys })
                    &&& ask == (EntryAsk::Request { device_id: saved_device(Some(keys)) })
                },
                Err(_) => {
                    &&& to == (FormEntry::Keying { form })
                    &&& ask == (EntryAsk::TakeKeys {
                        source: keys_from(form.register, false, records.pending_registration),
                    })
                },
            }
        },
        (FormEntry::Keying { form }, EntryEvent::Keys(keys)) => {
            &&& after == records
            &&& to == (FormEntry::Requesting { form, keys })
            &&& ask == (EntryAsk::Request { device_id: None })
        },
        (FormEntry::Requesting { form, keys }, EntryEvent::Answered(outcome)) => match outcome {
            Ok(grant) => {
                &&& after == records
                &&& to matches FormEntry::Sealing { form: kept, keys: sealed, grant: given }
                    && kept == form && given == grant && signs_in(
                    records,
                    keys,
                    grant.account_id,
                    grant,
                    form.server_url@,
                    form.identifier@,
                    sealed,
                )
                &&& ask == EntryAsk::Seal
            },
            Err(error) => {
                &&& after == holding(records, form.register)
                &&& to == FormEntry::Ended
                &&& ask matches EntryAsk::Stop { told } && refused_actions(error, told@)
            },
        },
        (FormEntry::Sealing { form, keys, grant }, EntryEvent::Sealed(outcome)) => {
            &&& to == FormEntry::Ended
            &&& match outcome {
                Ok(_) => {
                    &&& after == (Records { pending_registration: false, ..records })
                    &&& establishes(
                        ask,
                        keys,
                        grant,
                        form.identifier@,
                        follow_ups(keys.root is Some),
                    )
                },
                Err(reason) => {
                    &&& after == holding(records, form.register)
                    &&& stops_saying(ask, reason@)
                },
            }
        },
        _ => {
            &&& after == records
            &&& to == from
            &&& ask == EntryAsk::Wait
        },
    }
}

/// A registration's or a sign-in's next step.
///
/// A vault that the passphrase opens keeps its keys and its device. Otherwise a registration's
/// keys are resolved before it asks, and held for the retry where it fails; a sign-in is an
/// additional device.
pub fn bootstrap(
    from: FormEntry,
    records: &mut Records,
    event: EntryEvent,
) -> (r: (FormEntry, EntryAsk))
    ensures
        bootstraps(from, *old(records), event, r.0, *final(records), r.1),
{
    match (from, event) {
        (FormEntry::Dialling { form }, EntryEvent::Dialled(outcome)) => match outcome {
            Ok(_) => (FormEntry::Opening { form }, EntryAsk::OpenVault),
            Err(error) => (FormEntry::Ended, EntryAsk::Stop { told: say(error.message()) }),
        },
        (FormEntry::Opening { form }, EntryEvent::Vault { opened, .. }) => {
            let vault: Option<VaultKeys> = match opened {
                Ok(keys) => Some(keys),
                Err(_) => None,
            };
            let ask: BootstrapAsk = form.ask(&vault, records);
            match vault {
                Some(keys) => (
                    FormEntry::Requesting { form, keys },
                    EntryAsk::Request { device_id: ask.device_id },
                ),
                None => (FormEntry::Keying { form }, EntryAsk::TakeKeys { source: ask.source }),
            }
        },
        (FormEntry::Keying { form }, EntryEvent::Keys(keys)) => (
            FormEntry::Requesting { form, keys },
            EntryAsk::Request { device_id: None },
        ),
        (FormEntry::Requesting { form, keys }, EntryEvent::Answered(outcome)) => {
            match form.answered(records, keys, outcome) {
                Ok((keys, grant)) => (FormEntry::Sealing { form, keys, grant }, EntryAsk::Seal),
                Err(told) => (FormEntry::Ended, EntryAsk::Stop { told }),
            }
        },
        (FormEntry::Sealing { form, keys, grant }, EntryEvent::Sealed(outcome)) => {
            match form.sealed(records, outcome) {
                Some(told) => (FormEntry::Ended, EntryAsk::Stop { told }),
                None => {
                    let next: Vec<Action> = root_follow_ups(keys.root.is_some());
                    (
                        FormEntry::Ended,
                        EntryAsk::Establish { keys, grant, username: form.identifier, next },
                    )
                },
            }
        },
        (from, _) => (from, EntryAsk::Wait),
    }
}

/// An unlock, by what it waits for.
pub enum UnlockEntry {
    Opening,
    Dialling { keys: VaultKeys },
    Refreshing { keys: VaultKeys },
    /// The passphraseless sign-in, after the refresh failed for this reason.
    LoggingIn { keys: VaultKeys, reason: String },
    Sealing { keys: VaultKeys, grant: Grant },
    Ended,
}

/// The sign-in that keys saved.
pub open spec fn saved_of(keys: VaultKeys) -> SavedSession {
    keys.session.unwrap()
}

/// Whether `after` is `before` with the rotated refresh token filed, and the live records.
pub open spec fn refreshes(
    records: Records,
    before: VaultKeys,
    grant: Grant,
    after: VaultKeys,
) -> bool {
    &&& after.session matches Some(kept) && kept.refresh_token@ == grant.refresh_token@ && kept == (
    SavedSession { refresh_token: kept.refresh_token, ..saved_of(before) })
    &&& records.carried(
        grant.account_id,
        (VaultKeys { session: after.session, ..before }),
        after,
    )
}

impl UnlockEntry {
    /// Whether the keys that are held saved a sign-in.
    pub open spec fn wf(self) -> bool {
        match self {
            UnlockEntry::Dialling { keys } => keys.session is Some,
            UnlockEntry::Refreshing { keys } => keys.session is Some,
            UnlockEntry::LoggingIn { keys, .. } => keys.session is Some,
            UnlockEntry::Sealing { keys, .. } => keys.session is Some,
            _ => true,
        }
    }

    /// The keys that are to be sealed, where sealing is what is waited for.
    pub open spec fn sealable(self) -> Option<VaultKeys> {
        match self {
            UnlockEntry::Sealing { keys, .. } => Some(keys),
            _ => None,
        }
    }

    /// The keys that are to be sealed, where sealing is what is waited for.
    pub fn to_seal(&self) -> (keys: Option<&VaultKeys>)
        ensures
            match keys {
                Some(keys) => self.sealable() == Some(*keys),
                None => self.sealable() is None,
            },
    {
        match self {
            UnlockEntry::Sealing { keys, .. } => Some(keys),
            _ => None,
        }
    }
}

/// Whether an unlock goes from one state to another, on an event.
pub open spec fn unlocks(
    from: UnlockEntry,
    records: Records,
    event: EntryEvent,
    to: UnlockEntry,
    ask: EntryAsk,
) -> bool {
    match (from, event) {
        (UnlockEntry::Opening, EntryEvent::Vault { opened, .. }) => match opened {
            Err(reason) => to == UnlockEntry::Ended && stops_saying(ask, reason@),
            Ok(keys) => if keys.session is Some {
                &&& to == (UnlockEntry::Dialling { keys })
                &&& ask matches EntryAsk::DialSaved { server_url } && server_url@ == saved_of(
                    keys,
                ).server_url@
            } else {
                to == UnlockEntry::Ended && stops_on(ask, Failure::NoSavedSignIn)
            },
        },
        (UnlockEntry::Dialling { keys }, EntryEvent::Dialled(outcome)) => match outcome {
            Err(error) => to == UnlockEntry::Ended && stops_saying(ask, error.says()),
            Ok(_) => {
                &&& to == (UnlockEntry::Refreshing { keys })
                &&& ask matches EntryAsk::Refresh { refresh_token, device_id } && refresh_token@
                    == saved_of(keys).refresh_token@ && device_id == saved_of(keys).device_id
            },
        },
        (UnlockEntry::Refreshing { keys }, EntryEvent::Answered(outcome)) => match outcome {
            Ok(grant) => {
                &&& to matches UnlockEntry::Sealing { keys: sealed, grant: given } && given == grant
                    && refreshes(records, keys, grant, sealed)
                &&& ask == EntryAsk::Seal
            },
            Err(error) => {
                &&& to matches UnlockEntry::LoggingIn { keys: kept, reason } && kept == keys
                    && reason@ == error.says()
                &&& logs_in(ask, keys)
            },
        },
        (UnlockEntry::LoggingIn { keys, reason }, EntryEvent::LoggedIn(granted)) => match granted {
            Some(grant) => {
                &&& to matches UnlockEntry::Sealing { keys: sealed, grant: given } && given == grant
                    && refreshes(records, keys, grant, sealed)
                &&& ask == EntryAsk::Seal
            },
            None => to == UnlockEntry::Ended && stops_saying(ask, reason@),
        },
        (UnlockEntry::Sealing { keys, grant }, EntryEvent::Sealed(outcome)) => {
            &&& to == UnlockEntry::Ended
            &&& match outcome {
                Ok(_) => establishes(ask, keys, grant, saved_of(keys).username@, Seq::empty()),
                Err(reason) => stops_saying(ask, reason@),
            }
        },
        _ => to == from && ask == EntryAsk::Wait,
    }
}

/// Whether the passphraseless sign-in is asked for, as the device that keys saved.
pub open spec fn logs_in(ask: EntryAsk, keys: VaultKeys) -> bool {
    ask matches EntryAsk::LogIn { username, device_id } && username@ == saved_of(keys).username@
        && device_id == saved_of(keys).device_id
}

fn log_in(keys: &VaultKeys) -> (ask: EntryAsk)
    requires
        keys.session is Some,
    ensures
        logs_in(ask, *keys),
{
    match &keys.session {
        Some(saved) => EntryAsk::LogIn {
            username: saved.username.clone(),
            device_id: saved.device_id,
        },
        None => EntryAsk::Wait,
    }
}

fn refresh(records: &Records, keys: VaultKeys, grant: &Grant) -> (sealed: VaultKeys)
    requires
        keys.session is Some,
    ensures
        refreshes(*records, keys, *grant, sealed),
{
    let mut keys: VaultKeys = keys;
    refresh_saved(records, &mut keys, grant);
    keys
}

fn saved_username(keys: &VaultKeys) -> (username: String)
    requires
        keys.session is Some,
    ensures
        username@ == saved_of(*keys).username@,
{
    match &keys.session {
        Some(saved) => saved.username.clone(),
        None => String::new(),
    }
}

/// An unlock's next step.
///
/// A dead refresh token is no dead account on a device that can sign in without a passphrase;
/// where that is impossible too, the refresh's failure stands as the answer. The vault is sealed
/// with the token that the exchange rotated before a session begins.
pub fn unlock(from: UnlockEntry, records: &Records, event: EntryEvent) -> (r: (
    UnlockEntry,
    EntryAsk,
))
    requires
        from.wf(),
    ensures
        unlocks(from, *records, event, r.0, r.1),
        r.0.wf(),
{
    match (from, event) {
        (UnlockEntry::Opening, EntryEvent::Vault { opened, .. }) => match opened {
            Err(reason) => (UnlockEntry::Ended, EntryAsk::Stop { told: say(reason) }),
            Ok(keys) => {
                let server_url: Option<String> = match &keys.session {
                    Some(saved) => Some(saved.server_url.clone()),
                    None => None,
                };
                match server_url {
                    Some(server_url) => (
                        UnlockEntry::Dialling { keys },
                        EntryAsk::DialSaved { server_url },
                    ),
                    None => (
                        UnlockEntry::Ended,
                        EntryAsk::Stop { told: fail(Failure::NoSavedSignIn) },
                    ),
                }
            },
        },
        (UnlockEntry::Dialling { keys }, EntryEvent::Dialled(outcome)) => match outcome {
            Err(error) => (UnlockEntry::Ended, EntryAsk::Stop { told: say(error.message()) }),
            Ok(_) => {
                let ask: EntryAsk = match &keys.session {
                    Some(saved) => EntryAsk::Refresh {
                        refresh_token: saved.refresh_token.clone(),
                        device_id: saved.device_id,
                    },
                    None => EntryAsk::Wait,
                };
                (UnlockEntry::Refreshing { keys }, ask)
            },
        },
        (UnlockEntry::Refreshing { keys }, EntryEvent::Answered(outcome)) => match outcome {
            Ok(grant) => {
                let keys: VaultKeys = refresh(records, keys, &grant);
                (UnlockEntry::Sealing { keys, grant }, EntryAsk::Seal)
            },
            Err(error) => {
                let ask: EntryAsk = log_in(&keys);
                (UnlockEntry::LoggingIn { keys, reason: error.message() }, ask)
            },
        },
        (UnlockEntry::LoggingIn { keys, reason }, EntryEvent::LoggedIn(granted)) => match granted {
            Some(grant) => {
                let keys: VaultKeys = refresh(records, keys, &grant);
                (UnlockEntry::Sealing { keys, grant }, EntryAsk::Seal)
            },
            None => (UnlockEntry::Ended, EntryAsk::Stop { told: say(reason) }),
        },
        (UnlockEntry::Sealing { keys, grant }, EntryEvent::Sealed(outcome)) => match outcome {
            Ok(_) => {
                let username: String = saved_username(&keys);
                (
                    UnlockEntry::Ended,
                    EntryAsk::Establish { keys, grant, username, next: Vec::new() },
                )
            },
            Err(reason) => (UnlockEntry::Ended, EntryAsk::Stop { told: say(reason) }),
        },
        (from, _) => (from, EntryAsk::Wait),
    }
}

/// What a restore was asked with.
pub struct RestoreForm {
    /// The name that was typed, if any.
    pub username: String,
    pub server_url: String,
}

/// A restore from a container, by what it waits for.
pub enum RestoreEntry {
    Reading { form: RestoreForm },
    Choosing { form: RestoreForm, container: Container, account: (Id, String) },
    /// The known device returns: a client for the server.
    Returning { keys: VaultKeys },
    LoggingIn { keys: VaultKeys },
    /// A new device: a client for the server.
    Adding { form: RestoreForm, container: Container, account: (Id, String) },
    Keying { form: RestoreForm, container: Container, account: (Id, String) },
    SeedReading { form: RestoreForm, keys: VaultKeys, account: (Id, String) },
    Challenging { form: RestoreForm, keys: VaultKeys, account: (Id, String) },
    Signing { form: RestoreForm, keys: VaultKeys, account: (Id, String), challenge_id: Id },
    Answering { form: RestoreForm, keys: VaultKeys, account: (Id, String) },
    Sealing { keys: VaultKeys, grant: Grant, username: String, new_device: bool },
    Ended,
}

impl RestoreEntry {
    /// Whether the keys of a device that returns saved a sign-in.
    pub open spec fn wf(self) -> bool {
        match self {
            RestoreEntry::Returning { keys } => keys.session is Some,
            RestoreEntry::LoggingIn { keys } => keys.session is Some,
            _ => true,
        }
    }

    /// The keys that are to be sealed, where sealing is what is waited for.
    pub open spec fn sealable(self) -> Option<VaultKeys> {
        match self {
            RestoreEntry::Sealing { keys, .. } => Some(keys),
            _ => None,
        }
    }

    /// What the new device's keys hold, where they are needed to go on.
    pub open spec fn installed(self) -> Option<VaultKeys> {
        match self {
            RestoreEntry::SeedReading { keys, .. } => Some(keys),
            RestoreEntry::Challenging { keys, .. } => Some(keys),
            RestoreEntry::Sealing { keys, .. } => Some(keys),
            _ => None,
        }
    }

    /// The keys that the edge is to hold from here on: what a container put into them, and later
    /// what is to be sealed.
    pub fn to_hold(&self) -> (keys: Option<&VaultKeys>)
        ensures
            match keys {
                Some(keys) => self.installed() == Some(*keys),
                None => self.installed() is None,
            },
    {
        match self {
            RestoreEntry::SeedReading { keys, .. } => Some(keys),
            RestoreEntry::Challenging { keys, .. } => Some(keys),
            RestoreEntry::Sealing { keys, .. } => Some(keys),
            _ => None,
        }
    }
}

/// What the vault that stands, or does not, is to a restore.
pub open spec fn vault_state(exists: bool, opened: Result<VaultKeys, String>) -> VaultState {
    if !exists {
        VaultState::Absent
    } else {
        match opened {
            Ok(keys) => VaultState::Opened(keys),
            Err(_) => VaultState::Locked,
        }
    }
}

/// A new device's keys with what a container carries in them.
pub open spec fn with_root(
    keys: VaultKeys,
    root: [u8; 32],
    successor: Option<[u8; 32]>,
) -> VaultKeys {
    VaultKeys {
        root: Some(root),
        rotated_identity_seed: if successor is Some {
            successor
        } else {
            keys.rotated_identity_seed
        },
        ..keys
    }
}

/// The name that a restored session goes by: what was typed, or the account's id.
pub open spec fn greeting(form: RestoreForm, account: (Id, String)) -> Seq<char> {
    if trimmed(form.username@).len() == 0 {
        account.1@
    } else {
        trimmed(form.username@)
    }
}

/// Whether a restore goes from one state to another, on an event.
pub open spec fn restores(
    from: RestoreEntry,
    records: Records,
    event: EntryEvent,
    to: RestoreEntry,
    ask: EntryAsk,
) -> bool {
    match (from, event) {
        (RestoreEntry::Reading { form }, EntryEvent::Container(outcome)) => match outcome {
            Err(reason) => to == RestoreEntry::Ended && stops_saying(ask, reason@),
            Ok(container) => match container.account {
                None => to == RestoreEntry::Ended && stops_on(
                    ask,
                    Failure::ContainerNamesNoAccount,
                ),
                Some(account) => {
                    &&& to matches RestoreEntry::Choosing {
                        form: kept,
                        container: rest,
                        account: named,
                    } && kept == form && named == account && rest == (Container {
                        account: None,
                        ..container
                    })
                    &&& ask == EntryAsk::OpenVault
                },
            },
        },
        (
            RestoreEntry::Choosing { form, container, account },
            EntryEvent::Vault { exists, opened },
        ) => match door_of(Some(account.0), container.root, vault_state(exists, opened)) {
            Door::Refused(failure) => to == RestoreEntry::Ended && stops_on(ask, failure),
            Door::Return(keys) => to == (RestoreEntry::Returning { keys }) && ask == EntryAsk::Dial,
            Door::NewDevice => to == (RestoreEntry::Adding { form, container, account }) && ask
                == EntryAsk::Dial,
        },
        (RestoreEntry::Returning { keys }, EntryEvent::Dialled(outcome)) => match outcome {
            Err(error) => to == RestoreEntry::Ended && stops_saying(ask, error.says()),
            Ok(_) => to == (RestoreEntry::LoggingIn { keys }) && logs_in(ask, keys),
        },
        (RestoreEntry::LoggingIn { keys }, EntryEvent::LoggedIn(granted)) => match granted {
            None => to == RestoreEntry::Ended && stops_on(ask, Failure::ReturnRefused),
            Some(grant) => {
                &&& to matches RestoreEntry::Sealing { keys: sealed, grant: given, username, new_device }
                    && given == grant && refreshes(records, keys, grant, sealed) && username@
                    == saved_of(keys).username@ && !new_device
                &&& ask == EntryAsk::Seal
            },
        },
        (RestoreEntry::Adding { form, container, account }, EntryEvent::Dialled(outcome)) => {
            match outcome {
                Err(error) => to == RestoreEntry::Ended && stops_saying(ask, error.says()),
                Ok(_) => to == (RestoreEntry::Keying { form, container, account }) && ask == (
                EntryAsk::TakeKeys { source: KeySource::Additional }),
            }
        },
        (RestoreEntry::Keying { form, container, account }, EntryEvent::Keys(fresh)) => {
            match container.successor {
                Err(reason) => to == RestoreEntry::Ended && stops_saying(ask, reason@),
                Ok(successor) => {
                    let keys = with_root(fresh, container.root, successor);
                    match successor {
                        Some(seed) => to == (RestoreEntry::SeedReading { form, keys, account })
                            && ask == (EntryAsk::ReadSeed { seed }),
                        None => to == (RestoreEntry::Challenging { form, keys, account }) && ask
                            == (EntryAsk::AskChallenge { account_id: account.0 }),
                    }
                },
            }
        },
        (RestoreEntry::SeedReading { form, keys, account }, EntryEvent::SeedRead(outcome)) => {
            match outcome {
                Err(reason) => to == RestoreEntry::Ended && stops_saying(ask, reason@),
                Ok(_) => to == (RestoreEntry::Challenging { form, keys, account }) && ask == (
                EntryAsk::AskChallenge { account_id: account.0 }),
            }
        },
        (RestoreEntry::Challenging { form, keys, account }, EntryEvent::Challenged(outcome)) => {
            match outcome {
                Err(error) => to == RestoreEntry::Ended && stops_saying(ask, error.says()),
                Ok(challenge) => match base64_bytes(challenge.payload@) {
                    None => to == RestoreEntry::Ended && stops_on(ask, Failure::PayloadNotBase64),
                    Some(bytes) => {
                        &&& to == (RestoreEntry::Signing {
                            form,
                            keys,
                            account,
                            challenge_id: challenge.challenge_id,
                        })
                        &&& ask matches EntryAsk::Sign { payload } && payload@ == bytes
                    },
                },
            }
        },
        (
            RestoreEntry::Signing { form, keys, account, challenge_id },
            EntryEvent::Signed(outcome),
        ) => match outcome {
            Err(reason) => to == RestoreEntry::Ended && stops_saying(ask, reason@),
            Ok((identity, device)) => to == (RestoreEntry::Answering { form, keys, account })
                && ask == (EntryAsk::AddDevice { challenge_id, identity, device }),
        },
        (RestoreEntry::Answering { form, keys, account }, EntryEvent::Answered(outcome)) => {
            match outcome {
                Err(error) => to == RestoreEntry::Ended && stops_saying(ask, error.says()),
                Ok(grant) => {
                    &&& to matches RestoreEntry::Sealing {
                        keys: sealed,
                        grant: given,
                        username,
                        new_device,
                    } && given == grant && username@ == greeting(form, account) && new_device
                        && signs_in(
                        records,
                        keys,
                        account.0,
                        grant,
                        form.server_url@,
                        username@,
                        sealed,
                    )
                    &&& ask == EntryAsk::Seal
                },
            }
        },
        (
            RestoreEntry::Sealing { keys, grant, username, new_device },
            EntryEvent::Sealed(outcome),
        ) => {
            &&& to == RestoreEntry::Ended
            &&& match outcome {
                Err(reason) => stops_saying(ask, reason@),
                Ok(_) => establishes(ask, keys, grant, username@, follow_ups(new_device)),
            }
        },
        _ => to == from && ask == EntryAsk::Wait,
    }
}

fn stopped(reason: String) -> (r: (RestoreEntry, EntryAsk))
    ensures
        r.0 == RestoreEntry::Ended,
        stops_saying(r.1, reason@),
{
    (RestoreEntry::Ended, EntryAsk::Stop { told: say(reason) })
}

fn failed(failure: Failure) -> (r: (RestoreEntry, EntryAsk))
    ensures
        r.0 == RestoreEntry::Ended,
        stops_on(r.1, failure),
{
    (RestoreEntry::Ended, EntryAsk::Stop { told: fail(failure) })
}

/// A restore's next step.
///
/// The vault decides the door. One that is the container's own account come home signs in again as
/// the device it saved, on the keys it holds; where none stands, a new device is added, with the
/// root that the container carries; and one that stands in the way is not overwritten.
pub fn import_container(from: RestoreEntry, records: &Records, event: EntryEvent) -> (r: (
    RestoreEntry,
    EntryAsk,
))
    requires
        from.wf(),
    ensures
        restores(from, *records, event, r.0, r.1),
        r.0.wf(),
{
    match (from, event) {
        (RestoreEntry::Reading { form }, EntryEvent::Container(outcome)) => match outcome {
            Err(reason) => stopped(reason),
            Ok(container) => {
                let Container { account, root, successor } = container;
                match account {
                    None => failed(Failure::ContainerNamesNoAccount),
                    Some(account) => {
                        let container: Container = Container { account: None, root, successor };
                        (
                            RestoreEntry::Choosing { form, container, account },
                            EntryAsk::OpenVault,
                        )
                    },
                }
            },
        },
        (
            RestoreEntry::Choosing { form, container, account },
            EntryEvent::Vault { exists, opened },
        ) => {
            let vault: VaultState = if exists {
                match opened {
                    Ok(keys) => VaultState::Opened(keys),
                    Err(_) => VaultState::Locked,
                }
            } else {
                VaultState::Absent
            };
            match import_door(Some(account.0), container.root, vault) {
                Door::Refused(failure) => failed(failure),
                Door::Return(keys) => (RestoreEntry::Returning { keys }, EntryAsk::Dial),
                Door::NewDevice => (
                    RestoreEntry::Adding { form, container, account },
                    EntryAsk::Dial,
                ),
            }
        },
        (RestoreEntry::Returning { keys }, EntryEvent::Dialled(outcome)) => match outcome {
            Err(error) => stopped(error.message()),
            Ok(_) => {
                let ask: EntryAsk = log_in(&keys);
                (RestoreEntry::LoggingIn { keys }, ask)
            },
        },
        (RestoreEntry::LoggingIn { keys }, EntryEvent::LoggedIn(granted)) => match granted {
            None => failed(Failure::ReturnRefused),
            Some(grant) => {
                let username: String = saved_username(&keys);
                let keys: VaultKeys = refresh(records, keys, &grant);
                (
                    RestoreEntry::Sealing { keys, grant, username, new_device: false },
                    EntryAsk::Seal,
                )
            },
        },
        (RestoreEntry::Adding { form, container, account }, EntryEvent::Dialled(outcome)) => {
            match outcome {
                Err(error) => stopped(error.message()),
                Ok(_) => (
                    RestoreEntry::Keying { form, container, account },
                    EntryAsk::TakeKeys { source: KeySource::Additional },
                ),
            }
        },
        (RestoreEntry::Keying { form, container, account }, EntryEvent::Keys(fresh)) => {
            let mut keys: VaultKeys = fresh;
            match container.successor {
                Err(reason) => stopped(reason),
                Ok(successor) => {
                    install_restored(&mut keys, container.root, successor);
                    match successor {
                        Some(seed) => (
                            RestoreEntry::SeedReading { form, keys, account },
                            EntryAsk::ReadSeed { seed },
                        ),
                        None => {
                            let account_id: Id = account.0;
                            (
                                RestoreEntry::Challenging { form, keys, account },
                                EntryAsk::AskChallenge { account_id },
                            )
                        },
                    }
                },
            }
        },
        (RestoreEntry::SeedReading { form, keys, account }, EntryEvent::SeedRead(outcome)) => {
            match outcome {
                Err(reason) => stopped(reason),
                Ok(_) => {
                    let account_id: Id = account.0;
                    (
                        RestoreEntry::Challenging { form, keys, account },
                        EntryAsk::AskChallenge { account_id },
                    )
                },
            }
        },
        (RestoreEntry::Challenging { form, keys, account }, EntryEvent::Challenged(outcome)) => {
            match outcome {
                Err(error) => stopped(error.message()),
                Ok(challenge) => match challenge_payload(&challenge) {
                    None => failed(Failure::PayloadNotBase64),
                    Some((challenge_id, payload)) => (
                        RestoreEntry::Signing { form, keys, account, challenge_id },
                        EntryAsk::Sign { payload },
                    ),
                },
            }
        },
        (
            RestoreEntry::Signing { form, keys, account, challenge_id },
            EntryEvent::Signed(outcome),
        ) => match outcome {
            Err(reason) => stopped(reason),
            Ok((identity, device)) => (
                RestoreEntry::Answering { form, keys, account },
                EntryAsk::AddDevice { challenge_id, identity, device },
            ),
        },
        (RestoreEntry::Answering { form, keys, account }, EntryEvent::Answered(outcome)) => {
            match outcome {
                Err(error) => stopped(error.message()),
                Ok(grant) => {
                    let mut keys: VaultKeys = keys;
                    let username: String = restored_username(
                        form.username.as_str(),
                        account.1.as_str(),
                    );
                    file_session(
                        records,
                        &mut keys,
                        account.0,
                        &grant,
                        form.server_url.as_str(),
                        username.as_str(),
                    );
                    (
                        RestoreEntry::Sealing { keys, grant, username, new_device: true },
                        EntryAsk::Seal,
                    )
                },
            }
        },
        (
            RestoreEntry::Sealing { keys, grant, username, new_device },
            EntryEvent::Sealed(outcome),
        ) => match outcome {
            Err(reason) => stopped(reason),
            Ok(_) => {
                let next: Vec<Action> = root_follow_ups(new_device);
                (RestoreEntry::Ended, EntryAsk::Establish { keys, grant, username, next })
            },
        },
        (from, _) => (from, EntryAsk::Wait),
    }
}

/// A session that a form leads to begins on the keys that the vault was asked to seal, and only
/// once it did.
pub proof fn law_a_form_begins_on_sealed_keys(
    from: FormEntry,
    records: Records,
    event: EntryEvent,
    to: FormEntry,
    after: Records,
    ask: EntryAsk,
    keys: VaultKeys,
)
    requires
        bootstraps(from, records, event, to, after, ask),
        ask matches EntryAsk::Establish { keys: held, .. } && held == keys,
    ensures
        from.sealable() == Some(keys),
        event matches EntryEvent::Sealed(outcome) && outcome is Ok,
{
}

/// A session that an unlock leads to begins on the keys that the vault was asked to seal, and only
/// once it did.
pub proof fn law_an_unlock_begins_on_sealed_keys(
    from: UnlockEntry,
    records: Records,
    event: EntryEvent,
    to: UnlockEntry,
    ask: EntryAsk,
    keys: VaultKeys,
)
    requires
        unlocks(from, records, event, to, ask),
        ask matches EntryAsk::Establish { keys: held, .. } && held == keys,
    ensures
        from.sealable() == Some(keys),
        event matches EntryEvent::Sealed(outcome) && outcome is Ok,
{
}

/// A session that a restore leads to begins on the keys that the vault was asked to seal, and only
/// once it did.
pub proof fn law_a_restore_begins_on_sealed_keys(
    from: RestoreEntry,
    records: Records,
    event: EntryEvent,
    to: RestoreEntry,
    ask: EntryAsk,
    keys: VaultKeys,
)
    requires
        restores(from, records, event, to, ask),
        ask matches EntryAsk::Establish { keys: held, .. } && held == keys,
    ensures
        from.sealable() == Some(keys),
        event matches EntryEvent::Sealed(outcome) && outcome is Ok,
{
}

/// Whether keys are the same identity of the same device, signed in by the same name to the same
/// server.
pub open spec fn same_device(a: VaultKeys, b: VaultKeys) -> bool {
    &&& a.root == b.root
    &&& a.rotated_identity_seed == b.rotated_identity_seed
    &&& a.session matches Some(one) && b.session matches Some(other) && one == (SavedSession {
        refresh_token: one.refresh_token,
        ..other
    })
}

/// A device that returns with its own file, and one that is unlocked, go on as the identity and
/// the device that their vault held: nothing of the sign-in that is sealed again changes but the
/// refresh token.
pub proof fn law_a_returning_device_stays_itself(
    unlocking: UnlockEntry,
    returning: RestoreEntry,
    records: Records,
    event: EntryEvent,
    unlocked: UnlockEntry,
    unlock_ask: EntryAsk,
    returned: RestoreEntry,
    return_ask: EntryAsk,
    keys: VaultKeys,
)
    requires
        keys.session is Some,
        unlocking == (UnlockEntry::Refreshing { keys }) || (unlocking matches
            UnlockEntry::LoggingIn { keys: held, .. } && held == keys),
        returning == (RestoreEntry::LoggingIn { keys }),
        unlocks(unlocking, records, event, unlocked, unlock_ask),
        restores(returning, records, event, returned, return_ask),
    ensures
        unlocked.sealable() matches Some(sealed) ==> same_device(sealed, keys),
        returned.sealable() matches Some(sealed) ==> same_device(sealed, keys),
{
}

/// A restore makes no keys where a vault stands: fresh ones are asked for only past the door that
/// opens where there is none.
pub proof fn law_a_restore_makes_keys_only_without_a_vault(
    from: RestoreEntry,
    records: Records,
    event: EntryEvent,
    to: RestoreEntry,
    ask: EntryAsk,
)
    requires
        restores(from, records, event, to, ask),
    ensures
        ask is TakeKeys ==> from is Adding,
        to is Adding && !(from is Adding) ==> (event matches EntryEvent::Vault { exists, .. }
            && !exists),
{
}

/// A registration or a sign-in goes through its steps in order, each asking for the next: a client,
/// the vault, keys where the vault gave none, the server's answer, and the seal. A vault that opened
/// signs in as its own device; one that did not gives a registration the keys of its unanswered try.
pub proof fn law_a_form_asks_in_order(
    from: FormEntry,
    records: Records,
    event: EntryEvent,
    to: FormEntry,
    after: Records,
    ask: EntryAsk,
)
    requires
        bootstraps(from, records, event, to, after, ask),
    ensures
        from is Dialling && event is Dialled && event->Dialled_0 is Ok ==> ask is OpenVault && to
            == (FormEntry::Opening { form: from->Dialling_form }),
        from is Opening && event is Vault && event->opened is Ok ==> {
            &&& to == (FormEntry::Requesting {
                form: from->Opening_form,
                keys: event->opened->Ok_0,
            })
            &&& ask is Request
            &&& ask->Request_device_id is Some <==> event->opened->Ok_0.session is Some
            &&& ask->Request_device_id is Some ==> ask->Request_device_id.unwrap()
                == event->opened->Ok_0.session.unwrap().device_id
        },
        from is Opening && event is Vault && event->opened is Err ==> {
            &&& to == (FormEntry::Keying { form: from->Opening_form })
            &&& ask is TakeKeys
            &&& from->Opening_form.register && records.pending_registration ==> ask->source
                == KeySource::Pending
            &&& from->Opening_form.register && !records.pending_registration ==> ask->source
                == KeySource::Founding
            &&& !from->Opening_form.register ==> ask->source == KeySource::Additional
        },
        from is Keying && event is Keys ==> {
            &&& to == (FormEntry::Requesting { form: from->Keying_form, keys: event->Keys_0 })
            &&& ask is Request
            &&& ask->Request_device_id is None
        },
        to is Requesting && from is Requesting ==> to == from,
        from is Dialling || from is Opening || from is Keying ==> after == records,
{
}

/// A granted sign-in is sealed before it begins: what is sealed saves the grant under the form's own
/// server and name, on the keys it was asked with; and what begins is the session of that grant.
pub proof fn law_a_granted_form_is_sealed(
    from: FormEntry,
    records: Records,
    event: EntryEvent,
    to: FormEntry,
    after: Records,
    ask: EntryAsk,
)
    requires
        bootstraps(from, records, event, to, after, ask),
    ensures
        from is Requesting && event is Answered && event->Answered_0 is Ok ==> {
            let grant = event->Answered_0->Ok_0;
            &&& ask is Seal
            &&& to is Sealing
            &&& to->Sealing_form == from->Requesting_form
            &&& to->Sealing_grant == grant
            &&& to->Sealing_keys.root == from->Requesting_keys.root
            &&& to->Sealing_keys.session is Some
            &&& to->Sealing_keys.session.unwrap().account_id == grant.account_id
            &&& to->Sealing_keys.session.unwrap().device_id == grant.device_id
            &&& to->Sealing_keys.session.unwrap().refresh_token@ == grant.refresh_token@
            &&& to->Sealing_keys.session.unwrap().server_url@ == from->Requesting_form.server_url@
            &&& to->Sealing_keys.session.unwrap().username@ == from->Requesting_form.identifier@
            &&& after == records
        },
        from is Requesting && event is Answered && event->Answered_0 is Err ==> {
            &&& to is Ended
            &&& ask is Stop
            &&& from->Requesting_form.register ==> after.pending_registration
            &&& !from->Requesting_form.register ==> after == records
        },
        from is Sealing && event is Sealed && event->Sealed_0 is Ok ==> {
            &&& ask is Establish
            &&& ask->Establish_keys == from->Sealing_keys
            &&& ask->grant == from->Sealing_grant
            &&& ask->Establish_username@ == from->Sealing_form.identifier@
            &&& from->Sealing_keys.root is Some ==> ask->next@ == seq![
                Action::PublishIdentity,
                Action::SyncWallets,
            ]
            &&& from->Sealing_keys.root is None ==> ask->next@.len() == 0
            &&& !after.pending_registration
        },
        from is Sealing && event is Sealed && event->Sealed_0 is Err ==> {
            &&& ask is Stop
            &&& from->Sealing_form.register ==> after.pending_registration
        },
{
}

/// An unlock goes through its steps in order, on what the vault saved: its server, its token, its
/// device; and where the token is dead, its name without a passphrase. Without a sign-in it stops.
pub proof fn law_an_unlock_uses_what_was_saved(
    from: UnlockEntry,
    records: Records,
    event: EntryEvent,
    to: UnlockEntry,
    ask: EntryAsk,
)
    requires
        unlocks(from, records, event, to, ask),
    ensures
        from is Opening && event is Vault && event->opened is Ok ==> {
            let keys = event->opened->Ok_0;
            &&& keys.session is Some ==> {
                &&& to == (UnlockEntry::Dialling { keys })
                &&& ask is DialSaved
                &&& ask->server_url@ == keys.session.unwrap().server_url@
            }
            &&& keys.session is None ==> to is Ended && ask is Stop
        },
        from is Dialling && event is Dialled && event->Dialled_0 is Ok ==> {
            &&& to == (UnlockEntry::Refreshing { keys: from->Dialling_keys })
            &&& ask is Refresh
            &&& ask->refresh_token@ == from->Dialling_keys.session.unwrap().refresh_token@
            &&& ask->Refresh_device_id == from->Dialling_keys.session.unwrap().device_id
        },
        from is Refreshing && event is Answered && event->Answered_0 is Err ==> {
            &&& to is LoggingIn
            &&& to->LoggingIn_keys == from->Refreshing_keys
            &&& ask is LogIn
            &&& ask->LogIn_username@ == from->Refreshing_keys.session.unwrap().username@
            &&& ask->LogIn_device_id == from->Refreshing_keys.session.unwrap().device_id
        },
        from is Refreshing && event is Answered && event->Answered_0 is Ok ==> {
            let grant = event->Answered_0->Ok_0;
            &&& ask is Seal
            &&& to is Sealing
            &&& to->Sealing_grant == grant
            &&& to->Sealing_keys.session is Some
            &&& to->Sealing_keys.session.unwrap().refresh_token@ == grant.refresh_token@
            &&& to->Sealing_keys.session.unwrap().device_id
                == from->Refreshing_keys.session.unwrap().device_id
            &&& to->Sealing_keys.root == from->Refreshing_keys.root
        },
        from is LoggingIn && event is LoggedIn && event->LoggedIn_0 is None ==> {
            &&& to is Ended
            &&& stops_saying(ask, from->reason@)
        },
        from is LoggingIn && event is LoggedIn && event->LoggedIn_0 is Some ==> {
            &&& ask is Seal
            &&& to is Sealing
            &&& to->Sealing_grant == event->LoggedIn_0.unwrap()
            &&& to->Sealing_keys.session.unwrap().refresh_token@
                == event->LoggedIn_0.unwrap().refresh_token@
        },
        from is Sealing && event is Sealed && event->Sealed_0 is Ok ==> {
            &&& ask is Establish
            &&& ask->Establish_keys == from->Sealing_keys
            &&& ask->grant == from->Sealing_grant
            &&& ask->Establish_username@ == from->Sealing_keys.session.unwrap().username@
        },
        from is Sealing && event is Sealed && event->Sealed_0 is Err ==> ask is Stop,
{
}

/// A restore that adds a device does so for the account that the container names, on fresh keys with
/// the container's root and successor in them; it signs exactly what was sent, and answers its own
/// challenge with both signatures.
pub proof fn law_a_restore_adds_the_containers_device(
    from: RestoreEntry,
    records: Records,
    event: EntryEvent,
    to: RestoreEntry,
    ask: EntryAsk,
)
    requires
        restores(from, records, event, to, ask),
    ensures
        from is Adding && event is Dialled && event->Dialled_0 is Ok ==> ask == (
        EntryAsk::TakeKeys { source: KeySource::Additional }),
        from is Keying && event is Keys && from->Keying_container.successor is Ok ==> {
            let fresh = event->Keys_0;
            let successor = from->Keying_container.successor->Ok_0;
            let keys = if to is SeedReading {
                to->SeedReading_keys
            } else {
                to->Challenging_keys
            };
            &&& keys.root == Some(from->Keying_container.root)
            &&& successor is Some ==> to is SeedReading && keys.rotated_identity_seed == successor
                && ask == (EntryAsk::ReadSeed { seed: successor.unwrap() })
            &&& successor is None ==> to is Challenging && keys.rotated_identity_seed
                == fresh.rotated_identity_seed && ask == (EntryAsk::AskChallenge {
                account_id: from->Keying_account.0,
            })
            &&& keys.txs == fresh.txs
            &&& keys.session == fresh.session
        },
        from is SeedReading && event is SeedRead && event->SeedRead_0 is Ok ==> ask == (
        EntryAsk::AskChallenge { account_id: from->SeedReading_account.0 }) && to is Challenging
            && to->Challenging_keys == from->SeedReading_keys,
        from is Challenging && event is Challenged && event->Challenged_0 is Ok ==> {
            let challenge = event->Challenged_0->Ok_0;
            &&& base64_bytes(challenge.payload@) is Some ==> {
                &&& ask is Sign
                &&& Some(ask->payload@) == base64_bytes(challenge.payload@)
                &&& to is Signing
                &&& to->challenge_id == challenge.challenge_id
                &&& to->Signing_keys == from->Challenging_keys
            }
            &&& base64_bytes(challenge.payload@) is None ==> to is Ended && ask is Stop
        },
        from is Signing && event is Signed && event->Signed_0 is Ok ==> {
            &&& ask is AddDevice
            &&& ask->AddDevice_challenge_id == from->challenge_id
            &&& ask->identity == event->Signed_0->Ok_0.0
            &&& ask->device == event->Signed_0->Ok_0.1
        },
        from is Answering && event is Answered && event->Answered_0 is Ok ==> {
            let grant = event->Answered_0->Ok_0;
            &&& ask is Seal
            &&& to is Sealing
            &&& to->Sealing_grant == grant
            &&& to->new_device
            &&& to->Sealing_keys.root == from->Answering_keys.root
            &&& to->Sealing_keys.session is Some
            &&& to->Sealing_keys.session.unwrap().account_id == from->Answering_account.0
            &&& to->Sealing_keys.session.unwrap().device_id == grant.device_id
            &&& to->Sealing_keys.session.unwrap().refresh_token@ == grant.refresh_token@
            &&& to->Sealing_keys.session.unwrap().server_url@ == from->Answering_form.server_url@
        },
        from is Sealing && event is Sealed && event->Sealed_0 is Ok ==> {
            &&& ask is Establish
            &&& ask->Establish_keys == from->Sealing_keys
            &&& ask->grant == from->Sealing_grant
            &&& ask->Establish_username@ == from->Sealing_username@
        },
{
}

/// A container is looked at for the account it names; one that names none, or that does not read,
/// restores nothing. A vault that is its own is returned to, on the keys that it holds; one that is
/// not, or that did not open, stops the restore.
pub proof fn law_a_restore_returns_or_stops(
    from: RestoreEntry,
    records: Records,
    event: EntryEvent,
    to: RestoreEntry,
    ask: EntryAsk,
)
    requires
        restores(from, records, event, to, ask),
    ensures
        from is Reading && event is Container && event->Container_0 is Err ==> to is Ended && ask
            is Stop,
        from is Reading && event is Container && event->Container_0 is Ok ==> {
            let container = event->Container_0->Ok_0;
            &&& container.account is None ==> to is Ended && ask is Stop
            &&& container.account is Some ==> {
                &&& to is Choosing
                &&& to->Choosing_account == container.account.unwrap()
                &&& to->Choosing_container.root == container.root
                &&& to->Choosing_container.successor == container.successor
                &&& ask is OpenVault
            }
        },
        from is Choosing && event is Vault ==> {
            let own = event->opened is Ok && event->opened->Ok_0.session is Some
                && event->opened->Ok_0.session.unwrap().account_id == from->Choosing_account.0
                && event->opened->Ok_0.root is Some && event->opened->Ok_0.root.unwrap()@
                == from->Choosing_container.root@;
            &&& !event->exists ==> to == (RestoreEntry::Adding {
                form: from->Choosing_form,
                container: from->Choosing_container,
                account: from->Choosing_account,
            })
            &&& event->exists && own ==> to == (RestoreEntry::Returning {
                keys: event->opened->Ok_0,
            })
            &&& event->exists && !own ==> to is Ended && ask is Stop
        },
        from is Returning && event is Dialled && event->Dialled_0 is Ok ==> {
            &&& ask is LogIn
            &&& ask->LogIn_username@ == from->Returning_keys.session.unwrap().username@
            &&& ask->LogIn_device_id == from->Returning_keys.session.unwrap().device_id
        },
        from is LoggingIn && event is LoggedIn && event->LoggedIn_0 is None ==> to is Ended && ask
            is Stop,
        from is LoggingIn && event is LoggedIn && event->LoggedIn_0 is Some ==> to is Sealing
            && to->Sealing_grant == event->LoggedIn_0.unwrap() && !to->new_device,
{
}

/// What is held to be sealed is what sealing waits for, and nothing else is sealed; the name of a
/// restored session is the one that was typed, and the account's own where none was.
pub proof fn law_what_is_sealed_is_what_is_held(
    form: FormEntry,
    unlock: UnlockEntry,
    restore: RestoreEntry,
    asked: RestoreForm,
    account: (Id, String),
)
    ensures
        form.sealable() is Some <==> form is Sealing,
        form is Sealing ==> form.sealable() == Some(form->Sealing_keys),
        unlock.sealable() is Some <==> unlock is Sealing,
        unlock is Sealing ==> unlock.sealable() == Some(unlock->Sealing_keys),
        restore.sealable() is Some <==> restore is Sealing,
        restore is Sealing ==> restore.sealable() == Some(restore->Sealing_keys),
        trimmed(asked.username@).len() > 0 ==> greeting(asked, account) == trimmed(
            asked.username@,
        ),
        trimmed(asked.username@).len() == 0 ==> greeting(asked, account) == account.1@,
        follow_ups(true).contains(Action::PublishIdentity),
        follow_ups(true).contains(Action::SyncWallets),
        follow_ups(false).len() == 0,
{
    assert(follow_ups(true)[0] == Action::PublishIdentity);
    assert(follow_ups(true)[1] == Action::SyncWallets);
}

/// Keys of the same device hold the same root and the same identity, and a sign-in to the same
/// server under the same name; only the token that refreshes it may differ.
pub proof fn law_the_same_device_is_the_same_identity(a: VaultKeys, b: VaultKeys)
    requires
        same_device(a, b),
    ensures
        a.root == b.root,
        a.rotated_identity_seed == b.rotated_identity_seed,
        a.session is Some,
        b.session is Some,
        a.session.unwrap() == (SavedSession {
            refresh_token: a.session.unwrap().refresh_token,
            ..b.session.unwrap()
        }),
{
}

} // verus!
