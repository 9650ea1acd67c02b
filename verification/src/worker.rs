//! The worker: the whole client's state, and what moves it.
//!
//! A command, a frame or a lost connection comes in; the state moves; a list of actions goes out.

use std::collections::HashSet;

use vstd::prelude::*;

use crate::account::{Records, VaultKeys};
use crate::asks::Asks;
use crate::effects::{toasted, toast, Action, ChainTxRow, Connection, Event, Notice, ToastKind};
use crate::ids::list_of;
use crate::link::Link;
use crate::media::{Fetches, Uploads};
use crate::server_probe::Transport;
use crate::signed::{bridge_map, Account, Signed};
use crate::sync::{Sync, SyncView};
use crate::timing::Duration;
use crate::voice::{stopping, Voice};
use crate::wallet::{chain_rows, row_says, tellable};
use crate::wire::Id;

verus! {

broadcast use vstd::std_specs::hash::group_hash_axioms;

/// The whole client's state.
pub struct Worker {
    /// The account that is signed in, if one is.
    pub signed: Option<Signed>,
    pub link: Link,
    pub sync: Sync,
    pub asks: Asks,
    pub uploads: Uploads,
    pub fetches: Fetches,
    pub voice: Voice,
    pub records: Records,
    /// The voice notes this account has heard.
    pub listened: HashSet<Id>,
}

/// What the loop waits for, besides commands and frames. What is absent is not waited for.
pub struct Timers {
    /// Milliseconds until the next attempt to connect.
    pub retry_ms: Option<u64>,
    /// The time between two heartbeats.
    pub heartbeat: Option<Duration>,
    /// Whether a recording ticks.
    pub recording: bool,
    /// Whether a discarded note's undo window runs.
    pub undo: bool,
}

/// Whether some rows tell some records, one for one.
pub open spec fn rows_tell(rows: Seq<ChainTxRow>, records: Records) -> bool {
    match records.txs {
        Some((_, txs)) => {
            &&& rows.len() == txs@.len()
            &&& forall|i: int| 0 <= i < rows.len() ==> row_says(#[trigger] rows[i], txs@[i])
        },
        None => rows.len() == 0,
    }
}

/// Whether the instants of the records can be told.
pub open spec fn records_tellable(records: Records) -> bool {
    records.txs matches Some((_, txs)) ==> tellable(txs@)
}

impl Worker {
    /// What holds of the state at every moment.
    pub open spec fn wf(&self) -> bool {
        &&& self.link.wf()
        &&& self.sync@.wf()
        &&& self.fetches.wf()
        &&& records_tellable(self.records)
        &&& self.signed matches Some(signed) ==> signed.held.wf()
    }

    /// A client that has just been started.
    pub fn new(speed_percent: u32) -> (worker: Self)
        ensures
            worker.wf(),
            worker.signed is None,
            worker.link.session is None,
            !worker.link.online,
            worker.link.retry is None,
            worker.link.heartbeat is None,
            worker.sync@ == SyncView::empty(),
            worker.asks.is_empty(),
            worker.uploads.is_empty(),
            worker.records.txs is None,
            worker.records.peers is None,
            worker.records.last_backup_at is None,
            !worker.records.pending_registration,
            worker.listened@ == Set::<Id>::empty(),
    {
        Worker {
            signed: None,
            link: Link::new(),
            sync: Sync::new(),
            asks: Asks::new(),
            uploads: Uploads::new(),
            fetches: Fetches::new(),
            voice: Voice::new(speed_percent),
            records: Records::new(),
            listened: HashSet::new(),
        }
    }

    /// What the loop waits for, besides commands and frames.
    pub fn timers(&self) -> (timers: Timers)
        ensures
            timers.retry_ms == (match self.link.retry {
                Some(plan) => Some(plan.wait_ms),
                None => None,
            }),
            timers.heartbeat == self.link.heartbeat,
            timers.recording == (self.voice.recording is Some),
            timers.undo == self.voice.undo_open,
    {
        let retry_ms: Option<u64> = match &self.link.retry {
            Some(plan) => Some(plan.wait_ms),
            None => None,
        };
        let heartbeat: Option<Duration> = match &self.link.heartbeat {
            Some(interval) => Some(*interval),
            None => None,
        };
        Timers {
            retry_ms,
            heartbeat,
            recording: self.voice.recording.is_some(),
            undo: self.voice.undo_open,
        }
    }

    /// What the first screen is told: whether there is a vault to unlock.
    pub fn greeting(vault_exists: bool) -> (action: Action)
        ensures
            action == Action::Emit(if vault_exists {
                Event::VaultFound
            } else {
                Event::VaultMissing
            }),
    {
        if vault_exists {
            Action::Emit(Event::VaultFound)
        } else {
            Action::Emit(Event::VaultMissing)
        }
    }

    /// The transactions of the activity list, newest first.
    pub fn chain_rows(&self) -> (rows: Vec<ChainTxRow>)
        requires
            self.wf(),
        ensures
            rows_tell(rows@, self.records),
    {
        match &self.records.txs {
            Some((_, records)) => chain_rows(records),
            None => Vec::new(),
        }
    }

    /// Begins a session: the account that was granted, with the keys that were sealed, the rooms the
    /// last session bridged, and the notes it heard.
    ///
    /// Nothing of a session before it is left: no gateway session to resume, no sequence, no walk.
    pub fn establish(
        &mut self,
        account: Account,
        transport: Transport,
        access_token: String,
        keys: VaultKeys,
        bridges: &Vec<(Id, Id)>,
        listened: HashSet<Id>,
    ) -> (out: Vec<Action>)
        requires
            old(self).wf(),
            tellable(keys.txs@),
        ensures
            final(self).wf(),
            final(self).signed matches Some(signed) && signed.account == account && signed.transport
                == transport && signed.access_token == access_token && signed.room_conversations@
                == bridge_map(bridges@) && signed.rooms_watched@ == bridge_map(bridges@).dom()
                && signed.members@ == Map::<Id, crate::members::MemberCache>::empty()
                && signed.devices@ == Map::<Id, Vec<Id>>::empty() && signed.e2e@ == Map::<
                Id,
                bool,
            >::empty() && signed.watched@ == Set::<Id>::empty() && signed.conversations_watched@
                == Set::<Id>::empty() && signed.media_keys.keys@ == Map::<
                Id,
                crate::content::MediaKeying,
            >::empty() && (forall|c: Id, d: Id| (#[trigger] signed.held.of(c, d)).len() == 0),
            final(self).sync@ == SyncView::empty(),
            final(self).listened == listened,
            final(self).records == (Records {
                txs: Some((account.account_id, keys.txs)),
                peers: Some((account.account_id, keys.peer_fingerprints)),
                last_backup_at: Some((account.account_id, keys.last_backup_at)),
                ..old(self).records
            }),
            *final(self) == (Worker {
                signed: final(self).signed,
                link: Link { session: None, ..old(self).link },
                sync: final(self).sync,
                records: final(self).records,
                listened: final(self).listened,
                ..*old(self)
            }),
            out@.len() == 5,
            out@[0] matches Action::Emit(Event::SignedIn(told)) && same_account(told, account),
            out@[1] == Action::Emit(Event::BackupState { last_backup_at: keys.last_backup_at }),
            out@[2] matches Action::Emit(Event::ChainActivity(rows)) && rows_tell(
                rows@,
                final(self).records,
            ),
            out@[3] matches Action::Emit(Event::VoiceNotesListened { media_ids })
                && media_ids@.to_set() == listened@ && media_ids@.no_duplicates(),
            out@[4] == Action::Connect,
    {
        let told: Account = copy_account(&account);
        let account_id: Id = account.account_id;
        let last_backup_at: Option<u64> = keys.last_backup_at;
        self.signed = Some(Signed::begin(account, transport, access_token, bridges));
        self.link.session = None;
        self.sync = Sync::new();
        self.records.txs = Some((account_id, keys.txs));
        self.records.peers = Some((account_id, keys.peer_fingerprints));
        self.records.last_backup_at = Some((account_id, last_backup_at));
        self.listened = listened;
        let rows: Vec<ChainTxRow> = self.chain_rows();
        let media_ids: Vec<Id> = list_of(&self.listened);
        vec![
            Action::Emit(Event::SignedIn(told)),
            Action::Emit(Event::BackupState { last_backup_at }),
            Action::Emit(Event::ChainActivity(rows)),
            Action::Emit(Event::VoiceNotesListened { media_ids }),
            Action::Connect,
        ]
    }

    /// Signs out. What this device holds is forgotten before the server is told, so that a server
    /// out of reach cannot leave a signed-out client with the keys of its history.
    pub fn sign_out(&mut self) -> (out: Vec<Action>)
        requires
            old(self).wf(),
        ensures
            final(self).wf(),
            forgets_account(*old(self), *final(self)),
            out@ == signing_out(*old(self)),
    {
        let mut out: Vec<Action> = Vec::new();
        if self.link.online {
            out.push(Action::CloseGateway);
        }
        self.link.online = false;
        if let Some(signed) = self.signed.take() {
            out.push(
                Action::Logout {
                    access_token: signed.access_token,
                    session_id: signed.account.session_id,
                },
            );
        }
        self.link.retry = None;
        self.link.heartbeat = None;
        out.push(Action::CallsSignOut);
        self.uploads.sign_out();
        self.fetches.sign_out();
        if self.voice.recording.is_some() {
            out.push(Action::StopCapture);
        }
        self.voice.recording = None;
        let mut stopped: Vec<Action> = self.voice.stop_voice_note();
        out.append(&mut stopped);
        self.listened.clear();
        self.link.session = None;
        self.sync = Sync::new();
        out.push(Action::Emit(Event::Connection(Connection::Offline)));
        out.push(Action::Emit(Event::SignedOut));
        out.push(toasted(Notice::SignedOut, ToastKind::Success));
        assert(self.uploads.attachment_begins@.dom() =~= Set::<u32>::empty());
        assert(self.uploads.attachment_commits@.dom() =~= Set::<u32>::empty());
        assert(self.fetches.media_wants@.dom() =~= Set::<u32>::empty());
        assert(out@ =~= signing_out(*old(self)));
        out
    }
}

/// Whether nothing that a session minted is left: no upload, no fetch, nothing opened, no recording,
/// no playback, no mark, no session to resume, no walk.
pub open spec fn forgets_account(before: Worker, after: Worker) -> bool {
    &&& after.signed is None
    &&& after.link == (Link { session: None, online: false, retry: None, heartbeat: None })
    &&& after.sync@ == SyncView::empty()
    &&& after.uploads.attachment_begins@.dom() == Set::<u32>::empty()
    &&& after.uploads.attachment_commits@.dom() == Set::<u32>::empty()
    &&& after.uploads == (Uploads {
        attachment_begins: after.uploads.attachment_begins,
        attachment_commits: after.uploads.attachment_commits,
        ..before.uploads
    })
    &&& after.fetches.media_wants@.dom() == Set::<u32>::empty()
    &&& after.fetches.media_fetching@ == Set::<Id>::empty()
    &&& after.fetches.cache@.len() == 0
    &&& after.voice == (Voice { recording: None, playing: None, ..before.voice })
    &&& after.listened@ == Set::<Id>::empty()
    &&& after.asks == before.asks
    &&& after.records == before.records
}

/// What signing out does, in order.
pub open spec fn signing_out(worker: Worker) -> Seq<Action> {
    (if worker.link.online {
        seq![Action::CloseGateway]
    } else {
        Seq::empty()
    }) + (match worker.signed {
        Some(signed) => seq![
            Action::Logout {
                access_token: signed.access_token,
                session_id: signed.account.session_id,
            },
        ],
        None => Seq::empty(),
    }) + seq![Action::CallsSignOut] + (if worker.voice.recording is Some {
        seq![Action::StopCapture]
    } else {
        Seq::empty()
    }) + stopping(worker.voice.playing) + seq![
        Action::Emit(Event::Connection(Connection::Offline)),
        Action::Emit(Event::SignedOut),
        toast(Notice::SignedOut, ToastKind::Success),
    ]
}

/// Whether an account is another, in every field.
pub open spec fn same_account(a: Account, b: Account) -> bool {
    &&& a.account_id == b.account_id
    &&& a.device_id == b.device_id
    &&& a.session_id == b.session_id
    &&& a.username@ == b.username@
    &&& a.safety_number@ == b.safety_number@
    &&& a.holds_root == b.holds_root
}

fn copy_account(account: &Account) -> (copy: Account)
    ensures
        same_account(copy, *account),
{
    Account {
        account_id: account.account_id,
        device_id: account.device_id,
        session_id: account.session_id,
        username: account.username.clone(),
        safety_number: account.safety_number.clone(),
        holds_root: account.holds_root,
    }
}

/// A signed-out client holds nothing that could speak for the account: no connection, no session to
/// resume and none to try again, no sequence to continue, and no attachment that was opened.
pub proof fn law_signing_out_leaves_nothing_to_resume(before: Worker, after: Worker, any: Id)
    requires
        forgets_account(before, after),
    ensures
        after.signed is None,
        !after.link.online,
        after.link.retry is None,
        after.link.heartbeat is None,
        crate::link::resume_of(after.link.session) is None,
        after.sync@.watermark(any) == 0,
        !crate::media_cache::holds(after.fetches.cache@, any),
{
}

/// Signing out forgets everything of the session at once: every upload and fetch, everything that
/// was opened, every mark, what was recorded or played; and the windows hear it, after the calls end
/// and before anything else can speak. The account's own records stay.
pub proof fn law_signing_out_forgets_the_session(
    before: Worker,
    after: Worker,
    correlation: u32,
    media_id: Id,
)
    requires
        forgets_account(before, after),
    ensures
        after.signed is None,
        after.link.session is None,
        !after.uploads.attachment_begins@.contains_key(correlation),
        !after.uploads.attachment_commits@.contains_key(correlation),
        !after.fetches.media_wants@.contains_key(correlation),
        !after.fetches.media_fetching@.contains(media_id),
        after.fetches.cache@.len() == 0,
        after.voice.recording is None,
        after.voice.playing is None,
        !after.listened@.contains(media_id),
        after.sync@.catchups.dom() == Set::<Id>::empty(),
        after.sync@.sequences.dom() == Set::<Id>::empty(),
        after.records == before.records,
        after.voice.held_note == before.voice.held_note,
{
    assert(!after.uploads.attachment_begins@.dom().contains(correlation));
    assert(!after.uploads.attachment_commits@.dom().contains(correlation));
    assert(!after.fetches.media_wants@.dom().contains(correlation));
    assert(after.sync@.catchups.dom() =~= Set::<Id>::empty());
    assert(after.sync@.sequences.dom() =~= Set::<Id>::empty());
}

/// What signing out does: the connection is closed where there is one; the very session that was
/// signed in is ended on the server, with its own token; the calls end; capture and playback stop;
/// and the window is told that it is offline and signed out, last.
pub proof fn law_signing_out_ends_the_session(worker: Worker)
    ensures
        signing_out(worker).len() >= 4,
        worker.link.online ==> signing_out(worker)[0] == Action::CloseGateway,
        worker.signed is Some ==> signing_out(worker).contains(
            Action::Logout {
                access_token: worker.signed.unwrap().access_token,
                session_id: worker.signed.unwrap().account.session_id,
            },
        ),
        worker.signed is None ==> forall|i: int|
            0 <= i < signing_out(worker).len() ==> !(#[trigger] signing_out(worker)[i] is Logout),
        signing_out(worker).contains(Action::CallsSignOut),
        worker.voice.recording is Some ==> signing_out(worker).contains(Action::StopCapture),
        worker.voice.playing is Some ==> signing_out(worker).contains(Action::StopPlayback),
        signing_out(worker)[signing_out(worker).len() - 3] == Action::Emit(
            Event::Connection(Connection::Offline),
        ),
        signing_out(worker)[signing_out(worker).len() - 2] == Action::Emit(Event::SignedOut),
        signing_out(worker).last() == Action::Emit(
            Event::Toast { notice: Notice::SignedOut, kind: ToastKind::Success },
        ),
{
    let out = signing_out(worker);
    let a = if worker.link.online { 1int } else { 0 };
    let b = a + (if worker.signed is Some { 1int } else { 0 });
    let c = b + 1;
    let d = c + (if worker.voice.recording is Some { 1int } else { 0 });
    if worker.signed is Some {
        assert(out[a] is Logout);
    }
    assert(out[b] == Action::CallsSignOut);
    if worker.voice.recording is Some {
        assert(out[c] == Action::StopCapture);
    }
    if worker.voice.playing is Some {
        assert(out[d] == Action::StopPlayback);
    }
}

/// The account a window is told of is the one that was signed in, in everything that is told.
pub proof fn law_the_told_account_is_the_signed(a: Account, b: Account)
    requires
        same_account(a, b),
    ensures
        a.account_id == b.account_id,
        a.device_id == b.device_id,
        a.session_id == b.session_id,
        a.username@ == b.username@,
        a.safety_number@ == b.safety_number@,
        a.holds_root <==> b.holds_root,
{
}

} // verus!
