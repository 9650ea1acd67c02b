//! The account's own lists: its admins, sessions, devices and wallets.

use vstd::prelude::*;

use crate::account::{tell, tells};
use crate::effects::{
    toast, toasted, Action, AdminRow, AdminsAnswer, DeviceRow, Event, EvmWalletRow, Notice,
    SessionRow, ToastKind,
};
use crate::rest::{
    goes, AccountDevice, AdminStanding, AdminView, DeviceRevoked, DeviceSummary, Method, Payload,
    RegisteredWallet, Rest, RestCall, RestError, SessionSummary,
};
use crate::text::{non_empty, some_text, trim, trimmed};
use crate::wallet::WALLET_INDEXES;

verus! {

/// What the admin surface shows without its list being read: `None` where the list is to be read.
/// Who does not own the platform never asks for it.
pub fn admins_gate(standing: Result<AdminStanding, RestError>) -> (event: Option<Event>)
    ensures
        match standing {
            Err(error) => event matches Some(Event::Admins(AdminsAnswer::Failed(reason))) && reason@
                == error.says(),
            Ok(found) => if found.owner {
                event is None
            } else {
                event == Some(Event::Admins(AdminsAnswer::Closed))
            },
        },
{
    match standing {
        Err(error) => Some(Event::Admins(AdminsAnswer::Failed(error.message()))),
        Ok(found) => {
            if found.owner {
                None
            } else {
                Some(Event::Admins(AdminsAnswer::Closed))
            }
        },
    }
}

/// The row an admin is drawn as.
pub open spec fn admin_row(admin: AdminView) -> AdminRow {
    AdminRow {
        account_id: admin.account_id,
        username: admin.username,
        granted_at: admin.granted_at_ms,
    }
}

/// The admin list came back, or did not.
pub fn fetch_admins(list: Result<Vec<AdminView>, RestError>) -> (event: Event)
    ensures
        match list {
            Err(error) => event matches Event::Admins(AdminsAnswer::Failed(reason)) && reason@
                == error.says(),
            Ok(admins) => event matches Event::Admins(AdminsAnswer::Owner(rows)) && rows@
                == admins@.map_values(|admin: AdminView| admin_row(admin)),
        },
{
    let admins: Vec<AdminView> = match list {
        Ok(admins) => admins,
        Err(error) => {
            return Event::Admins(AdminsAnswer::Failed(error.message()));
        },
    };
    let ghost all = admins@;
    let mut rows: Vec<AdminRow> = Vec::new();
    for admin in it: admins
        invariant
            it.seq() == all,
            rows@.len() == it.index(),
            forall|i: int| 0 <= i < rows@.len() ==> #[trigger] rows@[i] == admin_row(all[i]),
    {
        rows.push(
            AdminRow {
                account_id: admin.account_id,
                username: admin.username,
                granted_at: admin.granted_at_ms,
            },
        );
    }
    assert(rows@ =~= all.map_values(|admin: AdminView| admin_row(admin)));
    Event::Admins(AdminsAnswer::Owner(rows))
}

/// Whether some actions say that a change of admins failed.
pub open spec fn change_failed(out: Seq<Action>, error: RestError) -> bool {
    &&& out.len() == 1
    &&& out[0] matches Action::Emit(Event::AdminChangeFailed { reason }) && reason@ == error.says()
}

/// An admin was appointed, or was not. The list is read again: what is shown is the server's truth.
pub fn grant_admin(outcome: Result<AdminView, RestError>) -> (out: Vec<Action>)
    ensures
        match outcome {
            Ok(view) => out@ == seq![
                toast(Notice::AdminAppointed { username: view.username }, ToastKind::Success),
                Action::ReadAdmins,
            ],
            Err(error) => change_failed(out@, error),
        },
{
    match outcome {
        Ok(view) => vec![
            toasted(Notice::AdminAppointed { username: view.username }, ToastKind::Success),
            Action::ReadAdmins,
        ],
        Err(error) => vec![Action::Emit(Event::AdminChangeFailed { reason: error.message() })],
    }
}

/// An admin was revoked, or was not.
pub fn revoke_admin(outcome: Result<(), RestError>) -> (out: Vec<Action>)
    ensures
        match outcome {
            Ok(_) => out@ == seq![
                toast(Notice::AdminRevoked, ToastKind::Success),
                Action::ReadAdmins,
            ],
            Err(error) => change_failed(out@, error),
        },
{
    match outcome {
        Ok(_) => vec![toasted(Notice::AdminRevoked, ToastKind::Success), Action::ReadAdmins],
        Err(error) => vec![Action::Emit(Event::AdminChangeFailed { reason: error.message() })],
    }
}

/// The name a session is drawn with: its device's own, or its platform, where either says
/// something, or the short form of its id.
pub open spec fn session_device(session: SessionSummary) -> String {
    match session.device {
        None => session.short_id,
        Some(device) => match some_text(device.display_name) {
            Some(name) => name,
            None => match some_text(device.platform) {
                Some(platform) => platform,
                None => session.short_id,
            },
        },
    }
}

fn device_name(device: Option<DeviceSummary>, short_id: String) -> (name: String)
    ensures
        name == (match device {
            None => short_id,
            Some(device) => match some_text(device.display_name) {
                Some(name) => name,
                None => match some_text(device.platform) {
                    Some(platform) => platform,
                    None => short_id,
                },
            },
        }),
{
    match device {
        None => short_id,
        Some(device) => match non_empty(device.display_name) {
            Some(name) => name,
            None => match non_empty(device.platform) {
                Some(platform) => platform,
                None => short_id,
            },
        },
    }
}

/// The row a session is drawn as.
pub open spec fn session_row(session: SessionSummary) -> SessionRow {
    SessionRow {
        session_id: session.session_id,
        device: session_device(session),
        created_at: session.created_at,
        last_active_at: session.last_active_at,
        current: session.current,
    }
}

/// The session list came back, or did not.
pub fn fetch_sessions(list: Result<Vec<SessionSummary>, RestError>) -> (event: Event)
    ensures
        match list {
            Err(error) => event matches Event::Sessions(Err(reason)) && reason@ == error.says(),
            Ok(sessions) => event matches Event::Sessions(Ok(rows)) && rows@ == sessions@.map_values(
                |session: SessionSummary| session_row(session),
            ),
        },
{
    let sessions: Vec<SessionSummary> = match list {
        Ok(sessions) => sessions,
        Err(error) => {
            return Event::Sessions(Err(error.message()));
        },
    };
    let ghost all = sessions@;
    let mut rows: Vec<SessionRow> = Vec::new();
    for session in it: sessions
        invariant
            it.seq() == all,
            rows@.len() == it.index(),
            forall|i: int| 0 <= i < rows@.len() ==> #[trigger] rows@[i] == session_row(all[i]),
    {
        rows.push(
            SessionRow {
                session_id: session.session_id,
                device: device_name(session.device, session.short_id),
                created_at: session.created_at,
                last_active_at: session.last_active_at,
                current: session.current,
            },
        );
    }
    assert(rows@ =~= all.map_values(|session: SessionSummary| session_row(session)));
    Event::Sessions(Ok(rows))
}

/// A session was ended, or was not.
pub fn revoke_session(outcome: Result<(), RestError>) -> (out: Vec<Action>)
    ensures
        match outcome {
            Ok(_) => out@ == seq![
                toast(Notice::SessionEnded, ToastKind::Success),
                Action::ReadSessions,
            ],
            Err(error) => out@.len() == 1 && tells(out@[0], error),
        },
{
    match outcome {
        Ok(_) => vec![toasted(Notice::SessionEnded, ToastKind::Success), Action::ReadSessions],
        Err(error) => vec![tell(&error)],
    }
}

/// The row a device is drawn as: under its name, or the short form of its id where that is empty.
pub open spec fn device_row(device: AccountDevice) -> DeviceRow {
    DeviceRow {
        device_id: device.device_id,
        display_name: match some_text(Some(device.display_name)) {
            Some(name) => name,
            None => device.short_id,
        },
        platform: device.platform,
        status: device.status,
        created_at: Some(device.created_at_ms),
        last_seen: Some(device.last_seen_at_ms),
        has_credential: device.has_credential,
        is_current: device.is_current,
    }
}

/// The device list came back, or did not.
pub fn fetch_devices(list: Result<Vec<AccountDevice>, RestError>) -> (event: Event)
    ensures
        match list {
            Err(error) => event matches Event::Devices(Err(reason)) && reason@ == error.says(),
            Ok(devices) => event matches Event::Devices(Ok(rows)) && rows@ == devices@.map_values(
                |device: AccountDevice| device_row(device),
            ),
        },
{
    let devices: Vec<AccountDevice> = match list {
        Ok(devices) => devices,
        Err(error) => {
            return Event::Devices(Err(error.message()));
        },
    };
    let ghost all = devices@;
    let mut rows: Vec<DeviceRow> = Vec::new();
    for device in it: devices
        invariant
            it.seq() == all,
            rows@.len() == it.index(),
            forall|i: int| 0 <= i < rows@.len() ==> #[trigger] rows@[i] == device_row(all[i]),
    {
        rows.push(
            DeviceRow {
                device_id: device.device_id,
                display_name: match non_empty(Some(device.display_name)) {
                    Some(name) => name,
                    None => device.short_id,
                },
                platform: device.platform,
                status: device.status,
                created_at: Some(device.created_at_ms),
                last_seen: Some(device.last_seen_at_ms),
                has_credential: device.has_credential,
                is_current: device.is_current,
            },
        );
    }
    assert(rows@ =~= all.map_values(|device: AccountDevice| device_row(device)));
    Event::Devices(Ok(rows))
}

/// A device was removed, or was not. The word names how many sessions ended with it.
pub fn revoke_device(outcome: Result<DeviceRevoked, RestError>) -> (out: Vec<Action>)
    ensures
        match outcome {
            Ok(answer) => out@ == seq![
                toast(Notice::DeviceRemoved { sessions: answer.revoked }, ToastKind::Success),
                Action::ReadDevices,
                Action::ReadSessions,
            ],
            Err(error) => out@.len() == 1 && tells(out@[0], error),
        },
{
    match outcome {
        Ok(answer) => vec![
            toasted(Notice::DeviceRemoved { sessions: answer.revoked }, ToastKind::Success),
            Action::ReadDevices,
            Action::ReadSessions,
        ],
        Err(error) => vec![tell(&error)],
    }
}

/// The row a registered wallet is drawn as.
pub open spec fn wallet_row(wallet: RegisteredWallet) -> EvmWalletRow {
    EvmWalletRow {
        wallet_id: wallet.wallet_id,
        address: wallet.address,
        derivation_index: wallet.derivation_index,
        status: wallet.status,
        label: wallet.label,
    }
}

/// The wallet list came back, or did not.
pub fn fetch_wallets(list: Result<Vec<RegisteredWallet>, RestError>) -> (event: Event)
    ensures
        match list {
            Err(error) => event matches Event::Wallets(Err(reason)) && reason@ == error.says(),
            Ok(wallets) => event matches Event::Wallets(Ok(rows)) && rows@ == wallets@.map_values(
                |wallet: RegisteredWallet| wallet_row(wallet),
            ),
        },
{
    let wallets: Vec<RegisteredWallet> = match list {
        Ok(wallets) => wallets,
        Err(error) => {
            return Event::Wallets(Err(error.message()));
        },
    };
    let ghost all = wallets@;
    let mut rows: Vec<EvmWalletRow> = Vec::new();
    for wallet in it: wallets
        invariant
            it.seq() == all,
            rows@.len() == it.index(),
            forall|i: int| 0 <= i < rows@.len() ==> #[trigger] rows@[i] == wallet_row(all[i]),
    {
        rows.push(
            EvmWalletRow {
                wallet_id: wallet.wallet_id,
                address: wallet.address,
                derivation_index: wallet.derivation_index,
                status: wallet.status,
                label: wallet.label,
            },
        );
    }
    assert(rows@ =~= all.map_values(|wallet: RegisteredWallet| wallet_row(wallet)));
    Event::Wallets(Ok(rows))
}

/// A wallet's address was archived, or was not.
pub fn archive_wallet(outcome: Result<(), RestError>) -> (out: Vec<Action>)
    ensures
        match outcome {
            Ok(_) => out@ == seq![
                toast(Notice::WalletArchived, ToastKind::Success),
                Action::ReadWallets,
            ],
            Err(error) => out@.len() == 1 && tells(out@[0], error),
        },
{
    match outcome {
        Ok(_) => vec![toasted(Notice::WalletArchived, ToastKind::Success), Action::ReadWallets],
        Err(error) => vec![tell(&error)],
    }
}

/// One of the missing wallets was registered, or was not: a refusal is told, and ends the sync.
pub fn wallet_registered(index: u32, outcome: Result<(), RestError>) -> (refusal: Option<Action>)
    ensures
        match outcome {
            Ok(_) => refusal is None,
            Err(error) => refusal matches Some(Action::Emit(
                Event::Toast { notice: Notice::WalletNotRegistered { index: told, reason }, kind },
            )) && told == index && reason@ == error.says() && kind == ToastKind::Error,
        },
{
    match outcome {
        Ok(_) => None,
        Err(error) => Some(
            toasted(
                Notice::WalletNotRegistered { index, reason: error.message() },
                ToastKind::Error,
            ),
        ),
    }
}

/// Every missing wallet was registered: the list is read again, unless a wallet did not derive.
pub fn wallets_synced(derived: &Vec<String>) -> (out: Vec<Action>)
    ensures
        out@ == (if derived@.len() >= WALLET_INDEXES {
            seq![Action::ReadWallets]
        } else {
            Seq::empty()
        }),
{
    if derived.len() >= WALLET_INDEXES {
        vec![Action::ReadWallets]
    } else {
        Vec::new()
    }
}

/// The root's public halves were published, or were not. A refusal is told and fails no sign-in.
pub fn publish_root_material(outcome: Result<(), RestError>) -> (out: Vec<Action>)
    ensures
        match outcome {
            Ok(_) => out@.len() == 0,
            Err(error) => out@.len() == 1 && (out@[0] matches Action::Emit(
                Event::Toast { notice: Notice::IdentityNotPublished { reason }, kind },
            ) && reason@ == error.says() && kind == ToastKind::Error),
        },
{
    match outcome {
        Ok(_) => Vec::new(),
        Err(error) => vec![
            toasted(Notice::IdentityNotPublished { reason: error.message() }, ToastKind::Error),
        ],
    }
}

/// The call that records what was typed as the recoverable contact.
pub fn contact_call(rest: &Rest, access_token: &str, typed: &str) -> (call: RestCall)
    ensures
        goes(call, rest.at(), Method::Put, "/v1/auth/contact"@, Some(access_token@)),
        call.body matches Payload::Contact { email_or_phone } && email_or_phone@ == trimmed(typed@),
{
    let contact: String = trim(typed);
    rest.set_contact(access_token, contact.as_str())
}

/// The recoverable contact was recorded, or was not.
pub fn set_contact(outcome: Result<(), RestError>) -> (action: Action)
    ensures
        match outcome {
            Ok(_) => action == toast(Notice::ContactSaved, ToastKind::Success),
            Err(error) => tells(action, error),
        },
{
    match outcome {
        Ok(_) => toasted(Notice::ContactSaved, ToastKind::Success),
        Err(error) => tell(&error),
    }
}

/// Whether the account has a recoverable contact was read, or was not.
pub fn fetch_contact_standing(outcome: Result<bool, RestError>) -> (event: Event)
    ensures
        match outcome {
            Ok(configured) => event == Event::ContactStanding(Ok(configured)),
            Err(error) => event matches Event::ContactStanding(Err(reason)) && reason@
                == error.says(),
        },
{
    match outcome {
        Ok(configured) => Event::ContactStanding(Ok(configured)),
        Err(error) => Event::ContactStanding(Err(error.message())),
    }
}

/// An admin's row names the account, its user name and when it was appointed, as the server has
/// them.
pub proof fn law_an_admins_row_is_its_own(admin: AdminView)
    ensures
        admin_row(admin).account_id == admin.account_id,
        admin_row(admin).username@ == admin.username@,
        admin_row(admin).granted_at == admin.granted_at_ms,
{
}

/// A change of the admins that failed is told once, in the failure's own words, and nothing else
/// is asked for.
pub proof fn law_a_failed_change_is_told(out: Seq<Action>, error: RestError)
    requires
        change_failed(out, error),
    ensures
        out.len() == 1,
        out[0] is Emit,
        out[0]->Emit_0 is AdminChangeFailed,
        out[0]->Emit_0->AdminChangeFailed_reason@ == error.says(),
{
}

/// A session's row is its session's own. The device goes by its name, where it has none by its
/// platform, and where neither is known by the session's short id.
pub proof fn law_a_sessions_row_is_its_own(session: SessionSummary)
    ensures
        session_row(session).session_id == session.session_id,
        session_row(session).created_at == session.created_at,
        session_row(session).last_active_at == session.last_active_at,
        session_row(session).current == session.current,
        session.device is None ==> session_row(session).device@ == session.short_id@,
        session.device matches Some(device) ==> {
            let named = device.display_name is Some && device.display_name->0@.len() > 0;
            let placed = device.platform is Some && device.platform->0@.len() > 0;
            &&& named ==> session_row(session).device@ == device.display_name->0@
            &&& !named && placed ==> session_row(session).device@ == device.platform->0@
            &&& !named && !placed ==> session_row(session).device@ == session.short_id@
        },
{
}

/// A device's row is its device's own. It goes by its name, and by its short id where it has none.
pub proof fn law_a_devices_row_is_its_own(device: AccountDevice)
    ensures
        device_row(device).device_id == device.device_id,
        device.display_name@.len() > 0 ==> device_row(device).display_name@ == device.display_name@,
        device.display_name@.len() == 0 ==> device_row(device).display_name@ == device.short_id@,
        device_row(device).platform == device.platform,
        device_row(device).status == device.status,
        device_row(device).created_at == Some(device.created_at_ms),
        device_row(device).last_seen == Some(device.last_seen_at_ms),
        device_row(device).has_credential == device.has_credential,
        device_row(device).is_current == device.is_current,
{
}

/// A wallet's row is its wallet's own.
pub proof fn law_a_wallets_row_is_its_own(wallet: RegisteredWallet)
    ensures
        wallet_row(wallet).wallet_id == wallet.wallet_id,
        wallet_row(wallet).address == wallet.address,
        wallet_row(wallet).derivation_index == wallet.derivation_index,
        wallet_row(wallet).status == wallet.status,
        wallet_row(wallet).label == wallet.label,
{
}

} // verus!
