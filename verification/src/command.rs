//! What the window asks for.

use vstd::prelude::*;

use crate::account::CaptchaAnswer;
use crate::effects::ProfilePatch;
use crate::server_probe::ServerEndpoint;
use crate::wallet::{ChainNetwork, PreparedTx};
use crate::wire::{Id, Timestamp};

verus! {

/// What the window asks for. A path is held as its text.
#[allow(inconsistent_fields)]
pub enum Command {
    /// Fetch a captcha challenge for a form.
    FetchCaptcha { server: ServerEndpoint, mode: Option<String> },
    /// Make an account, its keys, and a vault.
    Register {
        server: ServerEndpoint,
        username: String,
        account_passphrase: String,
        passphrase: String,
        captcha: Option<CaptchaAnswer>,
    },
    /// Sign in to an account, making keys if this device has none yet.
    SignIn {
        server: ServerEndpoint,
        identifier: String,
        account_passphrase: String,
        passphrase: String,
        captcha: Option<CaptchaAnswer>,
    },
    /// Open the vault and resume its saved sign-in.
    Unlock { passphrase: String },
    /// End the session and forget every key.
    SignOut,
    Conversations,
    /// Read a thread's history, from what it holds upwards.
    History { conversation_id: Id, held: bool },
    /// Read a page of history below a seq, or below the newest where it is zero.
    HistoryEarlier { conversation_id: Id, before_seq: u64 },
    PeerKeys { user_id: Id },
    /// Seal and send a text, under an id made for it.
    SendText {
        message_id: Id,
        conversation_id: Id,
        text: String,
        expires_in_ms: Option<u32>,
    },
    /// Start a direct chat with what was typed, where it names an account.
    StartDirect { peer: Option<Id> },
    StartDirectById { peer: Id },
    CreateGroup { members: Vec<Id>, title: String },
    InviteToGroup { conversation_id: Id, members: Vec<Id> },
    LeaveGroup { conversation_id: Id },
    GroupRoster { conversation_id: Id },
    MuteGroupMember { conversation_id: Id, target_id: Id, until: Option<Timestamp> },
    KickGroupMember { conversation_id: Id, target_id: Id },
    VoteKickMember { conversation_id: Id, target_id: Id },
    RenameGroup { conversation_id: Id, title: String },
    /// Report typing. Best effort: dropped silently when offline.
    Typing { conversation_id: Id, typing: bool },
    MarkRead { conversation_id: Id, seq: u64 },
    Friends,
    /// Ask what was typed for friendship, where it names an account.
    AddFriend { target: Option<Id> },
    RespondFriend { user_id: Id, accept: bool },
    Sessions,
    RevokeSession { session_id: Id },
    Rooms { query: String },
    JoinRoom { room_id: Id },
    CreateRoom { slug: String, name: String, managed: bool, topic: Option<String> },
    LeaveRoom { room_id: Id },
    Notifications,
    AcknowledgeAlerts { through_unix_ms: i64 },
    Wallet,
    SendGift { sku: String, recipient: Id, client_key: Option<String> },
    BuyKickPoints { pack_kp: u32, client_key: String },
    SearchPeople { query: String },
    Suggestions,
    Devices,
    RevokeDevice { device_id: Id },
    OwnProfile,
    MemberProfile { conversation_id: Id, user_id: Id },
    MemberStanding { conversation_id: Id, user_id: Id },
    MemberRank { conversation_id: Id, user_id: Id },
    MemberEdge { conversation_id: Id, user_id: Id },
    Entitlements,
    GiftCatalogue,
    SaveProfile(ProfilePatch),
    ChangeAvatar { path: String },
    Admins,
    GrantAdmin { username: String },
    RevokeAdmin { account_id: Id },
    Wallets,
    ExportContainer { path: String, credential: String },
    ImportContainer {
        path: String,
        credential: String,
        passphrase: String,
        username: String,
        server: ServerEndpoint,
    },
    ArchiveWallet { wallet_id: Id },
    SetContact { email_or_phone: String },
    ContactStanding,
    ChangePassphrase { current: String, next: String },
    RotateIdentity { passphrase: String },
    ChainBalance { network: ChainNetwork },
    ChainPrepare { network: ChainNetwork, recipient: String, amount_avax: String },
    ChainSend { tx: PreparedTx },
    /// A broadcast transaction that is followed passed through a state.
    ChainState { tx_hash: String, state: String },
    /// A broadcast transaction ended.
    ChainSettled {
        network: ChainNetwork,
        tx_hash: String,
        outcome: String,
        block: Option<u64>,
        gas_used: Option<u128>,
    },
    StartCall { conversation_id: Id, callee_id: Id },
    AcceptCall,
    DeclineCall,
    EndCall,
    ToggleCallMute,
    DismissCall,
    JoinGroupCall { conversation_id: Id, call_id: Option<Id> },
    LeaveGroupCall { conversation_id: Id },
    SendAttachment { conversation_id: Id, path: String, expires_in_ms: Option<u32> },
    StartRecording { conversation_id: Id, expires_in_ms: Option<u32> },
    PauseRecording,
    ResumeRecording,
    StopRecording,
    SendVoiceNote,
    CancelVoiceNote,
    UndoVoiceNoteDiscard,
    RecoverVoiceDraft { conversation_id: Id },
    SendReaction { conversation_id: Id, target_message_id: Id, emoji: String },
    DeleteMessage { conversation_id: Id, message_id: Id },
    EditMessage { conversation_id: Id, message_id: Id, text: String },
    BlockUser { user_id: Id },
    MuteUser { user_id: Id, on: bool },
    FetchMedia { media_id: Id },
    SaveMedia { media_id: Id, path: String },
    PlayVoiceNote { media_id: Id },
    StopVoiceNote,
    SetVoiceSpeed { percent: u32 },
    SetVoiceNoteListened { media_id: Id, listened: bool },
    VoiceNoteHeard { media_id: Id },
    VoiceNoteEnded { media_id: Id },
    Shutdown,
}

/// Whether a command is carried out at the edge, because it takes a file, the network, a vault, a
/// microphone, or the call engine.
pub open spec fn is_work(command: Command) -> bool {
    match command {
        Command::FetchCaptcha { .. }
        | Command::Register { .. }
        | Command::SignIn { .. }
        | Command::Unlock { .. }
        | Command::ImportContainer { .. }
        | Command::StartRecording { .. }
        | Command::PauseRecording
        | Command::ResumeRecording
        | Command::StopRecording
        | Command::SendVoiceNote
        | Command::CancelVoiceNote
        | Command::RecoverVoiceDraft { .. }
        | Command::StartCall { .. }
        | Command::AcceptCall
        | Command::DeclineCall
        | Command::EndCall
        | Command::ToggleCallMute
        | Command::DismissCall
        | Command::JoinGroupCall { .. }
        | Command::LeaveGroupCall { .. }
        | Command::SendAttachment { .. }
        | Command::ChangeAvatar { .. } => true,
        _ => needs_account(command),
    }
}

/// Whether a command is carried out at the edge on behalf of an account, and is nothing where none
/// is signed in.
pub open spec fn needs_account(command: Command) -> bool {
    match command {
        Command::Sessions
        | Command::RevokeSession { .. }
        | Command::Devices
        | Command::RevokeDevice { .. }
        | Command::Admins
        | Command::GrantAdmin { .. }
        | Command::RevokeAdmin { .. }
        | Command::Wallets
        | Command::ExportContainer { .. }
        | Command::ArchiveWallet { .. }
        | Command::SetContact { .. }
        | Command::ContactStanding
        | Command::ChangePassphrase { .. }
        | Command::RotateIdentity { .. }
        | Command::ChainBalance { .. }
        | Command::ChainPrepare { .. }
        | Command::ChainSend { .. } => true,
        _ => false,
    }
}

/// Whether a command is carried out at the edge on behalf of an account.
pub fn for_account(command: &Command) -> (r: bool)
    ensures
        r == needs_account(*command),
{
    match command {
        Command::Sessions
        | Command::RevokeSession { .. }
        | Command::Devices
        | Command::RevokeDevice { .. }
        | Command::Admins
        | Command::GrantAdmin { .. }
        | Command::RevokeAdmin { .. }
        | Command::Wallets
        | Command::ExportContainer { .. }
        | Command::ArchiveWallet { .. }
        | Command::SetContact { .. }
        | Command::ContactStanding
        | Command::ChangePassphrase { .. }
        | Command::RotateIdentity { .. }
        | Command::ChainBalance { .. }
        | Command::ChainPrepare { .. }
        | Command::ChainSend { .. } => true,
        _ => false,
    }
}

/// Whether a command is carried out at the edge.
pub fn at_edge(command: &Command) -> (r: bool)
    ensures
        r == is_work(*command),
{
    match command {
        Command::FetchCaptcha { .. }
        | Command::Register { .. }
        | Command::SignIn { .. }
        | Command::Unlock { .. }
        | Command::ImportContainer { .. }
        | Command::StartRecording { .. }
        | Command::PauseRecording
        | Command::ResumeRecording
        | Command::StopRecording
        | Command::SendVoiceNote
        | Command::CancelVoiceNote
        | Command::RecoverVoiceDraft { .. }
        | Command::StartCall { .. }
        | Command::AcceptCall
        | Command::DeclineCall
        | Command::EndCall
        | Command::ToggleCallMute
        | Command::DismissCall
        | Command::JoinGroupCall { .. }
        | Command::LeaveGroupCall { .. }
        | Command::SendAttachment { .. }
        | Command::ChangeAvatar { .. } => true,
        _ => for_account(command),
    }
}

/// What the edge does only for an account that is signed in: everything that reads or changes what
/// the server holds of it, its vault, its identity and its money.
pub proof fn law_what_needs_an_account(command: Command)
    ensures
        command is Sessions || command is RevokeSession || command is Devices || command
            is RevokeDevice || command is Admins || command is GrantAdmin || command is RevokeAdmin
            || command is Wallets || command is ExportContainer || command is ArchiveWallet
            || command is SetContact || command is ContactStanding || command is ChangePassphrase
            || command is RotateIdentity || command is ChainBalance || command is ChainPrepare
            || command is ChainSend <==> needs_account(command),
        needs_account(command) ==> is_work(command),
{
}

/// Whatever enters an account, records, calls or reads a file is carried out at the edge; sending
/// what was typed, asking the server and marking are not.
pub proof fn law_what_is_carried_out_at_the_edge(command: Command)
    ensures
        command is FetchCaptcha || command is Register || command is SignIn || command is Unlock
            || command is ImportContainer || command is StartRecording || command is PauseRecording
            || command is ResumeRecording || command is StopRecording || command is SendVoiceNote
            || command is CancelVoiceNote || command is RecoverVoiceDraft || command is StartCall
            || command is AcceptCall || command is DeclineCall || command is EndCall || command
            is ToggleCallMute || command is DismissCall || command is JoinGroupCall || command
            is LeaveGroupCall || command is SendAttachment || command is ChangeAvatar
            || needs_account(command) <==> is_work(command),
        command is SendText || command is SendReaction || command is EditMessage || command
            is DeleteMessage || command is SignOut || command is History ==> !is_work(command),
{
}

} // verus!
