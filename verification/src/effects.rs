//! What the core asks the edge of the program to do.
//!
//! A handler changes the state it is given and returns a list of actions, in order. The edge
//! carries them out: it sends the requests, shows the events, and hands back what came of the rest.

use std::collections::HashMap;

use vstd::prelude::*;

use crate::content::{Body, Content, Message};
use crate::command::Command;
use crate::media::{AttachmentBegin, AvatarPending, MediaWant};
use crate::rest::CaptchaChallenge;
use crate::signed::Account;
use crate::sync::SyncRequest;
use crate::transcript::Page;
use crate::voice::HeldNote;
use crate::wallet::{ChainNetwork, PreparedTx};
use crate::wire::{
    ConversationKind, Id, MemberChange, Presence, ReceiptKind, RelationshipKind, Timestamp,
    TopicKind,
};

verus! {

/// What a person is told in passing.
pub enum Notice {
    NotConnected,
    EnterPeerId,
    EnterFriendId,
    ReadingRoster,
    FetchingKeys,
    BadKeyBundle,
    FewOneTimeKeys { left: u64 },
    ProfileSaved,
    GroupRenamed { title: String },
    GiftSent,
    GiftAlreadySent,
    GiftRefused,
    KickPointsBought,
    KickPointsAlreadyBought,
    EditNotSealed,
    FileEmpty,
    FileUnreadable { reason: String },
    ImageTooLarge,
    FileTooLarge,
    UploadFailed { reason: String },
    CallUsesMicrophone,
    MicrophoneFailed { reason: String },
    DraftFileFailed { reason: String },
    NoteTooShort,
    NoteUnreadable,
    NoteTooLong,
    SpeakerFailed { reason: String },
    SavedTo { path: String },
    NotSaved { reason: String },
    NoteHasNoFile,
    AdminAppointed { username: String },
    AdminRevoked,
    SessionEnded,
    DeviceRemoved { sessions: u64 },
    WalletArchived,
    ContactSaved,
    PassphraseChanged,
    IdentityNotPublished { reason: String },
    WalletNotRegistered { index: u32, reason: String },
    SignedOut,
    NoRootForBackup,
    BackupWritten { path: String },
    VaultNotOpened { reason: String },
    VaultOfAnother,
    NoIdentityKey,
    PayloadNotBase64,
    VaultNotSealed { reason: String },
    IdentityRotated,
    RotationUnanswered,
    IdentityNotRotated { reason: String },
    IdentityNotRestored { reason: String, vault: String },
    BackupDateKept { reason: String },
    /// A sentence somebody else wrote: the server's, or the system's.
    Said { text: String },
}

#[derive(Debug, Clone, Copy, PartialEq, Eq, Structural)]
pub enum ToastKind {
    Info,
    Success,
    Error,
}

/// Where the realtime connection stands.
pub enum Connection {
    Connecting,
    Online,
    /// Online, but not over the transport that was picked.
    Fallback(FallbackReason),
    Offline,
    Failed(Failure),
}

/// Why a session rides the WebSocket although another transport was picked.
#[derive(Debug, Clone, Copy, PartialEq, Eq, Structural)]
pub enum FallbackReason {
    TcpNotNegotiated,
    TcpUnreachable,
    QuicNotNegotiated,
    QuicUnreachable,
}

/// Why a sign-in or a connection failed.
pub enum Failure {
    NoSavedSignIn,
    CouldNotReconnect,
    ContainerNamesNoAccount,
    ReturnRefused,
    VaultInTheWay,
    VaultDidNotOpen,
    PayloadNotBase64,
    /// A sentence somebody else wrote: the server's, or the system's.
    Said { text: String },
}

/// One conversation of the list.
pub struct Conversation {
    pub conversation_id: Id,
    pub title: Option<String>,
    pub members: Vec<Id>,
    pub encrypted: bool,
    pub last_seq: u64,
    /// What the last message shows, where it could be read.
    pub preview: Option<Body>,
    pub updated_at: Option<Timestamp>,
    pub unread: u32,
    pub kind: ConversationKind,
    /// The room behind the conversation, where this device's bridge knows it.
    pub room_id: Option<Id>,
}

#[derive(Debug, Clone, Copy, PartialEq, Eq, Structural)]
pub struct Relationship {
    pub user_id: Id,
    pub kind: RelationshipKind,
}

/// One member of a group, as the roster panel draws it.
#[derive(Debug, Clone, Copy, PartialEq, Eq, Structural)]
pub struct RosterMember {
    pub account_id: Id,
    pub role: u32,
    pub joined_at: Timestamp,
    pub muted_until: Option<Timestamp>,
    pub left_at: Option<Timestamp>,
}

#[derive(Debug, Clone, Copy, PartialEq, Eq, Structural)]
pub struct Progression {
    pub level: u32,
    pub xp: u64,
    pub xp_into_level: u64,
    pub xp_for_next_level: u64,
}

pub struct BadgeRow {
    pub code: String,
    pub awarded_at: Timestamp,
}

#[derive(Debug, Clone, Copy, PartialEq, Eq, Structural)]
pub struct LeaderRow {
    pub position: u32,
    pub account_id: Id,
    pub xp: u64,
    pub level: u32,
}

/// The profile pane's copy of the account's own card.
pub struct OwnProfile {
    pub account_id: Id,
    pub username: String,
    pub display_name: String,
    pub public_id: Option<String>,
    pub bio: Option<String>,
    pub custom_status: Option<String>,
    pub birth_year: Option<u32>,
    pub presence: Presence,
}

/// Another account's card.
pub struct MemberCard {
    pub account_id: Id,
    pub username: String,
    pub display_name: String,
    pub public_id: Option<String>,
    pub bio: Option<String>,
    pub presence: Presence,
    pub verified: bool,
    pub custom_status: Option<String>,
    pub country: Option<String>,
    pub language: Option<String>,
}

pub struct RoomRow {
    pub room_id: Id,
    pub name: String,
    pub topic: Option<String>,
    pub member_count: u32,
    pub online_count: u32,
    pub category: Option<String>,
    pub verified: bool,
}

pub struct AlertRow {
    pub id: Id,
    pub kind: String,
    pub title: Option<String>,
    pub at: Timestamp,
}

pub struct GiftRow {
    pub sku: String,
    pub name: String,
    pub price: u64,
    pub category: String,
}

pub struct PersonRow {
    pub account_id: Id,
    pub username: String,
    pub display_name: String,
    pub mutual_friends: u32,
}

/// One line of the statement. The sign comes from the reason, never from the amount.
pub struct LedgerRow {
    pub credit: bool,
    pub reason: String,
    pub amount: u64,
    pub balance_after: u64,
    pub at: Timestamp,
}

pub struct SessionRow {
    pub session_id: Id,
    /// The name the row is drawn with.
    pub device: String,
    pub created_at: Option<Timestamp>,
    pub last_active_at: Option<Timestamp>,
    pub current: bool,
}

pub struct DeviceRow {
    pub device_id: Id,
    /// The name the row is drawn with.
    pub display_name: String,
    pub platform: String,
    pub status: String,
    pub created_at: Option<Timestamp>,
    pub last_seen: Option<Timestamp>,
    pub has_credential: bool,
    pub is_current: bool,
}

pub struct EvmWalletRow {
    pub wallet_id: Id,
    pub address: String,
    pub derivation_index: i32,
    pub status: String,
    pub label: Option<String>,
}

pub struct AdminRow {
    pub account_id: Id,
    pub username: String,
    pub granted_at: Timestamp,
}

/// The admin pane's one answer.
pub enum AdminsAnswer {
    Loading,
    Owner(Vec<AdminRow>),
    Closed,
    Failed(String),
}

impl Default for AdminsAnswer {
    fn default() -> (answer: Self)
        ensures
            answer == AdminsAnswer::Loading,
    {
        AdminsAnswer::Loading
    }
}

/// One transaction of the activity list.
pub struct ChainTxRow {
    pub tx_hash: String,
    pub chain_id: u64,
    pub to: [u8; 20],
    pub value_wei: u128,
    pub fee_wei: u128,
    pub at: Timestamp,
    pub outcome: String,
    pub block: Option<u64>,
    pub gas_used: Option<u128>,
}

/// What the window is told.
#[allow(inconsistent_fields)]
pub enum Event {
    Connection(Connection),
    RichPresence(bool),
    VaultFound,
    VaultMissing,
    SignedIn(Account),
    SignedOut,
    CaptchaChallenge(CaptchaChallenge),
    CaptchaUnavailable { reason: String },
    CaptchaRefused,
    Conversations(Vec<Conversation>),
    ConversationCreated { conversation_id: Id },
    GroupRoster { conversation_id: Id, members: Vec<RosterMember> },
    GroupMember { conversation_id: Id, user_id: Id, change: MemberChange },
    GroupRenamed { conversation_id: Id, title: String },
    GroupVoteStatus {
        conversation_id: Id,
        target_id: Id,
        votes: u32,
        needed: u32,
        member_count: u32,
        open: bool,
    },
    GroupVoteBroadcast {
        conversation_id: Id,
        target_id: Id,
        votes: u32,
        needed: u32,
        member_count: u32,
        closed: Option<bool>,
    },
    GroupLeft { conversation_id: Id },
    History { conversation_id: Id, messages: Vec<Message>, more: bool },
    HistoryEarlier { conversation_id: Id, messages: Vec<Message>, from_seq: u64, more: bool },
    Message(Message),
    Accepted { message_id: Id, conversation_id: Id, seq: u64 },
    SendFailed { message_id: Id },
    Receipt { conversation_id: Id, user_id: Id, kind: ReceiptKind, seq: u64 },
    Typing { conversation_id: Id, user_id: Id, typing: bool },
    Names(HashMap<Id, String>),
    Relationships(Vec<Relationship>),
    FriendChanged { user_id: Id, accepted: Option<bool> },
    PresenceChanged { user_id: Id, state: Presence },
    Sessions(Result<Vec<SessionRow>, String>),
    Rooms(Vec<RoomRow>),
    RoomJoined { conversation_id: Id, room_id: Id, title: String },
    RoomLeft { room_id: Id, conversation_id: Option<Id>, self_left: bool },
    RoomMember { room_id: Id, user_id: Id, change: MemberChange, member_count: Option<u32> },
    RoomState { room_id: Id, online_count: Option<u32>, member_count: Option<u32> },
    Alerts(Vec<AlertRow>),
    AlertPushed,
    GamePushed {
        conversation_id: Id,
        game_id: Id,
        event: String,
        actor_id: Option<Id>,
        state_version: u64,
    },
    EconomyPushed,
    Balance { coins: u64, points: u64, kick_points: Option<u64> },
    Ledger(Vec<LedgerRow>),
    ProgressionArrived(Progression),
    Badges(Vec<String>),
    Leaderboard(Vec<LeaderRow>),
    Gifts(Vec<GiftRow>),
    People(Vec<PersonRow>),
    Devices(Result<Vec<DeviceRow>, String>),
    OwnProfile(OwnProfile),
    ProfileSaved(OwnProfile),
    MemberProfile { conversation_id: Id, card: MemberCard },
    MemberProgression { conversation_id: Id, progression: Progression },
    MemberBadges { conversation_id: Id, badges: Vec<BadgeRow> },
    MemberRank { conversation_id: Id, position: Option<u32> },
    MemberEdge { conversation_id: Id, kind: Option<RelationshipKind> },
    Entitlements(Vec<String>),
    AvatarChangeFailed { notice: Notice },
    Admins(AdminsAnswer),
    AdminChangeFailed { reason: String },
    Wallets(Result<Vec<EvmWalletRow>, String>),
    BackupState { last_backup_at: Option<u64> },
    ContactStanding(Result<bool, String>),
    ChainBalance {
        network: ChainNetwork,
        address: Option<String>,
        balance: Result<u128, ChainRefusal>,
    },
    ChainPrepared(Result<PreparedTx, ChainRefusal>),
    ChainSent(Result<String, ChainRefusal>),
    /// A transaction that is followed passed through a state.
    ChainState { tx_hash: String, state: String },
    ChainSettled { tx_hash: String, outcome: String },
    ChainActivity(Vec<ChainTxRow>),
    PeerIdentity { user_id: Id, device_id: Id, safety_number: String, changed: bool },
    GroupCallEnded { conversation_id: Id },
    MediaFailed { media_id: Id, failure: MediaFailure },
    RecordingStarted { conversation_id: Id },
    RecordingProgress { conversation_id: Id, elapsed_ms: u64, paused: bool, amplitudes: Vec<u8> },
    RecordingStopped { conversation_id: Id },
    /// The held note; its bars are folded when they are drawn.
    RecordingPreview { conversation_id: Id, duration_ms: u32, amplitudes: Vec<u8> },
    NoteDiscarded { conversation_id: Id, undoable: bool },
    VoicePlaying { media_id: Id },
    VoiceStopped { media_id: Id },
    VoiceNotesListened { media_ids: Vec<Id> },
    VoiceNoteListened { media_id: Id },
    Toast { notice: Notice, kind: ToastKind },
}

/// Why an attachment could not be shown.
pub enum MediaFailure {
    KeyNotInSession,
    KeyNoLongerHeld,
    NotFetched { reason: String },
    NotOpened { reason: String },
}

/// Why a transaction was not sent.
pub enum ChainRefusal {
    NoRoot,
    NoWallet,
    OtherSender,
    BadAmount,
    /// A sentence somebody else wrote.
    Said { text: String },
}

/// The fields of a profile that a patch changes; an absent one is left as it is.
pub struct ProfilePatch {
    pub display_name: Option<String>,
    pub bio: Option<String>,
    pub custom_status: Option<String>,
    pub birth_year: Option<u32>,
    pub show_last_seen: Option<u32>,
    pub who_can_message: Option<u32>,
    pub who_can_add: Option<u32>,
    pub searchable: Option<bool>,
}

impl Default for ProfilePatch {
    fn default() -> (patch: Self)
        ensures
            patch == untouched(),
    {
        ProfilePatch {
            display_name: None,
            bio: None,
            custom_status: None,
            birth_year: None,
            show_last_seen: None,
            who_can_message: None,
            who_can_add: None,
            searchable: None,
        }
    }
}

/// The patch that changes nothing.
pub open spec fn untouched() -> ProfilePatch {
    ProfilePatch {
        display_name: None,
        bio: None,
        custom_status: None,
        birth_year: None,
        show_last_seen: None,
        who_can_message: None,
        who_can_add: None,
        searchable: None,
    }
}

/// What an upload is, as the wire numbers it.
#[derive(Debug, Clone, Copy, PartialEq, Eq, Structural)]
pub enum MediaKind {
    Avatar,
    Image,
    Document,
    VoiceNote,
}

/// What a sealed message is sent as.
#[derive(Debug, Clone, Copy, PartialEq, Eq, Structural)]
pub enum SendKind {
    Text,
    Media,
    Voice,
}

/// One request on its way out.
#[allow(inconsistent_fields)]
pub enum Request {
    KeyPublish,
    ConversationList { limit: u32 },
    KeyBundleFetch { user_id: Id, device_id: Option<Id> },
    ConversationCreate { kind: ConversationKind, members: Vec<Id>, title: Option<String> },
    ConversationInvite { conversation_id: Id, members: Vec<Id> },
    ConversationLeave { conversation_id: Id },
    ConversationRoster { conversation_id: Id },
    ConversationMute { conversation_id: Id, target_id: Id, until: Option<Timestamp> },
    ConversationKick { conversation_id: Id, target_id: Id },
    ConversationVoteKick { conversation_id: Id, target_id: Id },
    ConversationUpdate { conversation_id: Id, title: String },
    Typing { conversation_id: Id, typing: bool },
    Receipt { conversation_id: Id, kind: ReceiptKind, seq: u64 },
    Subscribe { kind: TopicKind, ids: Vec<Id> },
    PresenceSet { state: Presence },
    RelationshipList { limit: u32 },
    FriendRequest { user_id: Id },
    FriendRespond { user_id: Id, accept: bool },
    BlockSet { user_id: Id },
    MuteSet { user_id: Id, on: bool },
    ProfileFetch { user_ids: Vec<Id> },
    ProfileUpdate { patch: ProfilePatch, avatar_media_id: Option<Id> },
    Progression { of_account: Id },
    Badges { of_account: Id },
    XpLeaderboard { limit: u32 },
    Entitlements,
    GiftCatalogue,
    MediaBegin {
        kind: MediaKind,
        content_type: String,
        size: u64,
        conversation_id: Option<Id>,
        width: Option<u32>,
        height: Option<u32>,
        duration_ms: Option<u64>,
    },
    MediaCommit { upload_id: Id, digest: Vec<u8> },
    MediaAbort { upload_id: Id },
    MediaFetchUrl { object_id: Id },
    /// A sealed message, with the chain it is sealed under. It answers no other.
    MessageSend {
        message_id: Id,
        conversation_id: Id,
        kind: SendKind,
        envelope: Vec<u8>,
        expires_in_ms: Option<u32>,
        sender_key_id: u32,
    },
    MessageEdit { message_id: Id, conversation_id: Id, envelope: Vec<u8> },
    ReactionSet { target_message_id: Id, conversation_id: Id, envelope: Vec<u8> },
    MessageDelete { conversation_id: Id, message_id: Id, for_everyone: bool },
    /// A chain sealed for one device, riding the conversation.
    KeyExchange { conversation_id: Id, envelope: Vec<u8> },
    /// A chain sealed for one device, addressed to its account.
    GroupKeyDistribute {
        conversation_id: Id,
        from_device: Id,
        to_account: Id,
        to_device: Id,
        sealed_distribution: Vec<u8>,
    },
    RoomList { limit: u32, query: Option<String> },
    RoomCreate { slug: String, name: String, kind: u32, topic: Option<String> },
    RoomJoin { room_id: Id },
    RoomLeave { room_id: Id },
    RoomRoster { room_id: Id, limit: u32 },
    NotificationList { limit: u32 },
    NotificationAck { id: Id },
    BalanceFetch,
    LedgerHistory { limit: u32 },
    GiftSend { sku: String, recipient: Id, client_key: Option<String> },
    KickPointsBuy { pack_kp: u32, client_key: String },
    Search { query: String, limit: u32 },
    Suggestions { limit: u32 },
    Pong { client_time: Timestamp, server_time: Timestamp },
}

/// What goes out once its content is sealed.
pub enum Outgoing {
    /// A message under its own id.
    Message { message_id: Id, kind: SendKind, expires_in_ms: Option<u32> },
    /// A reaction to a message.
    Reaction { target_message_id: Id },
    /// The replacement of a message.
    Edit { message_id: Id },
}

/// What the edge does, in order.
#[allow(inconsistent_fields)]
pub enum Action {
    /// Tell the window.
    Emit(Event),
    /// Send a request; nothing waits for its reply by correlation.
    Request(Request),
    /// Send a SYNC and hand back the correlation it went out under.
    AskSync(SyncRequest),
    /// Ask for the signed address of an object, and hand back the correlation it went out under.
    AskMedia { request: Request, want: MediaWant },
    /// Answer a frame under the correlation it came with.
    Answer(u32, Request),
    /// Encode some content, and send it one step at a time.
    Send { conversation_id: Id, content: Content, outgoing: Outgoing },
    /// Kill a conversation's outbound chain.
    RotateChain { conversation_id: Id },
    /// Move a conversation's chain to the generation a membership change produced.
    RotateChainTo { conversation_id: Id, epoch: Option<u64> },
    /// Hand a rotated chain to these accounts' devices.
    Distribute { conversation_id: Id, targets: Vec<(Id, Id)> },
    /// Forget a conversation's chains and pairwise sessions.
    ForgetKeys { conversation_id: Id },
    /// Write the account's room bridge.
    SaveBridges,
    /// Write the account's listened marks.
    SaveListened,
    /// Write a conversation's draft descriptor.
    SaveDraft { conversation_id: Id, duration_ms: u64, amplitudes: Vec<u8> },
    /// Remove a conversation's draft.
    ClearDraft { conversation_id: Id },
    /// Read a conversation's draft back, to hold it as a preview again.
    RestoreDraft { conversation_id: Id },
    /// Read a note's recording back and send it.
    UploadNote { note: HeldNote },
    /// Close the realtime connection.
    CloseGateway,
    /// Open the realtime connection.
    Connect,
    /// End every call, because the connection is gone.
    CallsOffline,
    /// End every call, because the keys are gone.
    CallsSignOut,
    /// Forget a group's call seat.
    ForgetGroupCall { conversation_id: Id },
    /// Retry a group call's key ask that waited for key bundles.
    RetryGroupKeyAsk,
    /// Forget every key of the session, and then end it on the server.
    Logout { access_token: String, session_id: Id },
    /// Send a PING under correlation zero. One that cannot be sent is a lost connection.
    Heartbeat { client_time: Timestamp },
    /// Publish the public halves of the root's identity and of this device's credential.
    PublishIdentity,
    /// Register the root's wallets that the server does not know.
    SyncWallets,
    /// Read the admins, the sessions, the devices or the wallets again.
    ReadAdmins,
    ReadSessions,
    ReadDevices,
    ReadWallets,
    /// Sign with the successor of this seed from now on.
    AdoptIdentity { seed: [u8; 32] },
    /// Take in the events of a page, one after the other, and then end it.
    TakePage(Page),
    /// Put an attachment's bytes to its ticket's address.
    PutAttachment { upload_id: Id, url: String, begun: AttachmentBegin },
    /// Put the avatar's bytes to its ticket's address.
    PutAvatar { upload_id: Id, url: String, pending: AvatarPending },
    /// Fetch an attachment from its signed address, and open it.
    Download { url: String, want: MediaWant },
    /// Hand the frame to the call engine.
    CallFrame,
    /// Follow a broadcast transaction to its end.
    TrackTransaction { network: ChainNetwork, tx_hash: String },
    /// Carry a command out whose work is the edge's.
    Run(Command),
    /// Open again what is held of a sender, now that its chain was accepted, and deliver it.
    Drain { conversation_id: Id, sender_device: Id },
    /// Stop capture, or playback.
    StopCapture,
    StopPlayback,
    /// Play an opened note.
    StartPlayback { media_id: Id },
    /// Show an opened image.
    ShowImage { media_id: Id },
    /// Write an opened attachment to where it is to be saved.
    SaveMedia { media_id: Id, path: String },
    /// Give the playing note another pace.
    SetPace { percent: u32 },
}

/// Tells a person something.
pub open spec fn toast(notice: Notice, kind: ToastKind) -> Action {
    Action::Emit(Event::Toast { notice, kind })
}

/// Tells a person something.
pub fn toasted(notice: Notice, kind: ToastKind) -> (action: Action)
    ensures
        action == toast(notice, kind),
{
    Action::Emit(Event::Toast { notice, kind })
}

/// Asks for the conversation list.
pub open spec fn list_request() -> Action {
    Action::Request(Request::ConversationList { limit: 100 })
}

/// Asks for the conversation list.
pub fn request_conversations() -> (action: Action)
    ensures
        action == list_request(),
{
    Action::Request(Request::ConversationList { limit: 100 })
}

/// Asks for the social graph.
pub open spec fn graph_request() -> Action {
    Action::Request(Request::RelationshipList { limit: 200 })
}

/// Asks for the social graph.
pub fn request_relationships() -> (action: Action)
    ensures
        action == graph_request(),
{
    Action::Request(Request::RelationshipList { limit: 200 })
}

/// What a person is told is the notice itself, with its weight, and goes to the window.
pub proof fn law_a_toast_tells_its_notice(notice: Notice, kind: ToastKind)
    ensures
        toast(notice, kind) is Emit,
        toast(notice, kind)->Emit_0 is Toast,
        toast(notice, kind)->Emit_0->Toast_notice == notice,
        toast(notice, kind)->Emit_0->Toast_kind == kind,
{
}

/// A read of the list asks for its hundred newest conversations, one of the graph for two hundred
/// relationships.
pub proof fn law_what_a_read_asks_for()
    ensures
        list_request() is Request,
        list_request()->Request_0 is ConversationList,
        list_request()->Request_0->ConversationList_limit == 100,
        graph_request() is Request,
        graph_request()->Request_0 is RelationshipList,
        graph_request()->Request_0->RelationshipList_limit == 200,
{
}

} // verus!
