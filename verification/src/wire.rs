//! The vocabulary of the realtime protocol, as plain values.
//!
//! The codec that turns bytes into these values sits at the edge of the program. Everything the
//! client decides, it decides over the types below.

use vstd::prelude::*;

verus! {

/// A 128-bit identifier, held as the number its sixteen big-endian bytes spell.
pub type Id = u128;

/// Milliseconds since the epoch.
pub type Timestamp = i64;

/// The id whose sixteen bytes are given, most significant first.
pub fn id_from_bytes(bytes: [u8; 16]) -> (id: Id)
    ensures
        id == id_of_bytes(bytes@),
{
    let mut id: u128 = 0;
    let mut i: usize = 0;
    while i < 16
        invariant
            i <= 16,
            id == id_of_bytes(bytes@.take(i as int)),
            id < pow256(i as nat),
        decreases 16 - i,
    {
        proof {
            assert(bytes@.take(i + 1).drop_last() =~= bytes@.take(i as int));
            reveal_with_fuel(pow256, 18);
            assert(pow256((i + 1) as nat) == 256 * pow256(i as nat));
            lemma_pow256_monotone((i + 1) as nat, 16);
        }
        id = id * 256 + bytes[i] as u128;
        i = i + 1;
    }
    proof {
        assert(bytes@.take(16) =~= bytes@);
    }
    id
}

/// The number that a big-endian run of bytes spells.
pub open spec fn id_of_bytes(bytes: Seq<u8>) -> int
    decreases bytes.len(),
{
    if bytes.len() == 0 {
        0
    } else {
        id_of_bytes(bytes.drop_last()) * 256 + bytes.last()
    }
}

/// `256` to the power `n`.
pub open spec fn pow256(n: nat) -> int
    decreases n,
{
    if n == 0 {
        1
    } else {
        256 * pow256((n - 1) as nat)
    }
}

proof fn lemma_pow256_monotone(a: nat, b: nat)
    requires
        a <= b,
    ensures
        0 < pow256(a) <= pow256(b),
    decreases b,
{
    if a < b {
        lemma_pow256_monotone(a, (b - 1) as nat);
    } else if b > 0 {
        lemma_pow256_monotone((b - 1) as nat, (b - 1) as nat);
    }
}

/// How the server treats a frame it cannot deliver at once.
#[derive(Debug, Clone, Copy, PartialEq, Eq, Structural)]
pub enum DeliveryClass {
    /// Never dropped; numbered by the session's mailbox.
    Critical,
    /// Replaced by a newer frame of its kind; never numbered.
    Coalescable,
    /// Dropped under pressure; never numbered.
    Droppable,
}

/// The operations this client speaks or hears.
#[derive(Debug, Clone, Copy, PartialEq, Eq, Structural)]
pub enum Opcode {
    Hello,
    Ping,
    ReconnectHint,
    Subscribe,
    PresenceSet,
    PresenceEvent,
    Typing,
    MessageSend,
    MessageEvent,
    MessageDelete,
    MessageEdit,
    MessageReceipt,
    Sync,
    ConversationList,
    ConversationCreate,
    ConversationRoster,
    ConversationInvite,
    ConversationLeave,
    ConversationMute,
    ConversationKick,
    ConversationUpdate,
    ConversationVoteKick,
    ConversationMemberEvent,
    ConversationStateEvent,
    ConversationVoteEvent,
    KeyPublish,
    KeyBundleFetch,
    GroupKeyDistribute,
    ProfileFetch,
    ProfileUpdate,
    MediaUploadBegin,
    MediaUploadCommit,
    MediaUploadAbort,
    MediaFetchUrl,
    RelationshipList,
    FriendRequest,
    FriendRespond,
    FriendEvent,
    BlockSet,
    MuteSet,
    RoomList,
    RoomJoin,
    RoomCreate,
    RoomLeave,
    RoomRoster,
    RoomMemberEvent,
    RoomStateEvent,
    NotificationList,
    NotificationAck,
    NotificationEvent,
    GameEvent,
    EconomyEvent,
    BalanceFetch,
    LedgerHistory,
    Progression,
    Badges,
    Leaderboard,
    Entitlements,
    GiftCatalogue,
    GiftSend,
    KickPointsBuy,
    Search,
    Suggestions,
    CallInvite,
    CallInviteEvent,
    CallSdp,
    CallIce,
    CallStateEvent,
    CallTurnFetch,
    CallSfuEvent,
    CallKeyUpdate,
}

/// What the dispatcher reads of a frame's header.
///
/// `operation` is `None` for an opcode this build cannot name; a named one comes with the
/// delivery class the wire gives it.
#[derive(Debug, Clone, Copy)]
pub struct Header {
    pub operation: Option<(Opcode, DeliveryClass)>,
    pub correlation: u32,
    pub error: bool,
}

/// Something that happened to one account's place in a room or a group.
#[derive(Debug, Clone, Copy, PartialEq, Eq, Structural)]
pub enum MemberChange {
    Unknown,
    Joined,
    Left,
    Kicked,
    Banned,
    Disconnected,
    Reconnected,
}

/// The kinds of a message event that the routing tells apart.
#[derive(Debug, Clone, Copy, PartialEq, Eq, Structural)]
pub enum MessageKind {
    /// A sender-key distribution riding the pairwise channel.
    KeyExchange,
    /// Anything a thread can show.
    Content,
}

#[derive(Debug, Clone, Copy, PartialEq, Eq, Structural)]
pub enum ConversationKind {
    Direct,
    Group,
    Room,
}

#[derive(Debug, Clone, Copy, PartialEq, Eq, Structural)]
pub enum EncryptionMode {
    EndToEnd,
    ServerReadable,
}

#[derive(Debug, Clone, Copy, PartialEq, Eq, Structural)]
pub enum TopicKind {
    User,
    Conversation,
    Room,
}

#[derive(Debug, Clone, Copy, PartialEq, Eq, Structural)]
pub enum ReceiptKind {
    Delivered,
    Read,
}

/// Where an account stands. `Unknown` is the absence of an observation.
#[derive(Debug, Clone, Copy, PartialEq, Eq, Structural)]
pub enum Presence {
    Unknown,
    Online,
    Away,
    Busy,
    Offline,
}

/// One edge of the social graph, from this account's side.
#[derive(Debug, Clone, Copy, PartialEq, Eq, Structural)]
pub enum RelationshipKind {
    Friend,
    Incoming,
    Outgoing,
    Favourite,
    Blocked,
    Muted,
    Unknown,
}

/// An id's bytes weigh with the first as the most significant: a byte at the end adds itself to
/// what stood before it, moved up by one byte.
pub proof fn law_an_ids_last_byte_weighs_least(bytes: Seq<u8>, byte: u8)
    ensures
        id_of_bytes(bytes.push(byte)) == 256 * id_of_bytes(bytes) + byte,
        id_of_bytes(seq![byte]) == byte,
{
    assert(bytes.push(byte).drop_last() =~= bytes);
    reveal_with_fuel(id_of_bytes, 2);
    assert(seq![byte].drop_last() =~= Seq::<u8>::empty());
}

} // verus!
