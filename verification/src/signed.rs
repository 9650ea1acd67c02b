//! One signed-in session's worth of state.

use std::collections::{HashMap, HashSet};

use vstd::prelude::*;

use crate::members::{members_after, MemberCache};
use crate::sealing::{Held, Identity, MediaKeys};
use crate::server_probe::Transport;
use crate::wire::{EncryptionMode, Id, MemberChange};

verus! {

broadcast use vstd::std_specs::hash::group_hash_axioms;

/// The account a session speaks for.
pub struct Account {
    pub account_id: Id,
    pub device_id: Id,
    pub session_id: Id,
    pub username: String,
    /// The number that peers compare this device's identity by.
    pub safety_number: String,
    /// Whether this device holds the account root.
    pub holds_root: bool,
}

/// What the session knows and watches.
pub struct Signed {
    pub account: Account,
    pub transport: Transport,
    pub access_token: String,
    /// Messages whose sender's distribution has not arrived.
    pub held: Held,
    /// What every seen media reference said about its object.
    pub media_keys: MediaKeys,
    /// Which devices belong to which account.
    pub devices: HashMap<Id, Vec<Id>>,
    /// Members of each conversation, whole or previewed.
    pub members: HashMap<Id, MemberCache>,
    /// Conversation topics this session subscribed to.
    pub conversations_watched: HashSet<Id>,
    /// Room topics this session subscribed to. They outlive a reconnect: the list cannot recover
    /// them.
    pub rooms_watched: HashSet<Id>,
    /// Room id to the conversation behind it.
    pub room_conversations: HashMap<Id, Id>,
    /// Accounts whose presence this session subscribed to.
    pub watched: HashSet<Id>,
    /// Whether each conversation that was summed up is end-to-end encrypted.
    pub e2e: HashMap<Id, bool>,
}

/// A membership cache as mathematics: the ids, and whether they are the whole membership.
pub open spec fn cache_view(cache: MemberCache) -> (Seq<Id>, bool) {
    (cache.ids@, cache.complete)
}

/// Every membership cache as mathematics.
pub open spec fn caches(members: Map<Id, MemberCache>) -> Map<Id, (Seq<Id>, bool)> {
    members.map_values(|cache: MemberCache| cache_view(cache))
}

/// Whether an attachment is sealed before it crosses the wire.
///
/// Documents always are. Everything else follows its conversation, and a conversation that was
/// never summed up is guessed sealed: the wrong guess fails an upload that can be retried, the
/// reverse would put plaintext into an encrypted conversation.
pub open spec fn sealed(e2e: Map<Id, bool>, conversation_id: Id, document: bool) -> bool {
    document || !e2e.contains_key(conversation_id) || e2e[conversation_id]
}

/// The pairs of a bridge as a map; a later pair of one room stands.
pub open spec fn bridge_map(pairs: Seq<(Id, Id)>) -> Map<Id, Id>
    decreases pairs.len(),
{
    if pairs.len() == 0 {
        Map::empty()
    } else {
        bridge_map(pairs.drop_last()).insert(pairs.last().0, pairs.last().1)
    }
}

impl Signed {
    /// A session that has just been signed in, with the bridge the last one left.
    pub fn begin(
        account: Account,
        transport: Transport,
        access_token: String,
        bridges: &Vec<(Id, Id)>,
    ) -> (signed: Self)
        ensures
            signed.account == account,
            signed.transport == transport,
            signed.access_token == access_token,
            signed.held.wf(),
            forall|c: Id, d: Id| (#[trigger] signed.held.of(c, d)).len() == 0,
            signed.media_keys.keys@ == Map::<Id, crate::content::MediaKeying>::empty(),
            signed.devices@ == Map::<Id, Vec<Id>>::empty(),
            signed.members@ == Map::<Id, MemberCache>::empty(),
            signed.conversations_watched@ == Set::<Id>::empty(),
            signed.watched@ == Set::<Id>::empty(),
            signed.e2e@ == Map::<Id, bool>::empty(),
            signed.room_conversations@ == bridge_map(bridges@),
            signed.rooms_watched@ == bridge_map(bridges@).dom(),
    {
        let mut room_conversations: HashMap<Id, Id> = HashMap::new();
        let mut rooms_watched: HashSet<Id> = HashSet::new();
        let mut i: usize = 0;
        assert(bridges@.take(0) =~= Seq::<(Id, Id)>::empty());
        assert(rooms_watched@ =~= bridge_map(bridges@.take(0)).dom());
        while i < bridges.len()
            invariant
                i <= bridges@.len(),
                room_conversations@ == bridge_map(bridges@.take(i as int)),
                rooms_watched@ == bridge_map(bridges@.take(i as int)).dom(),
            decreases bridges.len() - i,
        {
            assert(bridges@.take(i + 1).drop_last() =~= bridges@.take(i as int));
            let (room, conversation): (Id, Id) = bridges[i];
            room_conversations.insert(room, conversation);
            rooms_watched.insert(room);
            assert(rooms_watched@ =~= bridge_map(bridges@.take(i + 1)).dom());
            i = i + 1;
        }
        assert(bridges@.take(bridges@.len() as int) =~= bridges@);
        Signed {
            account,
            transport,
            access_token,
            held: Held::new(),
            media_keys: MediaKeys::new(),
            devices: HashMap::new(),
            members: HashMap::new(),
            conversations_watched: HashSet::new(),
            rooms_watched,
            room_conversations,
            watched: HashSet::new(),
            e2e: HashMap::new(),
        }
    }

    /// Who this session is.
    pub open spec fn me(&self) -> Identity {
        Identity { account_id: self.account.account_id, device_id: self.account.device_id }
    }

    /// Who this session is.
    pub fn identity(&self) -> (me: Identity)
        ensures
            me == self.me(),
    {
        Identity { account_id: self.account.account_id, device_id: self.account.device_id }
    }

    /// Whether an attachment to a conversation is sealed.
    pub fn seals(&self, conversation_id: Id, document: bool) -> (r: bool)
        ensures
            r == sealed(self.e2e@, conversation_id, document),
    {
        if document {
            return true;
        }
        match self.e2e.get(&conversation_id) {
            Some(encrypted) => *encrypted,
            None => true,
        }
    }

    /// Files whether a conversation is end-to-end encrypted.
    pub fn file_encryption(&mut self, conversation_id: Id, mode: EncryptionMode)
        ensures
            final(self).e2e@ == old(self).e2e@.insert(
                conversation_id,
                mode == EncryptionMode::EndToEnd,
            ),
            *final(self) == (Signed { e2e: final(self).e2e, ..*old(self) }),
    {
        let encrypted: bool = match mode {
            EncryptionMode::EndToEnd => true,
            _ => false,
        };
        self.e2e.insert(conversation_id, encrypted);
    }

    /// Applies a membership movement onto a conversation's cache, where it has one.
    pub fn apply_member(&mut self, conversation_id: Id, user_id: Id, change: MemberChange)
        ensures
            *final(self) == (Signed { members: final(self).members, ..*old(self) }),
            caches(final(self).members@) == (if old(self).members@.contains_key(conversation_id) {
                let (ids, complete) = caches(old(self).members@)[conversation_id];
                caches(old(self).members@).insert(
                    conversation_id,
                    (members_after(ids, user_id, change), complete),
                )
            } else {
                caches(old(self).members@)
            }),
    {
        let ghost before = self.members@;
        if let Some(mut cache) = self.members.remove(&conversation_id) {
            cache.apply_change(user_id, change);
            self.members.insert(conversation_id, cache);
            assert(caches(self.members@) =~= caches(before).insert(
                conversation_id,
                (members_after(before[conversation_id].ids@, user_id, change), before[conversation_id].complete),
            ));
        } else {
            assert(self.members@ =~= before);
        }
    }

    /// Promotes a conversation's cache with a roster's active ids, where it has one.
    pub fn promote(&mut self, conversation_id: Id, active: Vec<Id>)
        ensures
            *final(self) == (Signed { members: final(self).members, ..*old(self) }),
            caches(final(self).members@) == (if old(self).members@.contains_key(conversation_id)
                && active@.len() > 0 {
                caches(old(self).members@).insert(conversation_id, (active@, true))
            } else {
                caches(old(self).members@)
            }),
    {
        let ghost before = self.members@;
        if let Some(mut cache) = self.members.remove(&conversation_id) {
            let ghost named = active@;
            cache.promote(active);
            self.members.insert(conversation_id, cache);
            proof {
                if named.len() > 0 {
                    assert(caches(self.members@) =~= caches(before).insert(
                        conversation_id,
                        (named, true),
                    ));
                } else {
                    assert(caches(self.members@) =~= caches(before));
                }
            }
        } else {
            assert(self.members@ =~= before);
        }
    }

    /// Files a list row's preview of a conversation's members. A complete cache keeps what it has.
    pub fn preview(&mut self, conversation_id: Id, members: Vec<Id>)
        ensures
            *final(self) == (Signed { members: final(self).members, ..*old(self) }),
            caches(final(self).members@) == previewed(
                caches(old(self).members@),
                conversation_id,
                members@,
            ),
    {
        let ghost before = self.members@;
        match self.members.remove(&conversation_id) {
            Some(mut cache) => {
                cache.refresh(members);
                self.members.insert(conversation_id, cache);
                assert(caches(self.members@) =~= previewed(
                    caches(before),
                    conversation_id,
                    members@,
                ));
            },
            None => {
                self.members.insert(conversation_id, MemberCache { ids: members, complete: false });
                assert(caches(self.members@) =~= previewed(
                    caches(before),
                    conversation_id,
                    members@,
                ));
            },
        }
    }
}

/// The caches after a list row was filed: a complete one stays, any other holds the row's preview.
pub open spec fn previewed(
    members: Map<Id, (Seq<Id>, bool)>,
    conversation_id: Id,
    preview: Seq<Id>,
) -> Map<Id, (Seq<Id>, bool)> {
    if members.contains_key(conversation_id) && members[conversation_id].1 {
        members
    } else {
        members.insert(conversation_id, (preview, false))
    }
}

/// Re-reading the list never makes a complete membership incomplete.
pub proof fn law_a_list_read_demotes_nobody(
    members: Map<Id, (Seq<Id>, bool)>,
    conversation_id: Id,
    preview: Seq<Id>,
    any: Id,
)
    requires
        members.contains_key(any),
        members[any].1,
    ensures
        previewed(members, conversation_id, preview).contains_key(any),
        previewed(members, conversation_id, preview)[any] == members[any],
{
}

/// Plaintext never goes into a conversation that is not known to be readable by the server.
pub proof fn law_an_unknown_conversation_is_sealed(e2e: Map<Id, bool>, conversation_id: Id)
    requires
        !(e2e.contains_key(conversation_id) && !e2e[conversation_id]),
    ensures
        sealed(e2e, conversation_id, false),
        sealed(e2e, conversation_id, true),
{
}

/// What goes out unsealed: only what is no document, into a conversation known not to be encrypted.
pub proof fn law_only_the_readable_is_unsealed(
    e2e: Map<Id, bool>,
    conversation_id: Id,
    document: bool,
)
    ensures
        sealed(e2e, conversation_id, document) <==> !(!document && e2e.contains_key(conversation_id)
            && !e2e[conversation_id]),
{
}

/// A list row's preview becomes the membership of its own conversation, as a part of it, unless the
/// whole is known; no other conversation's changes.
pub proof fn law_a_preview_is_filed_under_its_conversation(
    members: Map<Id, (Seq<Id>, bool)>,
    conversation_id: Id,
    preview: Seq<Id>,
    other: Id,
)
    requires
        other != conversation_id,
    ensures
        previewed(members, conversation_id, preview).contains_key(conversation_id),
        !(members.contains_key(conversation_id) && members[conversation_id].1) ==> previewed(
            members,
            conversation_id,
            preview,
        )[conversation_id] == (preview, false),
        previewed(members, conversation_id, preview).contains_key(other) <==> members.contains_key(
            other,
        ),
        members.contains_key(other) ==> previewed(members, conversation_id, preview)[other]
            == members[other],
{
}

/// A bridge leads a room to the conversation that its last pair names.
pub proof fn law_a_bridge_leads_where_its_last_pair_says(pairs: Seq<(Id, Id)>, i: int)
    requires
        0 <= i < pairs.len(),
        forall|k: int| i < k < pairs.len() ==> (#[trigger] pairs[k]).0 != pairs[i].0,
    ensures
        bridge_map(pairs).contains_key(pairs[i].0),
        bridge_map(pairs)[pairs[i].0] == pairs[i].1,
    decreases pairs.len(),
{
    let front = pairs.drop_last();
    if i < front.len() {
        assert(front[i] == pairs[i]);
        assert forall|k: int| i < k < front.len() implies (#[trigger] front[k]).0 != front[i].0 by {
            assert(front[k] == pairs[k]);
        }
        assert(pairs[pairs.len() - 1].0 != pairs[i].0);
        law_a_bridge_leads_where_its_last_pair_says(front, i);
    }
}

/// A bridge leads from no room that no pair names.
pub proof fn law_a_bridge_leads_from_its_own_rooms(pairs: Seq<(Id, Id)>, room: Id)
    requires
        bridge_map(pairs).contains_key(room),
    ensures
        exists|i: int| 0 <= i < pairs.len() && (#[trigger] pairs[i]).0 == room,
    decreases pairs.len(),
{
    if pairs.len() > 0 {
        let front = pairs.drop_last();
        if pairs.last().0 == room {
            assert(pairs[pairs.len() - 1].0 == room);
        } else {
            law_a_bridge_leads_from_its_own_rooms(front, room);
            let i = choose|i: int| 0 <= i < front.len() && (#[trigger] front[i]).0 == room;
            assert(pairs[i] == front[i]);
        }
    }
}

} // verus!
