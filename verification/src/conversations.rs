//! The conversation list, and the conversations it names.

use vstd::prelude::*;

use crate::content::{Body, Content, Message};
use crate::effects::{list_request, request_conversations, Action, Conversation, Event, Request};
use crate::ids::{copy_ids, first_of, key_of};
use crate::members::MemberCache;
use crate::people::fetch_profiles;
use crate::sealing::{
    decrypt, is_shown, law_an_attachments_slots_are_kept, opened_into, row_shows,
};
use crate::sealing::{Arrival, Held, Identity, MediaKeys, Opened};
use crate::signed::{caches, previewed, Signed};
use crate::sync::{Sync, SyncRequest, SyncView, SYNC_PAGE};
use crate::wire::{ConversationKind, EncryptionMode, Id, Timestamp, TopicKind};

verus! {

broadcast use vstd::std_specs::hash::group_hash_axioms;

/// One row of the list as the server sums it up.
pub struct Summary {
    pub conversation_id: Id,
    pub title: Option<String>,
    pub members: Option<Vec<Id>>,
    pub encryption: EncryptionMode,
    pub last_seq: u64,
    pub read_seq: u64,
    pub kind: ConversationKind,
    pub last_message: Option<Arrival>,
}

/// The members a row names.
pub open spec fn row_members(summary: Summary) -> Seq<Id> {
    match summary.members {
        Some(ids) => ids@,
        None => Seq::empty(),
    }
}

/// Whether a row has no title of its own.
pub open spec fn untitled(summary: Summary) -> bool {
    match summary.title {
        Some(title) => title@.len() == 0,
        None => true,
    }
}

/// The account whose name titles a row: the other member of an untitled pair.
pub open spec fn peer_of(summary: Summary, me: Id) -> Option<Id> {
    let members = row_members(summary);
    if untitled(summary) && members.len() == 2 {
        if members[0] != me {
            Some(members[0])
        } else if members[1] != me {
            Some(members[1])
        } else {
            None
        }
    } else {
        None
    }
}

/// How many messages of a row are unread.
pub open spec fn unread_of(summary: Summary) -> int {
    let behind = summary.last_seq - summary.read_seq;
    if behind < 0 {
        0
    } else if behind > u32::MAX {
        u32::MAX as int
    } else {
        behind
    }
}

/// Whether a row's conversation moved past what this process holds of it without a hole. A
/// conversation of which nothing was routed is left for its own window to replay.
pub open spec fn behind(sync: SyncView, summary: Summary) -> bool {
    sync.sequences.contains_key(summary.conversation_id) && summary.last_seq
        > sync.sequences[summary.conversation_id].watermark
}

/// Whether a row's last message is shown as its preview.
pub open spec fn previews(summary: Summary, me: Identity) -> bool {
    summary.last_message matches Some(last) && is_shown(
        last.event,
        me,
        last.opened,
        last.adopted,
    )
}

/// Whether a drawn row says what its summary says.
pub open spec fn row_says(
    row: Conversation,
    summary: Summary,
    me: Identity,
    bridge: Map<Id, Id>,
) -> bool {
    &&& row.conversation_id == summary.conversation_id
    &&& row.title == summary.title
    &&& row.members@ == row_members(summary)
    &&& row.encrypted == (summary.encryption == EncryptionMode::EndToEnd)
    &&& row.last_seq == summary.last_seq
    &&& row.unread == unread_of(summary)
    &&& row.kind == summary.kind
    &&& row.updated_at == (match summary.last_message {
        Some(last) => Some(last.event.created_at),
        None => None::<Timestamp>,
    })
    &&& row.preview is Some <==> previews(summary, me)
    &&& row.preview matches Some(body) ==> exists|message: Message|
        #[trigger] row_shows(
            summary.last_message.unwrap().event,
            me,
            summary.last_message.unwrap().opened,
            message,
        ) && message.body == body
    &&& row.room_id matches Some(room) ==> bridge.contains_key(room) && bridge[room]
        == summary.conversation_id
    &&& row.room_id is None ==> forall|room: Id|
        #[trigger] bridge.contains_key(room) ==> bridge[room] != summary.conversation_id
}

/// The caches after a run of rows.
pub open spec fn caches_after(
    members: Map<Id, (Seq<Id>, bool)>,
    rows: Seq<Summary>,
) -> Map<Id, (Seq<Id>, bool)>
    decreases rows.len(),
{
    if rows.len() == 0 {
        members
    } else {
        previewed(
            caches_after(members, rows.drop_last()),
            rows.last().conversation_id,
            row_members(rows.last()),
        )
    }
}

/// What is known of each conversation's encryption after a run of rows.
pub open spec fn e2e_after(e2e: Map<Id, bool>, rows: Seq<Summary>) -> Map<Id, bool>
    decreases rows.len(),
{
    if rows.len() == 0 {
        e2e
    } else {
        e2e_after(e2e, rows.drop_last()).insert(
            rows.last().conversation_id,
            rows.last().encryption == EncryptionMode::EndToEnd,
        )
    }
}

/// The conversations of a run of rows.
pub open spec fn ids_of(rows: Seq<Summary>) -> Seq<Id> {
    rows.map_values(|row: Summary| row.conversation_id)
}

/// The conversations of a run of rows that were not watched before, in order and each once.
pub open spec fn unwatched(rows: Seq<Summary>, watched: Set<Id>) -> Seq<Id>
    decreases rows.len(),
{
    if rows.len() == 0 {
        Seq::empty()
    } else {
        let before = unwatched(rows.drop_last(), watched);
        let id = rows.last().conversation_id;
        if watched.contains(id) || before.contains(id) {
            before
        } else {
            before.push(id)
        }
    }
}

/// The conversations of a run of rows that have to be caught up, in order.
pub open spec fn lagging(rows: Seq<Summary>, sync: SyncView) -> Seq<Id>
    decreases rows.len(),
{
    if rows.len() == 0 {
        Seq::empty()
    } else if behind(sync, rows.last()) {
        lagging(rows.drop_last(), sync).push(rows.last().conversation_id)
    } else {
        lagging(rows.drop_last(), sync)
    }
}

/// The accounts of a run of rows whose names are wanted, in order.
pub open spec fn peers_of(rows: Seq<Summary>, me: Id) -> Seq<Id>
    decreases rows.len(),
{
    if rows.len() == 0 {
        Seq::empty()
    } else {
        match peer_of(rows.last(), me) {
            Some(peer) => peers_of(rows.drop_last(), me).push(peer),
            None => peers_of(rows.drop_last(), me),
        }
    }
}

/// Whether drawing a row leaves what is held, and the keys of attachments, as its last message says.
pub open spec fn row_opens(
    before: (Held, MediaKeys),
    summary: Summary,
    me: Identity,
    after: (Held, MediaKeys),
) -> bool {
    match summary.last_message {
        Some(last) => opened_into(before, last, me, after),
        None => after == before,
    }
}

/// Whether drawing a run of rows moves through these states, one after the other.
pub open spec fn list_opens(
    states: Seq<(Held, MediaKeys)>,
    rows: Seq<Summary>,
    me: Identity,
) -> bool {
    &&& states.len() == rows.len() + 1
    &&& forall|i: int|
        0 <= i < rows.len() ==> row_opens(states[i], #[trigger] rows[i], me, states[i + 1])
}

/// The rows of a list, and what follows from them.
pub struct Listed {
    pub rows: Vec<Conversation>,
    /// Accounts whose names title a row.
    pub peers: Vec<Id>,
    /// Conversations to subscribe to.
    pub to_watch: Vec<Id>,
    /// Conversations to catch up.
    pub to_catch_up: Vec<Id>,
}

fn row_peer(summary: &Summary, me: Id) -> (peer: Option<Id>)
    ensures
        peer == peer_of(*summary, me),
{
    let titled: bool = match &summary.title {
        Some(title) => !title.as_str().is_empty(),
        None => false,
    };
    if titled {
        return None;
    }
    match &summary.members {
        Some(ids) => {
            if ids.len() == 2 {
                if ids[0] != me {
                    Some(ids[0])
                } else if ids[1] != me {
                    Some(ids[1])
                } else {
                    None
                }
            } else {
                None
            }
        },
        None => None,
    }
}

fn row_unread(last_seq: u64, read_seq: u64) -> (unread: u32)
    ensures
        unread == (if last_seq < read_seq {
            0
        } else if last_seq - read_seq > u32::MAX {
            u32::MAX as int
        } else {
            last_seq - read_seq
        }),
{
    if last_seq < read_seq {
        0
    } else {
        let behind: u64 = last_seq - read_seq;
        if behind > 4_294_967_295 {
            4_294_967_295
        } else {
            behind as u32
        }
    }
}

/// Files one row, and draws it.
fn file_row(signed: &mut Signed, summary: Summary) -> (row: Conversation)
    requires
        old(signed).held.wf(),
    ensures
        final(signed).held.wf(),
        row_says(row, summary, old(signed).me(), old(signed).room_conversations@),
        caches(final(signed).members@) == previewed(
            caches(old(signed).members@),
            summary.conversation_id,
            row_members(summary),
        ),
        final(signed).e2e@ == old(signed).e2e@.insert(
            summary.conversation_id,
            summary.encryption == EncryptionMode::EndToEnd,
        ),
        final(signed).conversations_watched@ == old(signed).conversations_watched@,
        row_opens(
            (old(signed).held, old(signed).media_keys),
            summary,
            old(signed).me(),
            (final(signed).held, final(signed).media_keys),
        ),
        *final(signed) == (Signed {
            members: final(signed).members,
            e2e: final(signed).e2e,
            held: final(signed).held,
            media_keys: final(signed).media_keys,
            ..*old(signed)
        }),
{
    let me: Identity = signed.identity();
    let conversation_id: Id = summary.conversation_id;
    let members: Vec<Id> = match summary.members {
        Some(ids) => ids,
        None => Vec::new(),
    };
    assert(members@ =~= row_members(summary));
    signed.preview(conversation_id, copy_ids(&members));
    signed.file_encryption(conversation_id, summary.encryption);
    let encrypted: bool = match summary.encryption {
        EncryptionMode::EndToEnd => true,
        _ => false,
    };
    let mut updated_at: Option<Timestamp> = None;
    let mut preview: Option<Body> = None;
    if let Some(last) = summary.last_message {
        updated_at = Some(last.event.created_at);
        let shown: Option<Message> = decrypt(&mut signed.held, &mut signed.media_keys, last, &me);
        if let Some(message) = shown {
            assert(row_shows(last.event, me, last.opened, message));
            preview = Some(message.body);
        }
    }
    Conversation {
        conversation_id,
        title: summary.title,
        members,
        encrypted,
        last_seq: summary.last_seq,
        preview,
        updated_at,
        unread: row_unread(summary.last_seq, summary.read_seq),
        kind: summary.kind,
        room_id: key_of(&signed.room_conversations, conversation_id),
    }
}

/// Whether a page of the list is filed as it should be.
pub open spec fn list_filed(
    before: Signed,
    sync: SyncView,
    summaries: Seq<Summary>,
    after: Signed,
    listed: Listed,
) -> bool {
    &&& listed.rows@.len() == summaries.len()
    &&& forall|i: int|
            0 <= i < summaries.len() ==> row_says(
                #[trigger] listed.rows@[i],
                summaries[i],
                before.me(),
                before.room_conversations@,
            )
    &&& listed.peers@ == peers_of(summaries, before.account.account_id)
    &&& listed.to_watch@ == unwatched(summaries, before.conversations_watched@)
    &&& listed.to_catch_up@ == lagging(summaries, sync)
    &&& caches(after.members@) == caches_after(caches(before.members@), summaries)
    &&& after.e2e@ == e2e_after(before.e2e@, summaries)
    &&& after.conversations_watched@ == before.conversations_watched@.union(
            ids_of(summaries).to_set(),
        )
    &&& exists|states: Seq<(Held, MediaKeys)>| #[trigger]
            list_opens(states, summaries, before.me()) && states[0] == (
                before.held,
                before.media_keys,
            ) && states.last() == (after.held, after.media_keys)
    &&& after == (Signed {
            members: after.members,
            e2e: after.e2e,
            held: after.held,
            media_keys: after.media_keys,
            conversations_watched: after.conversations_watched,
            ..before
        })
}

/// Files a page of the conversation list.
///
/// Each row is drawn, its preview of the members is filed unless the whole membership is known,
/// and what it says about encryption is filed too. A conversation seen for the first time is
/// watched; one that moved past what was seen of it is caught up; the accounts that title direct
/// chats are named.
pub fn file_list(signed: &mut Signed, sync: &Sync, summaries: Vec<Summary>) -> (listed: Listed)
    requires
        old(signed).held.wf(),
    ensures
        final(signed).held.wf(),
        list_filed(*old(signed), sync@, summaries@, *final(signed), listed),
{
    let mut rows: Vec<Conversation> = Vec::new();
    let mut peers: Vec<Id> = Vec::new();
    let mut to_watch: Vec<Id> = Vec::new();
    let mut to_catch_up: Vec<Id> = Vec::new();
    let me: Id = signed.account.account_id;
    let ghost all = summaries@;
    let ghost mut states: Seq<(Held, MediaKeys)> = seq![(signed.held, signed.media_keys)];
    proof {
        assert(all.take(0) =~= Seq::<Summary>::empty());
        assert(ids_of(all.take(0)).to_set() =~= Set::<Id>::empty());
        assert(signed.conversations_watched@ =~= signed.conversations_watched@.union(
            ids_of(all.take(0)).to_set(),
        ));
    }
    for summary in it: summaries
        invariant
            it.seq() == all,
            signed.held.wf(),
            me == old(signed).account.account_id,
            list_opens(states, all.take(it.index() as int), old(signed).me()),
            states[0] == (old(signed).held, old(signed).media_keys),
            states.last() == (signed.held, signed.media_keys),
            rows@.len() == it.index(),
            forall|i: int|
                0 <= i < it.index() ==> row_says(
                    #[trigger] rows@[i],
                    all[i],
                    old(signed).me(),
                    old(signed).room_conversations@,
                ),
            peers@ == peers_of(all.take(it.index() as int), me),
            to_watch@ == unwatched(all.take(it.index() as int), old(signed).conversations_watched@),
            to_catch_up@ == lagging(all.take(it.index() as int), sync@),
            caches(signed.members@) == caches_after(
                caches(old(signed).members@),
                all.take(it.index() as int),
            ),
            signed.e2e@ == e2e_after(old(signed).e2e@, all.take(it.index() as int)),
            signed.conversations_watched@ == old(signed).conversations_watched@.union(
                ids_of(all.take(it.index() as int)).to_set(),
            ),
            *signed == (Signed {
                members: signed.members,
                e2e: signed.e2e,
                held: signed.held,
                media_keys: signed.media_keys,
                conversations_watched: signed.conversations_watched,
                ..*old(signed)
            }),
    {
        let ghost done = all.take(it.index() as int);
        let ghost next = all.take(it.index() + 1);
        proof {
            assert(next.drop_last() =~= done);
            assert(next.last() == summary);
            lemma_unwatched_members(done, old(signed).conversations_watched@);
            lemma_ids_push(done, summary);
            assert(next =~= done.push(summary));
        }
        if let Some(peer) = row_peer(&summary, me) {
            peers.push(peer);
        }
        let conversation_id: Id = summary.conversation_id;
        let lags: bool = match sync.sequences.get(&conversation_id) {
            Some(account) => summary.last_seq > account.watermark,
            None => false,
        };
        let row: Conversation = file_row(signed, summary);
        proof {
            let before = states;
            states = states.push((signed.held, signed.media_keys));
            assert forall|i: int| 0 <= i < next.len() implies row_opens(
                states[i],
                #[trigger] next[i],
                old(signed).me(),
                states[i + 1],
            ) by {
                if i < done.len() {
                    assert(done[i] == next[i]);
                    assert(states[i] == before[i] && states[i + 1] == before[i + 1]);
                }
            }
        }
        rows.push(row);
        if signed.conversations_watched.insert(conversation_id) {
            to_watch.push(conversation_id);
        }
        assert(signed.conversations_watched@ =~= old(signed).conversations_watched@.union(
            ids_of(next).to_set(),
        ));
        if lags {
            to_catch_up.push(conversation_id);
        }
    }
    assert(all.take(all.len() as int) =~= all);
    Listed { rows, peers, to_watch, to_catch_up }
}

proof fn lemma_ids_push(rows: Seq<Summary>, row: Summary)
    ensures
        ids_of(rows.push(row)).to_set() == ids_of(rows).to_set().insert(row.conversation_id),
{
    let before = ids_of(rows);
    let after = ids_of(rows.push(row));
    assert(after =~= before.push(row.conversation_id));
    assert forall|x: Id| after.to_set().contains(x) <==> before.to_set().insert(
        row.conversation_id,
    ).contains(x) by {
        if after.contains(x) {
            let i = choose|i: int| 0 <= i < after.len() && after[i] == x;
            if i < before.len() {
                assert(before[i] == x);
            }
        }
        if before.contains(x) {
            let i = choose|i: int| 0 <= i < before.len() && before[i] == x;
            assert(after[i] == x);
        }
        assert(after[before.len() as int] == row.conversation_id);
    }
    assert(after.to_set() =~= before.to_set().insert(row.conversation_id));
}

proof fn lemma_unwatched_members(rows: Seq<Summary>, watched: Set<Id>)
    ensures
        forall|x: Id|
            #[trigger] unwatched(rows, watched).contains(x) <==> ids_of(rows).to_set().contains(x)
                && !watched.contains(x),
    decreases rows.len(),
{
    if rows.len() > 0 {
        let front = rows.drop_last();
        lemma_unwatched_members(front, watched);
        lemma_ids_push(front, rows.last());
        assert(rows =~= front.push(rows.last()));
        let before = unwatched(front, watched);
        let id = rows.last().conversation_id;
        let after = unwatched(rows, watched);
        assert forall|x: Id| #[trigger] after.contains(x) <==> ids_of(rows).to_set().contains(x)
            && !watched.contains(x) by {
            if !(watched.contains(id) || before.contains(id)) {
                assert(after == before.push(id));
                if after.contains(x) {
                    let i = choose|i: int| 0 <= i < after.len() && after[i] == x;
                    if i < before.len() {
                        assert(before[i] == x);
                        assert(before.contains(x));
                    }
                }
                if before.contains(x) {
                    let i = choose|i: int| 0 <= i < before.len() && before[i] == x;
                    assert(after[i] == x);
                }
                assert(after[before.len() as int] == id);
            }
        }
    }
}

/// A list read subscribes to nothing twice: what it watches was not watched before.
pub proof fn law_a_list_read_watches_only_new_conversations(rows: Seq<Summary>, watched: Set<Id>)
    ensures
        forall|x: Id|
            #[trigger] unwatched(rows, watched).contains(x) <==> ids_of(rows).to_set().contains(x)
                && !watched.contains(x),
        unwatched(rows, watched).no_duplicates(),
    decreases rows.len(),
{
    lemma_unwatched_members(rows, watched);
    if rows.len() > 0 {
        law_a_list_read_watches_only_new_conversations(rows.drop_last(), watched);
    }
}

/// Whether a conversation that was made is filed as it should be.
pub open spec fn created_filed(
    before: Signed,
    conversation_id: Id,
    members: Option<Vec<Id>>,
    encryption: EncryptionMode,
    after: Signed,
    watch: bool,
) -> bool {
    &&& watch == !before.conversations_watched@.contains(conversation_id)
    &&& after.conversations_watched@ == before.conversations_watched@.insert(
            conversation_id,
        )
    &&& caches(after.members@) == caches(before.members@).insert(
            conversation_id,
            (
                match members {
                    Some(ids) => ids@,
                    None => Seq::empty(),
                },
                true,
            ),
        )
    &&& after.e2e@ == before.e2e@.insert(
            conversation_id,
            encryption == EncryptionMode::EndToEnd,
        )
    &&& after == (Signed {
            members: after.members,
            e2e: after.e2e,
            conversations_watched: after.conversations_watched,
            ..before
        })
}

/// Files a conversation that was just created: its answer names the whole membership. The result
/// is whether the conversation has to be subscribed to.
pub fn file_created(
    signed: &mut Signed,
    conversation_id: Id,
    members: Option<Vec<Id>>,
    encryption: EncryptionMode,
) -> (watch: bool)
    ensures
        created_filed(*old(signed), conversation_id, members, encryption, *final(signed), watch),
{
    let ids: Vec<Id> = match members {
        Some(ids) => ids,
        None => Vec::new(),
    };
    assert(ids@ =~= match members {
        Some(ids) => ids@,
        None => Seq::empty(),
    });
    signed.members.insert(conversation_id, MemberCache { ids, complete: true });
    assert(caches(signed.members@) =~= caches(old(signed).members@).insert(
        conversation_id,
        (ids@, true),
    ));
    signed.file_encryption(conversation_id, encryption);
    signed.conversations_watched.insert(conversation_id)
}

/// The sync state, and the pages it asks for, once some conversations are caught up in order, each
/// to the live edge.
pub open spec fn catching_up(sync: SyncView, ids: Seq<Id>) -> (SyncView, Seq<Action>)
    decreases ids.len(),
{
    if ids.len() == 0 {
        (sync, Seq::empty())
    } else {
        let (before, asked) = catching_up(sync, ids.drop_last());
        let id = ids.last();
        if before.refuses(id, None) {
            (before, asked)
        } else {
            (
                before.walking(id, None),
                asked.push(
                    Action::AskSync(
                        SyncRequest {
                            conversation_id: id,
                            have_seq: before.watermark(id),
                            limit: SYNC_PAGE,
                            to_seq: None,
                            backwards: None,
                        },
                    ),
                ),
            )
        }
    }
}

/// Whether some actions ask for the names that title some rows.
pub open spec fn names_asked(peers: Seq<Id>, out: Seq<Action>) -> bool {
    &&& peers.len() == 0 ==> out.len() == 0
    &&& peers.len() > 0 ==> out.len() == 1 && (out[0] matches Action::Request(
        Request::ProfileFetch { user_ids },
    ) && first_of(peers, user_ids@))
}

/// Whether some actions subscribe to some conversations.
pub open spec fn topics_watched(ids: Seq<Id>, out: Seq<Action>) -> bool {
    &&& ids.len() == 0 ==> out.len() == 0
    &&& ids.len() > 0 ==> out.len() == 1 && (out[0] matches Action::Request(
        Request::Subscribe { kind, ids: topics },
    ) && kind == TopicKind::Conversation && topics@ == ids)
}

/// Subscribes to some conversations, in one request.
pub fn watch_conversations(ids: Vec<Id>) -> (out: Vec<Action>)
    ensures
        topics_watched(ids@, out@),
{
    let mut out: Vec<Action> = Vec::new();
    if ids.len() > 0 {
        out.push(Action::Request(Request::Subscribe { kind: TopicKind::Conversation, ids }));
    }
    out
}

/// Whether some actions are what a page of the list asks for: the rows, the names, the
/// subscriptions, and then the walks.
pub open spec fn list_told(
    listed: Listed,
    sync: SyncView,
    names: Seq<Action>,
    topics: Seq<Action>,
    out: Seq<Action>,
) -> bool {
    &&& names_asked(listed.peers@, names)
    &&& topics_watched(listed.to_watch@, topics)
    &&& out == seq![Action::Emit(Event::Conversations(listed.rows))] + names + topics + catching_up(
        sync,
        listed.to_catch_up@,
    ).1
}

/// Whether a page of the list was taken in as it should be.
pub open spec fn list_heard(
    before: Signed,
    sync: SyncView,
    summaries: Seq<Summary>,
    after: Signed,
    synced: SyncView,
    out: Seq<Action>,
) -> bool {
    exists|listed: Listed, names: Seq<Action>, topics: Seq<Action>|
        {
            &&& list_filed(before, sync, summaries, after, listed)
            &&& #[trigger] list_told(listed, sync, names, topics, out)
            &&& synced == catching_up(sync, listed.to_catch_up@).0
        }
}

/// A page of the conversation list came back.
pub fn on_conversations(
    signed: &mut Signed,
    sync: &mut Sync,
    summaries: Vec<Summary>,
) -> (out: Vec<Action>)
    requires
        old(signed).held.wf(),
    ensures
        final(signed).held.wf(),
        list_heard(
            *old(signed),
            old(sync)@,
            summaries@,
            *final(signed),
            final(sync)@,
            out@,
        ),
        old(sync)@.wf() ==> final(sync)@.wf(),
{
    let listed: Listed = file_list(signed, sync, summaries);
    let ghost filed = listed;
    let ghost before = sync@;
    let mut out: Vec<Action> = Vec::new();
    let mut names: Vec<Action> = fetch_profiles(&listed.peers);
    let ghost asked = names@;
    let Listed { rows, peers: _, to_watch, to_catch_up }: Listed = listed;
    let mut topics: Vec<Action> = watch_conversations(to_watch);
    let ghost watched = topics@;
    out.push(Action::Emit(Event::Conversations(rows)));
    out.append(&mut names);
    out.append(&mut topics);
    let ghost head = out@;
    let mut i: usize = 0;
    assert(to_catch_up@.take(0) =~= Seq::<Id>::empty());
    assert(out@ =~= head + catching_up(before, to_catch_up@.take(0)).1);
    while i < to_catch_up.len()
        invariant
            i <= to_catch_up@.len(),
            sync@ == catching_up(before, to_catch_up@.take(i as int)).0,
            out@ == head + catching_up(before, to_catch_up@.take(i as int)).1,
            old(sync)@.wf() ==> sync@.wf(),
        decreases to_catch_up.len() - i,
    {
        assert(to_catch_up@.take(i + 1).drop_last() =~= to_catch_up@.take(i as int));
        let conversation_id: Id = to_catch_up[i];
        let from: u64 = sync.watermark(conversation_id);
        if let Some(page) = sync.catch_up(conversation_id, from, None) {
            out.push(Action::AskSync(page));
        }
        assert(out@ =~= head + catching_up(before, to_catch_up@.take(i + 1)).1);
        i = i + 1;
    }
    assert(to_catch_up@.take(to_catch_up@.len() as int) =~= to_catch_up@);
    assert(out@ =~= seq![Action::Emit(Event::Conversations(filed.rows))] + asked + watched
        + catching_up(before, filed.to_catch_up@).1);
    assert(list_told(filed, before, asked, watched, out@));
    out
}

/// Whether a conversation that was made was taken in as it should be.
pub open spec fn created_heard(
    before: Signed,
    conversation_id: Id,
    members: Option<Vec<Id>>,
    encryption: EncryptionMode,
    after: Signed,
    out: Seq<Action>,
) -> bool {
    let watch = !before.conversations_watched@.contains(conversation_id);
    &&& created_filed(before, conversation_id, members, encryption, after, watch)
    &&& out.len() == (if watch {
        3int
    } else {
        2
    })
    &&& out[0] == Action::Emit(Event::ConversationCreated { conversation_id })
    &&& watch ==> (out[1] matches Action::Request(Request::Subscribe { kind, ids }) && kind
        == TopicKind::Conversation && ids@ == seq![conversation_id])
    &&& out.last() == list_request()
}

/// A conversation was made.
pub fn on_conversation_created(
    signed: &mut Signed,
    conversation_id: Id,
    members: Option<Vec<Id>>,
    encryption: EncryptionMode,
) -> (out: Vec<Action>)
    ensures
        created_heard(
            *old(signed),
            conversation_id,
            members,
            encryption,
            *final(signed),
            out@,
        ),
{
    let watch: bool = file_created(signed, conversation_id, members, encryption);
    let mut out: Vec<Action> = vec![Action::Emit(Event::ConversationCreated { conversation_id })];
    if watch {
        let ids: Vec<Id> = vec![conversation_id];
        assert(ids@ =~= seq![conversation_id]);
        out.push(Action::Request(Request::Subscribe { kind: TopicKind::Conversation, ids }));
    }
    out.push(request_conversations());
    out
}

/// A drawn row says of its conversation what the server summed up: which it is, its title, its
/// members, whether it is encrypted, how far it reaches and of what kind it is.
pub proof fn law_a_row_is_its_summarys_own(
    row: Conversation,
    summary: Summary,
    me: Identity,
    bridge: Map<Id, Id>,
)
    requires
        row_says(row, summary, me, bridge),
    ensures
        row.conversation_id == summary.conversation_id,
        row.title == summary.title,
        summary.members is Some ==> row.members@ == summary.members.unwrap()@,
        summary.members is None ==> row.members@.len() == 0,
        row.encrypted <==> summary.encryption == EncryptionMode::EndToEnd,
        row.last_seq == summary.last_seq,
        row.kind == summary.kind,
        row.updated_at is Some <==> summary.last_message is Some,
        row.updated_at is Some ==> row.updated_at.unwrap()
            == summary.last_message.unwrap().event.created_at,
        row.room_id is Some ==> bridge.contains_key(row.room_id.unwrap())
            && bridge[row.room_id.unwrap()] == summary.conversation_id,
        row.room_id is None ==> forall|room: Id| #[trigger]
            bridge.contains_key(room) ==> bridge[room] != summary.conversation_id,
{
}

/// What is unread is what stands between the last message and the last one read: together they
/// reach the conversation's end. A conversation that was read to its end has nothing unread.
pub proof fn law_the_unread_are_those_not_read(
    row: Conversation,
    summary: Summary,
    me: Identity,
    bridge: Map<Id, Id>,
)
    requires
        row_says(row, summary, me, bridge),
    ensures
        summary.read_seq >= summary.last_seq ==> row.unread == 0,
        summary.read_seq <= summary.last_seq && summary.last_seq - summary.read_seq <= u32::MAX
            ==> row.unread + summary.read_seq == summary.last_seq,
        summary.last_seq - summary.read_seq > u32::MAX ==> row.unread == u32::MAX,
        row.unread > 0 <==> summary.last_seq > summary.read_seq,
{
}

/// A row's preview is what its last message shows: its words where it is a text that opened, its
/// object where it is an attachment, a tombstone where it was withdrawn. What is not shown in the
/// thread is no preview either.
pub proof fn law_a_preview_is_what_the_last_message_shows(
    row: Conversation,
    summary: Summary,
    last: Arrival,
    me: Identity,
    bridge: Map<Id, Id>,
)
    requires
        row_says(row, summary, me, bridge),
        summary.last_message == Some(last),
    ensures
        row.preview is Some <==> is_shown(last.event, me, last.opened, last.adopted),
        last.event.deleted == Some(true) ==> row.preview == Some(Body::Tombstone),
        last.event.deleted != Some(true) && last.event.sender_device != me.device_id ==> {
            &&& last.opened is NoReceiver || last.opened is UnknownChain ==> row.preview is None
            &&& last.opened is Unreadable ==> row.preview == Some(Body::Undecryptable)
        },
        last.event.deleted != Some(true) && row.preview is Some ==> match last.opened {
            Opened::Content(Content::Text { text, .. }) => row.preview == Some(Body::Text(text)),
            Opened::Content(Content::MediaRef { media_id, .. }) => {
                row.preview.unwrap() is Media && row.preview.unwrap()->Media_media_id == media_id
            },
            Opened::Content(Content::VoiceNoteRef { media_id, .. }) => {
                row.preview.unwrap() is VoiceNote && row.preview.unwrap()->VoiceNote_media_id
                    == media_id
            },
            Opened::Content(Content::Reaction { emoji, target_message_id, .. }) => {
                row.preview == Some(Body::Reaction { emoji, target: target_message_id })
            },
            _ => true,
        },
{
    if row.preview is Some {
        let message = choose|message: Message| #[trigger]
            row_shows(last.event, me, last.opened, message) && message.body
                == row.preview.unwrap();
        assert(row_shows(last.event, me, last.opened, message));
    }
}

/// A direct chat without a title is named by its other member, never by this account; any other row
/// by nobody.
pub proof fn law_an_untitled_pair_is_named_by_its_other_member(summary: Summary, me: Id)
    ensures
        peer_of(summary, me) is Some ==> {
            &&& peer_of(summary, me).unwrap() != me
            &&& summary.members is Some
            &&& summary.members.unwrap()@.len() == 2
            &&& summary.members.unwrap()@.contains(peer_of(summary, me).unwrap())
            &&& summary.title is Some ==> summary.title.unwrap()@.len() == 0
        },
        summary.members is Some && summary.members.unwrap()@.len() == 2 && (summary.title is None
            || summary.title.unwrap()@.len() == 0) && (summary.members.unwrap()@[0] != me
            || summary.members.unwrap()@[1] != me) ==> peer_of(summary, me) is Some,
{
}

/// The names that a list asks for are those of its untitled pairs.
pub proof fn law_every_untitled_pair_is_named(rows: Seq<Summary>, me: Id, peer: Id)
    ensures
        peers_of(rows, me).contains(peer) <==> exists|i: int|
            0 <= i < rows.len() && peer_of(#[trigger] rows[i], me) == Some(peer),
    decreases rows.len(),
{
    if rows.len() > 0 {
        let front = rows.drop_last();
        let before = peers_of(front, me);
        let all = peers_of(rows, me);
        law_every_untitled_pair_is_named(front, me, peer);
        assert(rows[rows.len() - 1] == rows.last());
        if before.contains(peer) {
            let i = choose|i: int| 0 <= i < front.len() && peer_of(#[trigger] front[i], me) == Some(peer);
            assert(rows[i] == front[i]);
            let k = choose|k: int| 0 <= k < before.len() && before[k] == peer;
            assert(all[k] == peer);
        }
        if peer_of(rows.last(), me) == Some(peer) {
            assert(all[before.len() as int] == peer);
        }
        if all.contains(peer) && !before.contains(peer) {
            let k = choose|k: int| 0 <= k < all.len() && all[k] == peer;
            if k < before.len() {
                assert(before[k] == peer);
            }
        }
        if exists|i: int| 0 <= i < rows.len() && peer_of(#[trigger] rows[i], me) == Some(peer) {
            let i = choose|i: int| 0 <= i < rows.len() && peer_of(#[trigger] rows[i], me) == Some(peer);
            if i < front.len() {
                assert(front[i] == rows[i]);
            }
        }
    }
}

/// What a list says about encryption is kept: each conversation's last row decides, and what no row
/// names stays what it was.
pub proof fn law_encryption_is_what_the_list_says(
    e2e: Map<Id, bool>,
    rows: Seq<Summary>,
    i: int,
    other: Id,
)
    requires
        0 <= i < rows.len(),
        forall|k: int|
            i < k < rows.len() ==> (#[trigger] rows[k]).conversation_id != rows[i].conversation_id,
        forall|k: int| 0 <= k < rows.len() ==> (#[trigger] rows[k]).conversation_id != other,
    ensures
        e2e_after(e2e, rows).contains_key(rows[i].conversation_id),
        e2e_after(e2e, rows)[rows[i].conversation_id] <==> rows[i].encryption
            == EncryptionMode::EndToEnd,
        e2e_after(e2e, rows).contains_key(other) <==> e2e.contains_key(other),
        e2e.contains_key(other) ==> e2e_after(e2e, rows)[other] == e2e[other],
    decreases rows.len(),
{
    let front = rows.drop_last();
    lemma_e2e_elsewhere(e2e, rows, other);
    if i < front.len() {
        assert(front[i] == rows[i]);
        assert forall|k: int| i < k < front.len() implies (#[trigger] front[k]).conversation_id
            != front[i].conversation_id by {
            assert(front[k] == rows[k]);
        }
        assert forall|k: int| 0 <= k < front.len() implies (#[trigger] front[k]).conversation_id
            != other by {
            assert(front[k] == rows[k]);
        }
        assert(rows[rows.len() - 1].conversation_id != rows[i].conversation_id);
        law_encryption_is_what_the_list_says(e2e, front, i, other);
    }
}

proof fn lemma_e2e_elsewhere(e2e: Map<Id, bool>, rows: Seq<Summary>, other: Id)
    requires
        forall|k: int| 0 <= k < rows.len() ==> (#[trigger] rows[k]).conversation_id != other,
    ensures
        e2e_after(e2e, rows).contains_key(other) <==> e2e.contains_key(other),
        e2e.contains_key(other) ==> e2e_after(e2e, rows)[other] == e2e[other],
    decreases rows.len(),
{
    if rows.len() > 0 {
        let front = rows.drop_last();
        assert forall|k: int| 0 <= k < front.len() implies (#[trigger] front[k]).conversation_id
            != other by {
            assert(front[k] == rows[k]);
        }
        assert(rows[rows.len() - 1].conversation_id != other);
        lemma_e2e_elsewhere(e2e, front, other);
    }
}

/// The members that a list names are kept: a conversation whose whole membership is known keeps it;
/// any other holds what its last row names, as a part.
pub proof fn law_members_are_what_the_list_says(
    members: Map<Id, (Seq<Id>, bool)>,
    rows: Seq<Summary>,
    i: int,
)
    requires
        0 <= i < rows.len(),
        forall|k: int|
            i < k < rows.len() ==> (#[trigger] rows[k]).conversation_id != rows[i].conversation_id,
    ensures
        ({
            let id = rows[i].conversation_id;
            let after = caches_after(members, rows);
            &&& after.contains_key(id)
            &&& members.contains_key(id) && members[id].1 ==> after[id] == members[id]
            &&& !(members.contains_key(id) && members[id].1) ==> {
                &&& !after[id].1
                &&& rows[i].members is Some ==> after[id].0 == rows[i].members.unwrap()@
                &&& rows[i].members is None ==> after[id].0.len() == 0
            }
        }),
    decreases rows.len(),
{
    let front = rows.drop_last();
    let id = rows[i].conversation_id;
    lemma_whole_stays(members, front, id);
    if i < front.len() {
        assert(front[i] == rows[i]);
        assert forall|k: int| i < k < front.len() implies (#[trigger] front[k]).conversation_id
            != front[i].conversation_id by {
            assert(front[k] == rows[k]);
        }
        assert(rows[rows.len() - 1].conversation_id != rows[i].conversation_id);
        law_members_are_what_the_list_says(members, front, i);
    }
}

proof fn lemma_whole_stays(members: Map<Id, (Seq<Id>, bool)>, rows: Seq<Summary>, id: Id)
    ensures
        members.contains_key(id) && members[id].1 ==> caches_after(members, rows).contains_key(id)
            && caches_after(members, rows)[id] == members[id],
        !(members.contains_key(id) && members[id].1) ==> !(caches_after(
            members,
            rows,
        ).contains_key(id) && caches_after(members, rows)[id].1),
    decreases rows.len(),
{
    if rows.len() > 0 {
        lemma_whole_stays(members, rows.drop_last(), id);
    }
}

/// A conversation is caught up exactly where a row says that it moved past what this process holds of
/// it without a hole.
pub proof fn law_what_moved_is_caught_up(rows: Seq<Summary>, sync: SyncView, id: Id)
    ensures
        lagging(rows, sync).contains(id) <==> sync.sequences.contains_key(id) && exists|i: int|
            0 <= i < rows.len() && (#[trigger] rows[i]).conversation_id == id && rows[i].last_seq
                > sync.sequences[id].watermark,
    decreases rows.len(),
{
    if rows.len() > 0 {
        let front = rows.drop_last();
        let last = rows.last();
        let before = lagging(front, sync);
        let all = lagging(rows, sync);
        law_what_moved_is_caught_up(front, sync, id);
        assert(rows[rows.len() - 1] == last);
        if before.contains(id) {
            let i = choose|i: int|
                0 <= i < front.len() && (#[trigger] front[i]).conversation_id == id
                    && front[i].last_seq > sync.sequences[id].watermark;
            assert(rows[i] == front[i]);
            let k = choose|k: int| 0 <= k < before.len() && before[k] == id;
            assert(all[k] == id);
        }
        if behind(sync, last) {
            assert(all[before.len() as int] == last.conversation_id);
        }
        if all.contains(id) && !before.contains(id) {
            let k = choose|k: int| 0 <= k < all.len() && all[k] == id;
            if k < before.len() {
                assert(before[k] == id);
            }
        }
        if sync.sequences.contains_key(id) && exists|i: int|
            0 <= i < rows.len() && (#[trigger] rows[i]).conversation_id == id && rows[i].last_seq
                > sync.sequences[id].watermark {
            let i = choose|i: int|
                0 <= i < rows.len() && (#[trigger] rows[i]).conversation_id == id
                    && rows[i].last_seq > sync.sequences[id].watermark;
            if i < front.len() {
                assert(front[i] == rows[i]);
            }
        }
    }
}

/// Catching up asks for pages of just these conversations, each from its watermark towards the live
/// edge, and starts a walk of each that is not refused one.
pub proof fn law_catching_up_asks_from_the_watermark(sync: SyncView, ids: Seq<Id>, k: int, id: Id)
    ensures
        0 <= k < catching_up(sync, ids).1.len() ==> (catching_up(sync, ids).1[k] matches Action::AskSync(
            page,
        ) && ids.contains(page.conversation_id) && page.have_seq == sync.watermark(
            page.conversation_id,
        ) && page.to_seq is None && page.backwards is None && page.limit == SYNC_PAGE),
        ids.contains(id) ==> catching_up(sync, ids).0.catchups.contains_key(id) || sync.refuses(
            id,
            None,
        ),
        ids.contains(id) && !sync.refuses(id, None) ==> exists|m: int|
            0 <= m < catching_up(sync, ids).1.len() && (#[trigger] catching_up(sync, ids).1[m]
                matches Action::AskSync(page) && page.conversation_id == id),
        catching_up(sync, ids).0.sequences == sync.sequences,
    decreases ids.len(),
{
    if ids.len() > 0 {
        let front = ids.drop_last();
        let (before, asked) = catching_up(sync, front);
        let (after, all) = catching_up(sync, ids);
        let last = ids.last();
        law_catching_up_asks_from_the_watermark(sync, front, k, id);
        law_catching_up_asks_from_the_watermark(sync, front, k, last);
        assert(ids[ids.len() - 1] == last);
        if 0 <= k < asked.len() {
            assert(all[k] == asked[k]);
            let page = asked[k]->AskSync_0;
            let m = choose|m: int| 0 <= m < front.len() && front[m] == page.conversation_id;
            assert(ids[m] == page.conversation_id);
        }
        if ids.contains(id) {
            if front.contains(id) {
                if !sync.refuses(id, None) {
                    let m = choose|m: int|
                        0 <= m < asked.len() && (#[trigger] asked[m] matches Action::AskSync(page)
                            && page.conversation_id == id);
                    assert(all[m] == asked[m]);
                }
            } else {
                let m = choose|m: int| 0 <= m < ids.len() && ids[m] == id;
                if m < front.len() {
                    assert(front[m] == id);
                }
                assert(id == last);
                if !before.refuses(id, None) {
                    assert(all[asked.len() as int] is AskSync);
                } else if !sync.refuses(id, None) {
                    lemma_walks_are_of_the_asked(sync, front, id);
                }
            }
        }
    }
}

proof fn lemma_walks_are_of_the_asked(sync: SyncView, ids: Seq<Id>, id: Id)
    requires
        !ids.contains(id),
    ensures
        catching_up(sync, ids).0.refuses(id, None) == sync.refuses(id, None),
        catching_up(sync, ids).0.sequences == sync.sequences,
    decreases ids.len(),
{
    if ids.len() > 0 {
        let front = ids.drop_last();
        assert(ids[ids.len() - 1] == ids.last());
        assert(!front.contains(id)) by {
            if front.contains(id) {
                let m = choose|m: int| 0 <= m < front.len() && front[m] == id;
                assert(ids[m] == id);
            }
        }
        lemma_walks_are_of_the_asked(sync, front, id);
    }
}

/// A conversation that was made is told first, under its own id; its membership is known whole, its
/// encryption is known, it is watched from then on, and the list is read again. It is subscribed to
/// exactly where it was not watched.
pub proof fn law_a_made_conversation_is_known_whole(
    before: Signed,
    conversation_id: Id,
    members: Option<Vec<Id>>,
    encryption: EncryptionMode,
    after: Signed,
    out: Seq<Action>,
    other: Id,
)
    requires
        created_heard(before, conversation_id, members, encryption, after, out),
        other != conversation_id,
    ensures
        out.len() >= 2,
        out[0] == Action::Emit(Event::ConversationCreated { conversation_id }),
        out.last() matches Action::Request(request) && request is ConversationList,
        (exists|i: int| 0 <= i < out.len() && (#[trigger] out[i] matches Action::Request(
            Request::Subscribe { .. },
        ))) <==> !before.conversations_watched@.contains(conversation_id),
        !before.conversations_watched@.contains(conversation_id) ==> (out[1] matches Action::Request(
            Request::Subscribe { kind, ids },
        ) && kind == TopicKind::Conversation && ids@ == seq![conversation_id]),
        after.conversations_watched@.contains(conversation_id),
        after.members@.contains_key(conversation_id),
        after.members@[conversation_id].complete,
        members is Some ==> after.members@[conversation_id].ids@ == members.unwrap()@,
        members is None ==> after.members@[conversation_id].ids@.len() == 0,
        after.e2e@.contains_key(conversation_id),
        after.e2e@[conversation_id] <==> encryption == EncryptionMode::EndToEnd,
        after.members@.contains_key(other) <==> before.members@.contains_key(other),
        after.account == before.account,
        after.devices == before.devices,
        after.held == before.held,
{
    let was = caches(before.members@);
    let now = caches(after.members@);
    assert(now.contains_key(conversation_id));
    assert(now[conversation_id].1);
    assert(now.contains_key(other) <==> was.contains_key(other));
    if !before.conversations_watched@.contains(conversation_id) {
        assert(out[1] is Request);
    }
}

/// What a read of the list asks for: the rows go to the window first, then come the names, the
/// subscriptions and the walks; the names are asked for only where a row needs one, and the
/// subscriptions only where a conversation is new.
pub proof fn law_a_list_is_shown_first(
    listed: Listed,
    sync: SyncView,
    names: Seq<Action>,
    topics: Seq<Action>,
    out: Seq<Action>,
)
    requires
        list_told(listed, sync, names, topics, out),
    ensures
        out.len() > 0,
        out[0] == Action::Emit(Event::Conversations(listed.rows)),
        listed.peers@.len() > 0 ==> (out[1] matches Action::Request(request) && request
            is ProfileFetch),
        listed.to_watch@.len() > 0 ==> (out[1 + names.len() as int] matches Action::Request(
            Request::Subscribe { kind, ids },
        ) && kind == TopicKind::Conversation && ids@ == listed.to_watch@),
        names.len() == (if listed.peers@.len() > 0 { 1int } else { 0 }),
        topics.len() == (if listed.to_watch@.len() > 0 { 1int } else { 0 }),
        out.skip((1 + names.len() + topics.len()) as int) == catching_up(sync, listed.to_catch_up@).1,
{
    assert(out.skip((1 + names.len() + topics.len()) as int) =~= catching_up(
        sync,
        listed.to_catch_up@,
    ).1);
}

/// A page of the list is filed whole: a row for each summary in its order, everyone who titles a
/// pair asked for by name, every conversation watched from then on, and only those subscribed to
/// that were not; what the page does not speak of stays as it was.
pub proof fn law_a_list_is_filed_whole(
    before: Signed,
    sync: SyncView,
    summaries: Seq<Summary>,
    after: Signed,
    listed: Listed,
    i: int,
)
    requires
        list_filed(before, sync, summaries, after, listed),
        0 <= i < summaries.len(),
    ensures
        listed.rows@.len() == summaries.len(),
        listed.rows@[i].conversation_id == summaries[i].conversation_id,
        peer_of(summaries[i], before.account.account_id) is Some ==> listed.peers@.contains(
            peer_of(summaries[i], before.account.account_id).unwrap(),
        ),
        after.conversations_watched@.contains(summaries[i].conversation_id),
        forall|id: Id| #[trigger]
            before.conversations_watched@.contains(id) ==> after.conversations_watched@.contains(id),
        after.account == before.account,
        after.transport == before.transport,
        after.access_token == before.access_token,
        after.devices == before.devices,
        after.rooms_watched == before.rooms_watched,
        after.room_conversations == before.room_conversations,
        after.watched == before.watched,
{
    let me = before.account.account_id;
    if let Some(peer) = peer_of(summaries[i], me) {
        law_every_untitled_pair_is_named(summaries, me, peer);
    }
    let ids = ids_of(summaries);
    assert(ids[i] == summaries[i].conversation_id);
    assert(ids.to_set().contains(summaries[i].conversation_id));
}

/// A page of the list that arrived is shown before anything is asked for, a walk is started for
/// each conversation that it says has moved, and what it files is what it shows.
pub proof fn law_a_heard_list_is_shown_and_caught_up(
    before: Signed,
    sync: SyncView,
    summaries: Seq<Summary>,
    after: Signed,
    synced: SyncView,
    out: Seq<Action>,
)
    requires
        list_heard(before, sync, summaries, after, synced, out),
    ensures
        out.len() > 0,
        out[0] is Emit,
        out[0]->Emit_0 is Conversations,
        out[0]->Emit_0->Conversations_0@.len() == summaries.len(),
        forall|i: int|
            0 <= i < summaries.len() ==> (
            #[trigger] out[0]->Emit_0->Conversations_0@[i]).conversation_id
                == summaries[i].conversation_id,
        synced == catching_up(sync, lagging(summaries, sync)).0,
        forall|i: int|
            0 <= i < summaries.len() ==> after.conversations_watched@.contains(
                (#[trigger] summaries[i]).conversation_id,
            ),
{
    let (listed, names, topics) = choose|listed: Listed, names: Seq<Action>, topics: Seq<Action>|
        {
            &&& list_filed(before, sync, summaries, after, listed)
            &&& #[trigger] list_told(listed, sync, names, topics, out)
            &&& synced == catching_up(sync, listed.to_catch_up@).0
        };
    assert forall|i: int| 0 <= i < summaries.len() implies after.conversations_watched@.contains(
        (#[trigger] summaries[i]).conversation_id,
    ) by {
        law_a_list_is_filed_whole(before, sync, summaries, after, listed, i);
    }
}

/// Drawing a list loses no key: an attachment whose keys were known stays known by the same keys,
/// and a list of no rows changes neither the keys nor what is held.
pub proof fn law_a_list_keeps_every_key(
    before: Signed,
    sync: SyncView,
    summaries: Seq<Summary>,
    after: Signed,
    listed: Listed,
    media_id: Id,
)
    requires
        list_filed(before, sync, summaries, after, listed),
    ensures
        summaries.len() == 0 ==> after.held == before.held && after.media_keys == before.media_keys,
        before.media_keys.keys@.contains_key(media_id) ==> after.media_keys.keys@.contains_key(
            media_id,
        ) && after.media_keys.keys@[media_id] == before.media_keys.keys@[media_id],
{
    let states = choose|states: Seq<(Held, MediaKeys)>| #[trigger]
        list_opens(states, summaries, before.me()) && states[0] == (before.held, before.media_keys)
            && states.last() == (after.held, after.media_keys);
    if before.media_keys.keys@.contains_key(media_id) {
        lemma_keys_stay(states, summaries, before.me(), media_id, summaries.len() as int);
    }
}

proof fn lemma_keys_stay(
    states: Seq<(Held, MediaKeys)>,
    rows: Seq<Summary>,
    me: Identity,
    media_id: Id,
    k: int,
)
    requires
        list_opens(states, rows, me),
        states[0].1.keys@.contains_key(media_id),
        0 <= k <= rows.len(),
    ensures
        states[k].1.keys@.contains_key(media_id),
        states[k].1.keys@[media_id] == states[0].1.keys@[media_id],
    decreases k,
{
    if k > 0 {
        lemma_keys_stay(states, rows, me, media_id, k - 1);
        assert(row_opens(states[k - 1], rows[k - 1], me, states[k]));
        if let Some(last) = rows[k - 1].last_message {
            law_an_attachments_slots_are_kept(states[k - 1], last, me, states[k], media_id);
        }
    }
}

/// A conversation that was made is subscribed to where it was not watched, and is watched from then
/// on; no other is watched or let go.
pub proof fn law_a_made_conversation_is_watched_once(
    before: Signed,
    conversation_id: Id,
    members: Option<Vec<Id>>,
    encryption: EncryptionMode,
    after: Signed,
    watch: bool,
    other: Id,
)
    requires
        created_filed(before, conversation_id, members, encryption, after, watch),
    ensures
        watch <==> !before.conversations_watched@.contains(conversation_id),
        after.conversations_watched@.contains(conversation_id),
        other != conversation_id ==> (after.conversations_watched@.contains(other)
            <==> before.conversations_watched@.contains(other)),
        after.account == before.account,
        after.devices == before.devices,
        after.rooms_watched == before.rooms_watched,
{
}

} // verus!
