//! The sender-key layer's decisions: what opens, what waits, who a message is sealed for.

use std::collections::HashMap;

use vstd::prelude::*;

use crate::content::{
    body_of, deadline, deadline_of, keying_from, keying_of, lifetime, media_of, shown,
};
use crate::content::{Body, Content, Delivery, MediaKeying, Message};
use crate::members::{contains_id, MemberCache};
use crate::text::same_text;
use crate::wire::{Id, MessageKind, Timestamp};

verus! {

broadcast use vstd::std_specs::hash::group_hash_axioms;

/// How many undecryptable messages one sender may have held at once.
pub const MAX_PENDING_PER_SENDER: usize = 64;

/// One message event, live off the fan-out or out of a history page.
pub struct MessageEvent {
    pub message_id: Id,
    pub conversation_id: Id,
    pub seq: u64,
    pub sender_id: Id,
    pub sender_device: Id,
    pub kind: MessageKind,
    pub envelope: Vec<u8>,
    pub created_at: Timestamp,
    pub edited_at: Option<Timestamp>,
    pub deleted: Option<bool>,
}

/// What has to happen to an event before it can be shown.
#[derive(Debug, Clone, Copy, PartialEq, Eq, Structural)]
pub enum Opening {
    /// Nothing: the row is a tombstone.
    Tombstone,
    /// Nothing: this device's own message, echoed back.
    OwnEcho,
    /// Opened under this device's own chain: the echo of its edit.
    OwnEdit,
    /// Opened under the sender's chain, if a distribution of it was accepted.
    Foreign,
}

/// What the group layer made of an envelope.
pub enum Opened {
    /// No distribution of the sender's chain has been accepted.
    NoReceiver,
    /// The envelope names a chain of the sender's that is not known here: a rotation not caught up
    /// to.
    UnknownChain,
    /// The envelope did not open under a chain that is known, or its content could not be read.
    Unreadable,
    /// The content.
    Content(Content),
}

/// An event, and what the layers that hold keys made of it.
pub struct Arrival {
    pub event: MessageEvent,
    /// What the group layer made of the envelope, where [`opening`] asks for it.
    pub opened: Opened,
    /// Whether a key was adopted from it: a chain, from a key exchange; a call's key, from anything
    /// else.
    pub adopted: bool,
}

/// Who this session is.
#[derive(Debug, Clone, Copy, PartialEq, Eq, Structural)]
pub struct Identity {
    pub account_id: Id,
    pub device_id: Id,
}

/// What has to happen to an event.
pub open spec fn opening_of(event: MessageEvent, me: Identity) -> Opening {
    if event.deleted == Some(true) {
        Opening::Tombstone
    } else if event.sender_device == me.device_id {
        if event.edited_at is Some {
            Opening::OwnEdit
        } else {
            Opening::OwnEcho
        }
    } else {
        Opening::Foreign
    }
}

/// What has to happen to an event before it can be shown.
pub fn opening(event: &MessageEvent, me: &Identity) -> (r: Opening)
    ensures
        r == opening_of(*event, *me),
{
    match event.deleted {
        Some(true) => return Opening::Tombstone,
        _ => {},
    }
    if event.sender_device == me.device_id {
        if event.edited_at.is_some() {
            Opening::OwnEdit
        } else {
            Opening::OwnEcho
        }
    } else {
        Opening::Foreign
    }
}

/// Whether a row carries over what its event states.
pub open spec fn row_of(event: MessageEvent, me: Identity, row: Message) -> bool {
    &&& row.message_id == event.message_id
    &&& row.conversation_id == event.conversation_id
    &&& row.seq == event.seq
    &&& row.sender_id == event.sender_id
    &&& row.outgoing == (event.sender_id == me.account_id)
    &&& row.sent_at == event.created_at
    &&& row.delivery == Delivery::Received
}

/// Whether an event is held: the sender's chain is not known here, or not caught up to.
pub open spec fn is_held(event: MessageEvent, me: Identity, opened: Opened) -> bool {
    opening_of(event, me) == Opening::Foreign && (opened is NoReceiver || opened is UnknownChain)
}

/// Whether an event becomes a row of its thread.
///
/// A held event does not, nor does the echo of this device's own send, nor a call key that the
/// call engine consumed. One that will not open even with a key does: dropped, it could not be told
/// from one that was never sent.
pub open spec fn is_shown(
    event: MessageEvent,
    me: Identity,
    opened: Opened,
    adopted: bool,
) -> bool {
    match opening_of(event, me) {
        Opening::Tombstone => true,
        Opening::OwnEcho => false,
        Opening::OwnEdit => true,
        Opening::Foreign => opened is Unreadable || opened is Content && !adopted,
    }
}

/// Whether a row shows what an event that is shown turned out to hold.
pub open spec fn row_shows(
    event: MessageEvent,
    me: Identity,
    opened: Opened,
    row: Message,
) -> bool {
    &&& row_of(event, me, row)
    &&& match (opening_of(event, me), opened) {
        (Opening::Tombstone, _) => {
            &&& row.body == Body::Tombstone
            &&& row.deleted
            &&& !row.edited
            &&& row.expires_at is None
        },
        (_, Opened::Content(content)) => {
            &&& row.body == shown(content)
            &&& !row.deleted
            &&& row.edited == (event.edited_at is Some)
            &&& row.expires_at == deadline_of(event.created_at, lifetime(content))
        },
        (Opening::Foreign, _) => {
            &&& row.body == Body::Undecryptable
            &&& !row.deleted
            &&& row.edited == (event.edited_at is Some)
            &&& row.expires_at is None
        },
        (_, _) => {
            &&& row.body matches Body::Text(text) && text@.len() == 0
            &&& !row.deleted
            &&& row.edited == (event.edited_at is Some)
            &&& row.expires_at is None
        },
    }
}

/// The newest events of a run, as many as may be held.
pub open spec fn newest(events: Seq<MessageEvent>) -> Seq<MessageEvent> {
    if events.len() > MAX_PENDING_PER_SENDER {
        events.subrange(events.len() - MAX_PENDING_PER_SENDER, events.len() as int)
    } else {
        events
    }
}

/// Events held because their sender's distribution has not arrived, in arrival order, by
/// conversation and sender device.
pub struct Held {
    senders: HashMap<Id, HashMap<Id, Vec<MessageEvent>>>,
}

impl Held {
    /// The events held for one sender device of one conversation.
    pub closed spec fn of(&self, conversation_id: Id, sender_device: Id) -> Seq<MessageEvent> {
        if self.senders@.contains_key(conversation_id)
            && self.senders@[conversation_id]@.contains_key(sender_device) {
            self.senders@[conversation_id]@[sender_device]@
        } else {
            Seq::empty()
        }
    }

    /// No sender holds more than the bound.
    pub open spec fn wf(&self) -> bool {
        forall|c: Id, d: Id| #[trigger] self.of(c, d).len() <= MAX_PENDING_PER_SENDER
    }

    pub fn new() -> (held: Self)
        ensures
            held.wf(),
            forall|c: Id, d: Id| #[trigger] held.of(c, d) == Seq::<MessageEvent>::empty(),
    {
        Held { senders: HashMap::new() }
    }

    /// Holds one event, dropping the sender's oldest once its bound is reached.
    pub fn buffer(&mut self, event: MessageEvent)
        requires
            old(self).wf(),
        ensures
            final(self).wf(),
            final(self).of(event.conversation_id, event.sender_device) == newest(
                old(self).of(event.conversation_id, event.sender_device).push(event),
            ),
            forall|c: Id, d: Id|
                (c != event.conversation_id || d != event.sender_device) ==> #[trigger] final(self).of(
                    c,
                    d,
                ) == old(self).of(c, d),
    {
        let conversation_id: Id = event.conversation_id;
        let sender_device: Id = event.sender_device;
        let ghost before = old(self).of(conversation_id, sender_device);
        let mut devices: HashMap<Id, Vec<MessageEvent>> = match self.senders.remove(&conversation_id) {
            Some(devices) => devices,
            None => HashMap::new(),
        };
        let mut list: Vec<MessageEvent> = match devices.remove(&sender_device) {
            Some(list) => list,
            None => Vec::new(),
        };
        assert(list@ == before);
        assert(before.len() <= MAX_PENDING_PER_SENDER);
        list.push(event);
        if list.len() > MAX_PENDING_PER_SENDER {
            let _oldest = list.remove(0);
            assert(list@ =~= newest(before.push(event)));
        }
        devices.insert(sender_device, list);
        self.senders.insert(conversation_id, devices);
        assert forall|c: Id, d: Id| (c != event.conversation_id || d != event.sender_device) implies #[trigger] self.of(
            c,
            d,
        ) == old(self).of(c, d) by {}
        assert forall|c: Id, d: Id| #[trigger] self.of(c, d).len() <= MAX_PENDING_PER_SENDER by {
            assert(old(self).of(c, d).len() <= MAX_PENDING_PER_SENDER);
        }
    }

    /// Takes the events held for one sender, in arrival order.
    pub fn take(&mut self, conversation_id: Id, sender_device: Id) -> (events: Vec<MessageEvent>)
        requires
            old(self).wf(),
        ensures
            final(self).wf(),
            events@ == old(self).of(conversation_id, sender_device),
            final(self).of(conversation_id, sender_device).len() == 0,
            forall|c: Id, d: Id|
                (c != conversation_id || d != sender_device) ==> #[trigger] final(self).of(c, d) == old(self).of(c, d),
    {
        let mut events: Vec<MessageEvent> = Vec::new();
        if let Some(mut devices) = self.senders.remove(&conversation_id) {
            if let Some(list) = devices.remove(&sender_device) {
                events = list;
            }
            self.senders.insert(conversation_id, devices);
        }
        assert(events@ =~= old(self).of(conversation_id, sender_device));
        assert forall|c: Id, d: Id| (c != conversation_id || d != sender_device) implies #[trigger] self.of(
            c,
            d,
        ) == old(self).of(c, d) by {}
        assert forall|c: Id, d: Id| #[trigger] self.of(c, d).len() <= MAX_PENDING_PER_SENDER by {
            assert(old(self).of(c, d).len() <= MAX_PENDING_PER_SENDER);
        }
        events
    }

    /// Drops everything held for one conversation.
    pub fn forget(&mut self, conversation_id: Id)
        requires
            old(self).wf(),
        ensures
            final(self).wf(),
            forall|d: Id| (#[trigger] final(self).of(conversation_id, d)).len() == 0,
            forall|c: Id, d: Id|
                c != conversation_id ==> #[trigger] final(self).of(c, d) == old(self).of(c, d),
    {
        self.senders.remove(&conversation_id);
        assert forall|c: Id, d: Id| #[trigger] self.of(c, d).len() <= MAX_PENDING_PER_SENDER by {
            assert(old(self).of(c, d).len() <= MAX_PENDING_PER_SENDER);
        }
    }
}

/// The keys of the media objects that this session's messages referenced, by media id.
pub struct MediaKeys {
    pub keys: HashMap<Id, MediaKeying>,
}

impl MediaKeys {
    pub fn new() -> (keys: Self)
        ensures
            keys.keys@ == Map::<Id, MediaKeying>::empty(),
    {
        MediaKeys { keys: HashMap::new() }
    }

    /// Files what one decrypted content said about the object it references. Slots that are
    /// already held stay.
    pub fn file(&mut self, content: &Content)
        ensures
            files(old(self).keys@, *content, final(self).keys@),
    {
        if let Some((media_id, keying)) = keying_of(content) {
            if !self.keys.contains_key(&media_id) {
                self.keys.insert(media_id, keying);
            }
        }
    }
}

/// Whether `after` is `before` with what a content said filed, unless its object was known.
pub open spec fn files(
    before: Map<Id, MediaKeying>,
    content: Content,
    after: Map<Id, MediaKeying>,
) -> bool {
    match media_of(content) {
        Some(media_id) => if before.contains_key(media_id) {
            after == before
        } else {
            &&& after.contains_key(media_id)
            &&& keying_from(content, after[media_id])
            &&& after == before.insert(media_id, after[media_id])
        },
        None => after == before,
    }
}

/// Whether an arrival leaves what is held, and the keys of attachments, as it should: one that
/// cannot be opened yet is held, one that opened has its keys filed, and nothing else moves.
pub open spec fn opened_into(
    before: (Held, MediaKeys),
    arrival: Arrival,
    me: Identity,
    after: (Held, MediaKeys),
) -> bool {
    let event = arrival.event;
    &&& is_held(event, me, arrival.opened) ==> {
        &&& after.0.of(event.conversation_id, event.sender_device) == newest(
            before.0.of(event.conversation_id, event.sender_device).push(event),
        )
        &&& forall|c: Id, d: Id|
            (c != event.conversation_id || d != event.sender_device) ==> #[trigger] after.0.of(c, d)
                == before.0.of(c, d)
    }
    &&& !is_held(event, me, arrival.opened) ==> after.0 == before.0
    &&& match (opening_of(event, me), arrival.opened) {
        (Opening::Foreign, Opened::Content(content)) => if arrival.adopted {
            after.1 == before.1
        } else {
            files(before.1.keys@, content, after.1.keys@)
        },
        _ => after.1 == before.1,
    }
}

/// Turns one event into its row, holding it where it cannot be opened yet.
pub fn decrypt(
    held: &mut Held,
    keys: &mut MediaKeys,
    arrival: Arrival,
    me: &Identity,
) -> (row: Option<Message>)
    requires
        old(held).wf(),
    ensures
        final(held).wf(),
        row is Some <==> is_shown(arrival.event, *me, arrival.opened, arrival.adopted),
        row matches Some(message) ==> row_shows(arrival.event, *me, arrival.opened, message),
        opened_into((*old(held), *old(keys)), arrival, *me, (*final(held), *final(keys))),
{
    let Arrival { event, opened, adopted }: Arrival = arrival;
    let outgoing: bool = event.sender_id == me.account_id;
    let edited: bool = event.edited_at.is_some();
    let (body, lifetime_ms): (Body, Option<u32>) = match opening(&event, me) {
        Opening::Tombstone => {
            return Some(
                Message {
                    message_id: event.message_id,
                    conversation_id: event.conversation_id,
                    seq: event.seq,
                    sender_id: event.sender_id,
                    outgoing,
                    body: Body::Tombstone,
                    sent_at: event.created_at,
                    delivery: Delivery::Received,
                    deleted: true,
                    edited: false,
                    expires_at: None,
                },
            );
        },
        Opening::OwnEcho => {
            return None;
        },
        Opening::OwnEdit => match opened {
            Opened::Content(content) => body_of(content),
            _ => (Body::Text(String::new()), None),
        },
        Opening::Foreign => match opened {
            Opened::Content(content) => {
                if adopted {
                    return None;
                }
                keys.file(&content);
                body_of(content)
            },
            Opened::Unreadable => (Body::Undecryptable, None),
            _ => {
                held.buffer(event);
                return None;
            },
        },
    };
    Some(
        Message {
            message_id: event.message_id,
            conversation_id: event.conversation_id,
            seq: event.seq,
            sender_id: event.sender_id,
            outgoing,
            body,
            sent_at: event.created_at,
            delivery: Delivery::Received,
            deleted: false,
            edited,
            expires_at: deadline(event.created_at, lifetime_ms),
        },
    )
}

/// An event is shown, or held, or this device's own business: no message of somebody else is
/// lost, whatever opened or did not.
pub proof fn law_no_foreign_message_is_dropped(
    event: MessageEvent,
    me: Identity,
    opened: Opened,
)
    requires
        event.sender_device != me.device_id,
    ensures
        is_shown(event, me, opened, false) || is_held(event, me, opened),
        !(is_shown(event, me, opened, false) && is_held(event, me, opened)),
{
}

/// A tombstone is shown whoever wrote it, with nothing to open.
pub proof fn law_a_tombstone_needs_no_key(event: MessageEvent, me: Identity, adopted: bool)
    requires
        event.deleted == Some(true),
    ensures
        is_shown(event, me, Opened::NoReceiver, adopted),
        !is_held(event, me, Opened::NoReceiver),
{
}

/// Holding one more event never holds more than the bound, and never loses the newest.
pub proof fn law_the_hold_is_bounded(events: Seq<MessageEvent>, event: MessageEvent)
    ensures
        newest(events.push(event)).len() <= MAX_PENDING_PER_SENDER,
        newest(events.push(event)).last() == event,
{
}

/// The sender-key name a control event has to carry to be a distribution.
pub fn is_sender_key(content: &Content) -> (r: bool)
    ensures
        r == distributes(*content),
{
    match content {
        Content::ControlEvent { event, data } => {
            same_text(event.as_str(), "sender-key") && data.is_some()
        },
        _ => false,
    }
}

/// Whether some content is a sender-key distribution: the named control event, with data.
pub open spec fn distributes(content: Content) -> bool {
    content matches Content::ControlEvent { event, data } && event@ == "sender-key"@ && data is Some
}

/// The accounts a message is sealed for: the members, and this account, whose other devices must
/// receive it too.
pub open spec fn audience_of(members: Seq<Id>, me: Id) -> Seq<Id> {
    if members.contains(me) {
        members
    } else {
        members.push(me)
    }
}

/// The devices of one account, in order, without this one.
pub open spec fn other_devices(devices: Seq<Id>, mine: Id) -> Seq<Id> {
    crate::members::without(devices, mine)
}

/// The devices of an audience, in order, without this one. Accounts without a list add none.
pub open spec fn targets_of(
    audience: Seq<Id>,
    devices: Map<Id, Vec<Id>>,
    mine: Id,
) -> Seq<(Id, Id)>
    decreases audience.len(),
{
    if audience.len() == 0 {
        Seq::empty()
    } else {
        let user = audience.last();
        let before = targets_of(audience.drop_last(), devices, mine);
        if devices.contains_key(user) {
            before + other_devices(devices[user]@, mine).map_values(|device: Id| (user, device))
        } else {
            before
        }
    }
}

/// The accounts of an audience whose device lists are not known, in order.
pub open spec fn missing_of(audience: Seq<Id>, devices: Map<Id, Vec<Id>>) -> Seq<Id>
    decreases audience.len(),
{
    if audience.len() == 0 {
        Seq::empty()
    } else if devices.contains_key(audience.last()) {
        missing_of(audience.drop_last(), devices)
    } else {
        missing_of(audience.drop_last(), devices).push(audience.last())
    }
}

/// The audience, its devices and its gaps.
pub struct Recipients {
    /// Account and device of everyone the chain must reach.
    pub targets: Vec<(Id, Id)>,
    /// The accounts whose devices are not known yet.
    pub missing: Vec<Id>,
}

/// Reads off who a conversation's chain must reach.
pub fn recipients(
    cached: &MemberCache,
    devices: &HashMap<Id, Vec<Id>>,
    me: &Identity,
) -> (r: Recipients)
    ensures
        r.targets@ == targets_of(audience_of(cached.ids@, me.account_id), devices@, me.device_id),
        r.missing@ == missing_of(audience_of(cached.ids@, me.account_id), devices@),
{
    let mut targets: Vec<(Id, Id)> = Vec::new();
    let mut missing: Vec<Id> = Vec::new();
    let ghost members = cached.ids@;
    let mut i: usize = 0;
    assert(members.take(0) =~= Seq::<Id>::empty());
    while i < cached.ids.len()
        invariant
            members == cached.ids@,
            i <= members.len(),
            targets@ == targets_of(members.take(i as int), devices@, me.device_id),
            missing@ == missing_of(members.take(i as int), devices@),
        decreases members.len() - i,
    {
        assert(members.take(i + 1).drop_last() =~= members.take(i as int));
        reach(&mut targets, &mut missing, devices, cached.ids[i], me.device_id);
        i = i + 1;
    }
    assert(members.take(members.len() as int) =~= members);
    if !contains_id(&cached.ids, me.account_id) {
        assert(members.push(me.account_id).drop_last() =~= members);
        reach(&mut targets, &mut missing, devices, me.account_id, me.device_id);
    }
    Recipients { targets, missing }
}

/// Adds one account: its devices but this one, or its name where they are not known.
fn reach(
    targets: &mut Vec<(Id, Id)>,
    missing: &mut Vec<Id>,
    devices: &HashMap<Id, Vec<Id>>,
    user: Id,
    mine: Id,
)
    ensures
        devices@.contains_key(user) ==> {
            &&& final(targets)@ == old(targets)@ + other_devices(
                devices@[user]@,
                mine,
            ).map_values(|device: Id| (user, device))
            &&& final(missing)@ == old(missing)@
        },
        !devices@.contains_key(user) ==> {
            &&& final(targets)@ == old(targets)@
            &&& final(missing)@ == old(missing)@.push(user)
        },
{
    match devices.get(&user) {
        Some(list) => {
            push_others(targets, user, list, mine);
        },
        None => {
            missing.push(user);
        },
    }
}

/// Appends the devices of one account but this one.
fn push_others(targets: &mut Vec<(Id, Id)>, user: Id, list: &Vec<Id>, mine: Id)
    ensures
        final(targets)@ == old(targets)@ + other_devices(list@, mine).map_values(
            |device: Id| (user, device),
        ),
{
    let ghost before = targets@;
    let mut i: usize = 0;
    assert(list@.take(0) =~= Seq::<Id>::empty());
    assert(targets@ =~= before + other_devices(list@.take(0), mine).map_values(
        |device: Id| (user, device),
    ));
    while i < list.len()
        invariant
            i <= list.len(),
            targets@ == before + other_devices(list@.take(i as int), mine).map_values(
                |device: Id| (user, device),
            ),
        decreases list.len() - i,
    {
        assert(list@.take(i + 1).drop_last() =~= list@.take(i as int));
        let ghost kept = other_devices(list@.take(i as int), mine);
        if list[i] != mine {
            targets.push((user, list[i]));
            assert(targets@ =~= before + kept.push(list@[i as int]).map_values(
                |device: Id| (user, device),
            ));
        }
        i = i + 1;
    }
    assert(list@.take(list@.len() as int) =~= list@);
}

/// What a send has to do before its content can be sealed.
pub enum SealPlan {
    /// The conversation was never primed: nothing can be sealed.
    Unprimed,
    /// The membership is a preview: the roster has to be read first.
    NeedRoster,
    /// An account's devices are not known: its key bundles have to be fetched first.
    NeedKeys(Id),
    /// The chain must reach these accounts' devices, and then seals the content.
    Seal(Vec<(Id, Id)>),
}

/// Decides whether a message can be sealed for its conversation, and for whom.
pub fn seal_plan(
    cached: Option<&MemberCache>,
    devices: &HashMap<Id, Vec<Id>>,
    me: &Identity,
) -> (plan: SealPlan)
    ensures
        match cached {
            None => plan is Unprimed,
            Some(cache) => if !cache.complete {
                plan is NeedRoster
            } else {
                let audience = audience_of(cache.ids@, me.account_id);
                let missing = missing_of(audience, devices@);
                if missing.len() > 0 {
                    plan == SealPlan::NeedKeys(missing[0])
                } else {
                    plan matches SealPlan::Seal(targets) && targets@ == targets_of(
                        audience,
                        devices@,
                        me.device_id,
                    )
                }
            },
        },
{
    match cached {
        None => SealPlan::Unprimed,
        Some(cache) => {
            if !cache.complete {
                return SealPlan::NeedRoster;
            }
            let r: Recipients = recipients(cache, devices, me);
            if r.missing.len() > 0 {
                SealPlan::NeedKeys(r.missing[0])
            } else {
                SealPlan::Seal(r.targets)
            }
        },
    }
}

/// What a membership change has this device do about the chain it rotated.
pub enum RedistributePlan {
    /// The conversation was never primed: nothing to do.
    Unprimed,
    /// The membership is a preview: read the roster for the next change.
    NeedRoster,
    /// These accounts' devices are not known: fetch their key bundles.
    NeedKeys(Vec<Id>),
    /// Send the new chain to these accounts' devices.
    Distribute(Vec<(Id, Id)>),
}

/// Decides how a rotated chain is handed out.
pub fn redistribute_plan(
    cached: Option<&MemberCache>,
    devices: &HashMap<Id, Vec<Id>>,
    me: &Identity,
) -> (plan: RedistributePlan)
    ensures
        match cached {
            None => plan is Unprimed,
            Some(cache) => if !cache.complete {
                plan is NeedRoster
            } else {
                let audience = audience_of(cache.ids@, me.account_id);
                let missing = missing_of(audience, devices@);
                if missing.len() > 0 {
                    plan matches RedistributePlan::NeedKeys(users) && users@ == missing
                } else {
                    plan matches RedistributePlan::Distribute(targets) && targets@ == targets_of(
                        audience,
                        devices@,
                        me.device_id,
                    )
                }
            },
        },
{
    match cached {
        None => RedistributePlan::Unprimed,
        Some(cache) => {
            if !cache.complete {
                return RedistributePlan::NeedRoster;
            }
            let r: Recipients = recipients(cache, devices, me);
            if r.missing.len() > 0 {
                RedistributePlan::NeedKeys(r.missing)
            } else {
                RedistributePlan::Distribute(r.targets)
            }
        },
    }
}

/// A row that is drawn for an event is that event's: its message, its place, its sender and its
/// moment, and this account's own exactly where this account sent it.
pub proof fn law_a_row_is_its_events_own(
    event: MessageEvent,
    me: Identity,
    opened: Opened,
    row: Message,
)
    requires
        row_shows(event, me, opened, row),
    ensures
        row.message_id == event.message_id,
        row.conversation_id == event.conversation_id,
        row.seq == event.seq,
        row.sender_id == event.sender_id,
        row.outgoing <==> event.sender_id == me.account_id,
        row.sent_at == event.created_at,
        row.delivery == Delivery::Received,
        row.deleted <==> event.deleted == Some(true),
        row.deleted <==> row.body is Tombstone,
        row.edited <==> event.edited_at is Some && event.deleted != Some(true),
        row.expires_at is Some ==> opened is Content && !row.deleted,
{
}

/// A message that opened is shown as what it says: a text by its words, an attachment by its object
/// and the facts stated of it, a voice note by its object, length and waveform, a reaction by its
/// emoji and target. It disappears when it says it does.
pub proof fn law_an_opened_message_is_shown_as_it_says(
    event: MessageEvent,
    me: Identity,
    content: Content,
    row: Message,
)
    requires
        row_shows(event, me, Opened::Content(content), row),
        event.deleted != Some(true),
    ensures
        match content {
            Content::Text { text, expires_in_ms } => {
                &&& row.body matches Body::Text(said) && said == text
                &&& row.expires_at is Some <==> expires_in_ms is Some
                &&& row.expires_at is Some ==> row.expires_at.unwrap() - event.created_at
                    == expires_in_ms.unwrap() || row.expires_at.unwrap() == i64::MAX
            },
            Content::MediaRef {
                media_id,
                mime_type,
                size_bytes,
                width,
                height,
                caption,
                expires_in_ms,
                ..
            } => {
                &&& row.body is Media
                &&& row.body->Media_media_id == media_id
                &&& row.body->Media_mime_type == mime_type
                &&& row.body->size_bytes == size_bytes
                &&& row.body->width == width
                &&& row.body->height == height
                &&& row.body->caption == caption
                &&& row.expires_at is Some <==> expires_in_ms is Some
                &&& row.expires_at is Some ==> row.expires_at.unwrap() - event.created_at
                    == expires_in_ms.unwrap() || row.expires_at.unwrap() == i64::MAX
            },
            Content::VoiceNoteRef { media_id, duration_ms, waveform, expires_in_ms, .. } => {
                &&& row.body is VoiceNote
                &&& row.body->VoiceNote_media_id == media_id
                &&& row.body->VoiceNote_duration_ms == duration_ms
                &&& row.body->VoiceNote_waveform == waveform
                &&& row.expires_at is Some <==> expires_in_ms is Some
                &&& row.expires_at is Some ==> row.expires_at.unwrap() - event.created_at
                    == expires_in_ms.unwrap() || row.expires_at.unwrap() == i64::MAX
            },
            Content::Reaction { target_message_id, emoji, .. } => {
                &&& row.body is Reaction
                &&& row.body->Reaction_emoji == emoji
                &&& row.body->target == target_message_id
                &&& row.expires_at is None
            },
            Content::ControlEvent { .. } => row.body is Unsupported && row.expires_at is None,
            Content::Unsupported { content_type } => {
                &&& row.body is Unsupported
                &&& row.body->Unsupported_content_type == content_type
                &&& row.expires_at is None
            },
        },
{
}

/// A foreign message that will not open although its chain is known is shown as such, and one that
/// is not opened shows nobody's words.
pub proof fn law_what_will_not_open_shows_nothing(
    event: MessageEvent,
    me: Identity,
    opened: Opened,
    row: Message,
)
    requires
        row_shows(event, me, opened, row),
        !(opened is Content),
        event.deleted != Some(true),
    ensures
        event.sender_device != me.device_id ==> row.body is Undecryptable,
        event.sender_device == me.device_id ==> row.body is Text && row.body->Text_0@.len() == 0,
{
}

/// What becomes a row: every tombstone; of this device's own messages only the edited; of others'
/// those that opened to something other than a call's key, and those that never will. What waits for
/// a chain is held, and only that.
pub proof fn law_what_becomes_a_row(
    event: MessageEvent,
    me: Identity,
    opened: Opened,
    adopted: bool,
)
    ensures
        event.deleted == Some(true) ==> is_shown(event, me, opened, adopted) && !is_held(
            event,
            me,
            opened,
        ),
        event.deleted != Some(true) && event.sender_device == me.device_id ==> {
            &&& is_shown(event, me, opened, adopted) <==> event.edited_at is Some
            &&& !is_held(event, me, opened)
        },
        event.deleted != Some(true) && event.sender_device != me.device_id ==> {
            &&& opened is Content ==> (is_shown(event, me, opened, adopted) <==> !adopted)
            &&& opened is Unreadable ==> is_shown(event, me, opened, adopted)
            &&& opened is NoReceiver || opened is UnknownChain ==> !is_shown(
                event,
                me,
                opened,
                adopted,
            )
            &&& is_held(event, me, opened) <==> opened is NoReceiver || opened is UnknownChain
        },
{
}

/// What is held of a sender after one more event: the newest, up to the bound, in the order they
/// came; nothing is given up before the bound is reached.
pub proof fn law_the_hold_keeps_the_newest(events: Seq<MessageEvent>, event: MessageEvent)
    requires
        events.len() <= MAX_PENDING_PER_SENDER,
    ensures
        events.len() < 64 ==> newest(events.push(event)) == events.push(event),
        events.len() == 64 ==> newest(events.push(event)) == events.skip(1).push(event),
{
    if events.len() == 64 {
        assert(newest(events.push(event)) =~= events.skip(1).push(event));
    }
}

/// An arrival that waits for its chain joins what is held of its own sender, last; whatever else
/// arrives holds nothing and frees nothing.
pub proof fn law_an_arrival_that_waits_is_held(
    before: (Held, MediaKeys),
    arrival: Arrival,
    me: Identity,
    after: (Held, MediaKeys),
    other: (Id, Id),
)
    requires
        opened_into(before, arrival, me, after),
        before.0.wf(),
        other != (arrival.event.conversation_id, arrival.event.sender_device),
    ensures
        after.0.of(other.0, other.1) == before.0.of(other.0, other.1),
        ({
            let held = before.0.of(arrival.event.conversation_id, arrival.event.sender_device);
            let left = after.0.of(arrival.event.conversation_id, arrival.event.sender_device);
            if arrival.event.deleted != Some(true) && arrival.event.sender_device != me.device_id
                && (arrival.opened is NoReceiver || arrival.opened is UnknownChain) {
                &&& left.len() > 0
                &&& left.last() == arrival.event
                &&& held.len() < 64 ==> left == held.push(arrival.event)
                &&& after.1 == before.1
            } else {
                left == held
            }
        }),
{
    assert(before.0.of(arrival.event.conversation_id, arrival.event.sender_device).len()
        <= MAX_PENDING_PER_SENDER);
}

/// A foreign message that opened to a media reference leaves the slots that open its object, unless
/// slots are held already, which stay; a message that opened to anything else leaves none.
pub proof fn law_an_attachments_slots_are_kept(
    before: (Held, MediaKeys),
    arrival: Arrival,
    me: Identity,
    after: (Held, MediaKeys),
    other: Id,
)
    requires
        opened_into(before, arrival, me, after),
    ensures
        before.1.keys@.contains_key(other) ==> after.1.keys@.contains_key(other)
            && after.1.keys@[other] == before.1.keys@[other],
        arrival.event.deleted != Some(true) && arrival.event.sender_device != me.device_id
            && !arrival.adopted ==> {
            &&& arrival.opened matches Opened::Content(
                Content::MediaRef { media_id, key, nonce, mime_type, .. },
            ) ==> before.1.keys@.contains_key(media_id) || {
                &&& after.1.keys@.contains_key(media_id)
                &&& after.1.keys@[media_id].key@ == key@
                &&& after.1.keys@[media_id].nonce@ == nonce@
                &&& after.1.keys@[media_id].mime_type@ == mime_type@
                &&& !after.1.keys@[media_id].voice
            }
            &&& arrival.opened matches Opened::Content(
                Content::VoiceNoteRef { media_id, key, nonce, mime_type, .. },
            ) ==> before.1.keys@.contains_key(media_id) || {
                &&& after.1.keys@.contains_key(media_id)
                &&& after.1.keys@[media_id].key@ == key@
                &&& after.1.keys@[media_id].nonce@ == nonce@
                &&& after.1.keys@[media_id].mime_type@ == mime_type@
                &&& after.1.keys@[media_id].voice
            }
        },
        after.1.keys@.contains_key(other) && !before.1.keys@.contains_key(other)
            ==> match arrival.opened {
            Opened::Content(Content::MediaRef { media_id, .. }) => media_id == other,
            Opened::Content(Content::VoiceNoteRef { media_id, .. }) => media_id == other,
            _ => false,
        },
{
}

/// Only a control event of the sender-key name that carries data is a distribution.
pub proof fn law_only_a_named_control_event_distributes(content: Content)
    ensures
        distributes(content) <==> content is ControlEvent && content->event@ == "sender-key"@
            && content->data is Some,
{
}

/// The audience holds the members and this account, and nobody else, each as often as the members
/// name it.
pub proof fn law_the_audience_is_the_members_and_the_sender(members: Seq<Id>, me: Id, id: Id)
    ensures
        audience_of(members, me).contains(id) <==> members.contains(id) || id == me,
        members.no_duplicates() ==> audience_of(members, me).no_duplicates(),
{
    let audience = audience_of(members, me);
    if members.contains(id) {
        let k = choose|k: int| 0 <= k < members.len() && members[k] == id;
        assert(audience[k] == id);
    }
    if !members.contains(me) {
        assert(audience[members.len() as int] == me);
    }
    if audience.contains(id) {
        let k = choose|k: int| 0 <= k < audience.len() && audience[k] == id;
        if k < members.len() {
            assert(members[k] == id);
        }
    }
}

/// Whom a chain is for: exactly the known devices of the audience's accounts, without this one.
pub proof fn law_a_chain_is_for_the_audiences_devices(
    audience: Seq<Id>,
    devices: Map<Id, Vec<Id>>,
    mine: Id,
    user: Id,
    device: Id,
)
    ensures
        targets_of(audience, devices, mine).contains((user, device)) <==> audience.contains(user)
            && devices.contains_key(user) && devices[user]@.contains(device) && device != mine,
    decreases audience.len(),
{
    if audience.len() > 0 {
        let front = audience.drop_last();
        let before = targets_of(front, devices, mine);
        let all = targets_of(audience, devices, mine);
        let last = audience.last();
        law_a_chain_is_for_the_audiences_devices(front, devices, mine, user, device);
        let added = if devices.contains_key(last) {
            other_devices(devices[last]@, mine).map_values(|d: Id| (last, d))
        } else {
            Seq::empty()
        };
        assert(all =~= before + added);
        if devices.contains_key(last) {
            lemma_others(devices[last]@, mine, device);
        }
        if all.contains((user, device)) {
            let k = choose|k: int| 0 <= k < all.len() && all[k] == (user, device);
            if k < before.len() {
                assert(before[k] == (user, device));
                let m = choose|m: int| 0 <= m < front.len() && front[m] == user;
                assert(audience[m] == user);
            } else {
                assert(added[k - before.len()] == (user, device));
                assert(other_devices(devices[last]@, mine)[k - before.len()] == device);
                assert(audience[audience.len() - 1] == user);
            }
        }
        if audience.contains(user) && devices.contains_key(user) && devices[user]@.contains(device)
            && device != mine {
            if last == user {
                let others = other_devices(devices[last]@, mine);
                let m = choose|m: int| 0 <= m < others.len() && others[m] == device;
                assert(added[m] == (user, device));
                assert(all[before.len() + m] == (user, device));
            } else {
                let k = choose|k: int| 0 <= k < audience.len() && audience[k] == user;
                assert(front[k] == user);
                let m = choose|m: int| 0 <= m < before.len() && before[m] == (user, device);
                assert(all[m] == (user, device));
            }
        }
    }
}

proof fn lemma_others(list: Seq<Id>, mine: Id, device: Id)
    ensures
        other_devices(list, mine).contains(device) <==> list.contains(device) && device != mine,
    decreases list.len(),
{
    if list.len() > 0 {
        let front = list.drop_last();
        let before = other_devices(front, mine);
        let all = other_devices(list, mine);
        lemma_others(front, mine, device);
        assert(list[list.len() - 1] == list.last());
        if front.contains(device) {
            let k = choose|k: int| 0 <= k < front.len() && front[k] == device;
            assert(list[k] == device);
        }
        if list.contains(device) && list.last() != device {
            let k = choose|k: int| 0 <= k < list.len() && list[k] == device;
            assert(front[k] == device);
        }
        if before.contains(device) {
            let k = choose|k: int| 0 <= k < before.len() && before[k] == device;
            assert(all[k] == device);
        }
        if list.last() != mine {
            assert(all[before.len() as int] == list.last());
        }
        if all.contains(device) {
            let k = choose|k: int| 0 <= k < all.len() && all[k] == device;
            if k < before.len() {
                assert(before[k] == device);
            }
        }
    }
}

/// What is missing before a chain can be handed out: exactly the audience's accounts whose devices
/// are not known.
pub proof fn law_what_is_missing_is_not_known(
    audience: Seq<Id>,
    devices: Map<Id, Vec<Id>>,
    user: Id,
)
    ensures
        missing_of(audience, devices).contains(user) <==> audience.contains(user)
            && !devices.contains_key(user),
    decreases audience.len(),
{
    if audience.len() > 0 {
        let front = audience.drop_last();
        let before = missing_of(front, devices);
        let all = missing_of(audience, devices);
        law_what_is_missing_is_not_known(front, devices, user);
        assert(audience[audience.len() - 1] == audience.last());
        if front.contains(user) {
            let k = choose|k: int| 0 <= k < front.len() && front[k] == user;
            assert(audience[k] == user);
        }
        if audience.contains(user) && audience.last() != user {
            let k = choose|k: int| 0 <= k < audience.len() && audience[k] == user;
            assert(front[k] == user);
        }
        if before.contains(user) {
            let k = choose|k: int| 0 <= k < before.len() && before[k] == user;
            assert(all[k] == user);
        }
        if !devices.contains_key(audience.last()) {
            assert(all[before.len() as int] == audience.last());
        }
        if all.contains(user) {
            let k = choose|k: int| 0 <= k < all.len() && all[k] == user;
            if k < before.len() {
                assert(before[k] == user);
            }
        }
    }
}

} // verus!
