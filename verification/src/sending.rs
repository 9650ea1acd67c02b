//! Sending: who a message is sealed for, and what goes out.

use vstd::prelude::*;

use crate::asks::Asks;
use crate::content::{deadline, deadline_of, Body, Content, Delivery, Message};
use crate::effects::{toast, toasted, Action, Event, Notice, Outgoing, Request, SendKind, ToastKind};
use crate::members::MemberCache;
use crate::sealing::{audience_of, missing_of, other_devices, seal_plan, targets_of, SealPlan};
use crate::signed::Signed;
use crate::wire::{Id, Timestamp};

verus! {

broadcast use vstd::std_specs::hash::group_hash_axioms;

/// What is told when something cannot be sealed now: a message's own row fails, a reaction or an
/// edit has none.
pub open spec fn unsealed(outgoing: Outgoing) -> Seq<Action> {
    match outgoing {
        Outgoing::Message { message_id, .. } => seq![
            Action::Emit(Event::SendFailed { message_id }),
        ],
        _ => Seq::empty(),
    }
}

/// What is told when some content could not be encoded.
pub open spec fn unencoded(outgoing: Outgoing) -> Seq<Action> {
    match outgoing {
        Outgoing::Edit { .. } => seq![toast(Notice::EditNotSealed, ToastKind::Error)],
        _ => unsealed(outgoing),
    }
}

/// What is told when something cannot be sealed now.
pub fn not_sealed(outgoing: Outgoing) -> (out: Vec<Action>)
    ensures
        out@ == unsealed(outgoing),
{
    match outgoing {
        Outgoing::Message { message_id, .. } => vec![
            Action::Emit(Event::SendFailed { message_id }),
        ],
        _ => Vec::new(),
    }
}

/// What is told when some content could not be encoded.
pub fn not_encoded(outgoing: Outgoing) -> (out: Vec<Action>)
    ensures
        out@ == unencoded(outgoing),
{
    match outgoing {
        Outgoing::Edit { .. } => vec![toasted(Notice::EditNotSealed, ToastKind::Error)],
        outgoing => not_sealed(outgoing),
    }
}

/// Whether the membership of a conversation is known only in part.
pub open spec fn needs_roster(signed: Option<Signed>, conversation_id: Id) -> bool {
    signed matches Some(held) && held.members@.contains_key(conversation_id)
        && !held.members@[conversation_id].complete
}

/// The accounts that a conversation's messages are sealed for.
pub open spec fn audience_in(signed: Signed, conversation_id: Id) -> Seq<Id> {
    audience_of(signed.members@[conversation_id].ids@, signed.account.account_id)
}

/// What is asked for and told while nothing can be sealed for a conversation; `None` where
/// everything that sealing needs is known.
///
/// Nothing is sealed for a membership that is known only in part, nor while the devices of any of
/// its accounts are not known: what is missing is asked for, and the person told to try again.
pub open spec fn blocked(signed: Option<Signed>, conversation_id: Id) -> Option<Seq<Action>> {
    match signed {
        None => Some(Seq::empty()),
        Some(held) => if !held.members@.contains_key(conversation_id) {
            Some(Seq::empty())
        } else if needs_roster(signed, conversation_id) {
            Some(
                seq![
                    Action::Request(Request::ConversationRoster { conversation_id }),
                    toast(Notice::ReadingRoster, ToastKind::Info),
                ],
            )
        } else {
            let missing = missing_of(audience_in(held, conversation_id), held.devices@);
            if missing.len() > 0 {
                Some(
                    seq![
                        Action::Request(
                            Request::KeyBundleFetch { user_id: missing[0], device_id: None },
                        ),
                        toast(Notice::FetchingKeys, ToastKind::Info),
                    ],
                )
            } else {
                None
            }
        },
    }
}

/// Some content, sealed, and the chain it is sealed under.
pub struct SealedContent {
    pub envelope: Vec<u8>,
    pub chain_id: u32,
}

/// The request that carries some sealed content.
pub open spec fn carries(
    conversation_id: Id,
    outgoing: Outgoing,
    sealed: SealedContent,
) -> Request {
    match outgoing {
        Outgoing::Message { message_id, kind, expires_in_ms } => Request::MessageSend {
            message_id,
            conversation_id,
            kind,
            envelope: sealed.envelope,
            expires_in_ms,
            sender_key_id: sealed.chain_id,
        },
        Outgoing::Reaction { target_message_id } => Request::ReactionSet {
            target_message_id,
            conversation_id,
            envelope: sealed.envelope,
        },
        Outgoing::Edit { message_id } => Request::MessageEdit {
            message_id,
            conversation_id,
            envelope: sealed.envelope,
        },
    }
}

fn carry(conversation_id: Id, outgoing: Outgoing, sealed: SealedContent) -> (request: Request)
    ensures
        request == carries(conversation_id, outgoing, sealed),
{
    match outgoing {
        Outgoing::Message { message_id, kind, expires_in_ms } => Request::MessageSend {
            message_id,
            conversation_id,
            kind,
            envelope: sealed.envelope,
            expires_in_ms,
            sender_key_id: sealed.chain_id,
        },
        Outgoing::Reaction { target_message_id } => Request::ReactionSet {
            target_message_id,
            conversation_id,
            envelope: sealed.envelope,
        },
        Outgoing::Edit { message_id } => Request::MessageEdit {
            message_id,
            conversation_id,
            envelope: sealed.envelope,
        },
    }
}

/// Some content on its way out, by what it waits for.
pub enum Sending {
    /// The content, encoded.
    Encoding { conversation_id: Id, outgoing: Outgoing },
    /// The conversation's chain, sealed for each device that lacks it.
    Handing { conversation_id: Id, outgoing: Outgoing, plaintext: Vec<u8> },
    /// The content, sealed under the chain.
    Sealing { conversation_id: Id, outgoing: Outgoing },
    Ended,
}

/// What came of a step of a send.
pub enum SendEvent {
    Encoded(Option<Vec<u8>>),
    /// What sealing the chain came to, device by device.
    Handed(Vec<(Id, DeviceSeal)>),
    Sealed(Option<SealedContent>),
}

/// What a send asks for next.
#[allow(inconsistent_fields)]
pub enum SendAsk {
    /// Nothing: it still waits for what it asked before.
    Wait,
    /// Seal the chain as it stands now, for each of these accounts' devices that lacks it.
    SealChain { conversation_id: Id, targets: Vec<(Id, Id)> },
    /// Carry these out, note the chain as handed to these devices, and only then seal the content.
    SealContent {
        conversation_id: Id,
        exchanges: Vec<Action>,
        handed: Vec<Id>,
        plaintext: Vec<u8>,
    },
    /// Carry these out; the send is over.
    End { told: Vec<Action> },
}

/// Whether a send is over, having done these things.
pub open spec fn sent(to: Sending, ask: SendAsk, told: Seq<Action>) -> bool {
    &&& to == Sending::Ended
    &&& ask matches SendAsk::End { told: done } && done@ == told
}

/// Whether a send goes from one state to another, on an event.
pub open spec fn send_goes(
    signed: Option<Signed>,
    asked: Asks,
    from: Sending,
    event: SendEvent,
    to: Sending,
    left: Asks,
    ask: SendAsk,
) -> bool {
    match (from, event) {
        (Sending::Encoding { conversation_id, outgoing }, SendEvent::Encoded(encoded)) => {
            match encoded {
                None => left == asked && sent(to, ask, unencoded(outgoing)),
                Some(plaintext) => {
                    &&& left == (if needs_roster(signed, conversation_id) {
                        Asks { pending_roster: Some(conversation_id), ..asked }
                    } else {
                        asked
                    })
                    &&& match blocked(signed, conversation_id) {
                        Some(missing) => sent(to, ask, missing + unsealed(outgoing)),
                        None => {
                            &&& to == (Sending::Handing { conversation_id, outgoing, plaintext })
                            &&& ask matches SendAsk::SealChain { conversation_id: c, targets } && c
                                == conversation_id && targets@ == targets_of(
                                audience_in(signed.unwrap(), conversation_id),
                                signed.unwrap().devices@,
                                signed.unwrap().account.device_id,
                            )
                        },
                    }
                },
            }
        },
        (Sending::Handing { conversation_id, outgoing, plaintext }, SendEvent::Handed(seals)) => {
            &&& left == asked
            &&& to == (Sending::Sealing { conversation_id, outgoing })
            &&& ask matches SendAsk::SealContent {
                conversation_id: c,
                exchanges,
                handed,
                plaintext: content,
            } && c == conversation_id && exchanges@ == exchanges_of(conversation_id, seals@)
                && handed@ == reached(seals@) && content == plaintext
        },
        (Sending::Sealing { conversation_id, outgoing }, SendEvent::Sealed(outcome)) => {
            &&& left == asked
            &&& match outcome {
                None => sent(to, ask, unsealed(outgoing)),
                Some(sealed) => sent(
                    to,
                    ask,
                    seq![Action::Request(carries(conversation_id, outgoing, sealed))],
                ),
            }
        },
        _ => left == asked && to == from && ask == SendAsk::Wait,
    }
}

/// A send's next step: encoded, handed to its audience, sealed, sent. Every send goes through
/// here; they differ in what they seal, never in whom it goes to. An event that is not waited for
/// is not heard.
///
/// The chain is handed out as it stands before the content is sealed: handed out after, it would
/// open everything but the content it was handed out for.
pub fn envelope_for(
    signed: &Option<Signed>,
    asks: &mut Asks,
    from: Sending,
    event: SendEvent,
) -> (r: (Sending, SendAsk))
    ensures
        send_goes(*signed, *old(asks), from, event, r.0, *final(asks), r.1),
{
    match (from, event) {
        (Sending::Encoding { conversation_id, outgoing }, SendEvent::Encoded(encoded)) => {
            match encoded {
                None => (Sending::Ended, SendAsk::End { told: not_encoded(outgoing) }),
                Some(plaintext) => match audience(signed, asks, conversation_id) {
                    Ok(targets) => (
                        Sending::Handing { conversation_id, outgoing, plaintext },
                        SendAsk::SealChain { conversation_id, targets },
                    ),
                    Err(missing) => {
                        let mut told: Vec<Action> = missing;
                        let mut failed: Vec<Action> = not_sealed(outgoing);
                        told.append(&mut failed);
                        (Sending::Ended, SendAsk::End { told })
                    },
                },
            }
        },
        (Sending::Handing { conversation_id, outgoing, plaintext }, SendEvent::Handed(seals)) => {
            let (exchanges, handed): (Vec<Action>, Vec<Id>) = key_exchanges(conversation_id, seals);
            (
                Sending::Sealing { conversation_id, outgoing },
                SendAsk::SealContent { conversation_id, exchanges, handed, plaintext },
            )
        },
        (Sending::Sealing { conversation_id, outgoing }, SendEvent::Sealed(outcome)) => {
            match outcome {
                None => (Sending::Ended, SendAsk::End { told: not_sealed(outgoing) }),
                Some(sealed) => {
                    let request: Request = carry(conversation_id, outgoing, sealed);
                    let told: Vec<Action> = vec![Action::Request(request)];
                    assert(told@ =~= seq![Action::Request(request)]);
                    (Sending::Ended, SendAsk::End { told })
                },
            }
        },
        (from, _) => (from, SendAsk::Wait),
    }
}

/// The devices that a conversation's messages are sealed for, or what is missing to know them.
fn audience(
    signed: &Option<Signed>,
    asks: &mut Asks,
    conversation_id: Id,
) -> (r: Result<Vec<(Id, Id)>, Vec<Action>>)
    ensures
        *final(asks) == (if needs_roster(*signed, conversation_id) {
            Asks { pending_roster: Some(conversation_id), ..*old(asks) }
        } else {
            *old(asks)
        }),
        match blocked(*signed, conversation_id) {
            Some(missing) => r matches Err(told) && told@ == missing,
            None => r matches Ok(targets) && targets@ == targets_of(
                audience_in(signed.unwrap(), conversation_id),
                signed.unwrap().devices@,
                signed.unwrap().account.device_id,
            ),
        },
{
    let held: &Signed = match signed {
        Some(held) => held,
        None => {
            return Err(Vec::new());
        },
    };
    let cached: Option<&MemberCache> = held.members.get(&conversation_id);
    match seal_plan(cached, &held.devices, &held.identity()) {
        SealPlan::Unprimed => Err(Vec::new()),
        SealPlan::NeedRoster => {
            asks.pending_roster = Some(conversation_id);
            Err(
                vec![
                    Action::Request(Request::ConversationRoster { conversation_id }),
                    toasted(Notice::ReadingRoster, ToastKind::Info),
                ],
            )
        },
        SealPlan::NeedKeys(user_id) => Err(
            vec![
                Action::Request(Request::KeyBundleFetch { user_id, device_id: None }),
                toasted(Notice::FetchingKeys, ToastKind::Info),
            ],
        ),
        SealPlan::Seal(targets) => Ok(targets),
    }
}

/// A chain reaches every device of every account in the audience but the one that sends.
pub proof fn law_the_chain_reaches_the_audience(
    audience: Seq<Id>,
    devices: Map<Id, Vec<Id>>,
    mine: Id,
    user: Id,
    device: Id,
)
    requires
        audience.contains(user),
        devices.contains_key(user),
        devices[user]@.contains(device),
        device != mine,
    ensures
        targets_of(audience, devices, mine).contains((user, device)),
    decreases audience.len(),
{
    if audience.len() > 0 {
        let before = targets_of(audience.drop_last(), devices, mine);
        let all = targets_of(audience, devices, mine);
        if audience.last() == user {
            let others = other_devices(devices[user]@, mine);
            lemma_kept(devices[user]@, mine, device);
            let m = choose|m: int| 0 <= m < others.len() && others[m] == device;
            assert(all[before.len() + m] == (user, device));
        } else {
            let k = choose|k: int| 0 <= k < audience.len() && audience[k] == user;
            assert(audience.drop_last()[k] == user);
            law_the_chain_reaches_the_audience(audience.drop_last(), devices, mine, user, device);
            let m = choose|m: int| 0 <= m < before.len() && before[m] == (user, device);
            assert(all[m] == (user, device));
        }
    }
}

proof fn lemma_kept(devices: Seq<Id>, mine: Id, device: Id)
    requires
        devices.contains(device),
        device != mine,
    ensures
        other_devices(devices, mine).contains(device),
    decreases devices.len(),
{
    let kept = other_devices(devices, mine);
    if devices.last() == device {
        assert(kept.last() == device);
    } else {
        let k = choose|k: int| 0 <= k < devices.len() && devices[k] == device;
        assert(devices.drop_last()[k] == device);
        lemma_kept(devices.drop_last(), mine, device);
        let before = other_devices(devices.drop_last(), mine);
        let m = choose|m: int| 0 <= m < before.len() && before[m] == device;
        assert(kept[m] == device);
    }
}

/// The audience is every member and this account itself, so that its other devices hear what it
/// sends.
pub proof fn law_the_account_hears_itself(members: Seq<Id>, me: Id)
    ensures
        audience_of(members, me).contains(me),
        forall|id: Id| members.contains(id) ==> #[trigger] audience_of(members, me).contains(id),
{
    let audience = audience_of(members, me);
    if !members.contains(me) {
        assert(audience[members.len() as int] == me);
    }
    assert forall|id: Id| members.contains(id) implies #[trigger] audience.contains(id) by {
        let k = choose|k: int| 0 <= k < members.len() && members[k] == id;
        assert(audience[k] == id);
    }
}

/// What a send carries leaves this device only sealed: whatever else it asks the server for is a
/// roster, key bundles, or a chain sealed for one device.
pub proof fn law_content_leaves_only_sealed(
    signed: Option<Signed>,
    asked: Asks,
    from: Sending,
    event: SendEvent,
    to: Sending,
    left: Asks,
    ask: SendAsk,
    i: int,
)
    requires
        send_goes(signed, asked, from, event, to, left, ask),
    ensures
        match ask {
            SendAsk::End { told } => 0 <= i < told@.len() ==> match told@[i] {
                Action::Request(Request::MessageSend { envelope, .. }) => seals_as(event, envelope),
                Action::Request(Request::ReactionSet { envelope, .. }) => seals_as(event, envelope),
                Action::Request(Request::MessageEdit { envelope, .. }) => seals_as(event, envelope),
                Action::Request(request) => request is ConversationRoster || request
                    is KeyBundleFetch,
                Action::Emit(event) => event is Toast || event is SendFailed,
                _ => false,
            },
            SendAsk::SealContent { exchanges, .. } => 0 <= i < exchanges@.len() ==> (
            exchanges@[i] matches Action::Request(request) && request is KeyExchange),
            _ => true,
        },
{
    match (from, event) {
        (Sending::Handing { conversation_id, .. }, SendEvent::Handed(seals)) => {
            if 0 <= i < exchanges_of(conversation_id, seals@).len() {
                lemma_exchange(conversation_id, seals@, i);
            }
        },
        _ => {},
    }
}

/// Whether an event sealed some content to this envelope.
pub open spec fn seals_as(event: SendEvent, envelope: Vec<u8>) -> bool {
    event matches SendEvent::Sealed(Some(sealed)) && sealed.envelope == envelope
}

proof fn lemma_exchange(conversation_id: Id, seals: Seq<(Id, DeviceSeal)>, i: int)
    requires
        0 <= i < exchanges_of(conversation_id, seals).len(),
    ensures
        exchanges_of(conversation_id, seals)[i] matches Action::Request(request) && request
            is KeyExchange,
    decreases seals.len(),
{
    if i < exchanges_of(conversation_id, seals.drop_last()).len() {
        lemma_exchange(conversation_id, seals.drop_last(), i);
    }
}

/// Content is sealed only for a membership that is whole and whose devices are all known, and only
/// after the chain was offered to every one of them.
pub proof fn law_the_chain_goes_before_the_content(
    signed: Option<Signed>,
    asked: Asks,
    from: Sending,
    event: SendEvent,
    to: Sending,
    left: Asks,
    ask: SendAsk,
)
    requires
        send_goes(signed, asked, from, event, to, left, ask),
    ensures
        ask is SealContent ==> from is Handing && event is Handed,
        to is Handing && !(from is Handing) ==> {
            &&& signed matches Some(held)
            &&& held.members@.contains_key(from->Encoding_conversation_id)
            &&& held.members@[from->Encoding_conversation_id].complete
            &&& missing_of(audience_in(held, from->Encoding_conversation_id), held.devices@).len()
                == 0
            &&& ask is SealChain
        },
{
}

/// A text on its way: the row that shows it at once, and what is sealed for it.
pub struct TextSend {
    pub row: Message,
    pub content: Content,
    pub outgoing: Outgoing,
}

/// Shows a text at once as being sent, and states what goes out. The lifetime rides twice: in the
/// content each receiver counts down by, and in the request the server reads.
pub fn send_text(
    signed: &Signed,
    message_id: Id,
    conversation_id: Id,
    text: String,
    expires_in_ms: Option<u32>,
    now: Timestamp,
) -> (send: TextSend)
    ensures
        send.row.message_id == message_id,
        send.row.conversation_id == conversation_id,
        send.row.seq == 0,
        send.row.sender_id == signed.account.account_id,
        send.row.outgoing,
        send.row.body matches Body::Text(shown) && shown@ == text@,
        send.row.sent_at == now,
        send.row.delivery == Delivery::Sending,
        !send.row.deleted,
        !send.row.edited,
        send.row.expires_at == deadline_of(now, expires_in_ms),
        send.content == (Content::Text { text, expires_in_ms }),
        send.outgoing == (Outgoing::Message { message_id, kind: SendKind::Text, expires_in_ms }),
{
    TextSend {
        row: Message {
            message_id,
            conversation_id,
            seq: 0,
            sender_id: signed.account.account_id,
            outgoing: true,
            body: Body::Text(text.clone()),
            sent_at: now,
            delivery: Delivery::Sending,
            deleted: false,
            edited: false,
            expires_at: deadline(now, expires_in_ms),
        },
        content: Content::Text { text, expires_in_ms },
        outgoing: Outgoing::Message { message_id, kind: SendKind::Text, expires_in_ms },
    }
}

/// What a reaction seals. Reactions are only ever added.
pub fn send_reaction(target_message_id: Id, emoji: String) -> (r: (Content, Outgoing))
    ensures
        r.0 == (Content::Reaction { target_message_id, emoji, remove: false }),
        r.1 == (Outgoing::Reaction { target_message_id }),
{
    (
        Content::Reaction { target_message_id, emoji, remove: false },
        Outgoing::Reaction { target_message_id },
    )
}

/// What an edit seals. It has no lifetime of its own: the row keeps the deadline it was sent with.
pub fn edit_message(message_id: Id, text: String) -> (r: (Content, Outgoing))
    ensures
        r.0 == (Content::Text { text, expires_in_ms: None }),
        r.1 == (Outgoing::Edit { message_id }),
{
    (Content::Text { text, expires_in_ms: None }, Outgoing::Edit { message_id })
}

/// Withdraws a message, for everyone: the wire knows nothing else.
pub fn delete_message(conversation_id: Id, message_id: Id) -> (action: Action)
    ensures
        action == Action::Request(
            (Request::MessageDelete { conversation_id, message_id, for_everyone: true }),
        ),
{
    Action::Request(Request::MessageDelete { conversation_id, message_id, for_everyone: true })
}

/// What sealing a chain for one device came to.
pub enum DeviceSeal {
    /// The device holds the chain already.
    NotNeeded,
    /// There is no session with the device, and no bundle to start one from.
    NoSession,
    /// The sealed chain could not be encoded.
    Unencodable,
    Sealed(Vec<u8>),
}

/// What sealing a chain for one device asks for on the way of a send: a device whose bundle starts
/// no session is skipped, and offered the chain by the next send again.
pub open spec fn exchange_of(conversation_id: Id, seal: DeviceSeal) -> Seq<Action> {
    match seal {
        DeviceSeal::Sealed(envelope) => seq![
            Action::Request(Request::KeyExchange { conversation_id, envelope }),
        ],
        _ => Seq::empty(),
    }
}

/// The requests that hand a chain to some devices, in order.
pub open spec fn exchanges_of(conversation_id: Id, seals: Seq<(Id, DeviceSeal)>) -> Seq<Action>
    decreases seals.len(),
{
    if seals.len() == 0 {
        Seq::empty()
    } else {
        exchanges_of(conversation_id, seals.drop_last()) + exchange_of(
            conversation_id,
            seals.last().1,
        )
    }
}

/// The devices that some seals reach, in order: those whose copy went out.
pub open spec fn reached(seals: Seq<(Id, DeviceSeal)>) -> Seq<Id>
    decreases seals.len(),
{
    if seals.len() == 0 {
        Seq::empty()
    } else if seals.last().1 is Sealed {
        reached(seals.drop_last()).push(seals.last().0)
    } else {
        reached(seals.drop_last())
    }
}

/// Hands a chain to the devices that lack it before the content is sealed, and says which devices
/// hold it from now on.
pub fn key_exchanges(
    conversation_id: Id,
    seals: Vec<(Id, DeviceSeal)>,
) -> (r: (Vec<Action>, Vec<Id>))
    ensures
        r.0@ == exchanges_of(conversation_id, seals@),
        r.1@ == reached(seals@),
{
    let ghost all = seals@;
    let mut out: Vec<Action> = Vec::new();
    let mut marked: Vec<Id> = Vec::new();
    assert(all.take(0) =~= Seq::<(Id, DeviceSeal)>::empty());
    for entry in it: seals
        invariant
            it.seq() == all,
            out@ == exchanges_of(conversation_id, all.take(it.index() as int)),
            marked@ == reached(all.take(it.index() as int)),
    {
        let ghost next = all.take(it.index() + 1);
        assert(next.drop_last() =~= all.take(it.index() as int));
        assert(next.last() == entry);
        let ghost before = out@;
        let (device, seal): (Id, DeviceSeal) = entry;
        match seal {
            DeviceSeal::Sealed(envelope) => {
                out.push(Action::Request(Request::KeyExchange { conversation_id, envelope }));
                marked.push(device);
            },
            _ => {},
        }
        assert(out@ =~= exchanges_of(conversation_id, next));
    }
    assert(all.take(all.len() as int) =~= all);
    (out, marked)
}

/// What sealing a rotated chain for one device asks for: a device without a session has its bundle
/// fetched, for the next change to reach it.
pub open spec fn redistribution_of(
    conversation_id: Id,
    from_device: Id,
    to: (Id, Id),
    seal: DeviceSeal,
) -> Seq<Action> {
    match seal {
        DeviceSeal::NotNeeded | DeviceSeal::Unencodable => Seq::empty(),
        DeviceSeal::NoSession => seq![
            Action::Request(Request::KeyBundleFetch { user_id: to.0, device_id: Some(to.1) }),
        ],
        DeviceSeal::Sealed(sealed_distribution) => seq![
            Action::Request(
                Request::GroupKeyDistribute {
                    conversation_id,
                    from_device,
                    to_account: to.0,
                    to_device: to.1,
                    sealed_distribution,
                },
            ),
        ],
    }
}

/// What handing a rotated chain to some devices asks for, in order.
pub open spec fn redistributions_of(
    conversation_id: Id,
    from_device: Id,
    seals: Seq<((Id, Id), DeviceSeal)>,
) -> Seq<Action>
    decreases seals.len(),
{
    if seals.len() == 0 {
        Seq::empty()
    } else {
        redistributions_of(conversation_id, from_device, seals.drop_last()) + redistribution_of(
            conversation_id,
            from_device,
            seals.last().0,
            seals.last().1,
        )
    }
}

/// Hands a rotated chain to the devices of a group.
pub fn redistributions(
    conversation_id: Id,
    from_device: Id,
    seals: Vec<((Id, Id), DeviceSeal)>,
) -> (out: Vec<Action>)
    ensures
        out@ == redistributions_of(conversation_id, from_device, seals@),
{
    let ghost all = seals@;
    let mut out: Vec<Action> = Vec::new();
    assert(all.take(0) =~= Seq::<((Id, Id), DeviceSeal)>::empty());
    for entry in it: seals
        invariant
            it.seq() == all,
            out@ == redistributions_of(conversation_id, from_device, all.take(it.index() as int)),
    {
        let ghost next = all.take(it.index() + 1);
        assert(next.drop_last() =~= all.take(it.index() as int));
        assert(next.last() == entry);
        let ((to_account, to_device), seal): ((Id, Id), DeviceSeal) = entry;
        match seal {
            DeviceSeal::NotNeeded | DeviceSeal::Unencodable => {},
            DeviceSeal::NoSession => {
                out.push(
                    Action::Request(
                        Request::KeyBundleFetch { user_id: to_account, device_id: Some(to_device) },
                    ),
                );
            },
            DeviceSeal::Sealed(sealed_distribution) => {
                out.push(
                    Action::Request(
                        Request::GroupKeyDistribute {
                            conversation_id,
                            from_device,
                            to_account,
                            to_device,
                            sealed_distribution,
                        },
                    ),
                );
            },
        }
        assert(out@ =~= redistributions_of(conversation_id, from_device, next));
    }
    assert(all.take(all.len() as int) =~= all);
    out
}

/// A send whose content was sealed ends in one request, of its own kind: a message goes out as a
/// message under its id, an edit edits its message, a reaction sets itself on its target; each in
/// its own conversation, with the sealed envelope.
pub proof fn law_a_send_goes_out_as_its_own_kind(
    signed: Option<Signed>,
    asked: Asks,
    conversation_id: Id,
    outgoing: Outgoing,
    sealed: SealedContent,
    to: Sending,
    left: Asks,
    ask: SendAsk,
)
    requires
        send_goes(
            signed,
            asked,
            Sending::Sealing { conversation_id, outgoing },
            SendEvent::Sealed(Some(sealed)),
            to,
            left,
            ask,
        ),
    ensures
        to is Ended,
        left == asked,
        ask is End,
        ask->told@.len() == 1,
        ask->told@[0] is Request,
        ({
            let request = ask->told@[0]->Request_0;
            match outgoing {
                Outgoing::Message { message_id, kind, expires_in_ms } => {
                    &&& request is MessageSend
                    &&& request->MessageSend_message_id == message_id
                    &&& request->MessageSend_conversation_id == conversation_id
                    &&& request->MessageSend_kind == kind
                    &&& request->MessageSend_envelope == sealed.envelope
                    &&& request->MessageSend_expires_in_ms == expires_in_ms
                    &&& request->MessageSend_sender_key_id == sealed.chain_id
                },
                Outgoing::Reaction { target_message_id } => {
                    &&& request is ReactionSet
                    &&& request->ReactionSet_target_message_id == target_message_id
                    &&& request->ReactionSet_conversation_id == conversation_id
                    &&& request->ReactionSet_envelope == sealed.envelope
                },
                Outgoing::Edit { message_id } => {
                    &&& request is MessageEdit
                    &&& request->MessageEdit_message_id == message_id
                    &&& request->MessageEdit_conversation_id == conversation_id
                    &&& request->MessageEdit_envelope == sealed.envelope
                },
            }
        }),
{
}

/// What a send is for does not change on its way: each step keeps its conversation, what it sends,
/// and the very bytes that were encoded.
pub proof fn law_a_send_stays_itself(
    signed: Option<Signed>,
    asked: Asks,
    from: Sending,
    event: SendEvent,
    to: Sending,
    left: Asks,
    ask: SendAsk,
)
    requires
        send_goes(signed, asked, from, event, to, left, ask),
    ensures
        to is Encoding ==> to == from,
        to is Handing && from is Encoding ==> {
            &&& to->Handing_conversation_id == from->Encoding_conversation_id
            &&& to->Handing_outgoing == from->Encoding_outgoing
            &&& event == SendEvent::Encoded(Some(to->Handing_plaintext))
            &&& ask is SealChain
            &&& ask->SealChain_conversation_id == from->Encoding_conversation_id
        },
        to is Handing ==> from is Encoding || to == from,
        to is Sealing && from is Handing ==> {
            &&& to->Sealing_conversation_id == from->Handing_conversation_id
            &&& to->Sealing_outgoing == from->Handing_outgoing
            &&& ask is SealContent
            &&& ask->SealContent_conversation_id == from->Handing_conversation_id
            &&& ask->SealContent_plaintext == from->Handing_plaintext
        },
        to is Sealing ==> from is Handing || to == from,
        from is Handing && event is Handed ==> to is Sealing,
        ask is Wait ==> to == from && left == asked,
{
}

/// A chain is sealed for exactly the known devices of the conversation's members and of this
/// account, without this one; and only where the membership is whole and every account's devices
/// are known.
pub proof fn law_content_is_sealed_for_every_member(
    signed: Signed,
    asked: Asks,
    conversation_id: Id,
    outgoing: Outgoing,
    plaintext: Vec<u8>,
    to: Sending,
    left: Asks,
    ask: SendAsk,
    user: Id,
    device: Id,
)
    requires
        send_goes(
            Some(signed),
            asked,
            Sending::Encoding { conversation_id, outgoing },
            SendEvent::Encoded(Some(plaintext)),
            to,
            left,
            ask,
        ),
    ensures
        ask is SealChain || ask is End,
        ask is SealChain ==> {
            &&& signed.members@.contains_key(conversation_id)
            &&& signed.members@[conversation_id].complete
            &&& signed.members@[conversation_id].ids@.contains(user) || user
                == signed.account.account_id ==> signed.devices@.contains_key(user)
            &&& ask->targets@.contains((user, device)) <==> (
            signed.members@[conversation_id].ids@.contains(user) || user
                == signed.account.account_id) && signed.devices@[user]@.contains(device) && device
                != signed.account.device_id
        },
        ask is End && signed.members@.contains_key(conversation_id)
            && signed.members@[conversation_id].complete ==> exists|lacking: Id| #[trigger]
            missing_of(audience_in(signed, conversation_id), signed.devices@).contains(lacking)
                && !signed.devices@.contains_key(lacking),
{
    if signed.members@.contains_key(conversation_id) {
        let audience = audience_in(signed, conversation_id);
        let missing = missing_of(audience, signed.devices@);
        crate::sealing::law_the_audience_is_the_members_and_the_sender(
            signed.members@[conversation_id].ids@,
            signed.account.account_id,
            user,
        );
        crate::sealing::law_a_chain_is_for_the_audiences_devices(
            audience,
            signed.devices@,
            signed.account.device_id,
            user,
            device,
        );
        crate::sealing::law_what_is_missing_is_not_known(audience, signed.devices@, user);
        if missing.len() > 0 {
            assert(missing.contains(missing[0]));
            crate::sealing::law_what_is_missing_is_not_known(audience, signed.devices@, missing[0]);
        }
    }
}

/// While something is missing nothing is sealed: the roster of a membership known in part is asked
/// for, or the bundles of an account of the audience whose devices are not known; and a message's
/// own row is told to have failed.
pub proof fn law_what_is_missing_is_asked_for(
    signed: Signed,
    asked: Asks,
    conversation_id: Id,
    outgoing: Outgoing,
    plaintext: Vec<u8>,
    to: Sending,
    left: Asks,
    ask: SendAsk,
)
    requires
        send_goes(
            Some(signed),
            asked,
            Sending::Encoding { conversation_id, outgoing },
            SendEvent::Encoded(Some(plaintext)),
            to,
            left,
            ask,
        ),
        ask is End,
    ensures
        to is Ended,
        outgoing is Message ==> ask->told@.len() > 0 && ask->told@.last() == Action::Emit(
            Event::SendFailed { message_id: outgoing->Message_message_id },
        ),
        !(outgoing is Message) ==> forall|i: int|
            0 <= i < ask->told@.len() ==> !(#[trigger] ask->told@[i] matches Action::Emit(
                Event::SendFailed { .. },
            )),
        signed.members@.contains_key(conversation_id)
            && !signed.members@[conversation_id].complete ==> {
            &&& left.pending_roster == Some(conversation_id)
            &&& ask->told@[0] == Action::Request(Request::ConversationRoster { conversation_id })
        },
        signed.members@.contains_key(conversation_id)
            && signed.members@[conversation_id].complete ==> {
            &&& left == asked
            &&& ask->told@[0] matches Action::Request(
                Request::KeyBundleFetch { user_id, device_id },
            ) && device_id is None && !signed.devices@.contains_key(user_id) && (
            signed.members@[conversation_id].ids@.contains(user_id) || user_id
                == signed.account.account_id)
        },
{
    if signed.members@.contains_key(conversation_id)
        && signed.members@[conversation_id].complete {
        let audience = audience_in(signed, conversation_id);
        let missing = missing_of(audience, signed.devices@);
        assert(missing.contains(missing[0]));
        crate::sealing::law_what_is_missing_is_not_known(audience, signed.devices@, missing[0]);
        crate::sealing::law_the_audience_is_the_members_and_the_sender(
            signed.members@[conversation_id].ids@,
            signed.account.account_id,
            missing[0],
        );
    }
}

/// Content that could not be encoded or sealed fails the row of its message, under its id; an edit
/// that could not be encoded is said to have failed.
pub proof fn law_what_cannot_be_sealed_is_told(
    signed: Option<Signed>,
    asked: Asks,
    from: Sending,
    event: SendEvent,
    to: Sending,
    left: Asks,
    ask: SendAsk,
)
    requires
        send_goes(signed, asked, from, event, to, left, ask),
        (from is Encoding && event == SendEvent::Encoded(None)) || (from is Sealing && event
            == SendEvent::Sealed(None)),
    ensures
        to is Ended,
        left == asked,
        ask is End,
        ({
            let outgoing = if from is Encoding {
                from->Encoding_outgoing
            } else {
                from->Sealing_outgoing
            };
            match outgoing {
                Outgoing::Message { message_id, .. } => {
                    &&& ask->told@.len() == 1
                    &&& ask->told@[0] is Emit
                    &&& ask->told@[0]->Emit_0 is SendFailed
                    &&& ask->told@[0]->Emit_0->SendFailed_message_id == message_id
                },
                Outgoing::Reaction { .. } => ask->told@.len() == 0,
                Outgoing::Edit { .. } => if from is Encoding {
                    &&& ask->told@.len() == 1
                    &&& ask->told@[0] is Emit
                    &&& ask->told@[0]->Emit_0 is Toast
                    &&& ask->told@[0]->Emit_0->Toast_notice == Notice::EditNotSealed
                    &&& ask->told@[0]->Emit_0->Toast_kind == ToastKind::Error
                } else {
                    ask->told@.len() == 0
                },
            }
        }),
{
}

/// Every device whose copy of the chain was sealed is handed it, in its conversation, and is then
/// noted as holding it; no other device is noted, and nothing else goes out.
pub proof fn law_every_sealed_copy_is_handed_over(
    conversation_id: Id,
    seals: Seq<(Id, DeviceSeal)>,
)
    ensures
        exchanges_of(conversation_id, seals).len() == reached(seals).len(),
        forall|i: int|
            0 <= i < seals.len() && (#[trigger] seals[i]).1 is Sealed ==> exists|k: int|
                0 <= k < reached(seals).len() && #[trigger] reached(seals)[k] == seals[i].0
                    && exchanges_of(conversation_id, seals)[k] == Action::Request(
                    Request::KeyExchange { conversation_id, envelope: seals[i].1->Sealed_0 },
                ),
    decreases seals.len(),
{
    if seals.len() > 0 {
        let front = seals.drop_last();
        let last = seals.last();
        let before = reached(front);
        let after = reached(seals);
        let sent = exchanges_of(conversation_id, front);
        let all = exchanges_of(conversation_id, seals);
        law_every_sealed_copy_is_handed_over(conversation_id, front);
        assert forall|i: int| 0 <= i < seals.len() && (#[trigger] seals[i]).1 is Sealed implies exists|
            k: int,
        |
            0 <= k < after.len() && #[trigger] after[k] == seals[i].0 && all[k] == Action::Request(
                Request::KeyExchange { conversation_id, envelope: seals[i].1->Sealed_0 },
            ) by {
            if i < front.len() {
                assert(front[i] == seals[i]);
                let k = choose|k: int|
                    0 <= k < before.len() && #[trigger] before[k] == front[i].0 && sent[k]
                        == Action::Request(
                        Request::KeyExchange { conversation_id, envelope: front[i].1->Sealed_0 },
                    );
                assert(after[k] == before[k]);
                assert(all[k] == sent[k]);
            } else {
                assert(after[before.len() as int] == last.0);
                assert(all[sent.len() as int] == Action::Request(
                    Request::KeyExchange { conversation_id, envelope: last.1->Sealed_0 },
                ));
            }
        }
    }
}

/// A device is noted as holding the chain only where its own copy was sealed.
pub proof fn law_only_sealed_copies_are_noted(seals: Seq<(Id, DeviceSeal)>, k: int)
    requires
        0 <= k < reached(seals).len(),
    ensures
        exists|i: int|
            0 <= i < seals.len() && (#[trigger] seals[i]).1 is Sealed && seals[i].0 == reached(
                seals,
            )[k],
    decreases seals.len(),
{
    let front = seals.drop_last();
    if k < reached(front).len() {
        law_only_sealed_copies_are_noted(front, k);
        let i = choose|i: int|
            0 <= i < front.len() && (#[trigger] front[i]).1 is Sealed && front[i].0 == reached(
                front,
            )[k];
        assert(seals[i] == front[i]);
        assert(reached(seals)[k] == reached(front)[k]);
    } else {
        assert(seals[seals.len() - 1].1 is Sealed);
    }
}

/// A rotated chain that was sealed for a device goes to that device, from this one, in its
/// conversation; a device without a session has its own bundle fetched; and nothing else is asked.
pub proof fn law_a_rotated_chain_reaches_its_device(
    conversation_id: Id,
    from_device: Id,
    seals: Seq<((Id, Id), DeviceSeal)>,
    i: int,
)
    requires
        0 <= i < seals.len(),
    ensures
        seals[i].1 is Sealed ==> redistributions_of(conversation_id, from_device, seals).contains(
            Action::Request(
                Request::GroupKeyDistribute {
                    conversation_id,
                    from_device,
                    to_account: seals[i].0.0,
                    to_device: seals[i].0.1,
                    sealed_distribution: seals[i].1->Sealed_0,
                },
            ),
        ),
        seals[i].1 is NoSession ==> redistributions_of(
            conversation_id,
            from_device,
            seals,
        ).contains(
            Action::Request(
                Request::KeyBundleFetch {
                    user_id: seals[i].0.0,
                    device_id: Some(seals[i].0.1),
                },
            ),
        ),
        redistributions_of(conversation_id, from_device, seals).len() == seals.filter(
            |seal: ((Id, Id), DeviceSeal)| seal.1 is Sealed || seal.1 is NoSession,
        ).len(),
    decreases seals.len(),
{
    let front = seals.drop_last();
    let before = redistributions_of(conversation_id, from_device, front);
    let all = redistributions_of(conversation_id, from_device, seals);
    lemma_redistributions(conversation_id, from_device, seals);
    if i < front.len() {
        assert(front[i] == seals[i]);
        law_a_rotated_chain_reaches_its_device(conversation_id, from_device, front, i);
        assert forall|action: Action| before.contains(action) implies all.contains(action) by {
            let k = choose|k: int| 0 <= k < before.len() && before[k] == action;
            assert(all[k] == action);
        }
    } else if seals[i].1 is Sealed || seals[i].1 is NoSession {
        assert(all[before.len() as int] == redistribution_of(
            conversation_id,
            from_device,
            seals[i].0,
            seals[i].1,
        )[0]);
    }
}

proof fn lemma_redistributions(
    conversation_id: Id,
    from_device: Id,
    seals: Seq<((Id, Id), DeviceSeal)>,
)
    ensures
        redistributions_of(conversation_id, from_device, seals).len() == seals.filter(
            |seal: ((Id, Id), DeviceSeal)| seal.1 is Sealed || seal.1 is NoSession,
        ).len(),
    decreases seals.len(),
{
    reveal(Seq::filter);
    if seals.len() > 0 {
        lemma_redistributions(conversation_id, from_device, seals.drop_last());
    }
}

/// A send waits for nothing but a membership that it lacks: no other question changes with any of
/// its steps, and that one only where it starts.
pub proof fn law_a_send_asks_only_for_its_roster(
    signed: Option<Signed>,
    asked: Asks,
    from: Sending,
    event: SendEvent,
    to: Sending,
    left: Asks,
    ask: SendAsk,
)
    requires
        send_goes(signed, asked, from, event, to, left, ask),
    ensures
        from !is Encoding ==> left == asked,
        event == SendEvent::Encoded(None) ==> left == asked,
        left == (Asks { pending_roster: left.pending_roster, ..asked }),
        left.pending_roster == asked.pending_roster || (from is Encoding && left.pending_roster
            == Some(from->Encoding_conversation_id)),
{
}

/// Some content is sealed to one envelope alone: the one that sealing it gave.
pub proof fn law_an_envelope_is_what_sealing_gave(event: SendEvent, envelope: Vec<u8>)
    ensures
        seals_as(event, envelope) <==> event is Sealed && event->Sealed_0 is Some
            && event->Sealed_0.unwrap().envelope == envelope,
{
}

} // verus!
