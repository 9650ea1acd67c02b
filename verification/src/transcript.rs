//! What arrives for a thread: live events, pages of history, and what was held for a key.

use vstd::prelude::*;

use crate::content::Message;
use crate::effects::{Action, Event};
use crate::sealing::{decrypt, is_shown, opened_into, row_shows, Arrival, MessageEvent};
use crate::signed::Signed;
use crate::sync::{PageKind, PageVerdict, Sync, SyncRequest, SyncView, SYNC_PAGE};
use crate::wire::{Id, MessageKind};

verus! {

/// Whether an event hands over a chain, rather than anything a thread can show.
pub open spec fn exchanges(event: MessageEvent) -> bool {
    event.kind == MessageKind::KeyExchange
}

/// The sync state, and the page it asks for, once a hole with this top was met.
pub open spec fn filling(sync: SyncView, conversation_id: Id, gap: Option<u64>) -> (
    SyncView,
    Seq<Action>,
) {
    match gap {
        None => (sync, Seq::empty()),
        Some(_) => if sync.refuses(conversation_id, gap) {
            (sync, Seq::empty())
        } else {
            (
                sync.walking(conversation_id, gap),
                seq![
                    Action::AskSync(
                        SyncRequest {
                            conversation_id,
                            have_seq: sync.watermark(conversation_id),
                            limit: SYNC_PAGE,
                            to_seq: gap,
                            backwards: None,
                        },
                    ),
                ],
            )
        },
    }
}

/// Starts the fill of a hole, from the watermark below it.
fn fill(sync: &mut Sync, conversation_id: Id, gap: Option<u64>, out: &mut Vec<Action>)
    ensures
        final(sync)@ == filling(old(sync)@, conversation_id, gap).0,
        final(out)@ == old(out)@ + filling(old(sync)@, conversation_id, gap).1,
        old(sync)@.wf() ==> final(sync)@.wf(),
{
    if gap.is_some() {
        let from: u64 = sync.watermark(conversation_id);
        if let Some(page) = sync.catch_up(conversation_id, from, gap) {
            out.push(Action::AskSync(page));
        }
    }
    assert(out@ =~= old(out)@ + filling(old(sync)@, conversation_id, gap).1);
}

/// The hole a seq opens, if it opens one.
pub open spec fn hole(sync: SyncView, conversation_id: Id, seq: u64) -> Option<u64> {
    if sync.account(conversation_id).leaps(seq) {
        Some(sync.account(conversation_id).after(seq).highest_seen)
    } else {
        None
    }
}

/// Whether a thread shows an arrival.
pub open spec fn appears(signed: Signed, arrival: Arrival) -> bool {
    is_shown(arrival.event, signed.me(), arrival.opened, arrival.adopted)
}

/// Whether a session changed by an arrival's opening and by nothing else.
pub open spec fn took_in(before: Signed, arrival: Arrival, after: Signed) -> bool {
    &&& opened_into(
        (before.held, before.media_keys),
        arrival,
        before.me(),
        (after.held, after.media_keys),
    )
    &&& after == (Signed { held: after.held, media_keys: after.media_keys, ..before })
}

fn open_row(signed: &mut Signed, arrival: Arrival) -> (row: Option<Message>)
    requires
        old(signed).held.wf(),
    ensures
        final(signed).held.wf(),
        took_in(*old(signed), arrival, *final(signed)),
        row is Some <==> appears(*old(signed), arrival),
        row matches Some(message) ==> row_shows(
            arrival.event,
            old(signed).me(),
            arrival.opened,
            message,
        ),
{
    let me = signed.identity();
    decrypt(&mut signed.held, &mut signed.media_keys, arrival, &me)
}

/// What an adopted chain is followed by: what was held for it is opened again.
pub open spec fn adopting(event: MessageEvent, adopted: bool) -> Seq<Action> {
    if adopted {
        seq![
            Action::Drain {
                conversation_id: event.conversation_id,
                sender_device: event.sender_device,
            },
        ]
    } else {
        Seq::empty()
    }
}

/// A key exchange: a chain that was adopted, or one sealed for another device, which is nothing.
fn on_key_exchange(event: &MessageEvent, adopted: bool) -> (out: Vec<Action>)
    ensures
        out@ == adopting(*event, adopted),
{
    if adopted {
        vec![
            Action::Drain {
                conversation_id: event.conversation_id,
                sender_device: event.sender_device,
            },
        ]
    } else {
        Vec::new()
    }
}

/// Whether some actions show an arrival and then do the rest.
pub open spec fn shows_first(
    signed: Signed,
    arrival: Arrival,
    rest: Seq<Action>,
    out: Seq<Action>,
) -> bool {
    &&& out.len() == 1 + rest.len()
    &&& out[0] matches Action::Emit(Event::Message(message)) && row_shows(
        arrival.event,
        signed.me(),
        arrival.opened,
        message,
    )
    &&& out.subrange(1, out.len() as int) == rest
}

/// Whether a live event was routed as it should be.
pub open spec fn event_routed(
    before: Signed,
    sync: SyncView,
    arrival: Arrival,
    after: Signed,
    synced: SyncView,
    out: Seq<Action>,
) -> bool {
    &&& sync.wf() ==> synced.wf()
    &&& ({
            let event = arrival.event;
            let routed = sync.routed(event.conversation_id, event.seq);
            let gap = hole(sync, event.conversation_id, event.seq);
            let (filled, rest) = filling(routed, event.conversation_id, gap);
            &&& synced == filled
            &&& if exchanges(event) {
                &&& out =~= adopting(event, arrival.adopted) + rest
                &&& after == before
            } else {
                &&& took_in(before, arrival, after)
                &&& !appears(before, arrival) ==> out =~= rest
                &&& appears(before, arrival) ==> shows_first(before, arrival, rest, out)
            }
        })
}

/// Routes one live event.
///
/// Its seq is accounted for first, whatever becomes of it: an event sealed for another device, or
/// one that cannot be read, consumes a number like any other, and opens a hole like any other. A key
/// exchange is adopted or nothing. Anything else is shown, or held. An event above a hole then
/// starts the hole's fill, which is the one place a missed frame heals without a reconnect.
pub fn route_event(signed: &mut Signed, sync: &mut Sync, arrival: Arrival) -> (out: Vec<Action>)
    requires
        old(signed).held.wf(),
    ensures
        final(signed).held.wf(),
        event_routed(*old(signed), old(sync)@, arrival, *final(signed), final(sync)@, out@),
{
    let conversation_id: Id = arrival.event.conversation_id;
    let gap: Option<u64> = sync.track_seq(conversation_id, arrival.event.seq);
    let ghost rest = filling(sync@, conversation_id, gap).1;
    let mut out: Vec<Action> = match arrival.event.kind {
        MessageKind::KeyExchange => on_key_exchange(&arrival.event, arrival.adopted),
        MessageKind::Content => match open_row(signed, arrival) {
            None => Vec::new(),
            Some(message) => vec![Action::Emit(Event::Message(message))],
        },
    };
    let ghost shown = out@;
    fill(sync, conversation_id, gap, &mut out);
    assert(out@.subrange(shown.len() as int, out@.len() as int) =~= rest);
    out
}

/// A chain was adopted outside the thread: what was held for it is opened again. One that was
/// sealed for another device is nothing.
pub fn on_group_key_distribute(
    conversation_id: Id,
    from_device: Id,
    adopted: bool,
) -> (out: Vec<Action>)
    ensures
        out@ == (if adopted {
            seq![Action::Drain { conversation_id, sender_device: from_device }]
        } else {
            Seq::empty()
        }),
{
    if adopted {
        vec![Action::Drain { conversation_id, sender_device: from_device }]
    } else {
        Vec::new()
    }
}

/// Takes out what is held of a sender, in the order it came, for it to be opened again.
pub fn drain_pending(
    signed: &mut Signed,
    conversation_id: Id,
    sender_device: Id,
) -> (events: Vec<MessageEvent>)
    requires
        old(signed).held.wf(),
    ensures
        final(signed).held.wf(),
        events@ == old(signed).held.of(conversation_id, sender_device),
        final(signed).held.of(conversation_id, sender_device).len() == 0,
        forall|c: Id, d: Id|
            (c != conversation_id || d != sender_device) ==> #[trigger] final(signed).held.of(c, d)
                == old(signed).held.of(c, d),
        *final(signed) == (Signed { held: final(signed).held, ..*old(signed) }),
{
    signed.held.take(conversation_id, sender_device)
}

/// Delivers one event that was held as if it had just arrived; one that still does not open is held
/// again.
pub fn redeliver(signed: &mut Signed, arrival: Arrival) -> (out: Vec<Action>)
    requires
        old(signed).held.wf(),
    ensures
        final(signed).held.wf(),
        took_in(*old(signed), arrival, *final(signed)),
        !appears(*old(signed), arrival) ==> out@.len() == 0,
        appears(*old(signed), arrival) ==> shows_first(
            *old(signed),
            arrival,
            Seq::empty(),
            out@,
        ),
{
    match open_row(signed, arrival) {
        None => Vec::new(),
        Some(message) => {
            let out: Vec<Action> = vec![Action::Emit(Event::Message(message))];
            assert(out@.subrange(1, 1) =~= Seq::<Action>::empty());
            out
        },
    }
}

/// A page of history being taken in.
pub struct Page {
    pub kind: PageKind,
    /// The conversation it belongs to: the one that was asked about, where it reads backwards.
    pub conversation_id: Id,
    /// The watermark from before the page.
    pub before: u64,
    /// What the page shows so far.
    pub messages: Vec<Message>,
    /// The hole the page opened, if it opened one.
    pub gap: Option<u64>,
}

/// A page of history arrived: the ask it answers is settled, and the page begins.
///
/// The answer names its conversation but not its direction: only the ask's own correlation tells an
/// earlier page, which belongs to the thread that asked, from a page of a walk.
pub fn page_begins(sync: &mut Sync, correlation: u32, conversation_id: Id) -> (page: Page)
    ensures
        final(sync)@ == (SyncView {
            sync_asks: old(sync)@.sync_asks.remove(correlation),
            earlier_asks: old(sync)@.earlier_asks.remove(correlation),
            ..old(sync)@
        }),
        old(sync)@.wf() ==> final(sync)@.wf(),
        page.kind == (if old(sync)@.earlier_asks.contains_key(correlation) {
            PageKind::Earlier(old(sync)@.earlier_asks[correlation])
        } else {
            PageKind::Forward
        }),
        page.conversation_id == (match page.kind {
            PageKind::Earlier(asked) => asked,
            PageKind::Forward => conversation_id,
        }),
        page.before == old(sync)@.watermark(page.conversation_id),
        page.messages@.len() == 0,
        page.gap is None,
{
    let kind: PageKind = sync.settle(correlation);
    let owner: Id = match kind {
        PageKind::Earlier(asked) => asked,
        PageKind::Forward => conversation_id,
    };
    Page {
        kind,
        conversation_id: owner,
        before: sync.watermark(owner),
        messages: Vec::new(),
        gap: None,
    }
}

/// Takes in one event of a page.
///
/// History replays through the same accounting as live traffic, in the server's order: a key
/// exchange in it is adopted, or what was sealed under it would stay closed. What it shows belongs
/// to the page.
pub fn page_event(
    signed: &mut Signed,
    sync: &mut Sync,
    page: &mut Page,
    arrival: Arrival,
) -> (out: Vec<Action>)
    requires
        old(signed).held.wf(),
    ensures
        final(signed).held.wf(),
        old(sync)@.wf() ==> final(sync)@.wf(),
        final(sync)@ == old(sync)@.routed(old(page).conversation_id, arrival.event.seq),
        final(page).gap == (match hole(
            old(sync)@,
            old(page).conversation_id,
            arrival.event.seq,
        ) {
            Some(top) => Some(top),
            None => old(page).gap,
        }),
        *final(page) == (Page {
            gap: final(page).gap,
            messages: final(page).messages,
            ..*old(page)
        }),
        exchanges(arrival.event) ==> {
            &&& out@ == adopting(arrival.event, arrival.adopted)
            &&& final(page).messages == old(page).messages
            &&& *final(signed) == *old(signed)
        },
        !exchanges(arrival.event) ==> {
            &&& out@.len() == 0
            &&& took_in(*old(signed), arrival, *final(signed))
            &&& !appears(*old(signed), arrival) ==> final(page).messages == old(page).messages
            &&& appears(*old(signed), arrival) ==> {
                &&& final(page).messages@.len() == old(page).messages@.len() + 1
                &&& final(page).messages@.drop_last() == old(page).messages@
                &&& row_shows(
                    arrival.event,
                    old(signed).me(),
                    arrival.opened,
                    final(page).messages@.last(),
                )
            }
        },
{
    let opened: Option<u64> = sync.track_seq(page.conversation_id, arrival.event.seq);
    if opened.is_some() {
        page.gap = opened;
    }
    match arrival.event.kind {
        MessageKind::KeyExchange => {
            return on_key_exchange(&arrival.event, arrival.adopted);
        },
        MessageKind::Content => {},
    }
    if let Some(message) = open_row(signed, arrival) {
        page.messages.push(message);
        assert(page.messages@.drop_last() =~= old(page).messages@);
    }
    Vec::new()
}

/// Every event of a page was taken in.
///
/// An earlier page is handed to the thread that asked, and the hole its top opened is filled. A page
/// of a walk asks for the next one, or ends the walk; and the thread hears that history remains
/// only from the last page of a walk to the live edge.
pub fn page_ends(sync: &mut Sync, page: Page, from_seq: u64, more: bool) -> (out: Vec<Action>)
    ensures
        old(sync)@.wf() ==> final(sync)@.wf(),
        match page.kind {
            PageKind::Earlier(_) => {
                &&& final(sync)@ == filling(old(sync)@, page.conversation_id, page.gap).0
                &&& out@ == seq![
                    Action::Emit(
                        Event::HistoryEarlier {
                            conversation_id: page.conversation_id,
                            messages: page.messages,
                            from_seq,
                            more,
                        },
                    ),
                ] + filling(old(sync)@, page.conversation_id, page.gap).1
            },
            PageKind::Forward => {
                let (after, verdict) = old(sync)@.after_page(
                    page.conversation_id,
                    page.before,
                    more,
                );
                &&& final(sync)@ == after
                &&& out@ == (match verdict.next {
                    Some(next) => seq![Action::AskSync(next)],
                    None => Seq::empty(),
                }) + seq![
                    Action::Emit(
                        Event::History {
                            conversation_id: page.conversation_id,
                            messages: page.messages,
                            more: verdict.more,
                        },
                    ),
                ]
            },
        },
{
    let conversation_id: Id = page.conversation_id;
    match page.kind {
        PageKind::Earlier(_) => {
            let mut out: Vec<Action> = vec![
                Action::Emit(
                    Event::HistoryEarlier {
                        conversation_id,
                        messages: page.messages,
                        from_seq,
                        more,
                    },
                ),
            ];
            fill(sync, conversation_id, page.gap, &mut out);
            out
        },
        PageKind::Forward => {
            let verdict: PageVerdict = sync.after_page(conversation_id, page.before, more);
            let mut out: Vec<Action> = Vec::new();
            if let Some(next) = verdict.next {
                out.push(Action::AskSync(next));
            }
            out.push(
                Action::Emit(
                    Event::History {
                        conversation_id,
                        messages: page.messages,
                        more: verdict.more,
                    },
                ),
            );
            out
        },
    }
}

/// A message accepted by the server.
pub fn on_accepted(message_id: Id, conversation_id: Id, seq: u64) -> (out: Vec<Action>)
    ensures
        out@ == seq![Action::Emit(Event::Accepted { message_id, conversation_id, seq })],
{
    vec![Action::Emit(Event::Accepted { message_id, conversation_id, seq })]
}

/// The floor a thread's history is read from: the watermark where the thread holds rows, the
/// beginning where it holds none.
pub fn history_floor(sync: &Sync, conversation_id: Id, held: bool) -> (from: u64)
    ensures
        from == (if held {
            sync@.watermark(conversation_id)
        } else {
            0
        }),
{
    if held {
        sync.watermark(conversation_id)
    } else {
        0
    }
}

/// A hole is filled from below: the page that a fill first asks for starts at the watermark, which
/// stands under the hole, and names the hole's top.
pub proof fn law_a_fill_starts_below_its_hole(sync: SyncView, conversation_id: Id, top: u64)
    requires
        !sync.refuses(conversation_id, Some(top)),
        sync.sequences.contains_key(conversation_id),
    ensures
        filling(sync, conversation_id, Some(top)).1.len() == 1,
        filling(sync, conversation_id, Some(top)).1[0] matches Action::AskSync(page)
            && page.have_seq == sync.watermark(conversation_id) && page.have_seq < top
            && page.to_seq == Some(top),
        filling(sync, conversation_id, Some(top)).0.catchups.contains_key(conversation_id),
{
}

/// Whatever a live event above a hole is, shown, held, adopted or sealed for another device, the
/// page that fills the hole is asked for, last, unless the fill is refused.
pub proof fn law_every_hole_is_filled(
    before: Signed,
    sync: SyncView,
    arrival: Arrival,
    after: Signed,
    synced: SyncView,
    out: Seq<Action>,
)
    requires
        event_routed(before, sync, arrival, after, synced, out),
        hole(sync, arrival.event.conversation_id, arrival.event.seq) is Some,
        !sync.routed(arrival.event.conversation_id, arrival.event.seq).refuses(
            arrival.event.conversation_id,
            hole(sync, arrival.event.conversation_id, arrival.event.seq),
        ),
    ensures
        out.len() > 0,
        out.last() matches Action::AskSync(page) && page.conversation_id
            == arrival.event.conversation_id && page.to_seq == hole(
            sync,
            arrival.event.conversation_id,
            arrival.event.seq,
        ) && page.have_seq == sync.routed(
            arrival.event.conversation_id,
            arrival.event.seq,
        ).watermark(arrival.event.conversation_id),
        synced.catchups.contains_key(arrival.event.conversation_id),
{
    let event = arrival.event;
    let routed = sync.routed(event.conversation_id, event.seq);
    let gap = hole(sync, event.conversation_id, event.seq);
    let rest = filling(routed, event.conversation_id, gap).1;
    assert(rest.len() == 1);
    if !exchanges(event) && appears(before, arrival) {
        assert(out.subrange(1, out.len() as int)[0] == out.last());
    }
}

/// A hole that is being filled, or that the server said it cannot fill, is not asked for again.
pub proof fn law_a_hole_is_asked_for_once(sync: SyncView, conversation_id: Id, gap: Option<u64>)
    ensures
        sync.catchups.contains_key(conversation_id) ==> filling(sync, conversation_id, gap) == (
            sync,
            Seq::<Action>::empty(),
        ),
        sync.sequences.contains_key(conversation_id) && sync.sequences[conversation_id].stalled_at
            == Some(sync.watermark(conversation_id)) ==> filling(sync, conversation_id, gap) == (
            sync,
            Seq::<Action>::empty(),
        ),
{
}

/// An event that becomes a row is shown first of all, as its own row; one that does not shows
/// nothing. A key exchange that was adopted opens what was held of its own sender, and shows nothing
/// either.
pub proof fn law_an_event_is_shown_or_held(
    before: Signed,
    sync: SyncView,
    arrival: Arrival,
    after: Signed,
    synced: SyncView,
    out: Seq<Action>,
)
    requires
        event_routed(before, sync, arrival, after, synced, out),
    ensures
        ({
            let event = arrival.event;
            let me = before.me();
            let exchange = event.kind == MessageKind::KeyExchange;
            &&& !exchange && is_shown(event, me, arrival.opened, arrival.adopted) ==> {
                &&& out.len() > 0
                &&& out[0] is Emit
                &&& out[0]->Emit_0 is Message
                &&& row_shows(event, me, arrival.opened, out[0]->Emit_0->Message_0)
                &&& out[0]->Emit_0->Message_0.message_id == event.message_id
                &&& out[0]->Emit_0->Message_0.conversation_id == event.conversation_id
            }
            &&& exchange || !is_shown(event, me, arrival.opened, arrival.adopted) ==> forall|i: int|
                0 <= i < out.len() ==> !(#[trigger] out[i] is Emit)
            &&& exchange && arrival.adopted ==> out.len() > 0 && out[0] == (Action::Drain {
                conversation_id: event.conversation_id,
                sender_device: event.sender_device,
            })
            &&& exchange && !arrival.adopted ==> forall|i: int|
                0 <= i < out.len() ==> !(#[trigger] out[i] is Drain)
            &&& exchange ==> after == before
        }),
{
}

/// Every live event is accounted for, whatever it is: its own conversation's account moves by its
/// number, and no other's.
pub proof fn law_every_event_is_accounted_for(
    before: Signed,
    sync: SyncView,
    arrival: Arrival,
    after: Signed,
    synced: SyncView,
    out: Seq<Action>,
    other: Id,
)
    requires
        event_routed(before, sync, arrival, after, synced, out),
        other != arrival.event.conversation_id,
    ensures
        synced.sequences.contains_key(arrival.event.conversation_id),
        synced.account(arrival.event.conversation_id).highest_seen >= arrival.event.seq,
        synced.account(arrival.event.conversation_id) == sync.account(
            arrival.event.conversation_id,
        ).after(arrival.event.seq),
        synced.account(other) == sync.account(other),
        synced.catchups.contains_key(other) <==> sync.catchups.contains_key(other),
{
}

/// An arrival changes of a session only what is held and the keys of attachments.
pub proof fn law_an_arrival_changes_only_what_is_held(
    before: Signed,
    arrival: Arrival,
    after: Signed,
)
    requires
        took_in(before, arrival, after),
    ensures
        after.account == before.account,
        after.members == before.members,
        after.devices == before.devices,
        after.e2e == before.e2e,
        after.conversations_watched == before.conversations_watched,
        after.rooms_watched == before.rooms_watched,
        after.room_conversations == before.room_conversations,
        after.access_token == before.access_token,
        opened_into(
            (before.held, before.media_keys),
            arrival,
            before.me(),
            (after.held, after.media_keys),
        ),
{
}

/// A hole is named by its top: the highest number ever routed; and there is one exactly where a
/// number leaps over the next one of what is held.
pub proof fn law_a_hole_is_named_by_its_top(sync: SyncView, conversation_id: Id, seq: u64)
    ensures
        hole(sync, conversation_id, seq) is Some <==> sync.sequences.contains_key(conversation_id)
            && sync.sequences[conversation_id].watermark > 0 && seq
            > sync.sequences[conversation_id].watermark + 1,
        hole(sync, conversation_id, seq) is Some ==> {
            let top = hole(sync, conversation_id, seq).unwrap();
            let highest = sync.sequences[conversation_id].highest_seen;
            top >= seq && top >= highest && (top == seq || top == highest)
        },
{
}

/// A fill asks for its own conversation's page, of the size of any page.
pub proof fn law_a_fill_asks_for_one_page(sync: SyncView, conversation_id: Id, gap: Option<u64>)
    ensures
        filling(sync, conversation_id, gap).1.len() <= 1,
        gap is None ==> filling(sync, conversation_id, gap) == (sync, Seq::<Action>::empty()),
        filling(sync, conversation_id, gap).1.len() == 1 ==> (filling(
            sync,
            conversation_id,
            gap,
        ).1[0] matches Action::AskSync(page) && page.conversation_id == conversation_id
            && page.limit == 200 && page.backwards is None && page.to_seq == gap),
        filling(sync, conversation_id, gap).0.sequences == sync.sequences,
{
}

} // verus!
