//! The wallet of the economy, the inbox, and the people one is suggested.

use vstd::prelude::*;

use crate::effects::{
    toast, toasted, Action, AlertRow, GiftRow, LedgerRow, Notice, PersonRow, Request, ToastKind,
};
use crate::text::{non_empty, some_text, trim, trimmed};
use crate::wire::{id_from_bytes, id_of_bytes, Id, Timestamp};

verus! {

/// The reads that make up the wallet, each answered by its own event.
pub open spec fn wallet_reads(me: Id) -> Seq<Action> {
    seq![
        Action::Request(Request::BalanceFetch),
        Action::Request(Request::LedgerHistory { limit: 10 }),
        Action::Request(Request::Progression { of_account: me }),
        Action::Request(Request::Badges { of_account: me }),
        Action::Request(Request::XpLeaderboard { limit: 10 }),
        Action::Request(Request::GiftCatalogue),
    ]
}

/// Reads the whole wallet.
pub fn request_wallet(me: Id) -> (out: Vec<Action>)
    ensures
        out@ == wallet_reads(me),
{
    vec![
        Action::Request(Request::BalanceFetch),
        Action::Request(Request::LedgerHistory { limit: 10 }),
        Action::Request(Request::Progression { of_account: me }),
        Action::Request(Request::Badges { of_account: me }),
        Action::Request(Request::XpLeaderboard { limit: 10 }),
        Action::Request(Request::GiftCatalogue),
    ]
}

/// The millisecond an acknowledgement names: one before the epoch counts as it.
pub open spec fn ack_millis(through_unix_ms: i64) -> int {
    if through_unix_ms < 0 {
        0
    } else {
        through_unix_ms as int
    }
}

/// The bytes of the id that names an instant: the six low bytes of its millisecond count, most
/// significant first, and zeros.
pub open spec fn instant_bytes(ms: int) -> Seq<u8> {
    seq![
        (ms / 0x100_0000_0000 % 256) as u8,
        (ms / 0x1_0000_0000 % 256) as u8,
        (ms / 0x100_0000 % 256) as u8,
        (ms / 0x1_0000 % 256) as u8,
        (ms / 0x100 % 256) as u8,
        (ms % 256) as u8,
        0,
        0,
        0,
        0,
        0,
        0,
        0,
        0,
        0,
        0,
    ]
}

/// Marks every notification at or before an instant read. The wire carries an id, and the server
/// reads the time out of its first bytes: this id names an instant and no entity.
pub fn acknowledge_alerts(through_unix_ms: i64) -> (action: Action)
    ensures
        action matches Action::Request(Request::NotificationAck { id }) && id == id_of_bytes(
            instant_bytes(ack_millis(through_unix_ms)),
        ),
{
    let ms: u64 = if through_unix_ms < 0 {
        0
    } else {
        through_unix_ms as u64
    };
    let bytes: [u8; 16] = [
        (ms / 0x100_0000_0000 % 256) as u8,
        (ms / 0x1_0000_0000 % 256) as u8,
        (ms / 0x100_0000 % 256) as u8,
        (ms / 0x1_0000 % 256) as u8,
        (ms / 0x100 % 256) as u8,
        (ms % 256) as u8,
        0,
        0,
        0,
        0,
        0,
        0,
        0,
        0,
        0,
        0,
    ];
    assert(bytes@ =~= instant_bytes(ack_millis(through_unix_ms)));
    Action::Request(Request::NotificationAck { id: id_from_bytes(bytes) })
}

/// One notification of the inbox.
pub struct Alert {
    pub id: Id,
    pub kind: String,
    pub title: Option<String>,
    pub at: Timestamp,
}

/// The row a notification is drawn as; an empty title is none.
pub open spec fn alert_row(alert: Alert) -> AlertRow {
    AlertRow { id: alert.id, kind: alert.kind, title: some_text(alert.title), at: alert.at }
}

/// The inbox came back.
pub fn on_alerts(alerts: Vec<Alert>) -> (rows: Vec<AlertRow>)
    ensures
        rows@ == alerts@.map_values(|alert: Alert| alert_row(alert)),
{
    let ghost all = alerts@;
    let mut rows: Vec<AlertRow> = Vec::new();
    for alert in it: alerts
        invariant
            it.seq() == all,
            rows@.len() == it.index(),
            forall|i: int| 0 <= i < rows@.len() ==> #[trigger] rows@[i] == alert_row(all[i]),
    {
        rows.push(
            AlertRow {
                id: alert.id,
                kind: alert.kind,
                title: non_empty(alert.title),
                at: alert.at,
            },
        );
    }
    rows
}

/// One line of the statement, with the sign its reason has.
pub struct LedgerEntry {
    pub credit: bool,
    pub reason: String,
    pub amount: u64,
    pub balance_after: u64,
    pub at: Timestamp,
}

/// The row a line of the statement is drawn as.
pub open spec fn ledger_row(entry: LedgerEntry) -> LedgerRow {
    LedgerRow {
        credit: entry.credit,
        reason: entry.reason,
        amount: entry.amount,
        balance_after: entry.balance_after,
        at: entry.at,
    }
}

/// The statement came back. The sign is the reason's, never the amount's.
pub fn on_ledger(entries: Vec<LedgerEntry>) -> (rows: Vec<LedgerRow>)
    ensures
        rows@ == entries@.map_values(|entry: LedgerEntry| ledger_row(entry)),
{
    let ghost all = entries@;
    let mut rows: Vec<LedgerRow> = Vec::new();
    for entry in it: entries
        invariant
            it.seq() == all,
            rows@.len() == it.index(),
            forall|i: int| 0 <= i < rows@.len() ==> #[trigger] rows@[i] == ledger_row(all[i]),
    {
        rows.push(
            LedgerRow {
                credit: entry.credit,
                reason: entry.reason,
                amount: entry.amount,
                balance_after: entry.balance_after,
                at: entry.at,
            },
        );
    }
    rows
}

/// One gift of the catalogue.
pub struct Gift {
    pub sku: String,
    pub name: String,
    pub price: u64,
    pub category: String,
}

/// The row a gift is drawn as.
pub open spec fn gift_row(gift: Gift) -> GiftRow {
    GiftRow { sku: gift.sku, name: gift.name, price: gift.price, category: gift.category }
}

/// The gift catalogue came back.
pub fn on_gifts(gifts: Vec<Gift>) -> (rows: Vec<GiftRow>)
    ensures
        rows@ == gifts@.map_values(|gift: Gift| gift_row(gift)),
{
    let ghost all = gifts@;
    let mut rows: Vec<GiftRow> = Vec::new();
    for gift in it: gifts
        invariant
            it.seq() == all,
            rows@.len() == it.index(),
            forall|i: int| 0 <= i < rows@.len() ==> #[trigger] rows@[i] == gift_row(all[i]),
    {
        rows.push(
            GiftRow { sku: gift.sku, name: gift.name, price: gift.price, category: gift.category },
        );
    }
    rows
}

/// One person a search or a suggestion names.
pub struct Person {
    pub account_id: Id,
    pub username: String,
    pub display_name: String,
    pub mutual_friends: u32,
}

/// The row a person is drawn as.
pub open spec fn person_row(person: Person) -> PersonRow {
    PersonRow {
        account_id: person.account_id,
        username: person.username,
        display_name: person.display_name,
        mutual_friends: person.mutual_friends,
    }
}

/// People came back, from a search or as suggestions.
pub fn on_people(people: Vec<Person>) -> (rows: Vec<PersonRow>)
    ensures
        rows@ == people@.map_values(|person: Person| person_row(person)),
{
    let ghost all = people@;
    let mut rows: Vec<PersonRow> = Vec::new();
    for person in it: people
        invariant
            it.seq() == all,
            rows@.len() == it.index(),
            forall|i: int| 0 <= i < rows@.len() ==> #[trigger] rows@[i] == person_row(all[i]),
    {
        rows.push(
            PersonRow {
                account_id: person.account_id,
                username: person.username,
                display_name: person.display_name,
                mutual_friends: person.mutual_friends,
            },
        );
    }
    rows
}

/// What a purchase's answer is followed by: the word about it, and the wallet read again, so that
/// the money moves by the server's arithmetic.
pub open spec fn bought(notice: Notice, me: Id) -> Seq<Action> {
    seq![toast(notice, ToastKind::Success)] + wallet_reads(me)
}

fn buy(notice: Notice, me: Id) -> (out: Vec<Action>)
    ensures
        out@ == bought(notice, me),
{
    let mut out: Vec<Action> = vec![toasted(notice, ToastKind::Success)];
    let mut reads: Vec<Action> = request_wallet(me);
    out.append(&mut reads);
    out
}

/// What a gift's answer is followed by. A duplicate is the first send returned again.
pub open spec fn gift_actions(me: Id, ok: bool, duplicate: Option<bool>) -> Seq<Action> {
    if !ok {
        seq![toast(Notice::GiftRefused, ToastKind::Error)]
    } else if duplicate == Some(true) {
        bought(Notice::GiftAlreadySent, me)
    } else {
        bought(Notice::GiftSent, me)
    }
}

/// A gift was sent, or was refused.
pub fn on_gift_sent(me: Id, ok: bool, duplicate: Option<bool>) -> (out: Vec<Action>)
    ensures
        out@ == gift_actions(me, ok, duplicate),
{
    if !ok {
        return vec![toasted(Notice::GiftRefused, ToastKind::Error)];
    }
    match duplicate {
        Some(true) => buy(Notice::GiftAlreadySent, me),
        _ => buy(Notice::GiftSent, me),
    }
}

/// What a pack's answer is followed by. A duplicate is the first buy returned again.
pub open spec fn pack_actions(me: Id, duplicate: bool) -> Seq<Action> {
    if duplicate {
        bought(Notice::KickPointsAlreadyBought, me)
    } else {
        bought(Notice::KickPointsBought, me)
    }
}

/// A pack was bought. A refusal comes as an error and is told there.
pub fn on_kick_points_bought(me: Id, duplicate: bool) -> (out: Vec<Action>)
    ensures
        out@ == pack_actions(me, duplicate),
{
    if duplicate {
        buy(Notice::KickPointsAlreadyBought, me)
    } else {
        buy(Notice::KickPointsBought, me)
    }
}

/// Searches public profiles by a prefix, without the blanks around it.
pub fn search_people(query: &str) -> (action: Action)
    ensures
        action matches Action::Request(Request::Search { query: sent, limit }) && limit == 10
            && sent@ == trimmed(query@),
{
    Action::Request(Request::Search { query: trim(query), limit: 10 })
}

/// Each byte moves what came before it up by one.
proof fn lemma_next_byte(b: Seq<u8>, k: int)
    requires
        0 <= k < b.len(),
    ensures
        id_of_bytes(b.take(k + 1)) == id_of_bytes(b.take(k)) * 256 + b[k],
{
    assert(b.take(k + 1).drop_last() =~= b.take(k));
    assert(b.take(k + 1).last() == b[k]);
}

/// The id of an instant that six bytes can hold is its millisecond count, ten bytes up.
proof fn lemma_instant(ms: int)
    requires
        0 <= ms < 0x1_0000_0000_0000,
    ensures
        id_of_bytes(instant_bytes(ms)) == ms * 0x1_0000_0000_0000_0000_0000,
{
    let b = instant_bytes(ms);
    assert(b.take(0) =~= Seq::<u8>::empty());
    assert(id_of_bytes(b.take(0)) == 0);
    let q0 = ms / 0x100_0000_0000;
    let q1 = ms / 0x1_0000_0000;
    let q2 = ms / 0x100_0000;
    let q3 = ms / 0x1_0000;
    let q4 = ms / 0x100;
    assert(q0 < 256);
    lemma_next_byte(b, 0);
    assert(id_of_bytes(b.take(1)) == q0);
    lemma_next_byte(b, 1);
    assert(id_of_bytes(b.take(2)) == q1);
    lemma_next_byte(b, 2);
    assert(id_of_bytes(b.take(3)) == q2);
    lemma_next_byte(b, 3);
    assert(id_of_bytes(b.take(4)) == q3);
    lemma_next_byte(b, 4);
    assert(id_of_bytes(b.take(5)) == q4);
    lemma_next_byte(b, 5);
    assert(id_of_bytes(b.take(6)) == ms);
    lemma_next_byte(b, 6);
    assert(id_of_bytes(b.take(7)) == ms * 0x100);
    lemma_next_byte(b, 7);
    assert(id_of_bytes(b.take(8)) == ms * 0x1_0000);
    lemma_next_byte(b, 8);
    assert(id_of_bytes(b.take(9)) == ms * 0x100_0000);
    lemma_next_byte(b, 9);
    assert(id_of_bytes(b.take(10)) == ms * 0x1_0000_0000);
    lemma_next_byte(b, 10);
    assert(id_of_bytes(b.take(11)) == ms * 0x100_0000_0000);
    lemma_next_byte(b, 11);
    assert(id_of_bytes(b.take(12)) == ms * 0x1_0000_0000_0000);
    lemma_next_byte(b, 12);
    assert(id_of_bytes(b.take(13)) == ms * 0x100_0000_0000_0000);
    lemma_next_byte(b, 13);
    assert(id_of_bytes(b.take(14)) == ms * 0x1_0000_0000_0000_0000);
    lemma_next_byte(b, 14);
    assert(id_of_bytes(b.take(15)) == ms * 0x100_0000_0000_0000_0000);
    lemma_next_byte(b, 15);
    assert(id_of_bytes(b.take(16)) == ms * 0x1_0000_0000_0000_0000_0000);
    assert(b.take(16) =~= b);
}

/// Acknowledging an instant acknowledges no later one: of two instants that six bytes can hold, the
/// later has the greater id.
pub proof fn law_acknowledgements_keep_the_order(earlier: i64, later: i64)
    requires
        0 <= earlier < later,
        later < 0x1_0000_0000_0000,
    ensures
        id_of_bytes(instant_bytes(ack_millis(earlier))) < id_of_bytes(
            instant_bytes(ack_millis(later)),
        ),
{
    lemma_instant(earlier as int);
    lemma_instant(later as int);
    assert(earlier * 0x1_0000_0000_0000_0000_0000 < later * 0x1_0000_0000_0000_0000_0000)
        by (nonlinear_arith)
        requires
            earlier < later,
    ;
}

/// A read of the wallet reads the balance, the statement, the board and the catalogue, and the
/// standing and the badges of this account itself.
pub proof fn law_a_wallet_is_read_whole(me: Id)
    ensures
        wallet_reads(me).contains(Action::Request(Request::BalanceFetch)),
        wallet_reads(me).contains(Action::Request(Request::LedgerHistory { limit: 10 })),
        wallet_reads(me).contains(Action::Request(Request::Progression { of_account: me })),
        wallet_reads(me).contains(Action::Request(Request::Badges { of_account: me })),
        wallet_reads(me).contains(Action::Request(Request::XpLeaderboard { limit: 10 })),
        wallet_reads(me).contains(Action::Request(Request::GiftCatalogue)),
        wallet_reads(me).len() == 6,
{
    let reads = wallet_reads(me);
    assert(reads[0] == Action::Request(Request::BalanceFetch));
    assert(reads[1] == Action::Request(Request::LedgerHistory { limit: 10 }));
    assert(reads[2] == Action::Request(Request::Progression { of_account: me }));
    assert(reads[3] == Action::Request(Request::Badges { of_account: me }));
    assert(reads[4] == Action::Request(Request::XpLeaderboard { limit: 10 }));
    assert(reads[5] == Action::Request(Request::GiftCatalogue));
}

/// The id that acknowledges an instant is its millisecond count in the id's first six bytes, and
/// names nothing else; an instant before the epoch is the epoch.
pub proof fn law_an_acknowledgement_names_its_instant(through_unix_ms: i64)
    requires
        through_unix_ms < 0x1_0000_0000_0000,
    ensures
        through_unix_ms >= 0 ==> id_of_bytes(instant_bytes(ack_millis(through_unix_ms)))
            == through_unix_ms * 0x1_0000_0000_0000_0000_0000,
        through_unix_ms < 0 ==> id_of_bytes(instant_bytes(ack_millis(through_unix_ms))) == 0,
{
    if through_unix_ms >= 0 {
        lemma_instant(through_unix_ms as int);
    } else {
        lemma_instant(0);
    }
}

/// A row of the inbox says what its notification says; an empty title is none.
pub proof fn law_an_alert_is_drawn_as_it_is(alert: Alert)
    ensures
        alert_row(alert).id == alert.id,
        alert_row(alert).kind == alert.kind,
        alert_row(alert).at == alert.at,
        alert_row(alert).title is Some <==> alert.title is Some && alert.title.unwrap()@.len() > 0,
        alert_row(alert).title is Some ==> alert_row(alert).title == alert.title,
{
}

/// A line of the statement is drawn with its own sign, reason, amount, balance and moment.
pub proof fn law_a_line_is_drawn_as_it_is(entry: LedgerEntry)
    ensures
        ledger_row(entry).credit <==> entry.credit,
        ledger_row(entry).reason == entry.reason,
        ledger_row(entry).amount == entry.amount,
        ledger_row(entry).balance_after == entry.balance_after,
        ledger_row(entry).at == entry.at,
{
}

/// A gift is drawn with its own code, name, price and category; a person with their own account,
/// names and mutual friends.
pub proof fn law_gifts_and_people_are_drawn_as_they_are(gift: Gift, person: Person)
    ensures
        gift_row(gift).sku == gift.sku,
        gift_row(gift).name == gift.name,
        gift_row(gift).price == gift.price,
        gift_row(gift).category == gift.category,
        person_row(person).account_id == person.account_id,
        person_row(person).username == person.username,
        person_row(person).display_name == person.display_name,
        person_row(person).mutual_friends == person.mutual_friends,
{
}

/// A gift that was sent is said to be, one that had been sent before is said to have been, and both
/// are followed by the wallet read again; one that was refused is said to be, and nothing is read.
pub proof fn law_a_gift_is_answered_as_it_went(me: Id, ok: bool, duplicate: Option<bool>)
    ensures
        gift_actions(me, ok, duplicate).len() > 0,
        !ok ==> gift_actions(me, ok, duplicate).len() == 1,
        gift_actions(me, ok, duplicate)[0] matches Action::Emit(
            crate::effects::Event::Toast { notice, kind },
        ) && notice == (if !ok {
            Notice::GiftRefused
        } else if duplicate == Some(true) {
            Notice::GiftAlreadySent
        } else {
            Notice::GiftSent
        }) && kind == (if ok { ToastKind::Success } else { ToastKind::Error }),
        ok ==> gift_actions(me, ok, duplicate).skip(1) == wallet_reads(me),
{
    if ok {
        assert(gift_actions(me, ok, duplicate).skip(1) =~= wallet_reads(me));
    }
}

/// A pack that was bought is said to be, one that had been bought before is said to have been, and
/// the wallet is read again.
pub proof fn law_a_pack_is_answered_as_it_went(me: Id, duplicate: bool)
    ensures
        pack_actions(me, duplicate).len() == 7,
        pack_actions(me, duplicate)[0] matches Action::Emit(
            crate::effects::Event::Toast { notice, kind },
        ) && notice == (if duplicate {
            Notice::KickPointsAlreadyBought
        } else {
            Notice::KickPointsBought
        }) && kind == ToastKind::Success,
        pack_actions(me, duplicate).skip(1) == wallet_reads(me),
{
    assert(pack_actions(me, duplicate).skip(1) =~= wallet_reads(me));
}

} // verus!
