//! The account's wallets and what was sent from them.

use vstd::prelude::*;

use crate::effects::{ChainRefusal, ChainTxRow, Event};
use crate::text::{
    canonical, canonical_address, decimal, decimal_of, hex, hex_of, join, same_text,
};
use crate::wire::{Id, Timestamp};

verus! {

/// How many of the root's wallets are kept registered.
pub const WALLET_INDEXES: usize = 8;

/// The outcome a transaction is recorded with until its ending is known.
pub open spec fn pending_label() -> Seq<char> {
    "PENDING"@
}

/// One transaction this device sent.
pub struct TxRecord {
    pub tx_hash: [u8; 32],
    pub chain_id: u64,
    pub to: [u8; 20],
    pub value_wei: u128,
    /// The most the transaction can cost.
    pub fee_wei: u128,
    pub gas_limit: u64,
    /// Seconds since the epoch.
    pub at_unix: u64,
    pub outcome: String,
    pub block: Option<u64>,
    pub gas_used: Option<u128>,
}

/// Two records of the same transaction, saying the same.
pub open spec fn same_record(a: TxRecord, b: TxRecord) -> bool {
    &&& a.outcome@ == b.outcome@
    &&& a == (TxRecord { outcome: a.outcome, ..b })
}

/// Two lists of records saying the same.
pub open spec fn same_records(a: Seq<TxRecord>, b: Seq<TxRecord>) -> bool {
    a.len() == b.len() && forall|i: int| 0 <= i < a.len() ==> same_record(#[trigger] a[i], b[i])
}

fn copy_record(record: &TxRecord) -> (copy: TxRecord)
    ensures
        same_record(copy, *record),
{
    TxRecord {
        tx_hash: record.tx_hash,
        chain_id: record.chain_id,
        to: record.to,
        value_wei: record.value_wei,
        fee_wei: record.fee_wei,
        gas_limit: record.gas_limit,
        at_unix: record.at_unix,
        outcome: record.outcome.clone(),
        block: record.block,
        gas_used: record.gas_used,
    }
}

/// A copy of some records.
pub fn copy_records(records: &Vec<TxRecord>) -> (copy: Vec<TxRecord>)
    ensures
        same_records(copy@, records@),
{
    let mut copy: Vec<TxRecord> = Vec::new();
    let mut i: usize = 0;
    while i < records.len()
        invariant
            i <= records@.len(),
            copy@.len() == i,
            forall|j: int| 0 <= j < i ==> same_record(#[trigger] copy@[j], records@[j]),
        decreases records.len() - i,
    {
        copy.push(copy_record(&records[i]));
        i = i + 1;
    }
    copy
}

/// A network, by its place in the list that the client was built with. Its chain id is not a field
/// of anything that a screen hands back: whoever knows the network states it.
#[derive(Debug, Clone, Copy, PartialEq, Eq, Structural)]
pub struct ChainNetwork {
    pub place: u32,
}

/// A transaction as the confirm screen shows it: what is signed is what was shown.
pub struct PreparedTx {
    pub network: ChainNetwork,
    pub from: String,
    pub to: String,
    pub value_wei: u128,
    pub max_priority_fee_per_gas: u128,
    pub max_fee_per_gas: u128,
    pub gas_limit: u64,
    pub nonce: u64,
}

/// What the network asks for a unit of gas.
#[derive(Debug, Clone, Copy, PartialEq, Eq, Structural)]
pub struct Fees {
    pub max_priority_fee_per_gas: u128,
    pub max_fee_per_gas: u128,
}

/// What is known of a transaction before the network is asked.
pub struct TxDraft {
    pub network: ChainNetwork,
    /// Wallet zero's own address.
    pub from: String,
    /// The recipient, as it is shown.
    pub to: String,
    pub value_wei: u128,
}

/// A transaction as it is signed. It carries no data.
#[derive(Clone, Copy)]
pub struct TxBody {
    pub chain_id: u64,
    pub nonce: u64,
    pub max_priority_fee_per_gas: u128,
    pub max_fee_per_gas: u128,
    pub gas_limit: u64,
    pub to: [u8; 20],
    pub value: u128,
}

/// Whose balance is read: wallet zero's, where this device holds the root and the root derives one.
/// Otherwise what is told in its place.
pub fn chain_balance(
    network: ChainNetwork,
    holds_root: bool,
    own_address: Option<String>,
) -> (r: Result<String, Event>)
    ensures
        r == (if !holds_root {
            Err(
                Event::ChainBalance {
                    network,
                    address: None,
                    balance: Err(ChainRefusal::NoRoot),
                },
            )
        } else {
            match own_address {
                Some(own) => Ok(own),
                None => Err(
                    Event::ChainBalance {
                        network,
                        address: None,
                        balance: Err(ChainRefusal::NoWallet),
                    },
                ),
            }
        }),
{
    if !holds_root {
        return Err(
            Event::ChainBalance { network, address: None, balance: Err(ChainRefusal::NoRoot) },
        );
    }
    match own_address {
        Some(own) => Ok(own),
        None => Err(
            Event::ChainBalance { network, address: None, balance: Err(ChainRefusal::NoWallet) },
        ),
    }
}

/// The balance of an address was read, or was not.
pub fn balance_read(
    network: ChainNetwork,
    address: String,
    balance: Result<u128, String>,
) -> (event: Event)
    ensures
        event == (Event::ChainBalance {
            network,
            address: Some(address),
            balance: match balance {
                Ok(wei) => Ok(wei),
                Err(text) => Err(ChainRefusal::Said { text }),
            },
        }),
{
    let balance: Result<u128, ChainRefusal> = match balance {
        Ok(wei) => Ok(wei),
        Err(text) => Err(ChainRefusal::Said { text }),
    };
    Event::ChainBalance { network, address: Some(address), balance }
}

/// What this device can say about the transaction it is asked to send: the parsed recipient or why
/// it is none, the chain id of the network it names, whether the root is held, and wallet zero's
/// address where one derives.
pub struct SendFacts {
    pub chain_id: u64,
    pub to: Result<[u8; 20], String>,
    pub holds_root: bool,
    pub own_address: Option<String>,
}

/// The recipient of a prepared transaction that may be signed here, or why it may not: its
/// recipient parses, this device holds the root, the root derives a wallet, and the sender on the
/// screen is that wallet.
pub open spec fn sendable(tx: PreparedTx, facts: SendFacts) -> Result<[u8; 20], ChainRefusal> {
    match facts.to {
        Err(text) => Err(ChainRefusal::Said { text }),
        Ok(to) => if !facts.holds_root {
            Err(ChainRefusal::NoRoot)
        } else {
            match facts.own_address {
                None => Err(ChainRefusal::NoWallet),
                Some(own) => if own@ == tx.from@ {
                    Ok(to)
                } else {
                    Err(ChainRefusal::OtherSender)
                },
            }
        },
    }
}

/// Whether a prepared transaction may be signed here.
pub fn may_send(tx: &PreparedTx, facts: SendFacts) -> (r: Result<[u8; 20], ChainRefusal>)
    ensures
        r == sendable(*tx, facts),
{
    let to: [u8; 20] = match facts.to {
        Ok(to) => to,
        Err(text) => {
            return Err(ChainRefusal::Said { text });
        },
    };
    if !facts.holds_root {
        return Err(ChainRefusal::NoRoot);
    }
    match facts.own_address {
        None => Err(ChainRefusal::NoWallet),
        Some(own) => {
            if same_text(own.as_str(), tx.from.as_str()) {
                Ok(to)
            } else {
                Err(ChainRefusal::OtherSender)
            }
        },
    }
}

/// The recipient, the amount and the sender of a transaction that may be prepared, or why it may
/// not: the recipient parses, the amount is one, this device holds the root, and the root derives
/// a wallet.
pub open spec fn preparable(
    to: Result<[u8; 20], String>,
    value: Option<u128>,
    holds_root: bool,
    own_address: Option<String>,
) -> Result<([u8; 20], u128, String), ChainRefusal> {
    match to {
        Err(text) => Err(ChainRefusal::Said { text }),
        Ok(recipient) => match value {
            None => Err(ChainRefusal::BadAmount),
            Some(amount) => if !holds_root {
                Err(ChainRefusal::NoRoot)
            } else {
                match own_address {
                    None => Err(ChainRefusal::NoWallet),
                    Some(own) => Ok((recipient, amount, own)),
                }
            },
        },
    }
}

/// Whether a transaction may be prepared, before any network is asked.
pub fn may_prepare(
    to: Result<[u8; 20], String>,
    value: Option<u128>,
    holds_root: bool,
    own_address: Option<String>,
) -> (r: Result<([u8; 20], u128, String), ChainRefusal>)
    ensures
        r == preparable(to, value, holds_root, own_address),
{
    let recipient: [u8; 20] = match to {
        Ok(recipient) => recipient,
        Err(text) => {
            return Err(ChainRefusal::Said { text });
        },
    };
    let amount: u128 = match value {
        Some(amount) => amount,
        None => {
            return Err(ChainRefusal::BadAmount);
        },
    };
    if !holds_root {
        return Err(ChainRefusal::NoRoot);
    }
    match own_address {
        Some(own) => Ok((recipient, amount, own)),
        None => Err(ChainRefusal::NoWallet),
    }
}

/// The most a transaction can cost, held to the largest number.
pub open spec fn worst_fee(max_fee_per_gas: u128, gas_limit: u64) -> int {
    if max_fee_per_gas * gas_limit > u128::MAX {
        u128::MAX as int
    } else {
        max_fee_per_gas * gas_limit
    }
}

/// Seconds since the epoch of an instant; an instant before it counts as it.
pub open spec fn unix_seconds(now: Timestamp) -> int {
    if now < 0 {
        0
    } else {
        now / 1000
    }
}

/// Seconds since the epoch of an instant.
pub fn seconds_of(now: Timestamp) -> (seconds: u64)
    ensures
        seconds == unix_seconds(now),
{
    if now < 0 {
        0
    } else {
        (now / 1000) as u64
    }
}

/// The record of a transaction that was just broadcast. It is written then, and not when it
/// settles: what is lost with the process is the ending, never that value left.
pub fn record_of(body: &TxBody, tx_hash: [u8; 32], now: Timestamp) -> (record: TxRecord)
    ensures
        record.tx_hash == tx_hash,
        record.chain_id == body.chain_id,
        record.to == body.to,
        record.value_wei == body.value,
        record.fee_wei == worst_fee(body.max_fee_per_gas, body.gas_limit),
        record.gas_limit == body.gas_limit,
        record.at_unix == unix_seconds(now),
        record.outcome@ == pending_label(),
        record.block is None,
        record.gas_used is None,
{
    let fee_wei: u128 = match body.max_fee_per_gas.checked_mul(body.gas_limit as u128) {
        Some(fee) => fee,
        None => u128::MAX,
    };
    TxRecord {
        tx_hash,
        chain_id: body.chain_id,
        to: body.to,
        value_wei: body.value,
        fee_wei,
        gas_limit: body.gas_limit,
        at_unix: seconds_of(now),
        outcome: "PENDING".to_owned(),
        block: None,
        gas_used: None,
    }
}

/// The name a transaction's network is drawn with: its label, or its chain id where the client
/// knows no network of that id.
pub fn network_name(chain_id: u64, label: Option<String>) -> (name: String)
    ensures
        match label {
            Some(label) => name == label,
            None => name@ == "chain "@ + decimal(chain_id as nat),
        },
{
    match label {
        Some(label) => label,
        None => {
            let digits: String = decimal_of(chain_id);
            join("chain ", digits.as_str())
        },
    }
}

/// Files a transaction at the front of an account's records.
pub fn file_record(txs: &mut Option<(Id, Vec<TxRecord>)>, account_id: Id, record: TxRecord)
    ensures
        match *old(txs) {
            Some((owner, records)) => *final(txs) matches Some((after, list)) && after == owner
                && list@ == seq![record] + records@,
            None => *final(txs) matches Some((after, list)) && after == account_id && list@
                == seq![record],
        },
{
    let (owner, mut records): (Id, Vec<TxRecord>) = match txs.take() {
        Some((owner, records)) => (owner, records),
        None => (account_id, Vec::new()),
    };
    let ghost before = records@;
    records.insert(0, record);
    assert(records@ =~= seq![record] + before);
    *txs = Some((owner, records));
}

/// Whether a record is of a transaction that a tracker names.
pub open spec fn tracks(record: TxRecord, tx_hash: Seq<char>) -> bool {
    hex(record.tx_hash@) == tx_hash
}

/// Whether `i` is the first record a tracker names.
pub open spec fn first_named(records: Seq<TxRecord>, tx_hash: Seq<char>, i: int) -> bool {
    &&& 0 <= i < records.len()
    &&& tracks(records[i], tx_hash)
    &&& forall|j: int| 0 <= j < i ==> !tracks(#[trigger] records[j], tx_hash)
}

/// A record after its ending came in: the outcome is the tracker's, and a block or a cost that the
/// tracker does not know stays as it was.
pub open spec fn settled(
    before: TxRecord,
    after: TxRecord,
    outcome: Seq<char>,
    block: Option<u64>,
    gas_used: Option<u128>,
) -> bool {
    &&& after.outcome@ == outcome
    &&& after == (TxRecord {
        outcome: after.outcome,
        block: if block is Some {
            block
        } else {
            before.block
        },
        gas_used: if gas_used is Some {
            gas_used
        } else {
            before.gas_used
        },
        ..before
    })
}

/// Writes an ending into the first record its tracker names.
pub fn settle(
    records: &mut Vec<TxRecord>,
    tx_hash: &str,
    outcome: &str,
    block: Option<u64>,
    gas_used: Option<u128>,
)
    ensures
        final(records)@.len() == old(records)@.len(),
        forall|i: int|
            0 <= i < old(records)@.len() ==> if first_named(old(records)@, tx_hash@, i) {
                settled(old(records)@[i], #[trigger] final(records)@[i], outcome@, block, gas_used)
            } else {
                final(records)@[i] == old(records)@[i]
            },
{
    let mut i: usize = 0;
    while i < records.len()
        invariant
            i <= records@.len(),
            records@ == old(records)@,
            forall|j: int| 0 <= j < i ==> !tracks(#[trigger] records@[j], tx_hash@),
        decreases records@.len() - i,
    {
        let named: String = hex_of(records[i].tx_hash.as_slice());
        if same_text(named.as_str(), tx_hash) {
            let mut record: TxRecord = copy_record(&records[i]);
            let ghost before = records@[i as int];
            record.outcome = outcome.to_owned();
            if block.is_some() {
                record.block = block;
            }
            if gas_used.is_some() {
                record.gas_used = gas_used;
            }
            assert(tracks(records@[i as int], tx_hash@));
            records.set(i, record);
            assert forall|k: int| 0 <= k < old(records)@.len() implies if first_named(
                old(records)@,
                tx_hash@,
                k,
            ) {
                settled(old(records)@[k], #[trigger] records@[k], outcome@, block, gas_used)
            } else {
                records@[k] == old(records)@[k]
            } by {
                if k == i {
                    assert(settled(before, record, outcome@, block, gas_used));
                } else if k > i {
                    assert(tracks(old(records)@[i as int], tx_hash@));
                }
            }
            return;
        }
        i = i + 1;
    }
}

/// The row a record is drawn as.
pub open spec fn row_says(row: ChainTxRow, record: TxRecord) -> bool {
    &&& row.tx_hash@ == "0x"@ + hex(record.tx_hash@)
    &&& row.chain_id == record.chain_id
    &&& row.to == record.to
    &&& row.value_wei == record.value_wei
    &&& row.fee_wei == record.fee_wei
    &&& row.at == record.at_unix * 1000
    &&& row.outcome@ == record.outcome@
    &&& row.block == record.block
    &&& row.gas_used == record.gas_used
}

/// Whether every record's instant can be told in milliseconds.
pub open spec fn tellable(records: Seq<TxRecord>) -> bool {
    forall|i: int| 0 <= i < records.len() ==> (#[trigger] records[i]).at_unix * 1000 <= i64::MAX
}

/// The records as the wallet draws them, newest first.
pub fn chain_rows(records: &Vec<TxRecord>) -> (rows: Vec<ChainTxRow>)
    requires
        tellable(records@),
    ensures
        rows@.len() == records@.len(),
        forall|i: int| 0 <= i < rows@.len() ==> row_says(#[trigger] rows@[i], records@[i]),
{
    let mut rows: Vec<ChainTxRow> = Vec::new();
    let mut i: usize = 0;
    while i < records.len()
        invariant
            i <= records@.len(),
            tellable(records@),
            rows@.len() == i,
            forall|j: int| 0 <= j < i ==> row_says(#[trigger] rows@[j], records@[j]),
        decreases records.len() - i,
    {
        let record: &TxRecord = &records[i];
        assert(records@[i as int].at_unix * 1000 <= i64::MAX);
        let named: String = hex_of(record.tx_hash.as_slice());
        rows.push(
            ChainTxRow {
                tx_hash: join("0x", named.as_str()),
                chain_id: record.chain_id,
                to: record.to,
                value_wei: record.value_wei,
                fee_wei: record.fee_wei,
                at: record.at_unix as i64 * 1000,
                outcome: record.outcome.clone(),
                block: record.block,
                gas_used: record.gas_used,
            },
        );
        i = i + 1;
    }
    rows
}

/// A record written by this device can always be told in milliseconds.
pub proof fn law_a_recorded_instant_can_be_told(now: Timestamp)
    ensures
        unix_seconds(now) * 1000 <= i64::MAX,
{
}

/// Whether some registered address is a derived one, however either is written.
pub open spec fn is_registered(known: Seq<String>, derived: Seq<char>) -> bool {
    exists|i: int| 0 <= i < known.len() && canonical(#[trigger] known[i]@) == canonical(
        derived,
    )
}

/// The derived wallets that are not registered, by index and in order.
pub open spec fn unregistered(known: Seq<String>, derived: Seq<String>) -> Seq<int>
    decreases derived.len(),
{
    if derived.len() == 0 {
        Seq::empty()
    } else if is_registered(known, derived.last()@) {
        unregistered(known, derived.drop_last())
    } else {
        unregistered(known, derived.drop_last()).push(derived.len() - 1)
    }
}

fn registered(known: &Vec<String>, derived: &str) -> (r: bool)
    ensures
        r == is_registered(known@, derived@),
{
    let wanted: String = canonical_address(derived);
    let mut i: usize = 0;
    while i < known.len()
        invariant
            i <= known@.len(),
            wanted@ == canonical(derived@),
            forall|j: int| 0 <= j < i ==> canonical(#[trigger] known@[j]@) != canonical(derived@),
        decreases known.len() - i,
    {
        let folded: String = canonical_address(known[i].as_str());
        if same_text(folded.as_str(), wanted.as_str()) {
            assert(canonical(known@[i as int]@) == canonical(derived@));
            return true;
        }
        i = i + 1;
    }
    false
}

/// The root's wallets that the server does not know yet.
///
/// `known` are the registered addresses, archived ones included, as the server writes them;
/// `derived` the root's, in order; both are folded before they are compared. An archived wallet
/// stays archived: its address is known.
pub fn wallets_to_register(known: &Vec<String>, derived: &Vec<String>) -> (indexes: Vec<usize>)
    ensures
        indexes@.map_values(|i: usize| i as int) == unregistered(known@, derived@),
{
    let mut indexes: Vec<usize> = Vec::new();
    let mut i: usize = 0;
    assert(derived@.take(0) =~= Seq::<String>::empty());
    assert(indexes@.map_values(|i: usize| i as int) =~= unregistered(known@, derived@.take(0)));
    while i < derived.len()
        invariant
            i <= derived@.len(),
            indexes@.map_values(|i: usize| i as int) == unregistered(
                known@,
                derived@.take(i as int),
            ),
        decreases derived.len() - i,
    {
        assert(derived@.take(i + 1).drop_last() =~= derived@.take(i as int));
        assert(derived@.take(i + 1).last() == derived@[i as int]);
        let ghost before = indexes@.map_values(|i: usize| i as int);
        if !registered(known, derived[i].as_str()) {
            indexes.push(i);
            assert(indexes@.map_values(|i: usize| i as int) =~= before.push(i as int));
        }
        i = i + 1;
    }
    assert(derived@.take(derived@.len() as int) =~= derived@);
    indexes
}

/// A wallet that is registered, however its address is written, is never registered again.
pub proof fn law_a_registered_wallet_is_left_alone(known: Seq<String>, derived: Seq<String>, i: int)
    requires
        0 <= i < derived.len(),
        is_registered(known, derived[i]@),
    ensures
        !unregistered(known, derived).contains(i),
    decreases derived.len(),
{
    lemma_unregistered_below(known, derived.drop_last());
    if i < derived.len() - 1 {
        law_a_registered_wallet_is_left_alone(known, derived.drop_last(), i);
        let before = unregistered(known, derived.drop_last());
        let after = unregistered(known, derived);
        if after.contains(i) {
            let k = choose|k: int| 0 <= k < after.len() && after[k] == i;
            assert(k < before.len());
            assert(before[k] == i);
        }
    } else {
        let before = unregistered(known, derived.drop_last());
        let after = unregistered(known, derived);
        assert(after == before);
        if after.contains(i) {
            let k = choose|k: int| 0 <= k < after.len() && after[k] == i;
            assert(before[k] < derived.drop_last().len());
        }
    }
}

proof fn lemma_unregistered_below(known: Seq<String>, derived: Seq<String>)
    ensures
        forall|k: int|
            0 <= k < unregistered(known, derived).len() ==> 0 <= #[trigger] unregistered(
                known,
                derived,
            )[k] < derived.len(),
    decreases derived.len(),
{
    if derived.len() > 0 {
        lemma_unregistered_below(known, derived.drop_last());
        let before = unregistered(known, derived.drop_last());
        let after = unregistered(known, derived);
        assert forall|k: int| 0 <= k < after.len() implies 0 <= #[trigger] after[k] < derived.len() by {
            if k < before.len() {
                assert(before[k] == after[k]);
            }
        }
    }
}

/// The sentence a refusal to send is shown as.
pub open spec fn refusal_says(refusal: ChainRefusal) -> Seq<char> {
    match refusal {
        ChainRefusal::NoRoot =>
            "this device does not hold the account root, so it has no AVAX wallet; open the wallet on the device that holds the account backup"@,
        ChainRefusal::NoWallet => "the account root did not derive a wallet"@,
        ChainRefusal::OtherSender =>
            "the prepared transaction names a different sender; prepare it again here"@,
        ChainRefusal::BadAmount => "the amount is not a valid AVAX amount, e.g. 1.5"@,
        ChainRefusal::Said { text } => text@,
    }
}

/// The sentence a refusal to send is shown as.
pub fn refusal_text(refusal: &ChainRefusal) -> (text: String)
    ensures
        text@ == refusal_says(*refusal),
{
    match refusal {
        ChainRefusal::NoRoot =>
            "this device does not hold the account root, so it has no AVAX wallet; open the wallet on the device that holds the account backup".to_owned(),
        ChainRefusal::NoWallet => "the account root did not derive a wallet".to_owned(),
        ChainRefusal::OtherSender =>
            "the prepared transaction names a different sender; prepare it again here".to_owned(),
        ChainRefusal::BadAmount => "the amount is not a valid AVAX amount, e.g. 1.5".to_owned(),
        ChainRefusal::Said { text } => text.clone(),
    }
}

/// A prepared transaction may be signed here exactly where its recipient parses, this device holds
/// the root, and the shown sender is the root's own wallet; then it goes to the recipient that was
/// parsed. Each refusal says what is missing, the recipient first.
pub proof fn law_when_a_transaction_may_be_signed(tx: PreparedTx, facts: SendFacts)
    ensures
        sendable(tx, facts) is Ok <==> facts.to is Ok && facts.holds_root
            && facts.own_address is Some && facts.own_address.unwrap()@ == tx.from@,
        sendable(tx, facts) is Ok ==> facts.to == Ok::<[u8; 20], String>(sendable(tx, facts)->Ok_0),
        facts.to is Err ==> sendable(tx, facts)->Err_0 == (ChainRefusal::Said {
            text: facts.to->Err_0,
        }),
        facts.to is Ok && !facts.holds_root ==> sendable(tx, facts)->Err_0 == ChainRefusal::NoRoot,
        facts.to is Ok && facts.holds_root && facts.own_address is None ==> sendable(
            tx,
            facts,
        )->Err_0 == ChainRefusal::NoWallet,
        facts.to is Ok && facts.holds_root && facts.own_address is Some
            && facts.own_address.unwrap()@ != tx.from@ ==> sendable(tx, facts)->Err_0
            == ChainRefusal::OtherSender,
{
}

/// A transaction may be prepared exactly where its recipient and its amount parse and this device has
/// a wallet; then it is for that recipient and that amount, from that wallet.
pub proof fn law_when_a_transaction_may_be_prepared(
    to: Result<[u8; 20], String>,
    value: Option<u128>,
    holds_root: bool,
    own_address: Option<String>,
)
    ensures
        preparable(to, value, holds_root, own_address) is Ok <==> to is Ok && value is Some
            && holds_root && own_address is Some,
        preparable(to, value, holds_root, own_address) is Ok ==> {
            let prepared = preparable(to, value, holds_root, own_address)->Ok_0;
            &&& prepared.0 == to->Ok_0
            &&& prepared.1 == value.unwrap()
            &&& prepared.2 == own_address.unwrap()
        },
        to is Err ==> preparable(to, value, holds_root, own_address)->Err_0 == (ChainRefusal::Said {
            text: to->Err_0,
        }),
        to is Ok && value is None ==> preparable(to, value, holds_root, own_address)->Err_0
            == ChainRefusal::BadAmount,
        to is Ok && value is Some && !holds_root ==> preparable(
            to,
            value,
            holds_root,
            own_address,
        )->Err_0 == ChainRefusal::NoRoot,
        to is Ok && value is Some && holds_root && own_address is None ==> preparable(
            to,
            value,
            holds_root,
            own_address,
        )->Err_0 == ChainRefusal::NoWallet,
{
}

/// The most a transaction can cost is its fee for each unit of gas it may use, held to the largest
/// number; a free one costs nothing.
pub proof fn law_the_worst_fee_is_all_the_gas(max_fee_per_gas: u128, gas_limit: u64)
    ensures
        max_fee_per_gas * gas_limit <= u128::MAX ==> worst_fee(max_fee_per_gas, gas_limit)
            == max_fee_per_gas * gas_limit,
        max_fee_per_gas * gas_limit > u128::MAX ==> worst_fee(max_fee_per_gas, gas_limit)
            == u128::MAX,
        worst_fee(0, gas_limit) == 0,
        worst_fee(max_fee_per_gas, 1) == max_fee_per_gas,
{
    assert(max_fee_per_gas * 1 == max_fee_per_gas) by (nonlinear_arith);
    assert(0 * gas_limit == 0) by (nonlinear_arith);
}

/// An instant is recorded in whole seconds, none of them in the future, and one before the epoch as
/// the epoch.
pub proof fn law_an_instant_is_recorded_in_seconds(now: Timestamp)
    ensures
        now >= 0 ==> unix_seconds(now) * 1000 <= now < unix_seconds(now) * 1000 + 1000,
        now < 0 ==> unix_seconds(now) == 0,
{
}

/// A record bears a hash exactly where the hash is its own, in hexadecimal; so no two transactions
/// are taken for each other.
pub proof fn law_a_record_is_found_by_its_own_hash(a: TxRecord, b: TxRecord)
    requires
        tracks(a, hex(b.tx_hash@)),
    ensures
        a.tx_hash@ == b.tx_hash@,
        tracks(b, hex(b.tx_hash@)),
{
    crate::text::law_hex_tells_bytes_apart(a.tx_hash@, b.tx_hash@);
}

/// What an ending changes of a record: its outcome; its block and its cost where they are known. What
/// was sent, to whom, for how much and when stays what it was.
pub proof fn law_an_ending_changes_only_the_end(
    before: TxRecord,
    after: TxRecord,
    outcome: Seq<char>,
    block: Option<u64>,
    gas_used: Option<u128>,
)
    requires
        settled(before, after, outcome, block, gas_used),
    ensures
        after.outcome@ == outcome,
        block is Some ==> after.block == block,
        block is None ==> after.block == before.block,
        gas_used is Some ==> after.gas_used == gas_used,
        gas_used is None ==> after.gas_used == before.gas_used,
        after.tx_hash == before.tx_hash,
        after.chain_id == before.chain_id,
        after.to == before.to,
        after.value_wei == before.value_wei,
        after.fee_wei == before.fee_wei,
        after.gas_limit == before.gas_limit,
        after.at_unix == before.at_unix,
{
}

/// Only one record takes an ending: the first that bears the hash.
pub proof fn law_one_record_takes_an_ending(
    records: Seq<TxRecord>,
    tx_hash: Seq<char>,
    i: int,
    j: int,
)
    requires
        first_named(records, tx_hash, i),
        first_named(records, tx_hash, j),
    ensures
        i == j,
        hex(records[i].tx_hash@) == tx_hash,
        forall|k: int| 0 <= k < i ==> hex((#[trigger] records[k]).tx_hash@) != tx_hash,
{
    if i < j {
        assert(!tracks(records[i], tx_hash));
    }
    if j < i {
        assert(!tracks(records[j], tx_hash));
    }
    assert forall|k: int| 0 <= k < i implies hex((#[trigger] records[k]).tx_hash@) != tx_hash by {
        assert(!tracks(records[k], tx_hash));
    }
}

/// A row of the activity list says what its record says: its hash in hexadecimal, its chain, its
/// recipient, what was sent, the most it could cost, when, and how it ended.
pub proof fn law_an_activity_row_is_its_records_own(row: ChainTxRow, record: TxRecord)
    requires
        row_says(row, record),
    ensures
        row.tx_hash@ == "0x"@ + hex(record.tx_hash@),
        row.chain_id == record.chain_id,
        row.to == record.to,
        row.value_wei == record.value_wei,
        row.fee_wei == record.fee_wei,
        row.at == record.at_unix * 1000,
        row.outcome@ == record.outcome@,
        row.block == record.block,
        row.gas_used == record.gas_used,
{
}

/// A copied record is the same record in everything.
pub proof fn law_a_copied_record_says_the_same(a: TxRecord, b: TxRecord)
    requires
        same_record(a, b),
    ensures
        a.tx_hash == b.tx_hash,
        a.chain_id == b.chain_id,
        a.to == b.to,
        a.value_wei == b.value_wei,
        a.fee_wei == b.fee_wei,
        a.gas_limit == b.gas_limit,
        a.at_unix == b.at_unix,
        a.outcome@ == b.outcome@,
        a.block == b.block,
        a.gas_used == b.gas_used,
{
}

/// Every derived wallet that is not registered is registered: of all derived ones, exactly those
/// whose folded address no registered one has.
pub proof fn law_every_unknown_wallet_is_registered(
    known: Seq<String>,
    derived: Seq<String>,
    i: int,
)
    requires
        0 <= i < derived.len(),
    ensures
        unregistered(known, derived).contains(i) <==> (forall|k: int|
            0 <= k < known.len() ==> canonical(#[trigger] known[k]@) != canonical(derived[i]@)),
    decreases derived.len(),
{
    if is_registered(known, derived[i]@) {
        law_a_registered_wallet_is_left_alone(known, derived, i);
        let k = choose|k: int|
            0 <= k < known.len() && canonical(#[trigger] known[k]@) == canonical(derived[i]@);
        assert(canonical(known[k]@) == canonical(derived[i]@));
    } else {
        let front = derived.drop_last();
        let before = unregistered(known, front);
        let after = unregistered(known, derived);
        if i < front.len() {
            assert(front[i] == derived[i]);
            law_every_unknown_wallet_is_registered(known, front, i);
            let k = choose|k: int| 0 <= k < before.len() && before[k] == i;
            assert(after[k] == i);
        } else {
            assert(after[before.len() as int] == i);
        }
    }
}

/// A record is written as pending until its ending is known, and a refusal is said in its own words.
pub proof fn law_a_refusal_to_send_says_why(text: String)
    ensures
        pending_label() == "PENDING"@,
        refusal_says(ChainRefusal::Said { text }) == text@,
        refusal_says(ChainRefusal::NoWallet) == "the account root did not derive a wallet"@,
        refusal_says(ChainRefusal::OtherSender)
            == "the prepared transaction names a different sender; prepare it again here"@,
        refusal_says(ChainRefusal::BadAmount)
            == "the amount is not a valid AVAX amount, e.g. 1.5"@,
{
}

} // verus!
