//! Preparing a transaction, and sending it.
//!
//! The edge parses, derives, signs and asks the network, one step at a time, and says what came of
//! it. An event that is not waited for is not heard.

use vstd::prelude::*;

use crate::dispatch::chain_recorded;
use crate::effects::{Action, ChainRefusal, Event};
use crate::wallet::{
    may_prepare, may_send, preparable, sendable, ChainNetwork, Fees, PreparedTx, SendFacts, TxBody,
    TxDraft,
};
use crate::wire::Timestamp;
use crate::worker::Worker;

verus! {

/// What this device can say about the transaction it is asked to prepare: the parsed recipient with
/// the form it is shown in, or why it is none, the parsed amount, whether the root is held, and
/// wallet zero's address where one derives.
pub struct PrepareFacts {
    pub to: Result<[u8; 20], String>,
    pub shown: String,
    pub value: Option<u128>,
    pub holds_root: bool,
    pub own_address: Option<String>,
}

/// A transaction that is being prepared, by what it waits for.
pub enum Preparing {
    /// What this device can say about it.
    Checking { network: ChainNetwork },
    /// What the network asks for a unit of gas.
    Pricing { draft: TxDraft, to: [u8; 20] },
    /// How much gas it takes.
    Gauging { draft: TxDraft, fees: Fees },
    /// How many transactions its sender has made.
    Counting { draft: TxDraft, fees: Fees, gas_limit: u64 },
    Ended,
}

/// What came of a step of a preparation.
pub enum PrepareEvent {
    Checked(PrepareFacts),
    Fees(Result<Fees, String>),
    Gas(Result<u64, String>),
    Nonce(Result<u64, String>),
}

/// What a preparation asks for next.
pub enum PrepareAsk {
    /// Nothing: it still waits for what it asked before.
    Wait,
    Fees { network: ChainNetwork },
    Gas { network: ChainNetwork, from: String, to: [u8; 20], value_wei: u128 },
    Nonce { network: ChainNetwork, from: String },
    /// Tell this; the preparation is over.
    End { event: Event },
}

/// Whether a preparation is over, refused.
pub open spec fn not_prepared(to: Preparing, ask: PrepareAsk, refusal: ChainRefusal) -> bool {
    &&& to == Preparing::Ended
    &&& ask == (PrepareAsk::End { event: Event::ChainPrepared(Err(refusal)) })
}

/// Whether a preparation goes from one state to another, on an event.
pub open spec fn prepares(
    from: Preparing,
    event: PrepareEvent,
    to: Preparing,
    ask: PrepareAsk,
) -> bool {
    match (from, event) {
        (Preparing::Checking { network }, PrepareEvent::Checked(facts)) => match preparable(
            facts.to,
            facts.value,
            facts.holds_root,
            facts.own_address,
        ) {
            Err(refusal) => not_prepared(to, ask, refusal),
            Ok((recipient, value_wei, sender)) => {
                &&& to == (Preparing::Pricing {
                    draft: TxDraft { network, from: sender, to: facts.shown, value_wei },
                    to: recipient,
                })
                &&& ask == (PrepareAsk::Fees { network })
            },
        },
        (Preparing::Pricing { draft, to: recipient }, PrepareEvent::Fees(outcome)) => match outcome {
            Err(text) => not_prepared(to, ask, ChainRefusal::Said { text }),
            Ok(fees) => {
                &&& to == (Preparing::Gauging { draft, fees })
                &&& ask matches PrepareAsk::Gas { network, from: sender, to: whom, value_wei }
                    && network == draft.network && sender@ == draft.from@ && whom == recipient
                    && value_wei == draft.value_wei
            },
        },
        (Preparing::Gauging { draft, fees }, PrepareEvent::Gas(outcome)) => match outcome {
            Err(text) => not_prepared(to, ask, ChainRefusal::Said { text }),
            Ok(gas_limit) => {
                &&& to == (Preparing::Counting { draft, fees, gas_limit })
                &&& ask matches PrepareAsk::Nonce { network, from: sender } && network
                    == draft.network && sender@ == draft.from@
            },
        },
        (Preparing::Counting { draft, fees, gas_limit }, PrepareEvent::Nonce(outcome)) => {
            match outcome {
                Err(text) => not_prepared(to, ask, ChainRefusal::Said { text }),
                Ok(nonce) => {
                    &&& to == Preparing::Ended
                    &&& ask == (PrepareAsk::End {
                        event: Event::ChainPrepared(
                            Ok(
                                PreparedTx {
                                    network: draft.network,
                                    from: draft.from,
                                    to: draft.to,
                                    value_wei: draft.value_wei,
                                    max_priority_fee_per_gas: fees.max_priority_fee_per_gas,
                                    max_fee_per_gas: fees.max_fee_per_gas,
                                    gas_limit,
                                    nonce,
                                },
                            ),
                        ),
                    })
                },
            }
        },
        _ => to == from && ask == PrepareAsk::Wait,
    }
}

fn refuse(refusal: ChainRefusal) -> (r: (Preparing, PrepareAsk))
    ensures
        not_prepared(r.0, r.1, refusal),
{
    (Preparing::Ended, PrepareAsk::End { event: Event::ChainPrepared(Err(refusal)) })
}

/// A preparation's next step.
///
/// What is typed is judged before the network is asked anything, and the transaction is put
/// together from the network's own answers, none of them guessed.
pub fn chain_prepare(from: Preparing, event: PrepareEvent) -> (r: (Preparing, PrepareAsk))
    ensures
        prepares(from, event, r.0, r.1),
{
    match (from, event) {
        (Preparing::Checking { network }, PrepareEvent::Checked(facts)) => match may_prepare(
            facts.to,
            facts.value,
            facts.holds_root,
            facts.own_address,
        ) {
            Err(refusal) => refuse(refusal),
            Ok((recipient, value_wei, sender)) => (
                Preparing::Pricing {
                    draft: TxDraft { network, from: sender, to: facts.shown, value_wei },
                    to: recipient,
                },
                PrepareAsk::Fees { network },
            ),
        },
        (Preparing::Pricing { draft, to: recipient }, PrepareEvent::Fees(outcome)) => match outcome {
            Err(text) => refuse(ChainRefusal::Said { text }),
            Ok(fees) => {
                let ask: PrepareAsk = PrepareAsk::Gas {
                    network: draft.network,
                    from: draft.from.clone(),
                    to: recipient,
                    value_wei: draft.value_wei,
                };
                (Preparing::Gauging { draft, fees }, ask)
            },
        },
        (Preparing::Gauging { draft, fees }, PrepareEvent::Gas(outcome)) => match outcome {
            Err(text) => refuse(ChainRefusal::Said { text }),
            Ok(gas_limit) => {
                let ask: PrepareAsk = PrepareAsk::Nonce {
                    network: draft.network,
                    from: draft.from.clone(),
                };
                (Preparing::Counting { draft, fees, gas_limit }, ask)
            },
        },
        (Preparing::Counting { draft, fees, gas_limit }, PrepareEvent::Nonce(outcome)) => {
            match outcome {
                Err(text) => refuse(ChainRefusal::Said { text }),
                Ok(nonce) => {
                    let tx: PreparedTx = PreparedTx {
                        network: draft.network,
                        from: draft.from,
                        to: draft.to,
                        value_wei: draft.value_wei,
                        max_priority_fee_per_gas: fees.max_priority_fee_per_gas,
                        max_fee_per_gas: fees.max_fee_per_gas,
                        gas_limit,
                        nonce,
                    };
                    (Preparing::Ended, PrepareAsk::End { event: Event::ChainPrepared(Ok(tx)) })
                },
            }
        },
        (from, _) => (from, PrepareAsk::Wait),
    }
}

/// What is signed of a transaction that was shown.
pub open spec fn body_of(tx: PreparedTx, to: [u8; 20], chain_id: u64) -> TxBody {
    TxBody {
        chain_id,
        nonce: tx.nonce,
        max_priority_fee_per_gas: tx.max_priority_fee_per_gas,
        max_fee_per_gas: tx.max_fee_per_gas,
        gas_limit: tx.gas_limit,
        to,
        value: tx.value_wei,
    }
}

/// A transaction that is being sent, by what it waits for.
pub enum Spending {
    /// What this device can say about it.
    Checking { tx: PreparedTx },
    /// The body, signed by wallet zero.
    Signing { network: ChainNetwork, body: TxBody },
    /// The network's acceptance of what was signed.
    Broadcasting { network: ChainNetwork, body: TxBody, tx_hash: [u8; 32] },
    Ended,
}

/// What came of a step of a send.
pub enum SpendEvent {
    Checked(SendFacts),
    /// It was signed, and this is its hash.
    Signed(Result<[u8; 32], String>),
    /// The network answered.
    Broadcast(Result<String, String>),
}

/// What a send asks for next.
pub enum SpendAsk {
    /// Nothing: it still waits for what it asked before.
    Wait,
    Sign { body: TxBody },
    /// Hand what was signed to the network.
    Broadcast { network: ChainNetwork },
    /// Carry these out; the send is over.
    End { told: Vec<Action> },
}

/// Whether a send is over, refused.
pub open spec fn not_sent(to: Spending, ask: SpendAsk, refusal: ChainRefusal) -> bool {
    &&& to == Spending::Ended
    &&& ask matches SpendAsk::End { told } && told@ == seq![
        Action::Emit(Event::ChainSent(Err(refusal))),
    ]
}

/// Whether a send goes from one state to another, on an event.
pub open spec fn spends(
    before: Worker,
    from: Spending,
    event: SpendEvent,
    now: Timestamp,
    after: Worker,
    to: Spending,
    ask: SpendAsk,
) -> bool {
    if before.signed is None {
        &&& after == before
        &&& to == Spending::Ended
        &&& ask matches SpendAsk::End { told } && told@.len() == 0
    } else {
        match (from, event) {
            (Spending::Checking { tx }, SpendEvent::Checked(facts)) => {
                &&& after == before
                &&& match sendable(tx, facts) {
                    Err(refusal) => not_sent(to, ask, refusal),
                    Ok(recipient) => {
                        let body = body_of(tx, recipient, facts.chain_id);
                        &&& to == (Spending::Signing { network: tx.network, body })
                        &&& ask == (SpendAsk::Sign { body })
                    },
                }
            },
            (Spending::Signing { network, body }, SpendEvent::Signed(outcome)) => {
                &&& after == before
                &&& match outcome {
                    Err(text) => not_sent(to, ask, ChainRefusal::Said { text }),
                    Ok(tx_hash) => to == (Spending::Broadcasting { network, body, tx_hash })
                        && ask == (SpendAsk::Broadcast { network }),
                }
            },
            (
                Spending::Broadcasting { network, body, tx_hash },
                SpendEvent::Broadcast(outcome),
            ) => match outcome {
                Err(text) => after == before && not_sent(to, ask, ChainRefusal::Said { text }),
                Ok(answered) => {
                    &&& to == Spending::Ended
                    &&& ask matches SpendAsk::End { told } && chain_recorded(
                        before,
                        network,
                        body,
                        tx_hash,
                        answered,
                        now,
                        after,
                        told@,
                    )
                },
            },
            _ => after == before && to == from && ask == SpendAsk::Wait,
        }
    }
}

fn refused(refusal: ChainRefusal) -> (r: (Spending, SpendAsk))
    ensures
        not_sent(r.0, r.1, refusal),
{
    let told: Vec<Action> = vec![Action::Emit(Event::ChainSent(Err(refusal)))];
    assert(told@ =~= seq![Action::Emit(Event::ChainSent(Err(refusal)))]);
    (Spending::Ended, SpendAsk::End { told })
}

impl Worker {
    /// A send's next step.
    ///
    /// What is signed is what was shown: the recipient is parsed again, the sender must be this
    /// device's own wallet, the chain id is the named network's, and every other field is the shown
    /// one. The record is written at broadcast, not at settlement: a crash loses the ending, never that value left.
    pub fn chain_send(
        &mut self,
        from: Spending,
        event: SpendEvent,
        now: Timestamp,
    ) -> (r: (Spending, SpendAsk))
        requires
            old(self).wf(),
        ensures
            final(self).wf(),
            spends(*old(self), from, event, now, *final(self), r.0, r.1),
    {
        if self.signed.is_none() {
            return (Spending::Ended, SpendAsk::End { told: Vec::new() });
        }
        match (from, event) {
            (Spending::Checking { tx }, SpendEvent::Checked(facts)) => {
                let chain_id: u64 = facts.chain_id;
                match may_send(&tx, facts) {
                    Err(refusal) => refused(refusal),
                    Ok(to) => {
                        let body: TxBody = TxBody {
                            chain_id,
                            nonce: tx.nonce,
                            max_priority_fee_per_gas: tx.max_priority_fee_per_gas,
                            max_fee_per_gas: tx.max_fee_per_gas,
                            gas_limit: tx.gas_limit,
                            to,
                            value: tx.value_wei,
                        };
                        (
                            Spending::Signing { network: tx.network, body },
                            SpendAsk::Sign { body },
                        )
                    },
                }
            },
            (Spending::Signing { network, body }, SpendEvent::Signed(outcome)) => match outcome {
                Err(text) => refused(ChainRefusal::Said { text }),
                Ok(tx_hash) => (
                    Spending::Broadcasting { network, body, tx_hash },
                    SpendAsk::Broadcast { network },
                ),
            },
            (Spending::Broadcasting { network, body, tx_hash }, SpendEvent::Broadcast(outcome)) => {
                match outcome {
                    Err(text) => refused(ChainRefusal::Said { text }),
                    Ok(answered) => {
                        let told: Vec<Action> = self.chain_sent(
                            network,
                            &body,
                            tx_hash,
                            answered,
                            now,
                        );
                        (Spending::Ended, SpendAsk::End { told })
                    },
                }
            },
            (from, _) => (from, SpendAsk::Wait),
        }
    }
}

/// What is signed is what was shown: a body that is handed out to be signed carries the shown
/// amount, fees, gas and nonce, to the recipient that the shown text parses to, and the shown
/// sender is this device's own wallet. Its chain id is the one stated for the network that was
/// named, which no screen hands back.
pub proof fn law_what_is_signed_is_what_was_shown(
    before: Worker,
    from: Spending,
    event: SpendEvent,
    now: Timestamp,
    after: Worker,
    to: Spending,
    ask: SpendAsk,
    body: TxBody,
)
    requires
        spends(before, from, event, now, after, to, ask),
        ask == (SpendAsk::Sign { body }),
    ensures
        match (from, event) {
            (Spending::Checking { tx }, SpendEvent::Checked(facts)) => {
                &&& facts.to == Ok::<[u8; 20], String>(body.to)
                &&& facts.own_address matches Some(own) && own@ == tx.from@
                &&& body.value == tx.value_wei
                &&& body.max_fee_per_gas == tx.max_fee_per_gas
                &&& body.max_priority_fee_per_gas == tx.max_priority_fee_per_gas
                &&& body.gas_limit == tx.gas_limit
                &&& body.nonce == tx.nonce
                &&& body.chain_id == facts.chain_id
                &&& to matches Spending::Signing { network, .. } && network == tx.network
            },
            _ => false,
        },
{
}

/// What is typed is judged before the network is asked anything: a preparation that asks the
/// network has a recipient that parses and an amount that is one.
pub proof fn law_the_network_is_asked_of_nothing_misspelt(
    from: Preparing,
    event: PrepareEvent,
    to: Preparing,
    ask: PrepareAsk,
)
    requires
        prepares(from, event, to, ask),
        from is Checking,
        !(ask is Wait),
        !(ask is End),
    ensures
        ask is Fees,
        event matches PrepareEvent::Checked(facts) && facts.to is Ok && facts.value is Some
            && facts.own_address is Some,
{
}

/// A transaction that was prepared is put together from what was typed and from the network's own
/// answers: the network that was named, this device's wallet, the recipient as shown, the amount,
/// the fees, the gas and the count, each as it was given.
pub proof fn law_a_prepared_transaction_is_what_was_answered(
    from: Preparing,
    event: PrepareEvent,
    to: Preparing,
    ask: PrepareAsk,
)
    requires
        prepares(from, event, to, ask),
    ensures
        from is Checking && event is Checked && to is Pricing ==> {
            let facts = event->Checked_0;
            let draft = to->Pricing_draft;
            &&& draft.network == from->network
            &&& facts.own_address == Some(draft.from)
            &&& draft.to == facts.shown
            &&& facts.value == Some(draft.value_wei)
            &&& facts.to == Ok::<[u8; 20], String>(to->Pricing_to)
            &&& facts.holds_root
            &&& ask == (PrepareAsk::Fees { network: from->network })
        },
        from is Pricing && event is Fees && to is Gauging ==> {
            &&& to->Gauging_draft == from->Pricing_draft
            &&& event->Fees_0 == Ok::<Fees, String>(to->Gauging_fees)
            &&& ask is Gas
            &&& ask->Gas_network == from->Pricing_draft.network
            &&& ask->Gas_from@ == from->Pricing_draft.from@
            &&& ask->Gas_to == from->Pricing_to
            &&& ask->value_wei == from->Pricing_draft.value_wei
        },
        from is Gauging && event is Gas && to is Counting ==> {
            &&& to->Counting_draft == from->Gauging_draft
            &&& to->Counting_fees == from->Gauging_fees
            &&& event->Gas_0 == Ok::<u64, String>(to->gas_limit)
            &&& ask is Nonce
            &&& ask->Nonce_network == from->Gauging_draft.network
            &&& ask->Nonce_from@ == from->Gauging_draft.from@
        },
        from is Counting && event is Nonce && event->Nonce_0 is Ok ==> {
            let draft = from->Counting_draft;
            let fees = from->Counting_fees;
            &&& to is Ended
            &&& ask is End
            &&& ask->event is ChainPrepared
            &&& ask->event->ChainPrepared_0 is Ok
            &&& ({
                let tx = ask->event->ChainPrepared_0->Ok_0;
                &&& tx.network == draft.network
                &&& tx.from == draft.from
                &&& tx.to == draft.to
                &&& tx.value_wei == draft.value_wei
                &&& tx.max_priority_fee_per_gas == fees.max_priority_fee_per_gas
                &&& tx.max_fee_per_gas == fees.max_fee_per_gas
                &&& tx.gas_limit == from->gas_limit
                &&& Ok::<u64, String>(tx.nonce) == event->Nonce_0
            })
        },
{
}

/// A preparation that the network refuses ends there, with the network's own words; nothing is
/// guessed in its place.
pub proof fn law_a_refused_preparation_ends(
    from: Preparing,
    event: PrepareEvent,
    to: Preparing,
    ask: PrepareAsk,
    text: String,
)
    requires
        prepares(from, event, to, ask),
        (from is Pricing && event == PrepareEvent::Fees(Err(text))) || (from is Gauging && event
            == PrepareEvent::Gas(Err(text))) || (from is Counting && event == PrepareEvent::Nonce(
            Err(text),
        )),
    ensures
        to is Ended,
        ask is End,
        ask->event is ChainPrepared,
        ask->event->ChainPrepared_0 == Err::<PreparedTx, ChainRefusal>(ChainRefusal::Said { text }),
{
}

/// What is handed to the network is what was signed, on the network that was named; a send that is
/// refused on the way leaves no record and says why, and without an account nothing is sent at all.
pub proof fn law_what_was_signed_is_broadcast(
    before: Worker,
    from: Spending,
    event: SpendEvent,
    now: Timestamp,
    after: Worker,
    to: Spending,
    ask: SpendAsk,
)
    requires
        spends(before, from, event, now, after, to, ask),
    ensures
        before.signed is None ==> after == before && ask is End && ask->told@.len() == 0,
        before.signed is Some && from is Signing && event is Signed && event->Signed_0 is Ok ==> {
            &&& to is Broadcasting
            &&& to->Broadcasting_network == from->Signing_network
            &&& to->Broadcasting_body == from->Signing_body
            &&& event->Signed_0 == Ok::<[u8; 32], String>(to->tx_hash)
            &&& ask == (SpendAsk::Broadcast { network: from->Signing_network })
            &&& after == before
        },
        before.signed is Some && from is Signing && event is Signed && event->Signed_0 is Err ==> {
            &&& after == before
            &&& ask is End
            &&& ask->told@.len() == 1
            &&& ask->told@[0] == Action::Emit(
                Event::ChainSent(Err(ChainRefusal::Said { text: event->Signed_0->Err_0 })),
            )
        },
        before.signed is Some && from is Broadcasting && event is Broadcast && event->Broadcast_0
            is Err ==> {
            &&& after == before
            &&& ask is End
            &&& ask->told@.len() == 1
            &&& ask->told@[0] == Action::Emit(
                Event::ChainSent(Err(ChainRefusal::Said { text: event->Broadcast_0->Err_0 })),
            )
        },
        before.signed is Some && from is Checking && event is Checked ==> {
            &&& after == before
            &&& sendable(from->tx, event->Checked_0) is Err ==> ask is End && ask->told@.len() == 1
                && ask->told@[0] == Action::Emit(
                Event::ChainSent(Err(sendable(from->tx, event->Checked_0)->Err_0)),
            )
        },
{
}

/// A transaction that was accepted is recorded at once, first of all records and still pending: its
/// hash, its chain, its recipient, its amount, the most it can cost, and the moment. It is told under
/// the hash the network answered, and followed on its own network. Earlier records stay as they are.
pub proof fn law_an_accepted_transaction_is_recorded(
    before: Worker,
    network: ChainNetwork,
    body: TxBody,
    tx_hash: [u8; 32],
    answered: String,
    now: Timestamp,
    after: Worker,
    to: Spending,
    ask: SpendAsk,
)
    requires
        spends(
            before,
            Spending::Broadcasting { network, body, tx_hash },
            SpendEvent::Broadcast(Ok(answered)),
            now,
            after,
            to,
            ask,
        ),
        before.signed is Some,
    ensures
        to is Ended,
        ask is End,
        ask->told@.len() == 3,
        ask->told@[0] matches Action::Emit(Event::ChainSent(Ok(told))) && told@ == answered@,
        ask->told@[2] == (Action::TrackTransaction { network, tx_hash: answered }),
        after.records.txs is Some,
        ({
            let records = after.records.txs.unwrap().1@;
            &&& records.len() > 0
            &&& records[0].tx_hash == tx_hash
            &&& records[0].chain_id == body.chain_id
            &&& records[0].to == body.to
            &&& records[0].value_wei == body.value
            &&& records[0].gas_limit == body.gas_limit
            &&& body.max_fee_per_gas * body.gas_limit <= u128::MAX ==> records[0].fee_wei
                == body.max_fee_per_gas * body.gas_limit
            &&& now >= 0 ==> records[0].at_unix == now as int / 1000
            &&& records[0].outcome@ == "PENDING"@
            &&& records[0].block is None
            &&& records[0].gas_used is None
            &&& before.records.txs is Some ==> records.skip(1)
                == before.records.txs.unwrap().1@ && after.records.txs.unwrap().0
                == before.records.txs.unwrap().0
            &&& before.records.txs is None ==> records.len() == 1 && after.records.txs.unwrap().0
                == before.signed.unwrap().account.account_id
        }),
        after.signed == before.signed,
        after.records.peers == before.records.peers,
{
    let records = after.records.txs.unwrap().1@;
    assert(records.skip(1) =~= records.subrange(1, records.len() as int));
}

/// A send that is refused is over, and told with its refusal, once.
pub proof fn law_a_refused_send_is_over(to: Spending, ask: SpendAsk, refusal: ChainRefusal)
    requires
        not_sent(to, ask, refusal),
    ensures
        to is Ended,
        ask is End,
        ask->told@.len() == 1,
        ask->told@[0] is Emit,
        ask->told@[0]->Emit_0 is ChainSent,
        ask->told@[0]->Emit_0->ChainSent_0 == Err::<String, ChainRefusal>(refusal),
{
}

} // verus!
