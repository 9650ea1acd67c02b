//! Rotating the account's identity.
//!
//! The successor is sealed in the vault before the server is asked to accept it, and the session
//! takes it up once the server did. The vault, the keys and the server are the edge's: it carries
//! out one step at a time, and says what came of it.

use vstd::prelude::*;

use crate::account::{challenge_payload, Records, VaultKeys};
use crate::codec::base64_bytes;
use crate::effects::{toast, toasted, Action, Event, Notice, ToastKind};
use crate::rest::{IdentityChallenge, RestError};
use crate::text::same_text;
use crate::wire::Id;

verus! {

/// Why a rotation may not begin with the vault that opened, if it may not.
pub open spec fn refusal_of(account_id: Id, keys: VaultKeys, has_identity: bool) -> Option<Action> {
    if keys.session matches Some(saved) && saved.account_id != account_id {
        Some(toast(Notice::VaultOfAnother, ToastKind::Error))
    } else if !has_identity {
        Some(toast(Notice::NoIdentityKey, ToastKind::Error))
    } else {
        None
    }
}

/// Whether a rotation may begin with the vault that opened: it is this account's, and holds an
/// identity key to sign with.
pub fn may_rotate(account_id: Id, keys: &VaultKeys, has_identity: bool) -> (refusal: Option<Action>)
    ensures
        refusal == refusal_of(account_id, *keys, has_identity),
{
    if let Some(saved) = &keys.session {
        if saved.account_id != account_id {
            return Some(toasted(Notice::VaultOfAnother, ToastKind::Error));
        }
    }
    if has_identity {
        None
    } else {
        Some(toasted(Notice::NoIdentityKey, ToastKind::Error))
    }
}

/// A rotation whose successor is in the keys, before the server is asked to accept it.
pub struct Rotation {
    pub account_id: Id,
    pub keys: VaultKeys,
    /// The seed that stood in the successor's place.
    pub prior: Option<[u8; 32]>,
    pub seed: [u8; 32],
}

/// What a rotation does next, once the server answered or did not.
#[derive(Debug, Clone, Copy, PartialEq, Eq, Structural)]
pub enum RotationStep {
    /// The successor is the account's key now.
    Accepted,
    /// Nothing came back: the successor stays sealed, and the next attempt settles it.
    Unanswered,
    /// Answer the same challenge again under the root's own key.
    RetryWithRoot,
    /// Refused: the vault goes back to the seed it held.
    RollBack,
}

/// Whether a refusal is the one that a vault ahead of the server meets.
pub open spec fn refuses_credentials(error: RestError) -> bool {
    error matches RestError::Server { symbol, .. } && symbol@ == "INVALID_CREDENTIALS"@
}

/// Whether a rotation stands, or may stand.
pub open spec fn stands(step: RotationStep) -> bool {
    step == RotationStep::Accepted || step == RotationStep::Unanswered
}

/// What the answer under the root's own key comes to.
pub open spec fn retry_step(outcome: Result<(), RestError>) -> RotationStep {
    match outcome {
        Ok(_) => RotationStep::Accepted,
        Err(RestError::Transport) => RotationStep::Unanswered,
        Err(_) => RotationStep::RollBack,
    }
}

impl Rotation {
    /// Whether this is what pre-committing a successor into some keys makes.
    pub open spec fn commits(
        self,
        records: Records,
        account_id: Id,
        before: VaultKeys,
        seed: [u8; 32],
    ) -> bool {
        &&& self.account_id == account_id
        &&& self.prior == before.rotated_identity_seed
        &&& self.seed == seed
        &&& records.carried(
            account_id,
            (VaultKeys { rotated_identity_seed: Some(seed), ..before }),
            self.keys,
        )
    }

    /// Whether the successor is in the keys.
    pub open spec fn carries_successor(self) -> bool {
        self.keys.rotated_identity_seed == Some(self.seed)
    }

    /// The records that a rotation leaves.
    pub open spec fn settled_records(self, records: Records, step: RotationStep) -> Records {
        if stands(step) {
            Records { last_backup_at: Some((self.account_id, None)), ..records }
        } else {
            records
        }
    }

    /// The keys that a rotation leaves to be sealed.
    pub open spec fn settled(self, step: RotationStep) -> VaultKeys {
        if stands(step) {
            VaultKeys { last_backup_at: None, ..self.keys }
        } else {
            VaultKeys { rotated_identity_seed: self.prior, ..self.keys }
        }
    }

    /// What the server's answer comes to.
    pub open spec fn answer_step(self, outcome: Result<(), RestError>) -> RotationStep {
        match outcome {
            Ok(_) => RotationStep::Accepted,
            Err(RestError::Transport) => RotationStep::Unanswered,
            Err(error) => if refuses_credentials(error) && self.prior is Some && self.keys.root is Some {
                RotationStep::RetryWithRoot
            } else {
                RotationStep::RollBack
            },
        }
    }

    /// Puts a successor into the keys that are to be sealed before the server is asked. The live
    /// records are folded in with it.
    pub fn commit(
        records: &Records,
        account_id: Id,
        keys: VaultKeys,
        seed: [u8; 32],
    ) -> (rotation: Self)
        ensures
            rotation.commits(*records, account_id, keys, seed),
    {
        let mut keys: VaultKeys = keys;
        let prior: Option<[u8; 32]> = keys.rotated_identity_seed;
        keys.rotated_identity_seed = Some(seed);
        records.carry_live_records(&mut keys, account_id);
        Rotation { account_id, keys, prior, seed }
    }

    /// Decides what the server's answer comes to.
    ///
    /// A refusal of the credentials, where the vault already held a successor, is what an earlier
    /// attempt's lost answer leaves behind: the key the server still knows is the root's, and the
    /// same challenge is answered again with it.
    pub fn answered(&self, outcome: &Result<(), RestError>) -> (step: RotationStep)
        ensures
            step == self.answer_step(*outcome),
    {
        match outcome {
            Ok(_) => RotationStep::Accepted,
            Err(RestError::Transport) => RotationStep::Unanswered,
            Err(error) => {
                let refused: bool = match error {
                    RestError::Server { symbol, .. } => same_text(
                        symbol.as_str(),
                        "INVALID_CREDENTIALS",
                    ),
                    _ => false,
                };
                if refused && self.prior.is_some() && self.keys.root.is_some() {
                    RotationStep::RetryWithRoot
                } else {
                    RotationStep::RollBack
                }
            },
        }
    }

    /// Decides what the answer under the root's key comes to.
    ///
    /// Here too a failure with no answer at all is no refusal: the successor stays sealed.
    pub fn retried(outcome: &Result<(), RestError>) -> (step: RotationStep)
        ensures
            step == retry_step(*outcome),
    {
        match outcome {
            Ok(_) => RotationStep::Accepted,
            Err(RestError::Transport) => RotationStep::Unanswered,
            Err(_) => RotationStep::RollBack,
        }
    }

    /// The keys a rotation leaves to be sealed.
    ///
    /// One that stands, or may stand, retires the date of the last backup with it: every container
    /// sealed before it can no longer vouch for the account. One that was refused puts back the
    /// seed that stood, and keeps the live records.
    pub fn settle(self, records: &mut Records, step: RotationStep) -> (keys: VaultKeys)
        ensures
            keys == self.settled(step),
            *final(records) == self.settled_records(*old(records), step),
    {
        let mut keys: VaultKeys = self.keys;
        match step {
            RotationStep::Accepted | RotationStep::Unanswered => {
                retire_backup_stamp(records, &mut keys, self.account_id);
            },
            RotationStep::RollBack | RotationStep::RetryWithRoot => {
                keys.rotated_identity_seed = self.prior;
            },
        }
        keys
    }
}

/// Retires the date of the last backup, in the keys that are to be sealed again and in the record
/// that is folded into them at the next passphrase moment.
pub fn retire_backup_stamp(records: &mut Records, keys: &mut VaultKeys, account_id: Id)
    ensures
        *final(records) == (Records {
            last_backup_at: Some((account_id, None)),
            ..*old(records)
        }),
        *final(keys) == (VaultKeys { last_backup_at: None, ..*old(keys) }),
{
    keys.last_backup_at = None;
    records.last_backup_at = Some((account_id, None));
}

/// What a retired date is reported as; `sealed` is how sealing the keys without it went.
pub open spec fn retired_actions(sealed: Result<(), String>) -> Seq<Action> {
    match sealed {
        Ok(_) => seq![Action::Emit(Event::BackupState { last_backup_at: None })],
        Err(reason) => seq![
            toast(Notice::BackupDateKept { reason }, ToastKind::Error),
            Action::Emit(Event::BackupState { last_backup_at: None }),
        ],
    }
}

fn backup_retired(sealed: Result<(), String>, out: &mut Vec<Action>)
    ensures
        final(out)@ == old(out)@ + retired_actions(sealed),
{
    match sealed {
        Ok(_) => {},
        Err(reason) => {
            out.push(toasted(Notice::BackupDateKept { reason }, ToastKind::Error));
        },
    }
    out.push(Action::Emit(Event::BackupState { last_backup_at: None }));
    assert(out@ =~= old(out)@ + retired_actions(sealed));
}

/// What has been put before the server: the challenge that is answered, the bytes that were signed
/// for it, and the successor's public key.
pub struct Offer {
    pub challenge_id: Id,
    pub payload: Vec<u8>,
    pub successor: Vec<u8>,
}

/// A rotation under way, by what it waits for.
pub enum Rotating {
    /// The vault, opened with the passphrase.
    Opening { account_id: Id },
    /// The server's challenge.
    Challenging { account_id: Id, keys: VaultKeys },
    /// The challenge's bytes, signed by the key that stands.
    Signing { account_id: Id, keys: VaultKeys, challenge_id: Id, payload: Vec<u8> },
    /// A fresh successor.
    Minting {
        account_id: Id,
        keys: VaultKeys,
        challenge_id: Id,
        payload: Vec<u8>,
        signature: Vec<u8>,
    },
    /// The vault, sealed with the successor in it.
    Sealing { rotation: Rotation, offer: Offer, signature: Vec<u8> },
    /// The server's answer.
    Asking { rotation: Rotation, offer: Offer },
    /// The same bytes, signed by the root's own key.
    RootSigning { rotation: Rotation, offer: Offer, reason: String },
    /// The server's answer to the root's signature.
    Retrying { rotation: Rotation, reason: String },
    /// The vault, sealed as the rotation leaves it.
    Settling { keys: VaultKeys, step: RotationStep, reason: String },
    /// Nothing more.
    Ended,
}

/// What came of a rotation's step.
pub enum RotationEvent {
    /// The vault opened, with whether an identity key is in it, or did not.
    Opened(Result<(VaultKeys, bool), String>),
    Challenged(Result<IdentityChallenge, RestError>),
    Signed(Result<Vec<u8>, String>),
    /// A seed was drawn, and its public key derived.
    Minted { seed: [u8; 32], successor: Result<Vec<u8>, String> },
    Sealed(Result<(), String>),
    Answered(Result<(), RestError>),
    /// The root signed, or could not.
    RootSigned(Option<Vec<u8>>),
}

/// What a rotation asks for next.
pub enum RotationAsk {
    /// Nothing: it still waits for what it asked before.
    Wait,
    Challenge,
    Sign { payload: Vec<u8> },
    Mint,
    /// Carry these out, and seal the keys it holds.
    Seal { told: Vec<Action> },
    Rotate { challenge_id: Id, signature: Vec<u8>, successor: Vec<u8> },
    SignWithRoot { payload: Vec<u8> },
    /// Carry these out; the rotation is over.
    End { told: Vec<Action> },
}

/// What is done of a rotation that stands before its vault is sealed again: the session takes the
/// successor up.
pub open spec fn adoption(step: RotationStep, seed: [u8; 32]) -> Seq<Action> {
    if step == RotationStep::Accepted {
        seq![
            Action::AdoptIdentity { seed },
            toast(Notice::IdentityRotated, ToastKind::Success),
        ]
    } else {
        seq![]
    }
}

/// What a rotation that ended is reported as. `reason` is the refusal's own sentence, and `sealed`
/// is how sealing the keys it left went.
pub open spec fn rotation_told(
    step: RotationStep,
    reason: String,
    sealed: Result<(), String>,
) -> Seq<Action> {
    match step {
        RotationStep::Accepted => retired_actions(sealed),
        RotationStep::Unanswered => retired_actions(sealed).push(
            toast(Notice::RotationUnanswered, ToastKind::Info),
        ),
        _ => seq![
            match sealed {
                Ok(_) => toast(Notice::IdentityNotRotated { reason }, ToastKind::Error),
                Err(vault) => toast(
                    Notice::IdentityNotRestored { reason, vault },
                    ToastKind::Error,
                ),
            },
        ],
    }
}

fn tell_rotation(
    step: RotationStep,
    reason: String,
    sealed: Result<(), String>,
) -> (out: Vec<Action>)
    ensures
        out@ == rotation_told(step, reason, sealed),
{
    match step {
        RotationStep::Accepted => {
            let mut out: Vec<Action> = Vec::new();
            backup_retired(sealed, &mut out);
            assert(out@ =~= retired_actions(sealed));
            out
        },
        RotationStep::Unanswered => {
            let mut out: Vec<Action> = Vec::new();
            backup_retired(sealed, &mut out);
            assert(out@ =~= retired_actions(sealed));
            out.push(toasted(Notice::RotationUnanswered, ToastKind::Info));
            out
        },
        _ => {
            let told: Action = match sealed {
                Ok(_) => toasted(Notice::IdentityNotRotated { reason }, ToastKind::Error),
                Err(vault) => toasted(
                    Notice::IdentityNotRestored { reason, vault },
                    ToastKind::Error,
                ),
            };
            vec![told]
        },
    }
}

impl Rotating {
    /// Whether what a rotation holds is consistent: a successor that is offered is the one in the
    /// keys it holds.
    pub open spec fn wf(self) -> bool {
        match self {
            Rotating::Sealing { rotation, .. } => rotation.carries_successor(),
            Rotating::Asking { rotation, .. } => rotation.carries_successor(),
            Rotating::RootSigning { rotation, .. } => rotation.carries_successor(),
            Rotating::Retrying { rotation, .. } => rotation.carries_successor(),
            _ => true,
        }
    }

    /// The keys that are to be sealed, where sealing is what is waited for.
    pub open spec fn sealable(self) -> Option<VaultKeys> {
        match self {
            Rotating::Sealing { rotation, .. } => Some(rotation.keys),
            Rotating::Settling { keys, .. } => Some(keys),
            _ => None,
        }
    }

    /// The keys that are to be sealed, where sealing is what is waited for.
    pub fn to_seal(&self) -> (keys: Option<&VaultKeys>)
        ensures
            match keys {
                Some(keys) => self.sealable() == Some(*keys),
                None => self.sealable() is None,
            },
    {
        match self {
            Rotating::Sealing { rotation, .. } => Some(&rotation.keys),
            Rotating::Settling { keys, .. } => Some(keys),
            _ => None,
        }
    }
}

/// Whether a rotation is over, having said one thing.
pub open spec fn ends_saying(to: Rotating, ask: RotationAsk, words: Seq<char>) -> bool {
    &&& to == Rotating::Ended
    &&& ask matches RotationAsk::End { told } && told.len() == 1 && (told[0] matches Action::Emit(
        Event::Toast { notice: Notice::Said { text }, kind },
    ) && kind == ToastKind::Error && text@ == words)
}

/// Whether a rotation is over, having done these things.
pub open spec fn ends_with(to: Rotating, ask: RotationAsk, told: Seq<Action>) -> bool {
    &&& to == Rotating::Ended
    &&& ask matches RotationAsk::End { told: done } && done@ == told
}

/// Whether a rotation that ends in some step goes on to seal the vault as it leaves it.
pub open spec fn settles(
    rotation: Rotation,
    step: RotationStep,
    reason: Seq<char>,
    records: Records,
    to: Rotating,
    after: Records,
    ask: RotationAsk,
) -> bool {
    &&& after == rotation.settled_records(records, step)
    &&& to matches Rotating::Settling { keys, step: kept, reason: said } && keys
        == rotation.settled(step) && kept == step && said@ == reason
    &&& ask matches RotationAsk::Seal { told } && told@ == adoption(step, rotation.seed)
}

/// Whether a rotation goes from one state to another, on an event.
pub open spec fn turns(
    from: Rotating,
    records: Records,
    event: RotationEvent,
    to: Rotating,
    after: Records,
    ask: RotationAsk,
) -> bool {
    match (from, event) {
        (Rotating::Opening { account_id }, RotationEvent::Opened(opened)) => {
            &&& after == records
            &&& match opened {
                Err(reason) => ends_with(
                    to,
                    ask,
                    seq![toast(Notice::VaultNotOpened { reason }, ToastKind::Error)],
                ),
                Ok((keys, has_identity)) => match refusal_of(account_id, keys, has_identity) {
                    Some(told) => ends_with(to, ask, seq![told]),
                    None => to == (Rotating::Challenging { account_id, keys }) && ask
                        == RotationAsk::Challenge,
                },
            }
        },
        (Rotating::Challenging { account_id, keys }, RotationEvent::Challenged(outcome)) => {
            &&& after == records
            &&& match outcome {
                Err(error) => ends_saying(to, ask, error.says()),
                Ok(challenge) => match base64_bytes(challenge.payload@) {
                    None => ends_with(
                        to,
                        ask,
                        seq![toast(Notice::PayloadNotBase64, ToastKind::Error)],
                    ),
                    Some(bytes) => {
                        &&& to matches Rotating::Signing {
                            account_id: of,
                            keys: kept,
                            challenge_id,
                            payload,
                        } && of == account_id && kept == keys && challenge_id
                            == challenge.challenge_id && payload@ == bytes
                        &&& ask matches RotationAsk::Sign { payload } && payload@ == bytes
                    },
                },
            }
        },
        (
            Rotating::Signing { account_id, keys, challenge_id, payload },
            RotationEvent::Signed(outcome),
        ) => {
            &&& after == records
            &&& match outcome {
                Err(reason) => ends_saying(to, ask, reason@),
                Ok(signature) => to == (Rotating::Minting {
                    account_id,
                    keys,
                    challenge_id,
                    payload,
                    signature,
                }) && ask == RotationAsk::Mint,
            }
        },
        (
            Rotating::Minting { account_id, keys, challenge_id, payload, signature },
            RotationEvent::Minted { seed, successor },
        ) => {
            &&& after == records
            &&& match successor {
                Err(reason) => ends_saying(to, ask, reason@),
                Ok(public) => {
                    &&& to matches Rotating::Sealing { rotation, offer, signature: kept }
                        && rotation.commits(records, account_id, keys, seed) && offer == (Offer {
                        challenge_id,
                        payload,
                        successor: public,
                    }) && kept == signature
                    &&& ask matches RotationAsk::Seal { told } && told@ == Seq::<Action>::empty()
                },
            }
        },
        (Rotating::Sealing { rotation, offer, signature }, RotationEvent::Sealed(outcome)) => {
            &&& after == records
            &&& match outcome {
                Err(reason) => ends_with(
                    to,
                    ask,
                    seq![toast(Notice::VaultNotSealed { reason }, ToastKind::Error)],
                ),
                Ok(_) => {
                    &&& to == (Rotating::Asking { rotation, offer })
                    &&& ask matches RotationAsk::Rotate {
                        challenge_id,
                        signature: sent,
                        successor,
                    } && challenge_id == offer.challenge_id && sent == signature && successor@
                        == offer.successor@
                },
            }
        },
        (Rotating::Asking { rotation, offer }, RotationEvent::Answered(outcome)) => {
            let step = rotation.answer_step(outcome);
            let reason = match outcome {
                Ok(_) => Seq::empty(),
                Err(error) => error.says(),
            };
            if step == RotationStep::RetryWithRoot {
                &&& after == records
                &&& to matches Rotating::RootSigning {
                    rotation: kept,
                    offer: same,
                    reason: said,
                } && kept == rotation && same == offer && said@ == reason
                &&& ask matches RotationAsk::SignWithRoot { payload } && payload@ == offer.payload@
            } else {
                settles(rotation, step, reason, records, to, after, ask)
            }
        },
        (Rotating::RootSigning { rotation, offer, reason }, RotationEvent::RootSigned(signed)) => {
            match signed {
                Some(signature) => {
                    &&& after == records
                    &&& to == (Rotating::Retrying { rotation, reason })
                    &&& ask == (RotationAsk::Rotate {
                        challenge_id: offer.challenge_id,
                        signature,
                        successor: offer.successor,
                    })
                },
                None => settles(
                    rotation,
                    RotationStep::RollBack,
                    reason@,
                    records,
                    to,
                    after,
                    ask,
                ),
            }
        },
        (Rotating::Retrying { rotation, reason }, RotationEvent::Answered(outcome)) => settles(
            rotation,
            retry_step(outcome),
            reason@,
            records,
            to,
            after,
            ask,
        ),
        (Rotating::Settling { step, reason, .. }, RotationEvent::Sealed(outcome)) => {
            &&& after == records
            &&& ends_with(to, ask, rotation_told(step, reason, outcome))
        },
        _ => {
            &&& after == records
            &&& to == from
            &&& ask == RotationAsk::Wait
        },
    }
}

fn said_end(text: String) -> (r: (Rotating, RotationAsk))
    ensures
        ends_saying(r.0, r.1, text@),
{
    let told: Vec<Action> = vec![toasted(Notice::Said { text }, ToastKind::Error)];
    (Rotating::Ended, RotationAsk::End { told })
}

fn end(action: Action) -> (r: (Rotating, RotationAsk))
    ensures
        ends_with(r.0, r.1, seq![action]),
{
    let told: Vec<Action> = vec![action];
    assert(told@ =~= seq![action]);
    (Rotating::Ended, RotationAsk::End { told })
}

fn settle_with(
    rotation: Rotation,
    step: RotationStep,
    reason: String,
    records: &mut Records,
) -> (r: (Rotating, RotationAsk))
    ensures
        settles(rotation, step, reason@, *old(records), r.0, *final(records), r.1),
{
    let seed: [u8; 32] = rotation.seed;
    let keys: VaultKeys = rotation.settle(records, step);
    let told: Vec<Action> = match step {
        RotationStep::Accepted => vec![
            Action::AdoptIdentity { seed },
            toasted(Notice::IdentityRotated, ToastKind::Success),
        ],
        _ => Vec::new(),
    };
    assert(told@ =~= adoption(step, seed));
    (Rotating::Settling { keys, step, reason }, RotationAsk::Seal { told })
}

/// A rotation's next step. An event that is not waited for is not heard.
pub fn rotate_identity(
    from: Rotating,
    records: &mut Records,
    event: RotationEvent,
) -> (r: (Rotating, RotationAsk))
    requires
        from.wf(),
    ensures
        turns(from, *old(records), event, r.0, *final(records), r.1),
        r.0.wf(),
{
    match (from, event) {
        (Rotating::Opening { account_id }, RotationEvent::Opened(opened)) => match opened {
            Err(reason) => end(toasted(Notice::VaultNotOpened { reason }, ToastKind::Error)),
            Ok((keys, has_identity)) => match may_rotate(account_id, &keys, has_identity) {
                Some(told) => end(told),
                None => (Rotating::Challenging { account_id, keys }, RotationAsk::Challenge),
            },
        },
        (Rotating::Challenging { account_id, keys }, RotationEvent::Challenged(outcome)) => {
            match outcome {
                Err(error) => said_end(error.message()),
                Ok(challenge) => match challenge_payload(&challenge) {
                    None => end(toasted(Notice::PayloadNotBase64, ToastKind::Error)),
                    Some((challenge_id, payload)) => {
                        let sent: Vec<u8> = payload.clone();
                        (
                            Rotating::Signing { account_id, keys, challenge_id, payload },
                            RotationAsk::Sign { payload: sent },
                        )
                    },
                },
            }
        },
        (
            Rotating::Signing { account_id, keys, challenge_id, payload },
            RotationEvent::Signed(outcome),
        ) => match outcome {
            Err(reason) => said_end(reason),
            Ok(signature) => (
                Rotating::Minting { account_id, keys, challenge_id, payload, signature },
                RotationAsk::Mint,
            ),
        },
        (
            Rotating::Minting { account_id, keys, challenge_id, payload, signature },
            RotationEvent::Minted { seed, successor },
        ) => match successor {
            Err(reason) => said_end(reason),
            Ok(successor) => {
                let rotation: Rotation = Rotation::commit(records, account_id, keys, seed);
                let offer: Offer = Offer { challenge_id, payload, successor };
                (
                    Rotating::Sealing { rotation, offer, signature },
                    RotationAsk::Seal { told: Vec::new() },
                )
            },
        },
        (Rotating::Sealing { rotation, offer, signature }, RotationEvent::Sealed(outcome)) => {
            match outcome {
                Err(reason) => end(toasted(Notice::VaultNotSealed { reason }, ToastKind::Error)),
                Ok(_) => {
                    let challenge_id: Id = offer.challenge_id;
                    let successor: Vec<u8> = offer.successor.clone();
                    (
                        Rotating::Asking { rotation, offer },
                        RotationAsk::Rotate { challenge_id, signature, successor },
                    )
                },
            }
        },
        (Rotating::Asking { rotation, offer }, RotationEvent::Answered(outcome)) => {
            let step: RotationStep = rotation.answered(&outcome);
            let reason: String = match &outcome {
                Ok(_) => String::new(),
                Err(error) => error.message(),
            };
            match step {
                RotationStep::RetryWithRoot => {
                    let payload: Vec<u8> = offer.payload.clone();
                    (
                        Rotating::RootSigning { rotation, offer, reason },
                        RotationAsk::SignWithRoot { payload },
                    )
                },
                _ => settle_with(rotation, step, reason, records),
            }
        },
        (Rotating::RootSigning { rotation, offer, reason }, RotationEvent::RootSigned(signed)) => {
            match signed {
                Some(signature) => (
                    Rotating::Retrying { rotation, reason },
                    RotationAsk::Rotate {
                        challenge_id: offer.challenge_id,
                        signature,
                        successor: offer.successor,
                    },
                ),
                None => settle_with(rotation, RotationStep::RollBack, reason, records),
            }
        },
        (Rotating::Retrying { rotation, reason }, RotationEvent::Answered(outcome)) => {
            let step: RotationStep = Rotation::retried(&outcome);
            settle_with(rotation, step, reason, records)
        },
        (Rotating::Settling { step, reason, .. }, RotationEvent::Sealed(outcome)) => {
            (Rotating::Ended, RotationAsk::End { told: tell_rotation(step, reason, outcome) })
        },
        (from, _) => (from, RotationAsk::Wait),
    }
}

/// The successor is sealed before the server is asked: a rotation is offered to the server only
/// once the vault was sealed with the very successor in it, or once more under the root's key
/// after that.
pub proof fn law_the_successor_is_sealed_first(
    from: Rotating,
    records: Records,
    event: RotationEvent,
    to: Rotating,
    after: Records,
    ask: RotationAsk,
)
    requires
        from.wf(),
        turns(from, records, event, to, after, ask),
        ask is Rotate,
    ensures
        from is Sealing || from is RootSigning,
        from matches Rotating::Sealing { rotation, offer, .. } ==> {
            &&& event matches RotationEvent::Sealed(outcome) && outcome is Ok
            &&& from.sealable() == Some(rotation.keys)
            &&& rotation.keys.rotated_identity_seed == Some(rotation.seed)
            &&& to == (Rotating::Asking { rotation, offer })
        },
{
}

/// The session takes a successor up only once the server accepted it, and then it is the one that
/// the vault was sealed with.
pub proof fn law_a_successor_is_taken_up_once_accepted(
    from: Rotating,
    records: Records,
    event: RotationEvent,
    to: Rotating,
    after: Records,
    ask: RotationAsk,
    seed: [u8; 32],
)
    requires
        from.wf(),
        turns(from, records, event, to, after, ask),
        ask matches RotationAsk::Seal { told } && told@.contains(Action::AdoptIdentity { seed }),
    ensures
        event matches RotationEvent::Answered(outcome) && outcome is Ok,
        match from {
            Rotating::Asking { rotation, .. } => rotation.keys.rotated_identity_seed == Some(seed),
            Rotating::Retrying { rotation, .. } => rotation.keys.rotated_identity_seed == Some(
                seed,
            ),
            _ => false,
        },
{
}

/// A refusal that the server answered, under either key, costs nothing: what was put into the
/// vault for the rotation, taken out again, leaves the identity exactly as it was, and the live
/// records folded in.
pub proof fn law_a_refused_rotation_costs_nothing(
    records: Records,
    account_id: Id,
    seed: [u8; 32],
    before: VaultKeys,
    rotation: Rotation,
    error: RestError,
)
    requires
        rotation.commits(records, account_id, before, seed),
        error != RestError::Transport,
    ensures
        retry_step(Err(error)) == RotationStep::RollBack,
        rotation.answer_step(Err(error)) == RotationStep::RollBack || rotation.answer_step(
            Err(error),
        ) == RotationStep::RetryWithRoot,
        ({
            let after = rotation.settled(RotationStep::RollBack);
            &&& after.rotated_identity_seed == before.rotated_identity_seed
            &&& after.session == before.session
            &&& after.root == before.root
            &&& records.carried(account_id, before, after)
        }),
{
}

/// A rotation whose answer was lost, under either key, strands nobody: the vault keeps the
/// successor, which the server may know by now, and vouches for no backup made before it.
pub proof fn law_a_lost_answer_strands_nobody(
    records: Records,
    account_id: Id,
    seed: [u8; 32],
    before: VaultKeys,
    rotation: Rotation,
)
    requires
        rotation.commits(records, account_id, before, seed),
    ensures
        ({
            let lost = Err::<(), RestError>(RestError::Transport);
            let after = rotation.settled(rotation.answer_step(lost));
            &&& retry_step(lost) == rotation.answer_step(lost)
            &&& after.rotated_identity_seed == Some(seed)
            &&& after.root == before.root
            &&& after.last_backup_at is None
        }),
{
}

/// A lost answer heals: where the server never saw the successor that stayed sealed, the attempt
/// after it is refused the credentials, and answers again under the root's own key.
pub proof fn law_a_lost_answer_is_healed(
    records: Records,
    account_id: Id,
    before: VaultKeys,
    lost: Rotation,
    lost_seed: [u8; 32],
    later: Records,
    again: Rotation,
    seed: [u8; 32],
    error: RestError,
)
    requires
        before.root is Some,
        lost.commits(records, account_id, before, lost_seed),
        again.commits(later, account_id, lost.settled(RotationStep::Unanswered), seed),
        refuses_credentials(error),
    ensures
        again.prior == Some(lost_seed),
        again.answer_step(Err(error)) == RotationStep::RetryWithRoot,
{
}

/// A retired date does not come back: the record that is folded into the keys at the next
/// passphrase moment says that there is none.
pub proof fn law_a_retired_date_stays_retired(
    records: Records,
    account_id: Id,
    before: VaultKeys,
    after: VaultKeys,
)
    requires
        records.last_backup_at == Some((account_id, None::<u64>)),
        records.carried(account_id, before, after),
    ensures
        after.last_backup_at is None,
{
}

/// A rotation may begin only with a vault that is this account's, or saved no sign-in, and that holds
/// an identity to sign with; otherwise it says which is missing.
pub proof fn law_when_a_rotation_may_begin(account_id: Id, keys: VaultKeys, has_identity: bool)
    ensures
        ({
            let another = keys.session is Some && keys.session.unwrap().account_id != account_id;
            &&& refusal_of(account_id, keys, has_identity) is None <==> !another && has_identity
            &&& another ==> (refusal_of(account_id, keys, has_identity).unwrap() matches Action::Emit(
                Event::Toast { notice, kind },
            ) && notice == Notice::VaultOfAnother && kind == ToastKind::Error)
            &&& !another && !has_identity ==> (refusal_of(
                account_id,
                keys,
                has_identity,
            ).unwrap() matches Action::Emit(Event::Toast { notice, kind }) && notice
                == Notice::NoIdentityKey && kind == ToastKind::Error)
        }),
{
}

/// What an answer comes to: an acceptance is one, silence is neither, and a refusal rolls back, unless
/// it is of the credentials and the vault holds an earlier successor and the root to try again with.
pub proof fn law_what_an_answer_comes_to(rotation: Rotation, outcome: Result<(), RestError>)
    ensures
        outcome is Ok <==> rotation.answer_step(outcome) == RotationStep::Accepted,
        outcome == Err::<(), RestError>(RestError::Transport) <==> rotation.answer_step(outcome)
            == RotationStep::Unanswered,
        rotation.answer_step(outcome) == RotationStep::RetryWithRoot <==> outcome is Err
            && outcome->Err_0 is Server && outcome->Err_0->symbol@ == "INVALID_CREDENTIALS"@
            && rotation.prior is Some && rotation.keys.root is Some,
        outcome is Ok <==> retry_step(outcome) == RotationStep::Accepted,
        outcome == Err::<(), RestError>(RestError::Transport) <==> retry_step(outcome)
            == RotationStep::Unanswered,
        outcome is Err && outcome->Err_0 != RestError::Transport ==> retry_step(outcome)
            == RotationStep::RollBack,
{
}

/// What a rotation leaves in the vault: its successor where it stands or may stand, without the date
/// of a backup that can vouch no more; and what stood before it where it was refused.
pub proof fn law_what_a_rotation_leaves(rotation: Rotation, records: Records, step: RotationStep)
    ensures
        step == RotationStep::Accepted || step == RotationStep::Unanswered ==> {
            &&& rotation.settled(step).rotated_identity_seed == rotation.keys.rotated_identity_seed
            &&& rotation.settled(step).last_backup_at is None
            &&& rotation.settled_records(records, step).last_backup_at == Some(
                (rotation.account_id, None::<u64>),
            )
        },
        step == RotationStep::RollBack || step == RotationStep::RetryWithRoot ==> {
            &&& rotation.settled(step).rotated_identity_seed == rotation.prior
            &&& rotation.settled(step).last_backup_at == rotation.keys.last_backup_at
            &&& rotation.settled_records(records, step) == records
        },
        rotation.settled(step).root == rotation.keys.root,
        rotation.settled(step).session == rotation.keys.session,
        rotation.settled(step).txs == rotation.keys.txs,
        rotation.settled_records(records, step).txs == records.txs,
        rotation.settled_records(records, step).peers == records.peers,
{
}

/// What committing a successor puts into the vault: the successor, beside the root that was there; and
/// what it remembers is the seed that stood before.
pub proof fn law_what_a_commit_puts_in(
    rotation: Rotation,
    records: Records,
    account_id: Id,
    before: VaultKeys,
    seed: [u8; 32],
)
    requires
        rotation.commits(records, account_id, before, seed),
    ensures
        rotation.keys.rotated_identity_seed == Some(seed),
        rotation.carries_successor(),
        rotation.prior == before.rotated_identity_seed,
        rotation.seed == seed,
        rotation.account_id == account_id,
        rotation.keys.root == before.root,
        rotation.keys.session == before.session,
{
}

/// A rotation signs exactly the bytes of its own challenge, and offers the server that challenge's
/// signature with the successor it minted; the root signs the same bytes, and offers the same
/// successor.
pub proof fn law_a_rotation_signs_its_own_challenge(
    from: Rotating,
    records: Records,
    event: RotationEvent,
    to: Rotating,
    after: Records,
    ask: RotationAsk,
)
    requires
        turns(from, records, event, to, after, ask),
    ensures
        from is Challenging && event is Challenged && event->Challenged_0 is Ok && base64_bytes(
            event->Challenged_0->Ok_0.payload@,
        ) is Some ==> {
            let challenge = event->Challenged_0->Ok_0;
            &&& ask is Sign
            &&& Some(ask->Sign_payload@) == base64_bytes(challenge.payload@)
            &&& to is Signing
            &&& to->Signing_challenge_id == challenge.challenge_id
            &&& Some(to->Signing_payload@) == base64_bytes(challenge.payload@)
            &&& to->Signing_keys == from->Challenging_keys
        },
        from is Signing && event is Signed && event->Signed_0 is Ok ==> {
            &&& ask is Mint
            &&& to is Minting
            &&& to->Minting_signature == event->Signed_0->Ok_0
            &&& to->Minting_challenge_id == from->Signing_challenge_id
            &&& to->Minting_payload == from->Signing_payload
            &&& to->Minting_keys == from->Signing_keys
        },
        from is Minting && event is Minted && event->Minted_successor is Ok ==> {
            &&& ask is Seal
            &&& to is Sealing
            &&& to->Sealing_rotation.seed == event->seed
            &&& to->Sealing_rotation.keys.rotated_identity_seed == Some(event->seed)
            &&& to->Sealing_rotation.keys.root == from->Minting_keys.root
            &&& to->Sealing_rotation.prior == from->Minting_keys.rotated_identity_seed
            &&& to->Sealing_offer.challenge_id == from->Minting_challenge_id
            &&& to->Sealing_offer.payload == from->Minting_payload
            &&& to->Sealing_offer.successor == event->Minted_successor->Ok_0
            &&& to->Sealing_signature == from->Minting_signature
        },
        from is Sealing && event is Sealed && event->Sealed_0 is Ok ==> {
            &&& ask is Rotate
            &&& ask->challenge_id == from->Sealing_offer.challenge_id
            &&& ask->signature == from->Sealing_signature
            &&& ask->successor@ == from->Sealing_offer.successor@
        },
        from is Asking && event is Answered && ask is SignWithRoot ==> ask->SignWithRoot_payload@
            == from->Asking_offer.payload@,
        from is RootSigning && event is RootSigned && event->RootSigned_0 is Some ==> {
            &&& ask is Rotate
            &&& ask->challenge_id == from->RootSigning_offer.challenge_id
            &&& ask->signature == event->RootSigned_0.unwrap()
            &&& ask->successor == from->RootSigning_offer.successor
        },
{
}

/// An accepted rotation is taken up at once and sealed again; one that is not accepted is not taken
/// up. What ended is told: the retired date, the silence, or the refusal in its own words.
pub proof fn law_a_rotations_end_is_told(
    step: RotationStep,
    seed: [u8; 32],
    reason: String,
    sealed: Result<(), String>,
)
    ensures
        step == RotationStep::Accepted ==> adoption(step, seed).len() == 2 && adoption(step, seed)[0]
            == (Action::AdoptIdentity { seed }),
        step != RotationStep::Accepted ==> adoption(step, seed).len() == 0,
        step == RotationStep::Accepted || step == RotationStep::Unanswered ==> rotation_told(
            step,
            reason,
            sealed,
        ).contains(Action::Emit(Event::BackupState { last_backup_at: None })),
        step == RotationStep::Unanswered ==> (rotation_told(
            step,
            reason,
            sealed,
        ).last() matches Action::Emit(Event::Toast { notice, .. }) && notice
            == Notice::RotationUnanswered),
        step == RotationStep::RollBack && sealed is Ok ==> rotation_told(step, reason, sealed)
            == seq![
            Action::Emit(
                Event::Toast {
                    notice: Notice::IdentityNotRotated { reason },
                    kind: ToastKind::Error,
                },
            ),
        ],
        step == RotationStep::RollBack && sealed is Err ==> rotation_told(step, reason, sealed)
            == seq![
            Action::Emit(
                Event::Toast {
                    notice: Notice::IdentityNotRestored { reason, vault: sealed->Err_0 },
                    kind: ToastKind::Error,
                },
            ),
        ],
        sealed is Err ==> (retired_actions(sealed)[0] matches Action::Emit(
            Event::Toast { notice, .. },
        ) && notice == (Notice::BackupDateKept { reason: sealed->Err_0 })),
{
    let told = rotation_told(step, reason, sealed);
    if step == RotationStep::Accepted || step == RotationStep::Unanswered {
        let at = if sealed is Ok { 0int } else { 1 };
        assert(told[at] == Action::Emit(Event::BackupState { last_backup_at: None }));
    }
}

/// A rotation that stops before the server is asked says why and leaves the records alone.
pub proof fn law_a_rotation_that_stops_says_why(
    from: Rotating,
    records: Records,
    event: RotationEvent,
    to: Rotating,
    after: Records,
    ask: RotationAsk,
)
    requires
        turns(from, records, event, to, after, ask),
        from is Opening || from is Challenging || from is Signing || from is Minting,
        to is Ended,
    ensures
        after == records,
        ask is End,
        ask->End_told@.len() == 1,
        ask->End_told@[0] is Emit,
        ask->End_told@[0]->Emit_0 is Toast,
        event is Opened && event->Opened_0 is Err ==> ask->End_told@[0]->Emit_0->Toast_notice == (
        Notice::VaultNotOpened { reason: event->Opened_0->Err_0 }),
        event is Signed ==> (ask->End_told@[0]->Emit_0->Toast_notice matches Notice::Said { text }
            && text@ == event->Signed_0->Err_0@),
{
}

/// What is sealed is what the rotation holds, where sealing is what is waited for.
pub proof fn law_what_a_rotation_seals(from: Rotating)
    ensures
        from.sealable() is Some <==> from is Sealing || from is Settling,
        from is Sealing ==> from.sealable() == Some(from->Sealing_rotation.keys),
        from is Settling ==> from.sealable() == Some(from->Settling_keys),
{
}

/// Signed by the root, the same rotation is asked for once more, with the reason of the first
/// refusal kept; nothing is recorded meanwhile.
pub proof fn law_the_root_is_asked_for_the_same_rotation(
    from: Rotating,
    records: Records,
    event: RotationEvent,
    to: Rotating,
    after: Records,
    ask: RotationAsk,
)
    requires
        turns(from, records, event, to, after, ask),
    ensures
        from is Asking && event is Answered && ask is SignWithRoot ==> {
            &&& after == records
            &&& to is RootSigning
            &&& to->RootSigning_rotation == from->Asking_rotation
            &&& to->RootSigning_offer == from->Asking_offer
            &&& event->Answered_0 is Err
            &&& to->RootSigning_reason@ == event->Answered_0->Err_0.says()
        },
        from is RootSigning && event is RootSigned && event->RootSigned_0 is Some ==> {
            &&& after == records
            &&& to is Retrying
            &&& to->Retrying_rotation == from->RootSigning_rotation
            &&& to->Retrying_reason == from->RootSigning_reason
        },
        ask is Wait ==> to == from && after == records,
{
}

/// Only an accepted rotation is taken up, under its own seed, and said to have succeeded. A backup
/// date that could not be forgotten in the vault is said as an error, and is no longer shown either
/// way.
pub proof fn law_a_rotation_is_said_as_it_went(
    step: RotationStep,
    seed: [u8; 32],
    sealed: Result<(), String>,
)
    ensures
        step == RotationStep::Accepted ==> adoption(step, seed).len() == 2 && adoption(step, seed)[0]
            == (Action::AdoptIdentity { seed }) && adoption(step, seed)[1] == Action::Emit(
            Event::Toast { notice: Notice::IdentityRotated, kind: ToastKind::Success },
        ),
        step != RotationStep::Accepted ==> adoption(step, seed).len() == 0,
        retired_actions(sealed).len() > 0,
        retired_actions(sealed).last() == Action::Emit(
            Event::BackupState { last_backup_at: None },
        ),
        sealed is Ok ==> retired_actions(sealed).len() == 1,
        sealed matches Err(reason) ==> retired_actions(sealed).len() == 2 && retired_actions(
            sealed,
        )[0] == Action::Emit(
            Event::Toast { notice: Notice::BackupDateKept { reason }, kind: ToastKind::Error },
        ),
{
}

/// A rotation that ends is over, and what it says is said once and as an error: the words of the
/// failure, and for a challenge that cannot be read, that it could not.
pub proof fn law_a_rotation_that_ends_is_over(
    to: Rotating,
    ask: RotationAsk,
    words: Seq<char>,
    told: Seq<Action>,
)
    ensures
        ends_saying(to, ask, words) ==> {
            &&& to is Ended
            &&& ask is End
            &&& ask->End_told@.len() == 1
            &&& ask->End_told@[0] is Emit
            &&& ask->End_told@[0]->Emit_0 is Toast
            &&& ask->End_told@[0]->Emit_0->Toast_kind == ToastKind::Error
            &&& ask->End_told@[0]->Emit_0->Toast_notice is Said
            &&& ask->End_told@[0]->Emit_0->Toast_notice->Said_text@ == words
        },
        ends_with(to, ask, told) ==> to is Ended && ask is End && ask->End_told@ == told,
{
}

/// A challenge that is not base64 ends the rotation, with an error that says so and nothing
/// recorded.
pub proof fn law_an_unreadable_challenge_ends_the_rotation(
    from: Rotating,
    records: Records,
    event: RotationEvent,
    to: Rotating,
    after: Records,
    ask: RotationAsk,
)
    requires
        turns(from, records, event, to, after, ask),
        from is Challenging,
        event is Challenged,
        event->Challenged_0 is Ok,
        base64_bytes(event->Challenged_0->Ok_0.payload@) is None,
    ensures
        after == records,
        to is Ended,
        ask is End,
        ask->End_told@ == seq![
            Action::Emit(Event::Toast { notice: Notice::PayloadNotBase64, kind: ToastKind::Error }),
        ],
{
}

/// A rotation that settles goes on as the step it came to, with the reason it was given, and seals
/// the keys and the records that this step leaves.
pub proof fn law_a_settled_rotation_keeps_its_step(
    rotation: Rotation,
    step: RotationStep,
    reason: Seq<char>,
    records: Records,
    to: Rotating,
    after: Records,
    ask: RotationAsk,
)
    requires
        settles(rotation, step, reason, records, to, after, ask),
    ensures
        to is Settling,
        to->Settling_step == step,
        to->Settling_reason@ == reason,
        to->Settling_keys == rotation.settled(step),
        after == rotation.settled_records(records, step),
        ask is Seal,
        step != RotationStep::Accepted ==> ask->Seal_told@.len() == 0,
{
}

} // verus!
