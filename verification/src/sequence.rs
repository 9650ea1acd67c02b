//! What this client has read: of a gateway session, and of one conversation.

use vstd::prelude::*;

use crate::wire::{DeliveryClass, Header, Id, Opcode};

verus! {

/// The gateway session this process would resume.
#[derive(Debug, Clone, Copy, PartialEq, Eq, Structural)]
pub struct GatewaySession {
    /// The id the WELCOME minted.
    pub id: Id,
    /// How many sequenced frames this process has read off the session so far.
    pub sequenced: u64,
}

/// The ask a reconnect's HELLO carries for a session that is still held.
#[derive(Debug, Clone, Copy, PartialEq, Eq, Structural)]
pub struct ResumeRequest {
    pub session_id: Id,
    pub last_frame_seq: u64,
}

impl GatewaySession {
    /// The resume request this session turns into.
    pub fn resume_request(&self) -> (ask: ResumeRequest)
        ensures
            ask.session_id == self.id,
            ask.last_frame_seq == self.sequenced,
    {
        ResumeRequest { session_id: self.id, last_frame_seq: self.sequenced }
    }
}

/// Whether the server gave the frame a number.
///
/// An error reply always rides a critical header. Of the others, the critical ones are numbered,
/// but for the reconnect hint, which is written past the mailbox. An opcode this build cannot
/// name is not guessed at.
pub open spec fn sequenced(header: Header) -> bool {
    ||| header.error
    ||| header.operation matches Some((opcode, class)) && opcode != Opcode::ReconnectHint && class
        == DeliveryClass::Critical
}

/// Whether an inbound frame moves the count a resume asks from.
pub fn is_sequenced(header: &Header) -> (r: bool)
    ensures
        r == sequenced(*header),
{
    if header.error {
        return true;
    }
    match header.operation {
        Some((Opcode::ReconnectHint, _)) => false,
        Some((_, class)) => match class {
            DeliveryClass::Critical => true,
            _ => false,
        },
        None => false,
    }
}

/// Counts one inbound frame against the held session.
///
/// The count stops at the largest number it can hold.
pub fn count_frame(session: &mut Option<GatewaySession>, header: &Header)
    ensures
        *final(session) == counted(*old(session), *header),
{
    if is_sequenced(header) {
        if let Some(held) = *session {
            let sequenced: u64 = if held.sequenced < u64::MAX {
                held.sequenced + 1
            } else {
                held.sequenced
            };
            *session = Some(GatewaySession { id: held.id, sequenced });
        }
    }
}

pub open spec fn counted(
    session: Option<GatewaySession>,
    header: Header,
) -> Option<GatewaySession> {
    match session {
        Some(held) if sequenced(header) && held.sequenced < u64::MAX => Some(
            (GatewaySession { id: held.id, sequenced: (held.sequenced + 1) as u64 }),
        ),
        _ => session,
    }
}

/// The session after a run of frames.
pub open spec fn counted_all(session: Option<GatewaySession>, frames: Seq<Header>) -> Option<
    GatewaySession,
>
    decreases frames.len(),
{
    if frames.len() == 0 {
        session
    } else {
        counted(counted_all(session, frames.drop_last()), frames.last())
    }
}

/// How many frames of a run the server numbered.
pub open spec fn numbered(frames: Seq<Header>) -> nat
    decreases frames.len(),
{
    if frames.len() == 0 {
        0
    } else {
        numbered(frames.drop_last()) + if sequenced(frames.last()) {
            1nat
        } else {
            0nat
        }
    }
}

/// A session's count is exactly the number of frames the server numbered, and the session keeps
/// its id: the next resume asks from the frame that follows the last one read.
pub proof fn law_the_count_is_what_the_server_numbered(session: GatewaySession, frames: Seq<Header>)
    requires
        session.sequenced + numbered(frames) <= u64::MAX,
    ensures
        counted_all(Some(session), frames) == Some(
            (GatewaySession {
                id: session.id,
                sequenced: (session.sequenced + numbered(frames)) as u64,
            }),
        ),
    decreases frames.len(),
{
    if frames.len() > 0 {
        law_the_count_is_what_the_server_numbered(session, frames.drop_last());
    }
}

/// One conversation's sequence account.
///
/// A conversation numbers its events without gaps, so what a client holds is a prefix, and the
/// watermark names its top. The first event routed sets the floor, whatever its number. The
/// account remembers one number above the prefix: the furthest seen.
#[derive(Debug, Clone, Copy, PartialEq, Eq, Structural)]
pub struct SeqAccount {
    /// The highest seq held contiguously; zero until the first event sets the floor.
    pub watermark: u64,
    /// The highest seq ever routed, gap or no gap.
    pub highest_seen: u64,
    /// The watermark an unproductive fill stopped at, if one did.
    pub stalled_at: Option<u64>,
}

impl Default for SeqAccount {
    fn default() -> (account: Self)
        ensures
            account == empty_account(),
    {
        SeqAccount { watermark: 0, highest_seen: 0, stalled_at: None }
    }
}

/// The account of a conversation that has routed nothing.
pub open spec fn empty_account() -> SeqAccount {
    SeqAccount { watermark: 0, highest_seen: 0, stalled_at: None }
}

pub open spec fn max_seq(a: u64, b: u64) -> u64 {
    if a < b {
        b
    } else {
        a
    }
}

impl SeqAccount {
    /// The account holds no seq just above its watermark: a highest seq above the watermark
    /// stands beyond a real hole. An account without a floor has seen nothing.
    pub open spec fn wf(self) -> bool {
        &&& self.watermark <= self.highest_seen
        &&& self.highest_seen != self.watermark + 1
        &&& self.watermark == 0 ==> self.highest_seen == 0
    }

    /// The watermark after one more seq.
    ///
    /// The next brick advances the prefix, and closes the hole below the highest seq when that is
    /// all that was missing. A first event sets the floor. Redeliveries and leaps move nothing.
    pub open spec fn watermark_after(self, seq: u64) -> u64 {
        if seq == self.watermark + 1 {
            if max_seq(self.highest_seen, seq) == seq + 1 {
                self.highest_seen
            } else {
                seq
            }
        } else if seq > self.watermark && self.watermark == 0 {
            seq
        } else {
            self.watermark
        }
    }

    /// Whether a seq leaves a hole behind it.
    pub open spec fn leaps(self, seq: u64) -> bool {
        self.watermark > 0 && seq > self.watermark + 1
    }

    /// The account after one more seq.
    pub open spec fn after(self, seq: u64) -> SeqAccount {
        let watermark = self.watermark_after(seq);
        SeqAccount {
            watermark,
            highest_seen: max_seq(self.highest_seen, seq),
            stalled_at: if self.stalled_at == Some(watermark) {
                self.stalled_at
            } else {
                None
            },
        }
    }

    /// Routes one seq through the account, returning the top of the hole it opened, if any.
    ///
    /// The hole is named by the highest seq ever routed: a fill asked for less would leave its
    /// tail unfetched. A stall lifts the moment the watermark moves.
    pub fn track(&mut self, seq: u64) -> (gap: Option<u64>)
        ensures
            *final(self) == old(self).after(seq),
            gap == (if old(self).leaps(seq) {
                Some(final(self).highest_seen)
            } else {
                None
            }),
            old(self).wf() ==> final(self).wf(),
    {
        if seq > self.highest_seen {
            self.highest_seen = seq;
        }
        let gap: Option<u64> = if seq > self.watermark && seq - self.watermark == 1 {
            self.watermark = seq;
            if self.highest_seen > seq && self.highest_seen - seq == 1 {
                self.watermark = self.highest_seen;
            }
            None
        } else if seq <= self.watermark {
            None
        } else if self.watermark == 0 {
            self.watermark = seq;
            None
        } else {
            Some(self.highest_seen)
        };
        if let Some(stalled) = self.stalled_at {
            if stalled != self.watermark {
                self.stalled_at = None;
            }
        }
        gap
    }
}

/// The account after a run of seqs, in order.
pub open spec fn after_all(account: SeqAccount, seqs: Seq<u64>) -> SeqAccount
    decreases seqs.len(),
{
    if seqs.len() == 0 {
        account
    } else {
        after_all(account, seqs.drop_last()).after(seqs.last())
    }
}

/// The floor a run of seqs sets: its first number that is not zero, or zero.
pub open spec fn floor_of(seqs: Seq<u64>) -> u64
    decreases seqs.len(),
{
    if seqs.len() == 0 {
        0
    } else if floor_of(seqs.drop_last()) != 0 {
        floor_of(seqs.drop_last())
    } else {
        seqs.last()
    }
}

/// The watermark never stands above ground that was not covered: every number from the floor to
/// the watermark was routed. The highest seq is the greatest one routed, and the account keeps
/// its shape.
pub proof fn law_the_watermark_is_a_held_prefix(seqs: Seq<u64>)
    ensures
        ({
            let account = after_all(empty_account(), seqs);
            &&& account.wf()
            &&& floor_of(seqs) <= account.watermark
            &&& (account.watermark == 0 <==> floor_of(seqs) == 0)
            &&& forall|s: u64|
                floor_of(seqs) <= s <= account.watermark && floor_of(seqs) > 0
                    ==> #[trigger] seqs.contains(s)
            &&& forall|s: u64| #[trigger] seqs.contains(s) ==> s <= account.highest_seen
            &&& account.highest_seen > 0 ==> seqs.contains(account.highest_seen)
        }),
    decreases seqs.len(),
{
    if seqs.len() > 0 {
        let before = seqs.drop_last();
        let seq = seqs.last();
        law_the_watermark_is_a_held_prefix(before);
        let account = after_all(empty_account(), before);
        let next = after_all(empty_account(), seqs);
        assert(next == account.after(seq));
        assert forall|s: u64| #[trigger] seqs.contains(s) <==> before.contains(s) || s == seq by {
            if seqs.contains(s) {
                let i = choose|i: int| 0 <= i < seqs.len() && seqs[i] == s;
                if i < before.len() {
                    assert(before[i] == s);
                }
            }
            if before.contains(s) {
                let i = choose|i: int| 0 <= i < before.len() && before[i] == s;
                assert(seqs[i] == s);
            }
            if s == seq {
                assert(seqs[seqs.len() - 1] == s);
            }
        }
        assert forall|s: u64|
            floor_of(seqs) <= s <= next.watermark && floor_of(seqs) > 0 implies #[trigger] seqs.contains(s) by {
            if account.watermark == 0 {
                assert(s == seq);
            } else if s <= account.watermark {
                assert(before.contains(s));
            } else {
                assert(s == seq || s == account.highest_seen);
            }
        }
    }
}

/// Nothing that is routed moves the watermark or the highest seq back.
pub proof fn law_the_watermark_never_goes_back(account: SeqAccount, seqs: Seq<u64>)
    requires
        account.wf(),
    ensures
        account.watermark <= after_all(account, seqs).watermark,
        account.highest_seen <= after_all(account, seqs).highest_seen,
        after_all(account, seqs).wf(),
    decreases seqs.len(),
{
    if seqs.len() > 0 {
        law_the_watermark_never_goes_back(account, seqs.drop_last());
    }
}

/// A redelivery moves nothing but a stall that no longer stands.
pub proof fn law_a_redelivery_moves_nothing(account: SeqAccount, seq: u64)
    requires
        seq <= account.watermark,
        account.wf(),
    ensures
        account.after(seq).watermark == account.watermark,
        account.after(seq).highest_seen == account.highest_seen,
        !account.leaps(seq),
{
}

/// A stall stands exactly as long as the watermark stands where the fill stopped.
pub proof fn law_a_stall_lifts_when_the_watermark_moves(account: SeqAccount, seq: u64)
    requires
        account.stalled_at == Some(account.watermark),
    ensures
        account.after(seq).stalled_at is Some <==> account.after(seq).watermark
            == account.watermark,
{
}

/// Filling a hole in order, from its bottom to just below its top, leaves the watermark on the
/// hole's top.
pub proof fn law_filling_a_hole_reaches_its_top(account: SeqAccount, bricks: Seq<u64>)
    requires
        account.wf(),
        0 < account.watermark < account.highest_seen,
        bricks.len() == account.highest_seen - account.watermark - 1,
        forall|i: int| 0 <= i < bricks.len() ==> #[trigger] bricks[i] == account.watermark + 1 + i,
    ensures
        after_all(account, bricks).watermark == account.highest_seen,
{
    lemma_bricks(account, bricks, bricks.len() as int);
    assert(bricks.take(bricks.len() as int) =~= bricks);
}

proof fn lemma_bricks(account: SeqAccount, bricks: Seq<u64>, n: int)
    requires
        account.wf(),
        0 < account.watermark < account.highest_seen,
        bricks.len() == account.highest_seen - account.watermark - 1,
        forall|i: int| 0 <= i < bricks.len() ==> #[trigger] bricks[i] == account.watermark + 1 + i,
        0 <= n <= bricks.len(),
    ensures
        after_all(account, bricks.take(n)).highest_seen == account.highest_seen,
        n < bricks.len() ==> after_all(account, bricks.take(n)).watermark == account.watermark + n,
        n == bricks.len() ==> after_all(account, bricks.take(n)).watermark == account.highest_seen,
    decreases n,
{
    if n > 0 {
        lemma_bricks(account, bricks, n - 1);
        assert(bricks.take(n).drop_last() =~= bricks.take(n - 1));
        assert(bricks.take(n).last() == bricks[n - 1]);
    } else {
        assert(bricks.take(0) =~= Seq::<u64>::empty());
    }
}

/// Which frames the server numbers: every error, and every critical frame but the reconnect hint. A
/// frame that this build cannot name is none of them, unless it is an error.
pub proof fn law_which_frames_are_numbered(header: Header, other: Header)
    ensures
        header.error ==> sequenced(header),
        !header.error && header.operation is None ==> !sequenced(header),
        !header.error && header.operation is Some && header.operation.unwrap().1
            != DeliveryClass::Critical ==> !sequenced(header),
        !header.error && header.operation is Some && header.operation.unwrap().0
            == Opcode::ReconnectHint ==> !sequenced(header),
        !header.error && header.operation is Some && header.operation.unwrap().1
            == DeliveryClass::Critical && header.operation.unwrap().0 != Opcode::ReconnectHint
            ==> sequenced(header),
        header.operation == other.operation && header.error == other.error ==> sequenced(header)
            == sequenced(other),
{
}

/// A numbered frame moves the count by one, up to the largest number; no other frame moves it; and
/// without a session nothing is counted.
pub proof fn law_a_numbered_frame_counts_once(session: GatewaySession, header: Header)
    ensures
        counted(None, header) is None,
        counted(Some(session), header) is Some,
        counted(Some(session), header).unwrap().id == session.id,
        sequenced(header) && session.sequenced < u64::MAX ==> counted(
            Some(session),
            header,
        ).unwrap().sequenced == session.sequenced + 1,
        !sequenced(header) || session.sequenced == u64::MAX ==> counted(
            Some(session),
            header,
        ).unwrap().sequenced == session.sequenced,
{
}

/// How one number moves an account. The first sets the floor, whatever it is. The next one in the
/// row moves the watermark on, over what stood just above it. One further on moves nothing below
/// it and opens a hole. The highest number is the greatest there was.
pub proof fn law_how_a_number_moves_the_account(account: SeqAccount, seq: u64)
    requires
        account.wf(),
    ensures
        account.watermark == 0 ==> account.after(seq).watermark == seq && !account.leaps(seq),
        account.watermark > 0 && seq <= account.watermark ==> account.after(seq).watermark
            == account.watermark && !account.leaps(seq),
        account.watermark > 0 && seq == account.watermark + 1 ==> {
            &&& !account.leaps(seq)
            &&& account.after(seq).watermark == (if account.highest_seen == seq + 1 {
                seq + 1
            } else {
                seq as int
            })
        },
        account.watermark > 0 && seq > account.watermark + 1 ==> account.leaps(seq)
            && account.after(seq).watermark == account.watermark,
        account.after(seq).highest_seen >= seq,
        account.after(seq).highest_seen >= account.highest_seen,
        account.after(seq).highest_seen == seq || account.after(seq).highest_seen
            == account.highest_seen,
        account.after(seq).stalled_at is Some ==> account.after(seq).stalled_at
            == account.stalled_at && account.stalled_at == Some(account.after(seq).watermark),
{
}

} // verus!
