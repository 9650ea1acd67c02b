//! Catching a conversation up: the walks that fill holes and replay history.
//!
//! A walk is a page loop without a thread of its own. A SYNC goes out, and the page that answers
//! it decides whether another follows. Each conversation has at most one walk at a time.

use std::collections::HashMap;

use vstd::prelude::*;

use crate::sequence::SeqAccount;
use crate::wire::Id;

verus! {

broadcast use vstd::std_specs::hash::group_hash_axioms;

/// The rows one page asks for.
pub const SYNC_PAGE: u32 = 200;

/// How many pages one walk may ask for.
pub const MAX_CATCHUP_PAGES: u32 = 5;

/// One SYNC on its way out.
#[derive(Debug, Clone, Copy, PartialEq, Eq, Structural)]
pub struct SyncRequest {
    pub conversation_id: Id,
    /// The seq the page starts above, or ends below when it reads backwards.
    pub have_seq: u64,
    pub limit: u32,
    /// The top of the hole a repair fills, or `None` for the live edge.
    pub to_seq: Option<u64>,
    pub backwards: Option<bool>,
}

/// One catch-up walk in flight.
#[derive(Debug, Clone, Copy, PartialEq, Eq, Structural)]
pub struct CatchUp {
    /// The seq the walk is walking toward, or `None` for the live edge.
    pub to_seq: Option<u64>,
    /// Pages the walk may still ask for after this one.
    pub pages_left: u32,
}

impl CatchUp {
    /// Whether a page leaves the walk another one to ask for.
    pub open spec fn goes_on(self, moved: bool, more: bool, watermark: u64) -> bool {
        &&& self.pages_left > 0
        &&& moved
        &&& match self.to_seq {
            Some(to) => watermark < to,
            None => more,
        }
    }

    /// Whether the walk continues after a page.
    ///
    /// A page that moved nothing is the server's answer. A bounded walk listens to its own
    /// target; only an unbounded one follows the server's word for `more`.
    pub fn continues(&self, moved: bool, more: bool, watermark: u64) -> (r: bool)
        ensures
            r == self.goes_on(moved, more, watermark),
    {
        if self.pages_left == 0 || !moved {
            return false;
        }
        match self.to_seq {
            Some(to) => watermark < to,
            None => more,
        }
    }
}

/// The sequence accounts, the walks in flight, and the SYNC asks whose replies are still owed.
pub struct Sync {
    /// The account of each conversation that has routed an event.
    pub sequences: HashMap<Id, SeqAccount>,
    /// The walk of each conversation that has one.
    pub catchups: HashMap<Id, CatchUp>,
    /// The backwards asks, by correlation.
    pub earlier_asks: HashMap<u32, Id>,
    /// The forward asks, by correlation.
    pub sync_asks: HashMap<u32, Id>,
}

/// What [`Sync`] holds, as mathematics.
#[verifier::ext_equal]
pub struct SyncView {
    pub sequences: Map<Id, SeqAccount>,
    pub catchups: Map<Id, CatchUp>,
    pub earlier_asks: Map<u32, Id>,
    pub sync_asks: Map<u32, Id>,
}

/// What a SYNC answer is an answer to.
#[derive(Debug, Clone, Copy, PartialEq, Eq, Structural)]
pub enum PageKind {
    /// A load-earlier ask of this conversation.
    Earlier(Id),
    /// A page of whatever walk its conversation has.
    Forward,
}

/// What follows a forward page.
#[derive(Debug, Clone, Copy, PartialEq, Eq, Structural)]
pub struct PageVerdict {
    /// The next page of the walk, if the walk goes on.
    pub next: Option<SyncRequest>,
    /// Whether the thread should say that history remains.
    pub more: bool,
}

impl View for Sync {
    type V = SyncView;

    open spec fn view(&self) -> SyncView {
        SyncView {
            sequences: self.sequences@,
            catchups: self.catchups@,
            earlier_asks: self.earlier_asks@,
            sync_asks: self.sync_asks@,
        }
    }
}

impl SyncView {
    pub open spec fn empty() -> SyncView {
        SyncView {
            sequences: Map::empty(),
            catchups: Map::empty(),
            earlier_asks: Map::empty(),
            sync_asks: Map::empty(),
        }
    }

    /// The conversation's account, or the empty one.
    pub open spec fn account(self, conversation_id: Id) -> SeqAccount {
        if self.sequences.contains_key(conversation_id) {
            self.sequences[conversation_id]
        } else {
            crate::sequence::empty_account()
        }
    }

    /// The conversation's watermark; zero where nothing was routed.
    pub open spec fn watermark(self, conversation_id: Id) -> u64 {
        self.account(conversation_id).watermark
    }

    /// Whether a walk must not start: one is running, the last one stalled where the watermark
    /// still stands, or the hole is already filled.
    pub open spec fn refuses(self, conversation_id: Id, to_seq: Option<u64>) -> bool {
        ||| self.catchups.contains_key(conversation_id)
        ||| self.sequences.contains_key(conversation_id) && {
            let account = self.sequences[conversation_id];
            ||| account.stalled_at == Some(account.watermark)
            ||| to_seq matches Some(to) && to <= account.watermark
        }
    }

    /// The state with one more seq routed.
    pub open spec fn routed(self, conversation_id: Id, seq: u64) -> SyncView {
        SyncView {
            sequences: self.sequences.insert(
                conversation_id,
                self.account(conversation_id).after(seq),
            ),
            ..self
        }
    }

    /// The state with the conversation's account stalled where its watermark stands.
    pub open spec fn stalled(self, conversation_id: Id) -> SyncView {
        if self.sequences.contains_key(conversation_id) {
            let account = self.sequences[conversation_id];
            SyncView {
                sequences: self.sequences.insert(
                    conversation_id,
                    SeqAccount { stalled_at: Some(account.watermark), ..account },
                ),
                ..self
            }
        } else {
            self
        }
    }

    /// The state after a walk started.
    pub open spec fn walking(self, conversation_id: Id, to_seq: Option<u64>) -> SyncView {
        SyncView {
            catchups: self.catchups.insert(
                conversation_id,
                CatchUp { to_seq, pages_left: (MAX_CATCHUP_PAGES - 1) as u32 },
            ),
            ..self
        }
    }

    /// The state after a refusal of a SYNC.
    pub open spec fn refused(self, correlation: u32, gap_gone: bool) -> SyncView {
        if self.sync_asks.contains_key(correlation) {
            let conversation_id = self.sync_asks[correlation];
            let retired = SyncView {
                sync_asks: self.sync_asks.remove(correlation),
                catchups: self.catchups.remove(conversation_id),
                ..self
            };
            if gap_gone {
                retired.stalled(conversation_id)
            } else {
                retired
            }
        } else {
            self
        }
    }

    /// The state and the verdict after a forward page of `conversation_id` whose seqs are already
    /// routed; `before` is the watermark from before the page.
    pub open spec fn after_page(self, conversation_id: Id, before: u64, more: bool) -> (
        SyncView,
        PageVerdict,
    ) {
        let watermark = self.watermark(conversation_id);
        if !self.catchups.contains_key(conversation_id) {
            (self, PageVerdict { next: None, more })
        } else {
            let walk = self.catchups[conversation_id];
            if walk.goes_on(watermark > before, more, watermark) {
                (
                    SyncView {
                        catchups: self.catchups.insert(
                            conversation_id,
                            CatchUp { pages_left: (walk.pages_left - 1) as u32, ..walk },
                        ),
                        ..self
                    },
                    PageVerdict {
                        next: Some(
                            SyncRequest {
                                conversation_id,
                                have_seq: watermark,
                                limit: SYNC_PAGE,
                                to_seq: walk.to_seq,
                                backwards: None,
                            },
                        ),
                        more: false,
                    },
                )
            } else {
                let ended = SyncView { catchups: self.catchups.remove(conversation_id), ..self };
                (
                    if watermark == before {
                        ended.stalled(conversation_id)
                    } else {
                        ended
                    },
                    PageVerdict { next: None, more: more && walk.to_seq is None },
                )
            }
        }
    }

    /// Every walk in flight is within its budget.
    pub open spec fn wf(self) -> bool {
        &&& forall|id: Id| #[trigger]
            self.catchups.contains_key(id) ==> self.catchups[id].pages_left < MAX_CATCHUP_PAGES
        &&& forall|id: Id| #[trigger] self.sequences.contains_key(id) ==> self.sequences[id].wf()
    }
}

impl Sync {
    pub fn new() -> (sync: Self)
        ensures
            sync@ == SyncView::empty(),
            sync@.wf(),
    {
        Sync {
            sequences: HashMap::new(),
            catchups: HashMap::new(),
            earlier_asks: HashMap::new(),
            sync_asks: HashMap::new(),
        }
    }

    /// Forgets the walks and the asks. They belong to the session that minted their
    /// correlations; the accounts are facts about the conversations and stay.
    pub fn forget_session(&mut self)
        ensures
            final(self)@ == (SyncView {
                sequences: old(self)@.sequences,
                ..SyncView::empty()
            }),
            old(self)@.wf() ==> final(self)@.wf(),
    {
        self.catchups.clear();
        self.earlier_asks.clear();
        self.sync_asks.clear();
        assert(self@.catchups =~= Map::<Id, CatchUp>::empty());
        assert(self@.sequences == old(self)@.sequences);
    }

    /// The conversation's contiguous watermark: the "have" every continuation asks from.
    pub fn watermark(&self, conversation_id: Id) -> (r: u64)
        ensures
            r == self@.watermark(conversation_id),
    {
        match self.sequences.get(&conversation_id) {
            Some(account) => account.watermark,
            None => 0,
        }
    }

    /// Routes one seq through its conversation's account, returning the top of the hole it
    /// opened, if it opened one.
    pub fn track_seq(&mut self, conversation_id: Id, seq: u64) -> (gap: Option<u64>)
        ensures
            final(self)@ == old(self)@.routed(conversation_id, seq),
            gap == (if old(self)@.account(conversation_id).leaps(seq) {
                Some(old(self)@.account(conversation_id).after(seq).highest_seen)
            } else {
                None
            }),
            old(self)@.wf() ==> final(self)@.wf(),
    {
        let mut account: SeqAccount = match self.sequences.get(&conversation_id) {
            Some(held) => *held,
            None => SeqAccount::default(),
        };
        let gap: Option<u64> = account.track(seq);
        self.sequences.insert(conversation_id, account);
        gap
    }

    /// Starts a catch-up walk, returning its first page, or `None` where the walk is refused.
    ///
    /// `from` is what the first page asks from; `to_seq` is the top of the hole, or `None` for
    /// the live edge.
    pub fn catch_up(
        &mut self,
        conversation_id: Id,
        from: u64,
        to_seq: Option<u64>,
    ) -> (page: Option<SyncRequest>)
        ensures
            old(self)@.refuses(conversation_id, to_seq) ==> page is None && final(self)@ == old(
                self,
            )@,
            !old(self)@.refuses(conversation_id, to_seq) ==> {
                &&& page == Some(
                    (SyncRequest {
                        conversation_id,
                        have_seq: from,
                        limit: SYNC_PAGE,
                        to_seq,
                        backwards: None,
                    }),
                )
                &&& final(self)@ == old(self)@.walking(conversation_id, to_seq)
            },
            old(self)@.wf() ==> final(self)@.wf(),
    {
        if self.catchups.contains_key(&conversation_id) {
            return None;
        }
        if let Some(account) = self.sequences.get(&conversation_id) {
            if let Some(stalled) = account.stalled_at {
                if stalled == account.watermark {
                    return None;
                }
            }
            if let Some(to) = to_seq {
                if to <= account.watermark {
                    return None;
                }
            }
        }
        self.catchups.insert(
            conversation_id,
            CatchUp { to_seq, pages_left: MAX_CATCHUP_PAGES - 1 },
        );
        Some(SyncRequest { conversation_id, have_seq: from, limit: SYNC_PAGE, to_seq, backwards: None })
    }

    /// The ask for one page of history below `before_seq`, or below the conversation's newest
    /// event when that is zero.
    pub fn earlier_page(conversation_id: Id, before_seq: u64) -> (page: SyncRequest)
        ensures
            page == (SyncRequest {
                conversation_id,
                have_seq: before_seq,
                limit: SYNC_PAGE,
                to_seq: None,
                backwards: Some(true),
            }),
    {
        SyncRequest {
            conversation_id,
            have_seq: before_seq,
            limit: SYNC_PAGE,
            to_seq: None,
            backwards: Some(true),
        }
    }

    /// Remembers the correlation a page went out under: the reply that ends a walk may be a
    /// refusal, and a refusal names no conversation.
    pub fn asked(&mut self, correlation: u32, page: &SyncRequest)
        ensures
            page.backwards == Some(true) ==> final(self)@ == (SyncView {
                earlier_asks: old(self)@.earlier_asks.insert(correlation, page.conversation_id),
                ..old(self)@
            }),
            page.backwards != Some(true) ==> final(self)@ == (SyncView {
                sync_asks: old(self)@.sync_asks.insert(correlation, page.conversation_id),
                ..old(self)@
            }),
            old(self)@.wf() ==> final(self)@.wf(),
    {
        match page.backwards {
            Some(true) => {
                self.earlier_asks.insert(correlation, page.conversation_id);
            },
            _ => {
                self.sync_asks.insert(correlation, page.conversation_id);
            },
        }
    }

    /// A SYNC answer arrived: its forward ask is settled, and a remembered backwards ask says
    /// which thread the page belongs to.
    pub fn settle(&mut self, correlation: u32) -> (kind: PageKind)
        ensures
            final(self)@ == (SyncView {
                sync_asks: old(self)@.sync_asks.remove(correlation),
                earlier_asks: old(self)@.earlier_asks.remove(correlation),
                ..old(self)@
            }),
            kind == (if old(self)@.earlier_asks.contains_key(correlation) {
                PageKind::Earlier(old(self)@.earlier_asks[correlation])
            } else {
                PageKind::Forward
            }),
            old(self)@.wf() ==> final(self)@.wf(),
    {
        self.sync_asks.remove(&correlation);
        match self.earlier_asks.remove(&correlation) {
            Some(conversation_id) => PageKind::Earlier(conversation_id),
            None => PageKind::Forward,
        }
    }

    /// A page arrived that could not be read. The forward ask it answers is settled all the same.
    pub fn unread(&mut self, correlation: u32)
        ensures
            final(self)@ == (SyncView {
                sync_asks: old(self)@.sync_asks.remove(correlation),
                ..old(self)@
            }),
            old(self)@.wf() ==> final(self)@.wf(),
    {
        self.sync_asks.remove(&correlation);
    }

    /// A refusal arrived. One that answers a remembered SYNC retires the walk that asked, and one
    /// that says the range is gone records the stall.
    pub fn on_refusal(&mut self, correlation: u32, gap_gone: bool)
        ensures
            final(self)@ == old(self)@.refused(correlation, gap_gone),
            old(self)@.wf() ==> final(self)@.wf(),
    {
        if let Some(conversation_id) = self.sync_asks.remove(&correlation) {
            self.catchups.remove(&conversation_id);
            if gap_gone {
                self.stall(conversation_id);
            }
        } else {
            assert(self@.sync_asks =~= old(self)@.sync_asks);
        }
    }

    /// Records that the conversation's last fill stopped where its watermark stands.
    fn stall(&mut self, conversation_id: Id)
        ensures
            final(self)@ == old(self)@.stalled(conversation_id),
            old(self)@.wf() ==> final(self)@.wf(),
    {
        let held: Option<SeqAccount> = match self.sequences.get(&conversation_id) {
            Some(account) => Some(*account),
            None => None,
        };
        if let Some(account) = held {
            let stalled = SeqAccount { stalled_at: Some(account.watermark), ..account };
            self.sequences.insert(conversation_id, stalled);
        }
    }

    /// Decides what follows a forward page whose seqs were routed.
    ///
    /// `before` is the watermark from before the page and `more` the server's word for whether
    /// history remains above it. Only the last page of an unbounded walk passes that word on.
    pub fn after_page(
        &mut self,
        conversation_id: Id,
        before: u64,
        more: bool,
    ) -> (verdict: PageVerdict)
        ensures
            (final(self)@, verdict) == old(self)@.after_page(conversation_id, before, more),
            old(self)@.wf() ==> final(self)@.wf(),
    {
        let watermark: u64 = self.watermark(conversation_id);
        let held: Option<CatchUp> = match self.catchups.get(&conversation_id) {
            Some(walk) => Some(*walk),
            None => None,
        };
        match held {
            None => PageVerdict { next: None, more },
            Some(walk) => {
                if walk.continues(watermark > before, more, watermark) {
                    let pages_left: u32 = walk.pages_left - 1;
                    self.catchups.insert(
                        conversation_id,
                        CatchUp { to_seq: walk.to_seq, pages_left },
                    );
                    PageVerdict {
                        next: Some(
                            SyncRequest {
                                conversation_id,
                                have_seq: watermark,
                                limit: SYNC_PAGE,
                                to_seq: walk.to_seq,
                                backwards: None,
                            },
                        ),
                        more: false,
                    }
                } else {
                    self.catchups.remove(&conversation_id);
                    if watermark == before {
                        self.stall(conversation_id);
                    }
                    PageVerdict { next: None, more: more && walk.to_seq.is_none() }
                }
            },
        }
    }
}

/// A page that a walk asks for next spends one of the pages it had left; a walk starts with all
/// but its first. So no walk asks for more than [`MAX_CATCHUP_PAGES`] pages.
pub proof fn law_a_walk_spends_its_pages(
    sync: SyncView,
    conversation_id: Id,
    before: u64,
    more: bool,
)
    requires
        sync.wf(),
        sync.after_page(conversation_id, before, more).1.next is Some,
    ensures
        sync.catchups[conversation_id].pages_left > 0,
        sync.after_page(conversation_id, before, more).0.catchups[conversation_id].pages_left
            == sync.catchups[conversation_id].pages_left - 1,
        sync.walking(conversation_id, None).catchups[conversation_id].pages_left
            == MAX_CATCHUP_PAGES - 1,
{
}

/// A page that moved nothing ends its walk, and the stall it leaves refuses the next one: the
/// server is not asked again for what it has already answered.
pub proof fn law_an_unproductive_page_is_not_asked_again(
    sync: SyncView,
    conversation_id: Id,
    more: bool,
    to_seq: Option<u64>,
)
    requires
        sync.catchups.contains_key(conversation_id),
        sync.sequences.contains_key(conversation_id),
    ensures
        ({
            let (after, verdict) = sync.after_page(
                conversation_id,
                sync.watermark(conversation_id),
                more,
            );
            &&& verdict.next is None
            &&& !after.catchups.contains_key(conversation_id)
            &&& after.refuses(conversation_id, to_seq)
        }),
{
}

/// A bounded walk never asks beyond its target, and asks from the watermark alone: the cursor
/// that leaves no hole below it.
pub proof fn law_a_repair_stays_within_its_hole(
    sync: SyncView,
    conversation_id: Id,
    before: u64,
    more: bool,
)
    requires
        sync.after_page(conversation_id, before, more).1.next is Some,
    ensures
        ({
            let page = sync.after_page(conversation_id, before, more).1.next.unwrap();
            &&& page.have_seq == sync.watermark(conversation_id)
            &&& page.to_seq matches Some(to) ==> page.have_seq < to
            &&& page.to_seq == sync.catchups[conversation_id].to_seq
        }),
{
}

/// A refused SYNC leaves its conversation free for a later walk, unless the range is gone.
pub proof fn law_a_refusal_frees_its_conversation(sync: SyncView, correlation: u32, gap_gone: bool)
    requires
        sync.sync_asks.contains_key(correlation),
    ensures
        ({
            let conversation_id = sync.sync_asks[correlation];
            let after = sync.refused(correlation, gap_gone);
            &&& !after.catchups.contains_key(conversation_id)
            &&& !after.sync_asks.contains_key(correlation)
            &&& gap_gone && sync.sequences.contains_key(conversation_id) ==> after.refuses(
                conversation_id,
                None,
            )
        }),
{
}

/// A walk starts unless one is running, the last one stopped where the watermark still stands, or
/// the hole is filled already; and for no other reason is one refused.
pub proof fn law_when_a_walk_may_start(sync: SyncView, conversation_id: Id, to_seq: Option<u64>)
    ensures
        sync.catchups.contains_key(conversation_id) ==> sync.refuses(conversation_id, to_seq),
        !sync.catchups.contains_key(conversation_id) && !sync.sequences.contains_key(
            conversation_id,
        ) ==> !sync.refuses(conversation_id, to_seq),
        !sync.catchups.contains_key(conversation_id) && sync.sequences.contains_key(
            conversation_id,
        ) ==> {
            let account = sync.sequences[conversation_id];
            sync.refuses(conversation_id, to_seq) <==> (account.stalled_at is Some
                && account.stalled_at.unwrap() == account.watermark) || (to_seq is Some
                && to_seq.unwrap() <= account.watermark)
        },
{
}

/// What is held of one conversation does not depend on another's: a number is routed into its own
/// account, a walk started or ended in its own conversation.
pub proof fn law_conversations_are_kept_apart(
    sync: SyncView,
    conversation_id: Id,
    other: Id,
    seq: u64,
    to_seq: Option<u64>,
    before: u64,
    more: bool,
)
    requires
        other != conversation_id,
    ensures
        sync.routed(conversation_id, seq).account(other) == sync.account(other),
        sync.routed(conversation_id, seq).sequences.contains_key(conversation_id),
        sync.routed(conversation_id, seq).account(conversation_id) == sync.account(
            conversation_id,
        ).after(seq),
        sync.routed(conversation_id, seq).catchups == sync.catchups,
        sync.routed(conversation_id, seq).sync_asks == sync.sync_asks,
        sync.routed(conversation_id, seq).earlier_asks == sync.earlier_asks,
        sync.walking(conversation_id, to_seq).sequences == sync.sequences,
        sync.walking(conversation_id, to_seq).catchups.contains_key(other)
            <==> sync.catchups.contains_key(other),
        sync.walking(conversation_id, to_seq).catchups.contains_key(conversation_id),
        sync.walking(conversation_id, to_seq).catchups[conversation_id].to_seq == to_seq,
        sync.walking(conversation_id, to_seq).catchups[conversation_id].pages_left == 4,
        sync.after_page(conversation_id, before, more).0.account(other) == sync.account(other),
        sync.after_page(conversation_id, before, more).0.catchups.contains_key(other)
            <==> sync.catchups.contains_key(other),
        sync.after_page(conversation_id, before, more).0.watermark(conversation_id)
            == sync.watermark(conversation_id),
{
}

/// A walk goes on exactly while it has pages left, its page moved the watermark, and there is more to
/// fetch: up to the hole's top where it fills a hole, by the server's word where it does not. The next
/// page asks from the watermark for as many rows as any page; and the thread is told that history
/// remains only at the end of a walk to the live edge, or of none.
pub proof fn law_when_a_walk_goes_on(
    sync: SyncView,
    conversation_id: Id,
    before: u64,
    more: bool,
)
    ensures
        ({
            let (after, verdict) = sync.after_page(conversation_id, before, more);
            let watermark = sync.watermark(conversation_id);
            if !sync.catchups.contains_key(conversation_id) {
                verdict.next is None && verdict.more == more && after == sync
            } else {
                let walk = sync.catchups[conversation_id];
                &&& verdict.next is Some <==> walk.pages_left > 0 && watermark > before && (
                if walk.to_seq is Some {
                    watermark < walk.to_seq.unwrap()
                } else {
                    more
                })
                &&& verdict.next is Some ==> {
                    &&& verdict.next.unwrap().conversation_id == conversation_id
                    &&& verdict.next.unwrap().have_seq == watermark
                    &&& verdict.next.unwrap().limit == 200
                    &&& verdict.next.unwrap().to_seq == walk.to_seq
                    &&& verdict.next.unwrap().backwards is None
                    &&& !verdict.more
                    &&& after.catchups.contains_key(conversation_id)
                    &&& after.catchups[conversation_id].to_seq == walk.to_seq
                }
                &&& verdict.next is None ==> {
                    &&& verdict.more <==> more && walk.to_seq is None
                    &&& !after.catchups.contains_key(conversation_id)
                    &&& watermark > before ==> after.sequences == sync.sequences
                    &&& watermark == before && sync.sequences.contains_key(conversation_id) ==> (
                    after.sequences[conversation_id].stalled_at == Some(watermark))
                }
            }
        }),
{
}

/// A refusal is taken as the answer to the ask it names, and ends that conversation's walk alone; one
/// that answers no ask changes nothing. Only a range that is gone leaves a stall.
pub proof fn law_a_refusal_ends_its_own_walk(
    sync: SyncView,
    correlation: u32,
    gap_gone: bool,
    other: Id,
)
    ensures
        !sync.sync_asks.contains_key(correlation) ==> sync.refused(correlation, gap_gone) == sync,
        sync.sync_asks.contains_key(correlation) && sync.sync_asks[correlation] != other ==> {
            &&& sync.refused(correlation, gap_gone).catchups.contains_key(other)
                <==> sync.catchups.contains_key(other)
            &&& sync.refused(correlation, gap_gone).account(other) == sync.account(other)
        },
        !gap_gone ==> sync.refused(correlation, gap_gone).sequences == sync.sequences,
        gap_gone && sync.sync_asks.contains_key(correlation) && sync.sequences.contains_key(
            sync.sync_asks[correlation],
        ) ==> {
            let id = sync.sync_asks[correlation];
            let account = sync.refused(correlation, gap_gone).sequences[id];
            &&& account.stalled_at == Some(sync.sequences[id].watermark)
            &&& account.watermark == sync.sequences[id].watermark
            &&& account.highest_seen == sync.sequences[id].highest_seen
        },
{
}

} // verus!
