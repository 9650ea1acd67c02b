//! Accounts: their names, their cards, where they stand, and what this account is to them.

use std::collections::HashMap;

use vstd::prelude::*;

use crate::asks::Asks;
use crate::effects::{
    graph_request, request_relationships, toast, toasted, Action, BadgeRow, Event, LeaderRow,
    MemberCard, Notice, OwnProfile, Progression, Relationship, Request, ToastKind,
};
use crate::ids::{
    first_of, fresh, law_a_watch_is_bounded_and_new, law_a_watch_leaves_nobody_out, profile_batch,
    take_fresh, WATCH_BATCH,
};
use crate::signed::Signed;
use crate::text::same_text;
use crate::wire::{Id, Presence, RelationshipKind, TopicKind};

verus! {

broadcast use vstd::std_specs::hash::group_hash_axioms;

/// An account's card as the wire carries it.
pub struct UserProfile {
    pub user_id: Id,
    pub username: String,
    pub display_name: String,
    pub public_id: Option<String>,
    pub bio: Option<String>,
    pub presence: Option<Presence>,
    pub verified: bool,
    pub custom_status: Option<String>,
    pub birth_year: Option<u32>,
    pub country: Option<String>,
    pub language: Option<String>,
}

/// Two optional texts of the same characters.
pub open spec fn same_opt(a: Option<String>, b: Option<String>) -> bool {
    match (a, b) {
        (Some(x), Some(y)) => x@ == y@,
        (None, None) => true,
        _ => false,
    }
}

fn copy_opt(text: &Option<String>) -> (copy: Option<String>)
    ensures
        same_opt(copy, *text),
{
    match text {
        Some(held) => Some(held.clone()),
        None => None,
    }
}

/// Where a card says its account stands, or `otherwise` where it does not say.
pub open spec fn stands(profile: UserProfile, otherwise: Presence) -> Presence {
    match profile.presence {
        Some(state) => state,
        None => otherwise,
    }
}

/// Whether a card is the member view's reduction of a profile.
pub open spec fn card_says(card: MemberCard, profile: UserProfile) -> bool {
    &&& card.account_id == profile.user_id
    &&& card.username@ == profile.username@
    &&& card.display_name@ == profile.display_name@
    &&& same_opt(card.public_id, profile.public_id)
    &&& same_opt(card.bio, profile.bio)
    &&& card.presence == stands(profile, Presence::Unknown)
    &&& card.verified == profile.verified
    &&& same_opt(card.custom_status, profile.custom_status)
    &&& same_opt(card.country, profile.country)
    &&& same_opt(card.language, profile.language)
}

/// Whether a card is the profile pane's reduction of a profile.
pub open spec fn own_says(own: OwnProfile, profile: UserProfile) -> bool {
    &&& own.account_id == profile.user_id
    &&& own.username@ == profile.username@
    &&& own.display_name@ == profile.display_name@
    &&& same_opt(own.public_id, profile.public_id)
    &&& same_opt(own.bio, profile.bio)
    &&& same_opt(own.custom_status, profile.custom_status)
    &&& own.birth_year == profile.birth_year
    &&& own.presence == stands(profile, Presence::Online)
}

/// Reduces one card to the member view's row.
pub fn member_card_from_wire(profile: &UserProfile) -> (card: MemberCard)
    ensures
        card_says(card, *profile),
{
    MemberCard {
        account_id: profile.user_id,
        username: profile.username.clone(),
        display_name: profile.display_name.clone(),
        public_id: copy_opt(&profile.public_id),
        bio: copy_opt(&profile.bio),
        presence: match profile.presence {
            Some(state) => state,
            None => Presence::Unknown,
        },
        verified: profile.verified,
        custom_status: copy_opt(&profile.custom_status),
        country: copy_opt(&profile.country),
        language: copy_opt(&profile.language),
    }
}

/// Reduces one card to the profile pane's row. An account that reads its own card is online.
pub fn own_profile_from_wire(profile: &UserProfile) -> (own: OwnProfile)
    ensures
        own_says(own, *profile),
{
    OwnProfile {
        account_id: profile.user_id,
        username: profile.username.clone(),
        display_name: profile.display_name.clone(),
        public_id: copy_opt(&profile.public_id),
        bio: copy_opt(&profile.bio),
        custom_status: copy_opt(&profile.custom_status),
        birth_year: profile.birth_year,
        presence: match profile.presence {
            Some(state) => state,
            None => Presence::Online,
        },
    }
}

/// The name an account is drawn with.
pub open spec fn name_of(profile: UserProfile) -> Seq<char> {
    if profile.display_name@.len() == 0 {
        profile.username@
    } else {
        profile.display_name@
    }
}

/// The names of a run of profiles; the last one of an account stands.
pub open spec fn names_of(profiles: Seq<UserProfile>) -> Map<Id, Seq<char>>
    decreases profiles.len(),
{
    if profiles.len() == 0 {
        Map::empty()
    } else {
        names_of(profiles.drop_last()).insert(profiles.last().user_id, name_of(profiles.last()))
    }
}

/// Whether some actions are what one profile has the window told: where the account stands if
/// that was observed, its card for the pane if it is this account's own, its card for the member
/// view if that asked for it. In that order.
pub open spec fn profile_told(
    profile: UserProfile,
    me: Id,
    ask: Option<(Id, Id)>,
    told: Seq<Action>,
) -> bool {
    let stood = profile.presence matches Some(state) && state != Presence::Unknown;
    let mine = profile.user_id == me;
    let asked = ask matches Some((_, account)) && account == profile.user_id;
    let n = (if stood {
        1int
    } else {
        0
    });
    let m = n + (if mine {
        1int
    } else {
        0
    });
    &&& told.len() == m + (if asked {
        1int
    } else {
        0
    })
    &&& stood ==> told[0] == Action::Emit(
        Event::PresenceChanged { user_id: profile.user_id, state: profile.presence.unwrap() },
    )
    &&& mine ==> (told[n] matches Action::Emit(Event::OwnProfile(own)) && own_says(own, profile))
    &&& asked ==> (told[m] matches Action::Emit(Event::MemberProfile { conversation_id, card })
        && conversation_id == ask.unwrap().0 && card_says(card, profile))
}

fn tell_profile(profile: &UserProfile, me: Id, ask: Option<(Id, Id)>) -> (told: Vec<Action>)
    ensures
        profile_told(*profile, me, ask, told@),
{
    let mut told: Vec<Action> = Vec::new();
    if let Some(state) = profile.presence {
        match state {
            Presence::Unknown => {},
            _ => {
                told.push(
                    Action::Emit(Event::PresenceChanged { user_id: profile.user_id, state }),
                );
            },
        }
    }
    if profile.user_id == me {
        told.push(Action::Emit(Event::OwnProfile(own_profile_from_wire(profile))));
    }
    if let Some((conversation_id, account)) = ask {
        if account == profile.user_id {
            let card: MemberCard = member_card_from_wire(profile);
            told.push(Action::Emit(Event::MemberProfile { conversation_id, card }));
        }
    }
    told
}

/// Names as mathematics.
pub open spec fn names_view(names: Map<Id, String>) -> Map<Id, Seq<char>> {
    names.map_values(|name: String| name@)
}

/// Whether some profiles were read as they should be.
pub open spec fn profiles_read(
    asked: Asks,
    me: Id,
    profiles: Seq<UserProfile>,
    left: Asks,
    out: Seq<Action>,
) -> bool {
    &&& left == (Asks { member_profile: None, ..asked })
    &&& exists|told: Seq<Seq<Action>>|
            {
                &&& #[trigger] told.len() == profiles.len()
                &&& forall|i: int|
                    0 <= i < told.len() ==> profile_told(
                        profiles[i],
                        me,
                        asked.member_profile,
                        #[trigger] told[i],
                    )
                &&& out.len() == told.flatten().len() + 1
                &&& out.drop_last() == told.flatten()
                &&& out.last() matches Action::Emit(Event::Names(names)) && names_view(names@)
                    == names_of(profiles)
            }
}

/// A batch of profiles arrived.
///
/// Each one tells what it tells, in order, and the names of all follow. The member view's ask is
/// spent with the reply, matched or not.
pub fn on_profiles(asks: &mut Asks, me: Id, profiles: &Vec<UserProfile>) -> (out: Vec<Action>)
    ensures
        profiles_read(*old(asks), me, profiles@, *final(asks), out@),
{
    let ask: Option<(Id, Id)> = asks.member_profile;
    let mut out: Vec<Action> = Vec::new();
    let mut names: HashMap<Id, String> = HashMap::new();
    let ghost mut told: Seq<Seq<Action>> = Seq::empty();
    let mut i: usize = 0;
    proof {
        assert(profiles@.take(0) =~= Seq::<UserProfile>::empty());
        assert(names_view(names@) =~= names_of(profiles@.take(0)));
        assert(told.flatten() =~= Seq::<Action>::empty());
    }
    while i < profiles.len()
        invariant
            i <= profiles@.len(),
            told.len() == i,
            ask == old(asks).member_profile,
            *asks == *old(asks),
            forall|j: int| 0 <= j < i ==> profile_told(profiles@[j], me, ask, #[trigger] told[j]),
            out@ == told.flatten(),
            names_view(names@) == names_of(profiles@.take(i as int)),
        decreases profiles.len() - i,
    {
        let profile: &UserProfile = &profiles[i];
        let ghost before = names@;
        assert(profiles@.take(i + 1).drop_last() =~= profiles@.take(i as int));
        let name: String = if profile.display_name.as_str().is_empty() {
            profile.username.clone()
        } else {
            profile.display_name.clone()
        };
        let mut more: Vec<Action> = tell_profile(profile, me, ask);
        let ghost piece = more@;
        out.append(&mut more);
        proof {
            let grown = told.push(piece);
            assert(grown.drop_last() =~= told);
            grown.lemma_flatten_and_flatten_alt_are_equivalent();
            told.lemma_flatten_and_flatten_alt_are_equivalent();
            assert(grown.flatten() =~= told.flatten() + piece);
            told = grown;
        }
        names.insert(profile.user_id, name);
        assert(names_view(names@) =~= names_view(before).insert(
            profile.user_id,
            name_of(*profile),
        ));
        i = i + 1;
    }
    assert(profiles@.take(profiles@.len() as int) =~= profiles@);
    asks.member_profile = None;
    let ghost all = out@;
    out.push(Action::Emit(Event::Names(names)));
    assert(out@.drop_last() =~= all);
    out
}

/// Whether a saved profile was told as it should be.
pub open spec fn profile_saved(me: Id, profile: UserProfile, out: Seq<Action>) -> bool {
    &&& profile.user_id != me ==> out.len() == 0
    &&& profile.user_id == me ==> {
            &&& out.len() == 2
            &&& out[0] == toast(Notice::ProfileSaved, ToastKind::Success)
            &&& out[1] matches Action::Emit(Event::ProfileSaved(own)) && own_says(own, profile)
        }
}

/// A saved profile came back. Somebody else's card is not this account's save.
pub fn on_profile_saved(me: Id, profile: &UserProfile) -> (out: Vec<Action>)
    ensures
        profile_saved(me, *profile, out@),
{
    let mut out: Vec<Action> = Vec::new();
    if profile.user_id == me {
        out.push(toasted(Notice::ProfileSaved, ToastKind::Success));
        out.push(Action::Emit(Event::ProfileSaved(own_profile_from_wire(profile))));
    }
    out
}

/// The accounts of a run of edges.
pub open spec fn named_in(edges: Seq<Relationship>) -> Seq<Id> {
    edges.map_values(|edge: Relationship| edge.user_id)
}

/// The friends of a run of edges, in order.
pub open spec fn friends_in(edges: Seq<Relationship>) -> Seq<Id>
    decreases edges.len(),
{
    if edges.len() == 0 {
        Seq::empty()
    } else if edges.last().kind == RelationshipKind::Friend {
        friends_in(edges.drop_last()).push(edges.last().user_id)
    } else {
        friends_in(edges.drop_last())
    }
}

/// The kind of the first edge to an account.
pub open spec fn edge_to(edges: Seq<Relationship>, account: Id) -> Option<RelationshipKind>
    decreases edges.len(),
{
    if edges.len() == 0 {
        None
    } else if edges[0].user_id == account {
        Some(edges[0].kind)
    } else {
        edge_to(edges.subrange(1, edges.len() as int), account)
    }
}

fn find_edge(edges: &Vec<Relationship>, account: Id) -> (kind: Option<RelationshipKind>)
    ensures
        kind == edge_to(edges@, account),
{
    let mut i: usize = 0;
    assert(edges@.subrange(0, edges@.len() as int) =~= edges@);
    while i < edges.len()
        invariant
            i <= edges@.len(),
            edge_to(edges@, account) == edge_to(
                edges@.subrange(i as int, edges@.len() as int),
                account,
            ),
        decreases edges.len() - i,
    {
        let ghost rest = edges@.subrange(i as int, edges@.len() as int);
        assert(rest.subrange(1, rest.len() as int) =~= edges@.subrange(i + 1, edges@.len() as int));
        if edges[i].user_id == account {
            return Some(edges[i].kind);
        }
        i = i + 1;
    }
    None
}

fn list_edges(edges: &Vec<Relationship>) -> (r: (Vec<Id>, Vec<Id>))
    ensures
        r.0@ == named_in(edges@),
        r.1@ == friends_in(edges@),
{
    let mut named: Vec<Id> = Vec::new();
    let mut friends: Vec<Id> = Vec::new();
    let mut i: usize = 0;
    assert(edges@.take(0) =~= Seq::<Relationship>::empty());
    while i < edges.len()
        invariant
            i <= edges@.len(),
            named@ == named_in(edges@.take(i as int)),
            friends@ == friends_in(edges@.take(i as int)),
        decreases edges.len() - i,
    {
        assert(edges@.take(i + 1).drop_last() =~= edges@.take(i as int));
        let edge: Relationship = edges[i];
        named.push(edge.user_id);
        assert(named@ =~= named_in(edges@.take(i + 1)));
        match edge.kind {
            RelationshipKind::Friend => {
                friends.push(edge.user_id);
            },
            _ => {},
        }
        i = i + 1;
    }
    assert(edges@.take(edges@.len() as int) =~= edges@);
    (named, friends)
}

/// Reads profiles of some accounts: each once, up to the batch's bound; of none, nothing.
pub fn fetch_profiles(ids: &Vec<Id>) -> (out: Vec<Action>)
    ensures
        ids@.len() == 0 ==> out@.len() == 0,
        ids@.len() > 0 ==> out@.len() == 1 && (out@[0] matches Action::Request(
            Request::ProfileFetch { user_ids },
        ) && first_of(ids@, user_ids@)),
{
    let mut out: Vec<Action> = Vec::new();
    if ids.len() > 0 {
        out.push(Action::Request(Request::ProfileFetch { user_ids: profile_batch(ids) }));
    }
    out
}

/// Watches the presence of some accounts: those not watched yet, up to the batch's bound.
pub fn watch_users(signed: &mut Signed, ids: &Vec<Id>) -> (out: Vec<Action>)
    ensures
        ({
            let taken = fresh(ids@, old(signed).watched@, WATCH_BATCH as nat);
            &&& final(signed).watched@ == old(signed).watched@.union(taken.to_set())
            &&& *final(signed) == (Signed { watched: final(signed).watched, ..*old(signed) })
            &&& taken.len() == 0 ==> out@.len() == 0
            &&& taken.len() > 0 ==> out@.len() == 1 && (out@[0] matches Action::Request(
                Request::Subscribe { kind, ids: topics },
            ) && kind == TopicKind::User && topics@ == taken)
        }),
{
    let topics: Vec<Id> = take_fresh(ids, &mut signed.watched, WATCH_BATCH);
    let mut out: Vec<Action> = Vec::new();
    if topics.len() > 0 {
        out.push(Action::Request(Request::Subscribe { kind: TopicKind::User, ids: topics }));
    }
    out
}

/// Whether some actions are what a graph read has the edge do: answer the member view's edge ask,
/// tell the graph, read the names of everybody in it, watch the presence of its friends.
pub open spec fn graph_told(
    signed: Signed,
    ask: Option<(Id, Id)>,
    edges: Vec<Relationship>,
    out: Seq<Action>,
) -> bool {
    let n = (if ask is Some {
        1int
    } else {
        0
    });
    let taken = fresh(friends_in(edges@), signed.watched@, WATCH_BATCH as nat);
    let m = n + 1 + (if edges@.len() > 0 {
        1int
    } else {
        0
    });
    &&& ask matches Some((conversation_id, account)) ==> out[0] == Action::Emit(
        (Event::MemberEdge { conversation_id, kind: edge_to(edges@, account) }),
    )
    &&& out[n] == Action::Emit(Event::Relationships(edges))
    &&& edges@.len() > 0 ==> (out[n + 1] matches Action::Request(Request::ProfileFetch { user_ids })
        && first_of(named_in(edges@), user_ids@))
    &&& out.len() == m + (if taken.len() > 0 {
        1int
    } else {
        0
    })
    &&& taken.len() > 0 ==> (out[m] matches Action::Request(Request::Subscribe { kind, ids }) && kind
        == TopicKind::User && ids@ == taken)
}

/// Whether the social graph was read as it should be.
pub open spec fn graph_read(
    before: Signed,
    asked: Asks,
    edges: Vec<Relationship>,
    after: Signed,
    left: Asks,
    out: Seq<Action>,
) -> bool {
    &&& left == (Asks { member_edge: None, ..asked })
    &&& after.watched@ == before.watched@.union(
            fresh(friends_in(edges@), before.watched@, WATCH_BATCH as nat).to_set(),
        )
    &&& after == (Signed { watched: after.watched, ..before })
    &&& graph_told(before, asked.member_edge, edges, out)
}

/// The social graph came back.
///
/// The member view's edge ask is spent with it: no edge is an answer too.
pub fn on_relationships(
    signed: &mut Signed,
    asks: &mut Asks,
    edges: Vec<Relationship>,
) -> (out: Vec<Action>)
    ensures
        graph_read(*old(signed), *old(asks), edges, *final(signed), *final(asks), out@),
{
    let mut out: Vec<Action> = Vec::new();
    if let Some((conversation_id, account)) = asks.member_edge.take() {
        let kind: Option<RelationshipKind> = find_edge(&edges, account);
        out.push(Action::Emit(Event::MemberEdge { conversation_id, kind }));
    }
    let (named, friends): (Vec<Id>, Vec<Id>) = list_edges(&edges);
    out.push(Action::Emit(Event::Relationships(edges)));
    let mut profiles: Vec<Action> = fetch_profiles(&named);
    out.append(&mut profiles);
    let mut watches: Vec<Action> = watch_users(signed, &friends);
    out.append(&mut watches);
    out
}

/// What a friend event's state claims: a request came in, or one was accepted; any other state
/// claims nothing but that the graph moved.
pub open spec fn friend_claim(state: Seq<char>) -> Option<bool> {
    if state == "request"@ {
        Some(false)
    } else if state == "accepted"@ {
        Some(true)
    } else {
        None
    }
}

/// A social event that this account was the audience of.
pub fn on_friend_event(user_id: Id, state: &str) -> (action: Action)
    ensures
        action == Action::Emit(
            (Event::FriendChanged { user_id, accepted: friend_claim(state@) }),
        ),
{
    let accepted: Option<bool> = if same_text(state, "request") {
        Some(false)
    } else if same_text(state, "accepted") {
        Some(true)
    } else {
        None
    };
    Action::Emit(Event::FriendChanged { user_id, accepted })
}

/// A presence event: one that observed nothing tells nothing.
pub fn on_presence(user_id: Id, state: Presence) -> (out: Vec<Action>)
    ensures
        out@ == (if state == Presence::Unknown {
            Seq::empty()
        } else {
            seq![Action::Emit(Event::PresenceChanged { user_id, state })]
        }),
{
    match state {
        Presence::Unknown => Vec::new(),
        _ => vec![Action::Emit(Event::PresenceChanged { user_id, state })],
    }
}

/// Whether a progression was filed as it should be.
pub open spec fn progression_read(
    asked: Asks,
    me: Id,
    account_id: Id,
    progression: Progression,
    left: Asks,
    out: Seq<Action>,
) -> bool {
    &&& left == (Asks { member_progression: None, ..asked })
    &&& out =~= (match asked.member_progression {
            Some((conversation_id, asked)) if asked == account_id => seq![
                Action::Emit(Event::MemberProgression { conversation_id, progression }),
            ],
            _ => if account_id == me {
                seq![Action::Emit(Event::ProgressionArrived(progression))]
            } else {
                Seq::empty()
            },
        })
}

/// A standing came back, for the account it names.
///
/// One the member view asked for answers its ask; otherwise only this account's own is filed. The
/// ask is spent with the reply, matched or not: a stale one must not claim a later page.
pub fn on_progression(
    asks: &mut Asks,
    me: Id,
    account_id: Id,
    progression: Progression,
) -> (out: Vec<Action>)
    ensures
        progression_read(*old(asks), me, account_id, progression, *final(asks), out@),
{
    if let Some((conversation_id, asked)) = asks.member_progression.take() {
        if asked == account_id {
            return vec![Action::Emit(Event::MemberProgression { conversation_id, progression })];
        }
    }
    if account_id == me {
        vec![Action::Emit(Event::ProgressionArrived(progression))]
    } else {
        Vec::new()
    }
}

/// Whether some badges were filed as they should be.
pub open spec fn badges_read(
    asked: Asks,
    badges: Vec<BadgeRow>,
    left: Asks,
    out: Seq<Action>,
) -> bool {
    &&& left == (Asks { member_badges: None, ..asked })
    &&& out.len() == 1
    &&& match asked.member_badges {
            Some((conversation_id, _)) => out[0] == Action::Emit(
                Event::MemberBadges { conversation_id, badges },
            ),
            None => out[0] matches Action::Emit(Event::Badges(codes)) && codes@
                == badges@.map_values(|badge: BadgeRow| badge.code),
        }
}

/// Badges came back. The reply names no account, so the member view's ask, where one stands, is
/// spent on it; any other reply is this account's own.
pub fn on_badges(asks: &mut Asks, badges: Vec<BadgeRow>) -> (out: Vec<Action>)
    ensures
        badges_read(*old(asks), badges, *final(asks), out@),
{
    if let Some((conversation_id, _)) = asks.member_badges.take() {
        return vec![Action::Emit(Event::MemberBadges { conversation_id, badges })];
    }
    let mut codes: Vec<String> = Vec::new();
    for badge in it: badges
        invariant
            it.seq() == badges@,
            codes@.len() == it.index(),
            forall|i: int| 0 <= i < codes@.len() ==> codes@[i] == badges@[i].code,
    {
        codes.push(badge.code);
    }
    assert(codes@ =~= badges@.map_values(|badge: BadgeRow| badge.code));
    vec![Action::Emit(Event::Badges(codes))]
}

/// The place of an account on a page, if it is on it.
pub open spec fn place_of(ranks: Seq<LeaderRow>, account: Id) -> Option<u32>
    decreases ranks.len(),
{
    if ranks.len() == 0 {
        None
    } else if ranks[0].account_id == account {
        Some(ranks[0].position)
    } else {
        place_of(ranks.subrange(1, ranks.len() as int), account)
    }
}

/// Whether a board was filed as it should be.
pub open spec fn board_read(
    asked: Asks,
    ranks: Vec<LeaderRow>,
    left: Asks,
    out: Seq<Action>,
) -> bool {
    &&& left == (Asks { member_rank: None, ..asked })
    &&& out =~= (match asked.member_rank {
            Some((conversation_id, asked)) => seq![
                Action::Emit(
                    Event::MemberRank { conversation_id, position: place_of(ranks@, asked) },
                ),
            ],
            None => seq![Action::Emit(Event::Leaderboard(ranks))],
        })
}

/// A page of the board came back. A rank ask spends itself on it; any other page is the wallet's.
pub fn on_leaderboard(asks: &mut Asks, ranks: Vec<LeaderRow>) -> (out: Vec<Action>)
    ensures
        board_read(*old(asks), ranks, *final(asks), out@),
{
    if let Some((conversation_id, asked)) = asks.member_rank.take() {
        let mut position: Option<u32> = None;
        let mut i: usize = 0;
        assert(ranks@.subrange(0, ranks@.len() as int) =~= ranks@);
        while i < ranks.len() && position.is_none()
            invariant
                i <= ranks@.len(),
                position is Some ==> position == place_of(ranks@, asked),
                position is None ==> place_of(ranks@, asked) == place_of(
                    ranks@.subrange(i as int, ranks@.len() as int),
                    asked,
                ),
            decreases ranks.len() - i,
        {
            let ghost rest = ranks@.subrange(i as int, ranks@.len() as int);
            assert(rest.subrange(1, rest.len() as int) =~= ranks@.subrange(
                i + 1,
                ranks@.len() as int,
            ));
            if ranks[i].account_id == asked {
                position = Some(ranks[i].position);
            }
            i = i + 1;
        }
        return vec![Action::Emit(Event::MemberRank { conversation_id, position })];
    }
    vec![Action::Emit(Event::Leaderboard(ranks))]
}

/// An acknowledgement that the graph moved: re-read it, if it did.
pub fn on_social_ack(ok: bool) -> (out: Vec<Action>)
    ensures
        out@ == (if ok {
            seq![graph_request()]
        } else {
            Seq::empty()
        }),
{
    if ok {
        vec![request_relationships()]
    } else {
        Vec::new()
    }
}

/// A member's card says of its account what its profile says, each thing in its own place. Where the
/// profile does not say where the account stands, the card does not either.
pub proof fn law_a_card_is_its_profiles_own(card: MemberCard, profile: UserProfile)
    requires
        card_says(card, profile),
    ensures
        card.account_id == profile.user_id,
        card.username@ == profile.username@,
        card.display_name@ == profile.display_name@,
        card.verified <==> profile.verified,
        profile.presence is Some ==> card.presence == profile.presence.unwrap(),
        profile.presence is None ==> card.presence == Presence::Unknown,
        card.public_id is Some <==> profile.public_id is Some,
        card.public_id is Some ==> card.public_id.unwrap()@ == profile.public_id.unwrap()@,
        card.bio is Some <==> profile.bio is Some,
        card.bio is Some ==> card.bio.unwrap()@ == profile.bio.unwrap()@,
        card.custom_status is Some <==> profile.custom_status is Some,
        card.custom_status is Some ==> card.custom_status.unwrap()@
            == profile.custom_status.unwrap()@,
        card.country is Some <==> profile.country is Some,
        card.country is Some ==> card.country.unwrap()@ == profile.country.unwrap()@,
        card.language is Some <==> profile.language is Some,
        card.language is Some ==> card.language.unwrap()@ == profile.language.unwrap()@,
{
}

/// This account's own pane says of it what its profile says; and an account that reads its own
/// profile is online unless the profile says otherwise.
pub proof fn law_the_own_pane_is_its_profiles_own(own: OwnProfile, profile: UserProfile)
    requires
        own_says(own, profile),
    ensures
        own.account_id == profile.user_id,
        own.username@ == profile.username@,
        own.display_name@ == profile.display_name@,
        own.birth_year == profile.birth_year,
        profile.presence is Some ==> own.presence == profile.presence.unwrap(),
        profile.presence is None ==> own.presence == Presence::Online,
        own.public_id is Some <==> profile.public_id is Some,
        own.public_id is Some ==> own.public_id.unwrap()@ == profile.public_id.unwrap()@,
        own.bio is Some <==> profile.bio is Some,
        own.bio is Some ==> own.bio.unwrap()@ == profile.bio.unwrap()@,
        own.custom_status is Some <==> profile.custom_status is Some,
        own.custom_status is Some ==> own.custom_status.unwrap()@
            == profile.custom_status.unwrap()@,
{
}

/// An account is drawn with the name it shows, or with its username where it shows none; of several
/// profiles of one account the last one names it, and nobody is named whose profile did not come.
pub proof fn law_an_account_is_drawn_with_its_name(profiles: Seq<UserProfile>, i: int)
    requires
        0 <= i < profiles.len(),
        forall|k: int|
            i < k < profiles.len() ==> (#[trigger] profiles[k]).user_id != profiles[i].user_id,
    ensures
        names_of(profiles).contains_key(profiles[i].user_id),
        profiles[i].display_name@.len() > 0 ==> names_of(profiles)[profiles[i].user_id]
            == profiles[i].display_name@,
        profiles[i].display_name@.len() == 0 ==> names_of(profiles)[profiles[i].user_id]
            == profiles[i].username@,
    decreases profiles.len(),
{
    let front = profiles.drop_last();
    if i < front.len() {
        assert(front[i] == profiles[i]);
        assert forall|k: int| i < k < front.len() implies (#[trigger] front[k]).user_id
            != front[i].user_id by {
            assert(front[k] == profiles[k]);
        }
        assert(profiles[profiles.len() - 1].user_id != profiles[i].user_id);
        law_an_account_is_drawn_with_its_name(front, i);
    }
}

/// Only accounts whose profiles came are named.
pub proof fn law_only_profiles_name(profiles: Seq<UserProfile>, id: Id)
    requires
        names_of(profiles).contains_key(id),
    ensures
        exists|i: int| 0 <= i < profiles.len() && (#[trigger] profiles[i]).user_id == id,
    decreases profiles.len(),
{
    if profiles.len() > 0 {
        let front = profiles.drop_last();
        if profiles.last().user_id == id {
            assert(profiles[profiles.len() - 1].user_id == id);
        } else {
            law_only_profiles_name(front, id);
            let i = choose|i: int| 0 <= i < front.len() && (#[trigger] front[i]).user_id == id;
            assert(profiles[i] == front[i]);
        }
    }
}

/// What one profile has the window told: where its account stands, where that was observed; the pane
/// where it is this account's own; and the member view that asked for it, in the conversation that
/// asked.
pub proof fn law_a_profile_tells_whom_it_concerns(
    profile: UserProfile,
    me: Id,
    ask: Option<(Id, Id)>,
    told: Seq<Action>,
)
    requires
        profile_told(profile, me, ask, told),
    ensures
        profile.presence is Some && profile.presence.unwrap() != Presence::Unknown ==> told.len()
            > 0 && told[0] == Action::Emit(
            Event::PresenceChanged { user_id: profile.user_id, state: profile.presence.unwrap() },
        ),
        ask is Some && ask.unwrap().1 == profile.user_id ==> told.len() > 0 && (
        told.last() matches Action::Emit(Event::MemberProfile { conversation_id, card })
            && conversation_id == ask.unwrap().0 && card.account_id == profile.user_id
            && card.username@ == profile.username@),
        !(ask is Some && ask.unwrap().1 == profile.user_id) ==> forall|i: int|
            0 <= i < told.len() ==> !(#[trigger] told[i] matches Action::Emit(
                Event::MemberProfile { .. },
            )),
        profile.user_id != me ==> forall|i: int|
            0 <= i < told.len() ==> !(#[trigger] told[i] matches Action::Emit(
                Event::OwnProfile(_),
            )),
        profile.user_id == me ==> exists|i: int|
            0 <= i < told.len() && (#[trigger] told[i] matches Action::Emit(Event::OwnProfile(own))
                && own.account_id == me),
{
    let stood = profile.presence is Some && profile.presence.unwrap() != Presence::Unknown;
    let n = if stood { 1int } else { 0 };
    if profile.user_id == me {
        assert(told[n] is Emit);
    }
}

/// A save that came back is told as this account's own, and only where it is.
pub proof fn law_a_saved_profile_is_told_as_ones_own(
    me: Id,
    profile: UserProfile,
    out: Seq<Action>,
)
    requires
        profile_saved(me, profile, out),
    ensures
        profile.user_id == me ==> out.len() == 2 && (out[1] matches Action::Emit(
            Event::ProfileSaved(own),
        ) && own.account_id == me && own.display_name@ == profile.display_name@),
        profile.user_id != me ==> out.len() == 0,
{
}

/// The friends of a graph are those whose edge is a friend's, and nobody else is watched for it.
pub proof fn law_only_friends_are_friends(edges: Seq<Relationship>, id: Id)
    ensures
        friends_in(edges).contains(id) <==> exists|i: int|
            0 <= i < edges.len() && (#[trigger] edges[i]).user_id == id && edges[i].kind
                == RelationshipKind::Friend,
    decreases edges.len(),
{
    if edges.len() > 0 {
        let front = edges.drop_last();
        let last = edges.last();
        let before = friends_in(front);
        let all = friends_in(edges);
        law_only_friends_are_friends(front, id);
        assert(edges[edges.len() - 1] == last);
        if before.contains(id) {
            let i = choose|i: int|
                0 <= i < front.len() && (#[trigger] front[i]).user_id == id && front[i].kind
                    == RelationshipKind::Friend;
            assert(edges[i] == front[i]);
            let k = choose|k: int| 0 <= k < before.len() && before[k] == id;
            assert(all[k] == id);
        }
        if last.kind == RelationshipKind::Friend {
            assert(all[before.len() as int] == last.user_id);
        }
        if all.contains(id) && !before.contains(id) {
            let k = choose|k: int| 0 <= k < all.len() && all[k] == id;
            if k < before.len() {
                assert(before[k] == id);
            }
        }
        if exists|i: int|
            0 <= i < edges.len() && (#[trigger] edges[i]).user_id == id && edges[i].kind
                == RelationshipKind::Friend {
            let i = choose|i: int|
                0 <= i < edges.len() && (#[trigger] edges[i]).user_id == id && edges[i].kind
                    == RelationshipKind::Friend;
            if i < front.len() {
                assert(front[i] == edges[i]);
            }
        }
    }
}

/// What this account is to another is what its first edge to it says, and nothing where there is
/// none.
pub proof fn law_an_edge_is_the_first_to_its_account(
    edges: Seq<Relationship>,
    account: Id,
    i: int,
)
    requires
        0 <= i <= edges.len(),
        forall|k: int| 0 <= k < i ==> (#[trigger] edges[k]).user_id != account,
        i < edges.len() ==> edges[i].user_id == account,
    ensures
        i < edges.len() ==> edge_to(edges, account) == Some(edges[i].kind),
        i == edges.len() ==> edge_to(edges, account) is None,
    decreases edges.len(),
{
    if edges.len() > 0 && i > 0 {
        let rest = edges.subrange(1, edges.len() as int);
        assert(edges[0].user_id != account);
        assert forall|k: int| 0 <= k < i - 1 implies (#[trigger] rest[k]).user_id != account by {
            assert(rest[k] == edges[k + 1]);
        }
        if i < edges.len() {
            assert(rest[i - 1] == edges[i]);
        }
        law_an_edge_is_the_first_to_its_account(rest, account, i - 1);
    }
}

/// A read of the graph is told whole; the names of all in it are asked for, its friends are watched,
/// and the member view that asked for an edge is answered first. The asks are spent.
pub proof fn law_a_graph_is_told_whole(
    before: Signed,
    asked: Asks,
    edges: Vec<Relationship>,
    after: Signed,
    left: Asks,
    out: Seq<Action>,
)
    requires
        graph_read(before, asked, edges, after, left, out),
    ensures
        left.member_edge is None,
        exists|i: int|
            0 <= i < out.len() && #[trigger] out[i] == Action::Emit(Event::Relationships(edges)),
        asked.member_edge is Some ==> (out[0] matches Action::Emit(
            Event::MemberEdge { conversation_id, kind },
        ) && conversation_id == asked.member_edge.unwrap().0 && kind == edge_to(
            edges@,
            asked.member_edge.unwrap().1,
        )),
        edges@.len() > 0 ==> exists|i: int|
            0 <= i < out.len() && (#[trigger] out[i] matches Action::Request(
                Request::ProfileFetch { .. },
            )),
        after.account == before.account,
        after.devices == before.devices,
        after.members == before.members,
{
    let n = if asked.member_edge is Some { 1int } else { 0 };
    assert(out[n] == Action::Emit(Event::Relationships(edges)));
    if edges@.len() > 0 {
        assert(out[n + 1] is Request);
    }
}

/// A friend event claims a request or an acceptance by its own word, and nothing by any other.
pub proof fn law_a_friend_event_claims_what_it_says(state: Seq<char>)
    ensures
        friend_claim("request"@) == Some(false),
        friend_claim("accepted"@) == Some(true),
        state != "request"@ && state != "accepted"@ ==> friend_claim(state) is None,
{
    reveal_strlit("request");
    reveal_strlit("accepted");
    assert("request"@[0] == 'r' && "accepted"@[0] == 'a');
}

/// A standing goes to the member view that asked for that account, in its conversation; otherwise it
/// is filed only where it is this account's own. The ask is spent.
pub proof fn law_a_standing_is_filed_for_whom_it_names(
    asked: Asks,
    me: Id,
    account_id: Id,
    progression: Progression,
    left: Asks,
    out: Seq<Action>,
)
    requires
        progression_read(asked, me, account_id, progression, left, out),
    ensures
        left.member_progression is None,
        ({
            let wanted = asked.member_progression is Some && asked.member_progression.unwrap().1
                == account_id;
            &&& wanted ==> out == seq![
                Action::Emit(
                    Event::MemberProgression {
                        conversation_id: asked.member_progression.unwrap().0,
                        progression,
                    },
                ),
            ]
            &&& !wanted && account_id == me ==> out == seq![
                Action::Emit(Event::ProgressionArrived(progression)),
            ]
            &&& !wanted && account_id != me ==> out.len() == 0
        }),
{
}

/// Badges go to the member view that asked, in its conversation, or are this account's own codes.
pub proof fn law_badges_are_filed_for_who_asked(
    asked: Asks,
    badges: Vec<BadgeRow>,
    left: Asks,
    out: Seq<Action>,
)
    requires
        badges_read(asked, badges, left, out),
    ensures
        left.member_badges is None,
        out.len() == 1,
        asked.member_badges is Some ==> out[0] == Action::Emit(
            Event::MemberBadges {
                conversation_id: asked.member_badges.unwrap().0,
                badges,
            },
        ),
        asked.member_badges is None ==> (out[0] matches Action::Emit(Event::Badges(codes))
            && codes@.len() == badges@.len() && forall|i: int|
            0 <= i < codes@.len() ==> #[trigger] codes@[i] == badges@[i].code),
{
}

/// An account's place on a page is where it first stands, and none where it does not.
pub proof fn law_a_place_is_where_the_account_stands(
    ranks: Seq<LeaderRow>,
    account: Id,
    i: int,
)
    requires
        0 <= i <= ranks.len(),
        forall|k: int| 0 <= k < i ==> (#[trigger] ranks[k]).account_id != account,
        i < ranks.len() ==> ranks[i].account_id == account,
    ensures
        i < ranks.len() ==> place_of(ranks, account) == Some(ranks[i].position),
        i == ranks.len() ==> place_of(ranks, account) is None,
    decreases ranks.len(),
{
    if ranks.len() > 0 && i > 0 {
        let rest = ranks.subrange(1, ranks.len() as int);
        assert(ranks[0].account_id != account);
        assert forall|k: int| 0 <= k < i - 1 implies (#[trigger] rest[k]).account_id != account by {
            assert(rest[k] == ranks[k + 1]);
        }
        if i < ranks.len() {
            assert(rest[i - 1] == ranks[i]);
        }
        law_a_place_is_where_the_account_stands(rest, account, i - 1);
    }
}

/// A page of the board answers the rank that was asked for, in its conversation, or is told whole.
pub proof fn law_a_board_answers_its_ask(
    asked: Asks,
    ranks: Vec<LeaderRow>,
    left: Asks,
    out: Seq<Action>,
)
    requires
        board_read(asked, ranks, left, out),
    ensures
        left.member_rank is None,
        out.len() == 1,
        asked.member_rank is None ==> out[0] == Action::Emit(Event::Leaderboard(ranks)),
        asked.member_rank is Some ==> out[0] == Action::Emit(
            Event::MemberRank {
                conversation_id: asked.member_rank.unwrap().0,
                position: place_of(ranks@, asked.member_rank.unwrap().1),
            },
        ),
{
}

/// Two optional texts are the same where both are missing, or both are there with the same
/// characters.
pub proof fn law_optional_texts_are_the_same_whole(a: Option<String>, b: Option<String>)
    ensures
        same_opt(a, b) ==> (a is Some <==> b is Some),
        same_opt(a, b) && a is Some ==> a.unwrap()@ == b.unwrap()@,
        same_opt(a, a),
{
}

/// A batch of profiles ends with the names of all of them, and spends the member view's ask and no
/// other: what a second reply brings is nobody's view.
pub proof fn law_profiles_end_in_names(
    asked: Asks,
    me: Id,
    profiles: Seq<UserProfile>,
    left: Asks,
    out: Seq<Action>,
)
    requires
        profiles_read(asked, me, profiles, left, out),
    ensures
        left.member_profile is None,
        left == (Asks { member_profile: None, ..asked }),
        left.pending_roster == asked.pending_roster,
        left.member_edge == asked.member_edge,
        out.len() > 0,
        out.last() is Emit,
        out.last()->Emit_0 is Names,
        names_view(out.last()->Emit_0->Names_0@) == names_of(profiles),
        profiles.len() == 0 ==> out.len() == 1,
{
    let told = choose|told: Seq<Seq<Action>>|
        {
            &&& #[trigger] told.len() == profiles.len()
            &&& forall|i: int|
                0 <= i < told.len() ==> profile_told(
                    profiles[i],
                    me,
                    asked.member_profile,
                    #[trigger] told[i],
                )
            &&& out.len() == told.flatten().len() + 1
            &&& out.drop_last() == told.flatten()
            &&& out.last() matches Action::Emit(Event::Names(names)) && names_view(names@)
                == names_of(profiles)
        };
    if profiles.len() == 0 {
        assert(told.flatten().len() == 0);
    }
}

/// A save of this account's own profile is said to have succeeded; another's card says nothing.
pub proof fn law_a_save_is_said_once(me: Id, profile: UserProfile, out: Seq<Action>)
    requires
        profile_saved(me, profile, out),
    ensures
        profile.user_id != me ==> out.len() == 0,
        profile.user_id == me ==> out.len() == 2 && out[0] == Action::Emit(
            Event::Toast { notice: Notice::ProfileSaved, kind: ToastKind::Success },
        ),
{
}

/// Whoever is watched once a graph was read was watched before, or is subscribed to by the last
/// request that it makes; and who is subscribed to is a friend in the graph that was not watched.
pub proof fn law_a_graph_watches_whom_it_subscribes_to(
    before: Signed,
    asked: Asks,
    edges: Vec<Relationship>,
    after: Signed,
    left: Asks,
    out: Seq<Action>,
    id: Id,
)
    requires
        graph_read(before, asked, edges, after, left, out),
    ensures
        out.len() > 0,
        before.watched@.contains(id) ==> after.watched@.contains(id),
        after.watched@.contains(id) && !before.watched@.contains(id) ==> {
            &&& out.last() is Request
            &&& out.last()->Request_0 is Subscribe
            &&& out.last()->Request_0->Subscribe_kind == TopicKind::User
            &&& out.last()->Request_0->Subscribe_ids@.contains(id)
            &&& friends_in(edges@).contains(id)
        },
        out.last() is Request && out.last()->Request_0 is Subscribe
            && out.last()->Request_0->Subscribe_ids@.contains(id) ==> after.watched@.contains(id)
            && !before.watched@.contains(id),
{
    let friends = friends_in(edges@);
    let taken = fresh(friends, before.watched@, WATCH_BATCH as nat);
    law_a_watch_is_bounded_and_new(friends, before.watched@, WATCH_BATCH as nat);
    law_a_watch_leaves_nobody_out(friends, before.watched@, WATCH_BATCH as nat);
    if taken.contains(id) {
        let k = choose|k: int| 0 <= k < taken.len() && taken[k] == id;
        assert(!before.watched@.contains(taken[k]));
        assert(friends.contains(taken[k]));
        assert(taken.to_set().contains(id));
    }
}

} // verus!
