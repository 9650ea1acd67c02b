//! The identities of other accounts' devices, as their key bundles show them.

use std::collections::HashMap;

use vstd::prelude::*;

use crate::account::{differs, peer_fingerprint_changed};
use crate::effects::{toast, toasted, Action, Event, Notice, ToastKind};
use crate::members::contains_id;
use crate::signed::Signed;
use crate::wire::Id;

verus! {

broadcast use vstd::std_specs::hash::group_hash_axioms;

/// The identity a bundle carries: its fingerprint, and the safety number that it and this device's
/// own identity make as a pair, in the words both screens show.
pub struct Shown {
    pub fingerprint: [u8; 32],
    pub safety_number: String,
}

/// One device's key bundle, as far as it is decided about.
pub struct Bundle {
    pub user_id: Id,
    pub device_id: Id,
    /// The identity it carries, where the bundle verified.
    pub identity: Option<Shown>,
}

/// The device lists as mathematics.
pub open spec fn device_lists(devices: Map<Id, Vec<Id>>) -> Map<Id, Seq<Id>> {
    devices.map_values(|list: Vec<Id>| list@)
}

/// The device lists once a device of an account was seen.
pub open spec fn device_seen(devices: Map<Id, Seq<Id>>, user: Id, device: Id) -> Map<Id, Seq<Id>> {
    if !devices.contains_key(user) {
        devices.insert(user, seq![device])
    } else if devices[user].contains(device) {
        devices
    } else {
        devices.insert(user, devices[user].push(device))
    }
}

/// The device lists after some bundles: those that verified are filed, in order.
pub open spec fn devices_after(devices: Map<Id, Seq<Id>>, bundles: Seq<Bundle>) -> Map<Id, Seq<Id>>
    decreases bundles.len(),
{
    if bundles.len() == 0 {
        devices
    } else {
        let before = devices_after(devices, bundles.drop_last());
        match bundles.last().identity {
            Some(_) => device_seen(before, bundles.last().user_id, bundles.last().device_id),
            None => before,
        }
    }
}

/// What is said about the bundles that did not verify, once for each.
pub open spec fn complaints(bundles: Seq<Bundle>) -> Seq<Action>
    decreases bundles.len(),
{
    if bundles.len() == 0 {
        Seq::empty()
    } else {
        match bundles.last().identity {
            Some(_) => complaints(bundles.drop_last()),
            None => complaints(bundles.drop_last()).push(
                toast(Notice::BadKeyBundle, ToastKind::Error),
            ),
        }
    }
}

/// The identities some bundles show of other accounts' devices, in order.
pub open spec fn observed(bundles: Seq<Bundle>, me: Id) -> Seq<(Id, Id, Shown)>
    decreases bundles.len(),
{
    if bundles.len() == 0 {
        Seq::empty()
    } else {
        let before = observed(bundles.drop_last(), me);
        match bundles.last().identity {
            Some(identity) => if bundles.last().user_id == me {
                before
            } else {
                before.push((bundles.last().user_id, bundles.last().device_id, identity))
            },
            None => before,
        }
    }
}

/// The last-seen fingerprints after some observations.
pub open spec fn seen_after(seen: Map<Id, [u8; 32]>, shown: Seq<(Id, Id, Shown)>) -> Map<
    Id,
    [u8; 32],
>
    decreases shown.len(),
{
    if shown.len() == 0 {
        seen
    } else {
        seen_after(seen, shown.drop_last()).insert(shown.last().1, shown.last().2.fingerprint)
    }
}

/// What is told about some observations, in order: each identity, and whether it changed from the
/// one last seen. Without a memory nothing is known to have changed.
pub open spec fn introductions(
    seen: Option<Map<Id, [u8; 32]>>,
    shown: Seq<(Id, Id, Shown)>,
) -> Seq<Action>
    decreases shown.len(),
{
    if shown.len() == 0 {
        Seq::empty()
    } else {
        let (user_id, device_id, identity) = shown.last();
        introductions(seen, shown.drop_last()).push(
            Action::Emit(
                Event::PeerIdentity {
                    user_id,
                    device_id,
                    safety_number: identity.safety_number,
                    changed: seen matches Some(known) && differs(
                        seen_after(known, shown.drop_last()),
                        device_id,
                        identity.fingerprint,
                    ),
                },
            ),
        )
    }
}

/// The fingerprint memory, where it is this account's.
pub open spec fn memory_of(peers: Option<(Id, HashMap<Id, [u8; 32]>)>, me: Id) -> Option<
    Map<Id, [u8; 32]>,
> {
    match peers {
        Some((owner, seen)) if owner == me => Some(seen@),
        _ => None,
    }
}

fn file_device(devices: &mut HashMap<Id, Vec<Id>>, user: Id, device: Id)
    ensures
        device_lists(final(devices)@) == device_seen(device_lists(old(devices)@), user, device),
{
    let ghost before = devices@;
    let mut list: Vec<Id> = match devices.remove(&user) {
        Some(list) => list,
        None => Vec::new(),
    };
    let ghost held = list@;
    if !contains_id(&list, device) {
        list.push(device);
    }
    devices.insert(user, list);
    assert(device_lists(devices@) =~= device_seen(device_lists(before), user, device)) by {
        if !before.contains_key(user) {
            assert(held.push(device) =~= seq![device]);
        }
    }
}

/// Key bundles arrived: files the devices of those that verify, tells about those that do not, and
/// about every identity they show of another account.
///
/// This account's own devices ride the same answers and are filed, but never warned about.
pub fn on_bundles(
    signed: &mut Signed,
    peers: &mut Option<(Id, HashMap<Id, [u8; 32]>)>,
    bundles: Vec<Bundle>,
) -> (out: Vec<Action>)
    ensures
        *final(signed) == (Signed { devices: final(signed).devices, ..*old(signed) }),
        device_lists(final(signed).devices@) == devices_after(
            device_lists(old(signed).devices@),
            bundles@,
        ),
        ({
            let me = old(signed).account.account_id;
            let shown = observed(bundles@, me);
            let seen = memory_of(*old(peers), me);
            &&& out@ == complaints(bundles@) + introductions(seen, shown) + seq![
                Action::RetryGroupKeyAsk,
            ]
            &&& memory_of(*final(peers), me) == (match seen {
                Some(known) => Some(seen_after(known, shown)),
                None => None,
            })
            &&& seen is None ==> *final(peers) == *old(peers)
        }),
{
    let me: Id = signed.account.account_id;
    let mut out: Vec<Action> = Vec::new();
    let mut shown: Vec<(Id, Id, Shown)> = Vec::new();
    let ghost before = device_lists(signed.devices@);
    let ghost all = bundles@;
    assert(all.take(0) =~= Seq::<Bundle>::empty());
    for bundle in it: bundles
        invariant
            it.seq() == all,
            me == old(signed).account.account_id,
            *signed == (Signed { devices: signed.devices, ..*old(signed) }),
            device_lists(signed.devices@) == devices_after(before, all.take(it.index() as int)),
            out@ == complaints(all.take(it.index() as int)),
            shown@ == observed(all.take(it.index() as int), me),
    {
        assert(all.take(it.index() + 1).drop_last() =~= all.take(it.index() as int));
        assert(all.take(it.index() + 1).last() == bundle);
        let Bundle { user_id, device_id, identity }: Bundle = bundle;
        match identity {
            Some(identity) => {
                if user_id != me {
                    shown.push((user_id, device_id, identity));
                }
                file_device(&mut signed.devices, user_id, device_id);
            },
            None => {
                out.push(toasted(Notice::BadKeyBundle, ToastKind::Error));
            },
        }
    }
    assert(all.take(all.len() as int) =~= all);
    let ghost seen = memory_of(*peers, me);
    let ghost known = match seen {
        Some(known) => known,
        None => Map::empty(),
    };
    let ghost listed = shown@;
    assert(listed.take(0) =~= Seq::<(Id, Id, Shown)>::empty());
    assert(out@ =~= complaints(all) + introductions(seen, listed.take(0)));
    for entry in it: shown
        invariant
            it.seq() == listed,
            out@ == complaints(all) + introductions(seen, listed.take(it.index() as int)),
            seen is None ==> *peers == *old(peers) && memory_of(*peers, me) is None,
            seen is Some ==> seen == Some(known) && memory_of(*peers, me) == Some(
                seen_after(known, listed.take(it.index() as int)),
            ),
    {
        let ghost next = listed.take(it.index() + 1);
        assert(next.drop_last() =~= listed.take(it.index() as int));
        assert(next.last() == entry);
        let (user_id, device_id, identity): (Id, Id, Shown) = entry;
        let Shown { fingerprint, safety_number }: Shown = identity;
        let changed: bool = match peers.take() {
            Some((owner, mut memory)) => {
                let changed: bool = if owner == me {
                    peer_fingerprint_changed(&mut memory, device_id, fingerprint)
                } else {
                    false
                };
                *peers = Some((owner, memory));
                changed
            },
            None => false,
        };
        out.push(
            Action::Emit(Event::PeerIdentity { user_id, device_id, safety_number, changed }),
        );
        assert(out@ =~= complaints(all) + introductions(seen, next));
    }
    assert(listed.take(listed.len() as int) =~= listed);
    out.push(Action::RetryGroupKeyAsk);
    out
}

/// This account is never warned about its own devices.
pub proof fn law_own_devices_are_not_introduced(bundles: Seq<Bundle>, me: Id, i: int)
    requires
        0 <= i < observed(bundles, me).len(),
    ensures
        observed(bundles, me)[i].0 != me,
    decreases bundles.len(),
{
    if bundles.len() > 0 && i < observed(bundles.drop_last(), me).len() {
        law_own_devices_are_not_introduced(bundles.drop_last(), me, i);
    }
}

/// A device that is known stays known.
pub proof fn law_a_device_stays_known(
    devices: Map<Id, Seq<Id>>,
    bundles: Seq<Bundle>,
    user: Id,
    device: Id,
)
    requires
        devices.contains_key(user),
        devices[user].contains(device),
    ensures
        devices_after(devices, bundles).contains_key(user),
        devices_after(devices, bundles)[user].contains(device),
    decreases bundles.len(),
{
    if bundles.len() > 0 {
        law_a_device_stays_known(devices, bundles.drop_last(), user, device);
        let before = devices_after(devices, bundles.drop_last());
        let last = bundles.last();
        if last.identity is Some && last.user_id == user && !before[user].contains(
            last.device_id,
        ) {
            let k = choose|k: int| 0 <= k < before[user].len() && before[user][k] == device;
            assert(before[user].push(last.device_id)[k] == device);
        }
    }
}

/// Every device whose bundle verified is filed under its account, whatever was filed before it and
/// however many devices the account has.
pub proof fn law_every_verified_device_is_filed(
    devices: Map<Id, Seq<Id>>,
    bundles: Seq<Bundle>,
    i: int,
)
    requires
        0 <= i < bundles.len(),
        bundles[i].identity is Some,
    ensures
        devices_after(devices, bundles).contains_key(bundles[i].user_id),
        devices_after(devices, bundles)[bundles[i].user_id].contains(bundles[i].device_id),
    decreases bundles.len(),
{
    let front = bundles.drop_last();
    let before = devices_after(devices, front);
    let last = bundles.last();
    let user = bundles[i].user_id;
    let device = bundles[i].device_id;
    if i == bundles.len() - 1 {
        if !before.contains_key(user) {
            assert(seq![device][0] == device);
        } else if !before[user].contains(device) {
            assert(before[user].push(device)[before[user].len() as int] == device);
        }
    } else {
        assert(front[i] == bundles[i]);
        law_every_verified_device_is_filed(devices, front, i);
        if last.identity is Some && last.user_id == user && !before[user].contains(
            last.device_id,
        ) {
            let k = choose|k: int| 0 <= k < before[user].len() && before[user][k] == device;
            assert(before[user].push(last.device_id)[k] == device);
        }
    }
}

/// Nothing else is filed: a device that is listed was listed before, or its bundle verified.
pub proof fn law_only_verified_devices_are_filed(
    devices: Map<Id, Seq<Id>>,
    bundles: Seq<Bundle>,
    user: Id,
    device: Id,
)
    requires
        devices_after(devices, bundles).contains_key(user),
        devices_after(devices, bundles)[user].contains(device),
    ensures
        (devices.contains_key(user) && devices[user].contains(device)) || exists|i: int|
            0 <= i < bundles.len() && (#[trigger] bundles[i]).identity is Some && bundles[i].user_id
                == user && bundles[i].device_id == device,
    decreases bundles.len(),
{
    if bundles.len() > 0 {
        let front = bundles.drop_last();
        let before = devices_after(devices, front);
        let last = bundles.last();
        if last.identity is Some && last.user_id == user && last.device_id == device {
            assert(bundles[bundles.len() - 1] == last);
        } else {
            assert(before.contains_key(user) && before[user].contains(device)) by {
                let after = devices_after(devices, bundles);
                if last.identity is Some && last.user_id == user {
                    let k = choose|k: int| 0 <= k < after[user].len() && after[user][k] == device;
                    if !before.contains_key(user) {
                        assert(after[user] == seq![last.device_id]);
                    } else if !before[user].contains(last.device_id) {
                        assert(before[user].push(last.device_id)[k] == device);
                        assert(before[user][k] == device);
                    }
                }
            }
            law_only_verified_devices_are_filed(devices, front, user, device);
            if !(devices.contains_key(user) && devices[user].contains(device)) {
                let i = choose|i: int|
                    0 <= i < front.len() && (#[trigger] front[i]).identity is Some
                        && front[i].user_id == user && front[i].device_id == device;
                assert(bundles[i] == front[i]);
            }
        }
    }
}

/// A device is listed once, however often its bundle comes, and the lists keep their order: what was
/// listed stands first.
pub proof fn law_a_device_is_listed_once(devices: Map<Id, Seq<Id>>, bundles: Seq<Bundle>, user: Id)
    requires
        devices.contains_key(user) ==> devices[user].no_duplicates(),
        devices_after(devices, bundles).contains_key(user),
    ensures
        devices_after(devices, bundles)[user].no_duplicates(),
        devices.contains_key(user) ==> devices[user].len() <= devices_after(
            devices,
            bundles,
        )[user].len() && devices_after(devices, bundles)[user].take(devices[user].len() as int)
            == devices[user],
    decreases bundles.len(),
{
    if bundles.len() > 0 {
        let front = bundles.drop_last();
        let before = devices_after(devices, front);
        if before.contains_key(user) {
            law_a_device_is_listed_once(devices, front, user);
        } else if devices.contains_key(user) {
            lemma_listed_stays(devices, front, user);
        }
        if devices.contains_key(user) {
            lemma_listed_stays(devices, front, user);
            let after = devices_after(devices, bundles)[user];
            assert(after.take(devices[user].len() as int) =~= before[user].take(
                devices[user].len() as int,
            ));
        }
    } else if devices.contains_key(user) {
        assert(devices[user].take(devices[user].len() as int) =~= devices[user]);
    }
}

proof fn lemma_listed_stays(devices: Map<Id, Seq<Id>>, bundles: Seq<Bundle>, user: Id)
    requires
        devices.contains_key(user),
    ensures
        devices_after(devices, bundles).contains_key(user),
        devices[user].len() <= devices_after(devices, bundles)[user].len(),
    decreases bundles.len(),
{
    if bundles.len() > 0 {
        lemma_listed_stays(devices, bundles.drop_last(), user);
    }
}

/// Every identity that a verified bundle shows of another account is observed, and nothing else is.
pub proof fn law_every_foreign_identity_is_observed(bundles: Seq<Bundle>, me: Id)
    ensures
        forall|i: int|
            0 <= i < bundles.len() && (#[trigger] bundles[i]).identity is Some && bundles[i].user_id
                != me ==> observed(bundles, me).contains(
                (bundles[i].user_id, bundles[i].device_id, bundles[i].identity.unwrap()),
            ),
        forall|j: int|
            0 <= j < observed(bundles, me).len() ==> exists|i: int|
                0 <= i < bundles.len() && (#[trigger] bundles[i]).identity == Some(
                    (#[trigger] observed(bundles, me)[j]).2,
                ) && bundles[i].user_id == observed(bundles, me)[j].0 && bundles[i].device_id
                    == observed(bundles, me)[j].1 && bundles[i].user_id != me,
    decreases bundles.len(),
{
    if bundles.len() > 0 {
        let front = bundles.drop_last();
        let last = bundles.last();
        let before = observed(front, me);
        let after = observed(bundles, me);
        law_every_foreign_identity_is_observed(front, me);
        assert forall|i: int|
            0 <= i < bundles.len() && (#[trigger] bundles[i]).identity is Some && bundles[i].user_id
                != me implies after.contains(
            (bundles[i].user_id, bundles[i].device_id, bundles[i].identity.unwrap()),
        ) by {
            let entry = (bundles[i].user_id, bundles[i].device_id, bundles[i].identity.unwrap());
            if i < front.len() {
                assert(front[i] == bundles[i]);
                assert(before.contains(entry));
                let k = choose|k: int| 0 <= k < before.len() && before[k] == entry;
                assert(after[k] == entry);
            } else {
                assert(after[before.len() as int] == entry);
            }
        }
        assert forall|j: int| 0 <= j < after.len() implies exists|i: int|
            0 <= i < bundles.len() && (#[trigger] bundles[i]).identity == Some(
                (#[trigger] after[j]).2,
            ) && bundles[i].user_id == after[j].0 && bundles[i].device_id == after[j].1
                && bundles[i].user_id != me by {
            if j < before.len() {
                assert(after[j] == before[j]);
                let i = choose|i: int|
                    0 <= i < front.len() && (#[trigger] front[i]).identity == Some(before[j].2)
                        && front[i].user_id == before[j].0 && front[i].device_id == before[j].1
                        && front[i].user_id != me;
                assert(bundles[i] == front[i]);
            } else {
                assert(bundles[bundles.len() - 1] == last);
            }
        }
    }
}

/// Each observation is told once, as the identity of its own account and device with its own safety
/// number. Without a memory nothing is told as changed.
pub proof fn law_an_observation_is_told_as_it_is(
    seen: Option<Map<Id, [u8; 32]>>,
    shown: Seq<(Id, Id, Shown)>,
    j: int,
)
    requires
        0 <= j < shown.len(),
    ensures
        introductions(seen, shown).len() == shown.len(),
        introductions(seen, shown)[j] matches Action::Emit(
            Event::PeerIdentity { user_id, device_id, safety_number, changed },
        ) && user_id == shown[j].0 && device_id == shown[j].1 && safety_number
            == shown[j].2.safety_number && (seen is None ==> !changed),
    decreases shown.len(),
{
    let front = shown.drop_last();
    lemma_told_each(seen, front);
    if j < front.len() {
        law_an_observation_is_told_as_it_is(seen, front, j);
        assert(front[j] == shown[j]);
    }
}

/// The first observation of a device is told as changed exactly where the memory held another
/// fingerprint of it, and a second one exactly where the device showed another in between.
pub proof fn law_a_changed_identity_is_told(
    seen: Map<Id, [u8; 32]>,
    shown: Seq<(Id, Id, Shown)>,
    i: int,
    j: int,
)
    requires
        -1 <= i < j < shown.len(),
        i >= 0 ==> shown[i].1 == shown[j].1,
        forall|k: int| i < k < j ==> (#[trigger] shown[k]).1 != shown[j].1,
    ensures
        introductions(Some(seen), shown)[j] matches Action::Emit(
            Event::PeerIdentity { changed, .. },
        ) && (changed <==> (if i >= 0 {
            shown[i].2.fingerprint@ != shown[j].2.fingerprint@
        } else {
            seen.contains_key(shown[j].1) && seen[shown[j].1]@ != shown[j].2.fingerprint@
        })),
    decreases shown.len(),
{
    let front = shown.drop_last();
    lemma_told_each(Some(seen), front);
    assert forall|k: int| i < k < j implies (#[trigger] front[k]).1 != shown[j].1 by {
        assert(front[k] == shown[k]);
    }
    if j < front.len() {
        assert(front[j] == shown[j]);
        law_a_changed_identity_is_told(seen, front, i, j);
    } else {
        lemma_last_shown(seen, front, i, shown[j].1);
    }
}

proof fn lemma_last_shown(
    seen: Map<Id, [u8; 32]>,
    shown: Seq<(Id, Id, Shown)>,
    i: int,
    device: Id,
)
    requires
        -1 <= i < shown.len(),
        i >= 0 ==> shown[i].1 == device,
        forall|k: int| i < k < shown.len() ==> (#[trigger] shown[k]).1 != device,
    ensures
        i >= 0 ==> seen_after(seen, shown).contains_key(device) && seen_after(seen, shown)[device]
            == shown[i].2.fingerprint,
        i < 0 ==> (seen_after(seen, shown).contains_key(device) <==> seen.contains_key(device)) && (
        seen.contains_key(device) ==> seen_after(seen, shown)[device] == seen[device]),
    decreases shown.len(),
{
    let front = shown.drop_last();
    if i < 0 {
        lemma_unseen_stays(seen, shown, device);
    } else if i < front.len() {
        assert forall|k: int| i < k < front.len() implies (#[trigger] front[k]).1 != device by {
            assert(front[k] == shown[k]);
        }
        assert(shown[shown.len() - 1].1 != device);
        lemma_last_shown(seen, front, i, device);
    }
}

proof fn lemma_told_each(seen: Option<Map<Id, [u8; 32]>>, shown: Seq<(Id, Id, Shown)>)
    ensures
        introductions(seen, shown).len() == shown.len(),
    decreases shown.len(),
{
    if shown.len() > 0 {
        lemma_told_each(seen, shown.drop_last());
    }
}

proof fn lemma_unseen_stays(seen: Map<Id, [u8; 32]>, shown: Seq<(Id, Id, Shown)>, device: Id)
    requires
        forall|k: int| 0 <= k < shown.len() ==> (#[trigger] shown[k]).1 != device,
    ensures
        seen_after(seen, shown).contains_key(device) <==> seen.contains_key(device),
        seen.contains_key(device) ==> seen_after(seen, shown)[device] == seen[device],
    decreases shown.len(),
{
    if shown.len() > 0 {
        let front = shown.drop_last();
        assert forall|k: int| 0 <= k < front.len() implies (#[trigger] front[k]).1 != device by {
            assert(front[k] == shown[k]);
        }
        assert(shown[shown.len() - 1].1 != device);
        lemma_unseen_stays(seen, front, device);
    }
}

/// The memory holds the fingerprint that a device showed last, and is untouched elsewhere.
pub proof fn law_the_memory_holds_what_was_shown_last(
    seen: Map<Id, [u8; 32]>,
    shown: Seq<(Id, Id, Shown)>,
    j: int,
    untouched: Id,
)
    requires
        0 <= j < shown.len(),
        forall|k: int| j < k < shown.len() ==> (#[trigger] shown[k]).1 != shown[j].1,
        forall|k: int| 0 <= k < shown.len() ==> (#[trigger] shown[k]).1 != untouched,
    ensures
        seen_after(seen, shown).contains_key(shown[j].1),
        seen_after(seen, shown)[shown[j].1] == shown[j].2.fingerprint,
        seen_after(seen, shown).contains_key(untouched) <==> seen.contains_key(untouched),
        seen.contains_key(untouched) ==> seen_after(seen, shown)[untouched] == seen[untouched],
    decreases shown.len(),
{
    lemma_unseen_stays(seen, shown, untouched);
    let front = shown.drop_last();
    if j < front.len() {
        assert(front[j] == shown[j]);
        assert forall|k: int| j < k < front.len() implies (#[trigger] front[k]).1 != front[j].1 by {
            assert(front[k] == shown[k]);
        }
        assert forall|k: int| 0 <= k < front.len() implies (#[trigger] front[k]).1
            != untouched by {
            assert(front[k] == shown[k]);
        }
        assert(shown[shown.len() - 1].1 != shown[j].1);
        law_the_memory_holds_what_was_shown_last(seen, front, j, untouched);
    }
}

/// A complaint is made of each bundle that does not verify, and of nothing else.
pub proof fn law_only_bad_bundles_are_complained_of(bundles: Seq<Bundle>)
    ensures
        complaints(bundles).len() == bundles.filter(|b: Bundle| b.identity is None).len(),
        forall|i: int|
            0 <= i < complaints(bundles).len() ==> (#[trigger] complaints(bundles)[i] matches Action::Emit(
                Event::Toast { notice, kind },
            ) && notice == Notice::BadKeyBundle && kind == ToastKind::Error),
    decreases bundles.len(),
{
    reveal(Seq::filter);
    if bundles.len() > 0 {
        law_only_bad_bundles_are_complained_of(bundles.drop_last());
    }
}

} // verus!
