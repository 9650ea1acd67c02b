use migo_net::members::{is_membership_change, MemberCache};
use migo_net::wire::{id_from_bytes, Id, MemberChange};

fn id_of(n: u8) -> Id {
    let mut bytes = [0u8; 16];
    bytes[15] = n;
    id_from_bytes(bytes)
}

#[test]
fn a_list_preview_is_promoted_only_by_the_roster() {
    let mut cache = MemberCache {
        ids: (20..=27).map(id_of).collect(),
        complete: false,
    };

    cache.apply_change(id_of(29), MemberChange::Joined);
    assert!(!cache.complete, "a patched preview stays incomplete");

    cache.promote((20..=28).map(id_of).collect());
    assert!(cache.complete, "the roster promotes");
    assert_eq!(cache.ids, (20..=28).map(id_of).collect::<Vec<_>>());
    assert!(
        !cache.ids.contains(&id_of(29)),
        "the promotion replaces the preview rather than merging into it"
    );
}

#[test]
fn member_events_move_a_complete_cache() {
    let mut cache = MemberCache {
        ids: (20..=22).map(id_of).collect(),
        complete: true,
    };

    cache.apply_change(id_of(29), MemberChange::Joined);
    assert_eq!(
        cache.ids,
        (20..=22).chain(29..=29).map(id_of).collect::<Vec<_>>()
    );
    assert!(cache.complete, "a patch does not demote a complete cache");

    cache.apply_change(id_of(29), MemberChange::Joined);
    assert_eq!(cache.ids.len(), 4);

    cache.apply_change(id_of(20), MemberChange::Left);
    assert!(!cache.ids.contains(&id_of(20)), "a departure is removed");

    cache.apply_change(id_of(29), MemberChange::Disconnected);
    cache.apply_change(id_of(29), MemberChange::Reconnected);
    cache.apply_change(id_of(29), MemberChange::Unknown);
    assert!(cache.ids.contains(&id_of(29)));

    cache.apply_change(id_of(21), MemberChange::Kicked);
    cache.apply_change(id_of(22), MemberChange::Banned);
    assert_eq!(cache.ids, vec![id_of(29)]);
}

#[test]
fn membership_changes_are_the_audience_changes() {
    for change in [
        MemberChange::Joined,
        MemberChange::Left,
        MemberChange::Kicked,
        MemberChange::Banned,
    ] {
        assert!(
            is_membership_change(change),
            "{change:?} moves the audience and must rotate"
        );
    }
    for change in [
        MemberChange::Unknown,
        MemberChange::Disconnected,
        MemberChange::Reconnected,
    ] {
        assert!(
            !is_membership_change(change),
            "{change:?} leaves the audience standing"
        );
    }
}

#[test]
fn an_empty_roster_does_not_promote() {
    let preview: Vec<Id> = (20..=22).map(id_of).collect();
    let mut cache = MemberCache {
        ids: preview.clone(),
        complete: false,
    };

    cache.promote(Vec::new());
    assert!(!cache.complete, "an empty answer promotes nothing");
    assert_eq!(cache.ids, preview, "the preview the cache held stands");
}

#[test]
fn a_list_read_refreshes_a_preview_and_leaves_a_whole_membership() {
    let mut preview = MemberCache {
        ids: vec![id_of(1)],
        complete: false,
    };
    preview.refresh(vec![id_of(2), id_of(3)]);
    assert_eq!(preview.ids, vec![id_of(2), id_of(3)]);
    assert!(!preview.complete);

    let mut whole = MemberCache {
        ids: vec![id_of(1)],
        complete: true,
    };
    whole.refresh(vec![id_of(2), id_of(3)]);
    assert_eq!(whole.ids, vec![id_of(1)]);
    assert!(whole.complete);
}

#[test]
fn an_id_is_the_number_its_bytes_spell() {
    assert_eq!(id_of(7), 7);
    let mut bytes = [0u8; 16];
    bytes[0] = 1;
    assert_eq!(id_from_bytes(bytes), 1u128 << 120);
    assert_eq!(id_from_bytes([0xff; 16]), u128::MAX);
}
