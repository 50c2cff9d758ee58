use launcher_core::status::{classify, Channel, PatchDescriptor, PatchMetadata, PatchStatus};
use launcher_core::version::Version;

fn descriptor(channel: Channel, ceiling: Version) -> PatchDescriptor {
    PatchDescriptor::new(
        Version::new(1, 2, 0),
        false,
        Some(PatchMetadata::new(Version::new(1, 3, 0), channel, ceiling)),
    )
}

#[test]
fn stable_patch_with_matching_ceiling_is_available() {
    let status = classify(&descriptor(Channel::Stable, Version::new(1, 2, 0)));
    assert_eq!(status, PatchStatus::Available { version: Version::new(1, 3, 0) });
}

#[test]
fn ceiling_below_installed_version_is_outdated() {
    let status = classify(&descriptor(Channel::Stable, Version::new(1, 1, 0)));
    assert_eq!(status, PatchStatus::Outdated { current: Version::new(1, 2, 0) });
}

#[test]
fn testing_channel_with_sufficient_ceiling_is_testing() {
    let status = classify(&descriptor(Channel::Testing, Version::new(1, 2, 0)));
    assert_eq!(status, PatchStatus::Testing { version: Version::new(1, 3, 0) });
}

#[test]
fn missing_metadata_is_not_available() {
    let bare = PatchDescriptor::new(Version::new(1, 2, 0), true, None);
    assert_eq!(classify(&bare), PatchStatus::NotAvailable);
    let other = PatchDescriptor::new(Version::new(0, 0, 0), false, None);
    assert_eq!(classify(&other), PatchStatus::NotAvailable);
}

#[test]
fn outdated_wins_over_testing_channel() {
    let status = classify(&descriptor(Channel::Testing, Version::new(1, 1, 9)));
    assert_eq!(status, PatchStatus::Outdated { current: Version::new(1, 2, 0) });
}

#[test]
fn ceiling_above_installed_version_keeps_patch_available() {
    let status = classify(&descriptor(Channel::Stable, Version::new(2, 0, 0)));
    assert_eq!(status, PatchStatus::Available { version: Version::new(1, 3, 0) });
}

#[test]
fn classifying_twice_gives_the_same_status() {
    let all = [
        PatchDescriptor::new(Version::new(1, 2, 0), false, None),
        descriptor(Channel::Stable, Version::new(1, 1, 0)),
        descriptor(Channel::Testing, Version::new(1, 2, 0)),
        descriptor(Channel::Stable, Version::new(1, 2, 0)),
    ];
    for one in all.iter() {
        assert_eq!(classify(one), classify(one));
    }
}

#[test]
fn only_testing_and_available_allow_apply() {
    let version = Version::new(1, 0, 0);
    assert!(!PatchStatus::NotAvailable.allows_apply());
    assert!(!PatchStatus::Outdated { current: version }.allows_apply());
    assert!(PatchStatus::Testing { version }.allows_apply());
    assert!(PatchStatus::Available { version }.allows_apply());
}

#[test]
fn latest_version_comes_from_the_metadata() {
    let with = descriptor(Channel::Stable, Version::new(1, 2, 0));
    assert_eq!(with.latest_version(), Some(Version::new(1, 3, 0)));
    let without = PatchDescriptor::new(Version::new(1, 2, 0), false, None);
    assert_eq!(without.latest_version(), None);
}

#[test]
fn versions_compare_from_the_left() {
    let base = Version::new(1, 2, 3);
    assert!(base.is_below(&Version::new(2, 0, 0)));
    assert!(base.is_below(&Version::new(1, 3, 0)));
    assert!(base.is_below(&Version::new(1, 2, 4)));
    assert!(!base.is_below(&Version::new(1, 2, 3)));
    assert!(!base.is_below(&Version::new(1, 2, 2)));
    assert!(!base.is_below(&Version::new(1, 1, 9)));
    assert!(!base.is_below(&Version::new(0, 9, 9)));
    assert!(!Version::new(2, 0, 0).is_below(&Version::new(1, 9, 9)));
}

#[test]
fn version_order_is_strict_and_total() {
    let all = [
        Version::new(0, 0, 0),
        Version::new(0, 0, 1),
        Version::new(0, 1, 0),
        Version::new(1, 0, 0),
        Version::new(1, 2, 0),
        Version::new(u64::MAX, u64::MAX, u64::MAX),
    ];
    for (i, a) in all.iter().enumerate() {
        for (j, b) in all.iter().enumerate() {
            assert_eq!(a.is_below(b), i < j);
            assert_eq!(a == b, i == j);
        }
    }
}
