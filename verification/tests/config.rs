use launcher_core::config::{
    effective_settings, FallbackPolicy, GameEdition, InstallPaths, LauncherSettings,
};

fn settings(edition: GameEdition, global: &str, china: &str) -> LauncherSettings {
    LauncherSettings {
        edition,
        paths: InstallPaths { global: String::from(global), china: String::from(china) },
        root_required: true,
    }
}

#[test]
fn install_path_follows_the_edition() {
    let global = settings(GameEdition::Global, "/g", "/c");
    assert_eq!(global.install_path(), "/g");
    let china = settings(GameEdition::China, "/g", "/c");
    assert_eq!(china.install_path(), "/c");
    assert_eq!(china.paths.for_edition(GameEdition::Global), "/g");
    assert_eq!(china.paths.for_edition(GameEdition::China), "/c");
}

#[test]
fn fresh_settings_win_under_either_policy() {
    let fresh = settings(GameEdition::Global, "/new", "/new-cn");
    let cached = settings(GameEdition::China, "/old", "/old-cn");
    for policy in [FallbackPolicy::UseCached, FallbackPolicy::Fail] {
        assert_eq!(effective_settings(Some(&fresh), &cached, policy), Some(&fresh));
    }
}

#[test]
fn cached_settings_are_used_only_when_the_policy_allows() {
    let cached = settings(GameEdition::China, "/old", "/old-cn");
    assert_eq!(effective_settings(None, &cached, FallbackPolicy::UseCached), Some(&cached));
    assert_eq!(effective_settings(None, &cached, FallbackPolicy::Fail), None);
}

#[test]
fn editions_are_found_at_their_places() {
    assert_eq!(GameEdition::Global.index(), 0);
    assert_eq!(GameEdition::China.index(), 1);
    assert_eq!(GameEdition::from_index(0), Some(GameEdition::Global));
    assert_eq!(GameEdition::from_index(1), Some(GameEdition::China));
    assert_eq!(GameEdition::from_index(2), None);
    assert_eq!(GameEdition::from_index(u32::MAX), None);
    for edition in [GameEdition::Global, GameEdition::China] {
        assert_eq!(GameEdition::from_index(edition.index()), Some(edition));
    }
}
