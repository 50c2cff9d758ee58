use launcher_core::display::{
    game_emphasis, game_hint, game_label, needs_inspection, patch_emphasis, patch_hint,
    patch_label, Emphasis, GameHint, GameLabel, PatchHint, PatchLabel,
};
use launcher_core::general::{
    command_line, wine_finished, ComponentsPageMsg, GeneralApp, GeneralAppEffect, GeneralAppMsg,
    LauncherStyle, Notice, PreferencesAppMsg,
};
use launcher_core::outcome::ApplyError;
use launcher_core::status::{Channel, PatchDescriptor, PatchMetadata};
use launcher_core::version::{Version, VersionDiff};

fn page(style: LauncherStyle) -> GeneralApp {
    GeneralApp::init(style, vec![String::from("English"), String::from("Deutsch")])
}

fn patch(channel: Channel, ceiling: Version) -> PatchDescriptor {
    PatchDescriptor::new(
        Version::new(1, 2, 0),
        false,
        Some(PatchMetadata::new(Version::new(1, 3, 0), channel, ceiling)),
    )
}

fn words(all: &[&str]) -> Vec<String> {
    all.iter().map(|word| String::from(*word)).collect()
}

#[test]
fn page_starts_without_game_or_patch() {
    let page = page(LauncherStyle::Classic);
    assert_eq!(page.game_diff(), None);
    assert_eq!(page.main_patch(), None);
    assert_eq!(page.style(), LauncherStyle::Classic);
    assert_eq!(page.languages(), &words(&["English", "Deutsch"]));
}

#[test]
fn game_diff_and_patch_are_stored_without_effects() {
    let mut page = page(LauncherStyle::Modern);
    let diff = VersionDiff::Diff { current: Version::new(1, 2, 0), latest: Version::new(1, 3, 0) };
    assert!(page.update(GeneralAppMsg::SetGameDiff(Some(diff))).is_empty());
    assert_eq!(page.game_diff(), Some(diff));

    let descriptor = patch(Channel::Stable, Version::new(1, 2, 0));
    assert!(page.update(GeneralAppMsg::SetMainPatch(Some(descriptor))).is_empty());
    assert_eq!(page.main_patch(), Some(descriptor));
    assert_eq!(page.game_diff(), Some(diff));

    assert!(page.update(GeneralAppMsg::SetGameDiff(None)).is_empty());
    assert_eq!(page.game_diff(), None);
    assert_eq!(page.main_patch(), Some(descriptor));
    assert_eq!(page.style(), LauncherStyle::Modern);
}

#[test]
fn navigation_and_forwarding_messages_map_to_one_effect_each() {
    let cases = [
        (
            GeneralAppMsg::UpdateDownloadedWine,
            GeneralAppEffect::Forward(ComponentsPageMsg::UpdateDownloadedWine),
        ),
        (
            GeneralAppMsg::UpdateDownloadedDxvk,
            GeneralAppEffect::Forward(ComponentsPageMsg::UpdateDownloadedDxvk),
        ),
        (GeneralAppMsg::OpenMigrateInstallation, GeneralAppEffect::ShowMigrateInstallation),
        (GeneralAppMsg::OpenMainPage, GeneralAppEffect::CloseSubpage),
        (GeneralAppMsg::OpenComponentsPage, GeneralAppEffect::PresentComponentsPage),
    ];
    for (message, effect) in cases {
        let mut page = page(LauncherStyle::Modern);
        assert_eq!(page.update(message), vec![effect]);
        assert_eq!(page.style(), LauncherStyle::Modern);
        assert_eq!(page.game_diff(), None);
    }
}

#[test]
fn modern_style_is_adopted_at_once() {
    let mut page = page(LauncherStyle::Classic);
    let effects = page.update(GeneralAppMsg::UpdateLauncherStyle(LauncherStyle::Modern));
    assert_eq!(
        effects,
        vec![
            GeneralAppEffect::SaveStyle(LauncherStyle::Modern),
            GeneralAppEffect::Output(PreferencesAppMsg::SetLauncherStyle(LauncherStyle::Modern)),
        ]
    );
    assert_eq!(page.style(), LauncherStyle::Modern);
}

#[test]
fn classic_style_first_asks_for_the_background() {
    let mut page = page(LauncherStyle::Modern);
    let effects = page.update(GeneralAppMsg::UpdateLauncherStyle(LauncherStyle::Classic));
    assert_eq!(effects, vec![GeneralAppEffect::CheckBackground(LauncherStyle::Classic)]);
    assert_eq!(page.style(), LauncherStyle::Modern);
}

#[test]
fn kept_background_is_not_fetched_again() {
    let mut page = page(LauncherStyle::Modern);
    let effects = page.background_checked(LauncherStyle::Classic, true);
    assert_eq!(
        effects,
        vec![
            GeneralAppEffect::SaveStyle(LauncherStyle::Classic),
            GeneralAppEffect::Output(PreferencesAppMsg::SetLauncherStyle(LauncherStyle::Classic)),
        ]
    );
    assert_eq!(page.style(), LauncherStyle::Classic);
}

#[test]
fn missing_background_is_fetched_before_the_style_changes() {
    let mut page = page(LauncherStyle::Modern);
    let effects = page.background_checked(LauncherStyle::Classic, false);
    assert_eq!(effects, vec![GeneralAppEffect::DownloadBackground(LauncherStyle::Classic)]);
    assert_eq!(page.style(), LauncherStyle::Modern);

    let effects = page.background_downloaded(LauncherStyle::Classic, Ok(()));
    assert_eq!(
        effects,
        vec![
            GeneralAppEffect::SaveStyle(LauncherStyle::Classic),
            GeneralAppEffect::Output(PreferencesAppMsg::SetLauncherStyle(LauncherStyle::Classic)),
        ]
    );
    assert_eq!(page.style(), LauncherStyle::Classic);
}

#[test]
fn failed_background_download_keeps_the_style_and_tells_the_user() {
    let mut page = page(LauncherStyle::Modern);
    let effects =
        page.background_downloaded(LauncherStyle::Classic, Err(String::from("no network")));
    assert_eq!(
        effects,
        vec![GeneralAppEffect::Report {
            notice: Notice::BackgroundDownloadFailed,
            cause: String::from("no network"),
        }]
    );
    assert_eq!(page.style(), LauncherStyle::Modern);
}

#[test]
fn wine_tool_is_run_with_its_arguments() {
    let mut page = page(LauncherStyle::Modern);
    let effects = page.update(GeneralAppMsg::WineOpen(words(&["start", "winedbg"])));
    assert_eq!(effects, vec![GeneralAppEffect::RunWine(words(&["start", "winedbg"]))]);
}

#[test]
fn failed_wine_tool_is_reported_with_its_command_line() {
    let effects = wine_finished(&words(&["start", "winedbg"]), Err(String::from("no prefix")));
    assert_eq!(
        effects,
        vec![GeneralAppEffect::Report {
            notice: Notice::WineRunFailed { command: String::from("start winedbg") },
            cause: String::from("no prefix"),
        }]
    );
    assert!(wine_finished(&words(&["winecfg"]), Ok(())).is_empty());
}

#[test]
fn toast_is_passed_on_to_the_window() {
    let mut page = page(LauncherStyle::Modern);
    let effects = page.update(GeneralAppMsg::Toast {
        title: String::from("Oops"),
        description: Some(String::from("details")),
    });
    assert_eq!(
        effects,
        vec![GeneralAppEffect::Output(PreferencesAppMsg::Toast {
            title: String::from("Oops"),
            description: Some(String::from("details")),
        })]
    );
    let effects = page.update(GeneralAppMsg::Toast { title: String::from("Bare"), description: None });
    assert_eq!(
        effects,
        vec![GeneralAppEffect::Output(PreferencesAppMsg::Toast {
            title: String::from("Bare"),
            description: None,
        })]
    );
}

#[test]
fn command_line_puts_one_space_between_words() {
    assert_eq!(command_line(&words(&[])), "");
    assert_eq!(command_line(&words(&["regedit"])), "regedit");
    assert_eq!(command_line(&words(&["start", "winedbg"])), "start winedbg");
    assert_eq!(command_line(&words(&["a", "", "b"])), "a  b");
    assert_eq!(command_line(&words(&["", "x"])), " x");
}

#[test]
fn game_version_is_marked_by_how_far_it_is_behind() {
    let current = Version::new(1, 0, 0);
    let latest = Version::new(1, 1, 0);
    assert_eq!(game_emphasis(&None), Emphasis::Plain);
    assert_eq!(game_emphasis(&Some(VersionDiff::Latest { version: current })), Emphasis::Success);
    assert_eq!(
        game_emphasis(&Some(VersionDiff::Predownload { current, latest })),
        Emphasis::Accent
    );
    assert_eq!(game_emphasis(&Some(VersionDiff::Diff { current, latest })), Emphasis::Warning);
    assert_eq!(game_emphasis(&Some(VersionDiff::Outdated { current, latest })), Emphasis::Error);
    assert_eq!(game_emphasis(&Some(VersionDiff::NotInstalled { latest })), Emphasis::Plain);
}

#[test]
fn game_label_shows_the_installed_version() {
    let current = Version::new(1, 0, 0);
    let latest = Version::new(1, 1, 0);
    let installed = GameLabel::Installed(current);
    assert_eq!(game_label(&None), GameLabel::Unknown);
    assert_eq!(game_label(&Some(VersionDiff::Latest { version: current })), installed);
    assert_eq!(game_label(&Some(VersionDiff::Predownload { current, latest })), installed);
    assert_eq!(game_label(&Some(VersionDiff::Diff { current, latest })), installed);
    assert_eq!(game_label(&Some(VersionDiff::Outdated { current, latest })), installed);
    assert_eq!(game_label(&Some(VersionDiff::NotInstalled { latest })), GameLabel::NotInstalled);
}

#[test]
fn game_hint_names_both_versions_of_an_update() {
    let current = Version::new(1, 0, 0);
    let latest = Version::new(1, 1, 0);
    assert_eq!(game_hint(&None), GameHint::Nothing);
    assert_eq!(game_hint(&Some(VersionDiff::Latest { version: current })), GameHint::Nothing);
    assert_eq!(game_hint(&Some(VersionDiff::NotInstalled { latest })), GameHint::Nothing);
    assert_eq!(
        game_hint(&Some(VersionDiff::Predownload { current, latest })),
        GameHint::Predownload { old: current, new: latest }
    );
    assert_eq!(
        game_hint(&Some(VersionDiff::Diff { current, latest })),
        GameHint::Update { old: current, new: latest }
    );
    assert_eq!(
        game_hint(&Some(VersionDiff::Outdated { current, latest })),
        GameHint::Outdated { latest }
    );
}

#[test]
fn patch_label_follows_the_status() {
    assert_eq!(patch_label(&None), PatchLabel::Unknown);
    let missing = PatchDescriptor::new(Version::new(1, 2, 0), false, None);
    assert_eq!(patch_label(&Some(missing)), PatchLabel::NotAvailable);
    assert_eq!(
        patch_label(&Some(patch(Channel::Stable, Version::new(1, 1, 0)))),
        PatchLabel::Outdated { current: Version::new(1, 2, 0) }
    );
    assert_eq!(
        patch_label(&Some(patch(Channel::Testing, Version::new(1, 2, 0)))),
        PatchLabel::Patch(Version::new(1, 3, 0))
    );
    assert_eq!(
        patch_label(&Some(patch(Channel::Stable, Version::new(1, 2, 0)))),
        PatchLabel::Patch(Version::new(1, 3, 0))
    );
}

#[test]
fn patch_hint_follows_status_and_inspection() {
    let applied = Some(Ok(true));
    let unreadable = Some(Err(ApplyError::Io(String::from("missing"))));
    assert_eq!(patch_hint(&None, &applied), PatchHint::Nothing);
    let missing = PatchDescriptor::new(Version::new(1, 2, 0), false, None);
    assert_eq!(patch_hint(&Some(missing), &applied), PatchHint::NotAvailable);
    assert_eq!(
        patch_hint(&Some(patch(Channel::Stable, Version::new(1, 1, 0))), &None),
        PatchHint::Outdated { current: Version::new(1, 2, 0), latest: Version::new(1, 3, 0) }
    );
    assert_eq!(
        patch_hint(&Some(patch(Channel::Testing, Version::new(1, 2, 0))), &applied),
        PatchHint::Testing
    );
    let available = Some(patch(Channel::Stable, Version::new(1, 2, 0)));
    assert_eq!(patch_hint(&available, &applied), PatchHint::Nothing);
    assert_eq!(patch_hint(&available, &Some(Ok(false))), PatchHint::NotApplied);
    assert_eq!(patch_hint(&available, &unreadable), PatchHint::NotApplied);
    assert_eq!(patch_hint(&available, &None), PatchHint::NotApplied);
}

#[test]
fn only_an_available_patch_needs_inspection() {
    assert!(!needs_inspection(&None));
    assert!(!needs_inspection(&Some(PatchDescriptor::new(Version::new(1, 2, 0), false, None))));
    assert!(!needs_inspection(&Some(patch(Channel::Stable, Version::new(1, 1, 0)))));
    assert!(!needs_inspection(&Some(patch(Channel::Testing, Version::new(1, 2, 0)))));
    assert!(needs_inspection(&Some(patch(Channel::Stable, Version::new(1, 2, 0)))));
}

#[test]
fn patch_is_marked_by_status_and_inspection() {
    let applied = Some(Ok(true));
    let not_applied = Some(Ok(false));
    let unreadable = Some(Err(ApplyError::Io(String::from("permission denied"))));
    let available = Some(patch(Channel::Stable, Version::new(1, 2, 0)));
    assert_eq!(patch_emphasis(&available, &applied), Emphasis::Success);
    assert_eq!(patch_emphasis(&available, &not_applied), Emphasis::Warning);
    assert_eq!(patch_emphasis(&available, &unreadable), Emphasis::Warning);
    assert_eq!(patch_emphasis(&available, &None), Emphasis::Warning);

    let testing = Some(patch(Channel::Testing, Version::new(1, 2, 0)));
    assert_eq!(patch_emphasis(&testing, &applied), Emphasis::Warning);
    let outdated = Some(patch(Channel::Stable, Version::new(1, 1, 0)));
    assert_eq!(patch_emphasis(&outdated, &applied), Emphasis::Warning);
    let missing = Some(PatchDescriptor::new(Version::new(1, 2, 0), false, None));
    assert_eq!(patch_emphasis(&missing, &applied), Emphasis::Error);
    assert_eq!(patch_emphasis(&None, &applied), Emphasis::Plain);
}
