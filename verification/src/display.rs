//! How the settings page shows the versions of the game and of the patch:
//! what stands there, how it is marked, and what is said of it on request.

use vstd::prelude::*;
use crate::outcome::ApplyError;
use crate::status::{classify, PatchDescriptor, PatchStatus};
use crate::version::{Version, VersionDiff};

verus! {

/// How strongly a value is marked where it is shown.
#[derive(Clone, Copy, Debug, PartialEq, Eq, Structural)]
pub enum Emphasis {
    Plain,
    Success,
    Accent,
    Warning,
    Error,
}

/// What stands where the game version is shown.
#[derive(Clone, Copy, Debug, PartialEq, Eq, Structural)]
pub enum GameLabel {
    /// Nothing is known yet.
    Unknown,
    NotInstalled,
    Installed(Version),
}

/// What is said of the game version on request.
#[derive(Clone, Copy, Debug, PartialEq, Eq, Structural)]
pub enum GameHint {
    Nothing,
    /// The next version can be fetched ahead.
    Predownload { old: Version, new: Version },
    /// An update is available.
    Update { old: Version, new: Version },
    /// The installation is too old to be updated to the newest version.
    Outdated { latest: Version },
}

/// What stands where the patch version is shown.
#[derive(Clone, Copy, Debug, PartialEq, Eq, Structural)]
pub enum PatchLabel {
    /// Nothing is known yet.
    Unknown,
    NotAvailable,
    Outdated { current: Version },
    Patch(Version),
}

/// What is said of the patch on request.
#[derive(Clone, Copy, Debug, PartialEq, Eq, Structural)]
pub enum PatchHint {
    Nothing,
    NotAvailable,
    Outdated { current: Version, latest: Version },
    Testing,
    /// The patch is available and not known to be applied.
    NotApplied,
}

/// How the game version is marked: by how far the installation is behind.
pub open spec fn game_mark(diff: Option<VersionDiff>) -> Emphasis {
    match diff {
        Some(VersionDiff::Latest { .. }) => Emphasis::Success,
        Some(VersionDiff::Predownload { .. }) => Emphasis::Accent,
        Some(VersionDiff::Diff { .. }) => Emphasis::Warning,
        Some(VersionDiff::Outdated { .. }) => Emphasis::Error,
        Some(VersionDiff::NotInstalled { .. }) => Emphasis::Plain,
        None => Emphasis::Plain,
    }
}

/// Says how the game version is to be marked.
pub fn game_emphasis(diff: &Option<VersionDiff>) -> (mark: Emphasis)
    ensures
        mark == game_mark(*diff),
{
    match diff {
        Some(VersionDiff::Latest { .. }) => Emphasis::Success,
        Some(VersionDiff::Predownload { .. }) => Emphasis::Accent,
        Some(VersionDiff::Diff { .. }) => Emphasis::Warning,
        Some(VersionDiff::Outdated { .. }) => Emphasis::Error,
        Some(VersionDiff::NotInstalled { .. }) => Emphasis::Plain,
        None => Emphasis::Plain,
    }
}

/// What stands where the game version is shown.
pub open spec fn game_caption(diff: Option<VersionDiff>) -> GameLabel {
    match diff {
        Some(VersionDiff::Latest { version }) => GameLabel::Installed(version),
        Some(VersionDiff::Predownload { current, .. }) => GameLabel::Installed(current),
        Some(VersionDiff::Diff { current, .. }) => GameLabel::Installed(current),
        Some(VersionDiff::Outdated { current, .. }) => GameLabel::Installed(current),
        Some(VersionDiff::NotInstalled { .. }) => GameLabel::NotInstalled,
        None => GameLabel::Unknown,
    }
}

/// Says what stands where the game version is shown.
pub fn game_label(diff: &Option<VersionDiff>) -> (label: GameLabel)
    ensures
        label == game_caption(*diff),
{
    match diff {
        Some(VersionDiff::Latest { version }) => GameLabel::Installed(*version),
        Some(VersionDiff::Predownload { current, .. }) => GameLabel::Installed(*current),
        Some(VersionDiff::Diff { current, .. }) => GameLabel::Installed(*current),
        Some(VersionDiff::Outdated { current, .. }) => GameLabel::Installed(*current),
        Some(VersionDiff::NotInstalled { .. }) => GameLabel::NotInstalled,
        None => GameLabel::Unknown,
    }
}

/// What is said of the game version on request.
pub open spec fn game_remark(diff: Option<VersionDiff>) -> GameHint {
    match diff {
        Some(VersionDiff::Predownload { current, latest }) => GameHint::Predownload {
            old: current,
            new: latest,
        },
        Some(VersionDiff::Diff { current, latest }) => GameHint::Update { old: current, new: latest },
        Some(VersionDiff::Outdated { latest, .. }) => GameHint::Outdated { latest },
        _ => GameHint::Nothing,
    }
}

/// Says what is said of the game version on request.
pub fn game_hint(diff: &Option<VersionDiff>) -> (hint: GameHint)
    ensures
        hint == game_remark(*diff),
{
    match diff {
        Some(VersionDiff::Predownload { current, latest }) => GameHint::Predownload {
            old: *current,
            new: *latest,
        },
        Some(VersionDiff::Diff { current, latest }) => GameHint::Update { old: *current, new: *latest },
        Some(VersionDiff::Outdated { latest, .. }) => GameHint::Outdated { latest: *latest },
        _ => GameHint::Nothing,
    }
}

/// What stands where the patch version is shown.
pub open spec fn patch_caption(patch: Option<PatchDescriptor>) -> PatchLabel {
    match patch {
        None => PatchLabel::Unknown,
        Some(descriptor) => match descriptor.status() {
            PatchStatus::NotAvailable => PatchLabel::NotAvailable,
            PatchStatus::Outdated { current } => PatchLabel::Outdated { current },
            PatchStatus::Testing { version } => PatchLabel::Patch(version),
            PatchStatus::Available { version } => PatchLabel::Patch(version),
        },
    }
}

/// Says what stands where the patch version is shown.
pub fn patch_label(patch: &Option<PatchDescriptor>) -> (label: PatchLabel)
    ensures
        label == patch_caption(*patch),
{
    match patch {
        None => PatchLabel::Unknown,
        Some(descriptor) => match classify(descriptor) {
            PatchStatus::NotAvailable => PatchLabel::NotAvailable,
            PatchStatus::Outdated { current } => PatchLabel::Outdated { current },
            PatchStatus::Testing { version } => PatchLabel::Patch(version),
            PatchStatus::Available { version } => PatchLabel::Patch(version),
        },
    }
}

/// Whether the installation has to be inspected before the patch can be
/// marked: only an available patch can turn out to be applied already.
pub open spec fn wants_inspection(patch: Option<PatchDescriptor>) -> bool {
    patch is Some && patch->0.status() is Available
}

/// Says whether the installation has to be inspected before the patch is marked.
pub fn needs_inspection(patch: &Option<PatchDescriptor>) -> (wanted: bool)
    ensures
        wanted == wants_inspection(*patch),
{
    match patch {
        Some(descriptor) => match classify(descriptor) {
            PatchStatus::Available { .. } => true,
            _ => false,
        },
        None => false,
    }
}

/// Whether the inspection says, without doubt, that the patch is applied. An
/// inspection that failed, or was not made, does not say so.
pub open spec fn known_applied(inspection: Option<Result<bool, ApplyError>>) -> bool {
    inspection == Some(Ok::<bool, ApplyError>(true))
}

/// How the patch version is marked.
pub open spec fn patch_mark(patch: Option<PatchDescriptor>, inspection: Option<
    Result<bool, ApplyError>,
>) -> Emphasis {
    match patch {
        None => Emphasis::Plain,
        Some(descriptor) => match descriptor.status() {
            PatchStatus::NotAvailable => Emphasis::Error,
            PatchStatus::Outdated { .. } => Emphasis::Warning,
            PatchStatus::Testing { .. } => Emphasis::Warning,
            PatchStatus::Available { .. } => if known_applied(inspection) {
                Emphasis::Success
            } else {
                Emphasis::Warning
            },
        },
    }
}

/// Says how the patch version is to be marked, given the result of the
/// inspection where one was made.
pub fn patch_emphasis(patch: &Option<PatchDescriptor>, inspection: &Option<
    Result<bool, ApplyError>,
>) -> (mark: Emphasis)
    ensures
        mark == patch_mark(*patch, *inspection),
{
    match patch {
        None => Emphasis::Plain,
        Some(descriptor) => match classify(descriptor) {
            PatchStatus::NotAvailable => Emphasis::Error,
            PatchStatus::Outdated { .. } => Emphasis::Warning,
            PatchStatus::Testing { .. } => Emphasis::Warning,
            PatchStatus::Available { .. } => match inspection {
                Some(Ok(true)) => Emphasis::Success,
                _ => Emphasis::Warning,
            },
        },
    }
}

/// What is said of the patch on request.
pub open spec fn patch_remark(patch: Option<PatchDescriptor>, inspection: Option<
    Result<bool, ApplyError>,
>) -> PatchHint {
    match patch {
        None => PatchHint::Nothing,
        Some(descriptor) => match descriptor.status() {
            PatchStatus::NotAvailable => PatchHint::NotAvailable,
            PatchStatus::Outdated { current } => PatchHint::Outdated {
                current,
                latest: descriptor.metadata->0.latest_version,
            },
            PatchStatus::Testing { .. } => PatchHint::Testing,
            PatchStatus::Available { .. } => if known_applied(inspection) {
                PatchHint::Nothing
            } else {
                PatchHint::NotApplied
            },
        },
    }
}

/// Says what is said of the patch on request, given the result of the
/// inspection where one was made.
pub fn patch_hint(patch: &Option<PatchDescriptor>, inspection: &Option<Result<bool, ApplyError>>) -> (hint:
    PatchHint)
    ensures
        hint == patch_remark(*patch, *inspection),
{
    match patch {
        None => PatchHint::Nothing,
        Some(descriptor) => match classify(descriptor) {
            PatchStatus::NotAvailable => PatchHint::NotAvailable,
            PatchStatus::Outdated { current } => match descriptor.latest_version() {
                Some(latest) => PatchHint::Outdated { current, latest },
                None => PatchHint::NotAvailable,
            },
            PatchStatus::Testing { .. } => PatchHint::Testing,
            PatchStatus::Available { .. } => match inspection {
                Some(Ok(true)) => PatchHint::Nothing,
                _ => PatchHint::NotApplied,
            },
        },
    }
}

} // verus!
