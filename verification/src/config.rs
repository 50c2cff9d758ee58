//! The settings that the launcher hands to the core, and which snapshot of
//! them counts when a fresh one cannot be read.

use vstd::prelude::*;

verus! {

/// A distribution of the game. Each has an installation of its own.
#[derive(Clone, Copy, Debug, PartialEq, Eq, Structural)]
pub enum GameEdition {
    Global,
    China,
}

impl GameEdition {
    /// The place of the edition in the list from which the user picks one.
    pub open spec fn position(self) -> u32 {
        match self {
            GameEdition::Global => 0,
            GameEdition::China => 1,
        }
    }

    /// The edition at a place of that list, if the list is that long.
    pub open spec fn at(index: u32) -> Option<GameEdition> {
        if index == 0 {
            Some(GameEdition::Global)
        } else if index == 1 {
            Some(GameEdition::China)
        } else {
            None
        }
    }

    /// The place of the edition in the list of editions.
    pub fn index(self) -> (index: u32)
        ensures
            index == self.position(),
    {
        match self {
            GameEdition::Global => 0,
            GameEdition::China => 1,
        }
    }

    /// The edition that stands at `index` in the list of editions.
    pub fn from_index(index: u32) -> (edition: Option<GameEdition>)
        ensures
            edition == GameEdition::at(index),
    {
        if index == 0 {
            Some(GameEdition::Global)
        } else if index == 1 {
            Some(GameEdition::China)
        } else {
            None
        }
    }
}

/// An edition is found again at its own place, and only there.
pub proof fn lemma_edition_index_round_trip(edition: GameEdition, index: u32)
    ensures
        GameEdition::at(edition.position()) == Some(edition),
        GameEdition::at(index) == Some(edition) <==> index == edition.position(),
{
}

/// Where each edition is installed.
#[derive(Clone, Debug, PartialEq, Eq)]
pub struct InstallPaths {
    pub global: String,
    pub china: String,
}

impl InstallPaths {
    /// The installation of the given edition.
    pub open spec fn of(&self, edition: GameEdition) -> String {
        match edition {
            GameEdition::Global => self.global,
            GameEdition::China => self.china,
        }
    }

    /// The installation of the given edition.
    pub fn for_edition(&self, edition: GameEdition) -> (path: &String)
        ensures
            *path == self.of(edition),
    {
        match edition {
            GameEdition::Global => &self.global,
            GameEdition::China => &self.china,
        }
    }
}

/// One snapshot of what the launcher is set to. The core only reads it.
#[derive(Clone, Debug, PartialEq, Eq)]
pub struct LauncherSettings {
    /// The edition that the launcher is set to.
    pub edition: GameEdition,
    /// Where the editions are installed.
    pub paths: InstallPaths,
    /// Whether patching may ask for elevated privileges.
    pub root_required: bool,
}

impl LauncherSettings {
    /// The text of the path of the installation that these settings select.
    pub open spec fn selected_path(&self) -> Seq<char> {
        self.paths.of(self.edition)@
    }

    /// The path of the installation of the edition that the launcher is set to.
    pub fn install_path(&self) -> (path: String)
        ensures
            path@ == self.selected_path(),
    {
        self.paths.for_edition(self.edition).clone()
    }
}

/// What to do when the settings cannot be read afresh.
#[derive(Clone, Copy, Debug, PartialEq, Eq, Structural)]
pub enum FallbackPolicy {
    /// Go on with the snapshot that was read last. It may be out of date.
    UseCached,
    /// Go without settings: the caller gives up.
    Fail,
}

/// The settings that count, as a function of what was read and of the policy.
pub open spec fn settings_in_effect<'a>(
    fresh: Option<&'a LauncherSettings>,
    cached: &'a LauncherSettings,
    policy: FallbackPolicy,
) -> Option<&'a LauncherSettings> {
    match fresh {
        Some(settings) => Some(settings),
        None => match policy {
            FallbackPolicy::UseCached => Some(cached),
            FallbackPolicy::Fail => None,
        },
    }
}

/// Picks the settings to work with: the fresh ones where they could be read,
/// else the cached snapshot if the policy allows it, else none.
pub fn effective_settings<'a>(
    fresh: Option<&'a LauncherSettings>,
    cached: &'a LauncherSettings,
    policy: FallbackPolicy,
) -> (settings: Option<&'a LauncherSettings>)
    ensures
        settings == settings_in_effect(fresh, cached, policy),
{
    match fresh {
        Some(settings) => Some(settings),
        None => match policy {
            FallbackPolicy::UseCached => Some(cached),
            FallbackPolicy::Fail => None,
        },
    }
}

} // verus!
