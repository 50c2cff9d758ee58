//! Semantic versions and their order.

use vstd::prelude::*;

verus! {

/// A semantic version: three numbers, compared from the left.
#[derive(Clone, Copy, Debug, PartialEq, Eq, Structural)]
pub struct Version {
    pub major: u64,
    pub minor: u64,
    pub patch: u64,
}

impl Version {
    /// Strict order on versions: the first differing component decides.
    pub open spec fn below(self, other: Version) -> bool {
        ||| self.major < other.major
        ||| self.major == other.major && self.minor < other.minor
        ||| self.major == other.major && self.minor == other.minor && self.patch < other.patch
    }

    pub fn new(major: u64, minor: u64, patch: u64) -> (version: Version)
        ensures
            version == (Version { major, minor, patch }),
    {
        Version { major, minor, patch }
    }

    /// Whether this version comes strictly before `other`.
    pub fn is_below(&self, other: &Version) -> (answer: bool)
        ensures
            answer == self.below(*other),
    {
        if self.major != other.major {
            self.major < other.major
        } else if self.minor != other.minor {
            self.minor < other.minor
        } else {
            self.patch < other.patch
        }
    }
}

/// How the installed game relates to the newest one.
#[derive(Clone, Copy, Debug, PartialEq, Eq, Structural)]
pub enum VersionDiff {
    /// The installed game is the newest.
    Latest { version: Version },
    /// The installed game is the newest, and the next one can be fetched ahead.
    Predownload { current: Version, latest: Version },
    /// An update is available.
    Diff { current: Version, latest: Version },
    /// The installed game is too old to be updated.
    Outdated { current: Version, latest: Version },
    /// No game is installed.
    NotInstalled { latest: Version },
}

/// No version is below itself.
pub proof fn lemma_below_irreflexive(a: Version)
    ensures
        !a.below(a),
{
}

/// The order is transitive.
pub proof fn lemma_below_transitive(a: Version, b: Version, c: Version)
    requires
        a.below(b),
        b.below(c),
    ensures
        a.below(c),
{
}

/// Of two versions exactly one holds: the first is below, they are equal, or the second is below.
pub proof fn lemma_below_total(a: Version, b: Version)
    ensures
        a.below(b) || a == b || b.below(a),
        !(a.below(b) && b.below(a)),
        a == b ==> !a.below(b),
{
}

} // verus!
