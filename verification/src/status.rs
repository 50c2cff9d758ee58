//! What is known of a patch, and the status that follows from it.

use vstd::prelude::*;
use crate::version::Version;

verus! {

/// The track on which a patch is published.
#[derive(Clone, Copy, Debug, PartialEq, Eq, Structural)]
pub enum Channel {
    Stable,
    Testing,
}

/// What the remote source says of the newest patch.
#[derive(Clone, Copy, Debug, PartialEq, Eq, Structural)]
pub struct PatchMetadata {
    /// Version of the newest known patch.
    pub latest_version: Version,
    /// Track on which that patch is published.
    pub channel: Channel,
    /// Newest game version that the patch supports.
    pub ceiling: Version,
}

/// A snapshot of the facts about one patch and the installation it is meant for.
///
/// A descriptor is never changed: each refresh makes a new one.
#[derive(Clone, Copy, Debug, PartialEq, Eq, Structural)]
pub struct PatchDescriptor {
    /// Version of the installed game.
    pub current_version: Version,
    /// Whether applying needs elevated privileges.
    pub root_required: bool,
    /// Remote facts, absent when no patch exists for this installation.
    pub metadata: Option<PatchMetadata>,
}

/// The state of a patch with respect to one installation.
#[derive(Clone, Copy, Debug, PartialEq, Eq, Structural)]
pub enum PatchStatus {
    /// No patch exists for the installation.
    NotAvailable,
    /// A patch exists, but the installed game is newer than what it supports.
    Outdated { current: Version },
    /// A patch exists on the testing track.
    Testing { version: Version },
    /// A patch exists and is expected to apply cleanly.
    Available { version: Version },
}

impl PatchStatus {
    /// Applying is allowed from `Testing` and `Available` only.
    pub open spec fn permits_apply(self) -> bool {
        self is Testing || self is Available
    }

    /// Whether a patch in this state may be applied.
    pub fn allows_apply(&self) -> (allowed: bool)
        ensures
            allowed == self.permits_apply(),
    {
        match self {
            PatchStatus::NotAvailable => false,
            PatchStatus::Outdated { .. } => false,
            PatchStatus::Testing { .. } => true,
            PatchStatus::Available { .. } => true,
        }
    }
}

impl PatchMetadata {
    pub fn new(latest_version: Version, channel: Channel, ceiling: Version) -> (metadata:
        PatchMetadata)
        ensures
            metadata == (PatchMetadata { latest_version, channel, ceiling }),
    {
        PatchMetadata { latest_version, channel, ceiling }
    }
}

impl PatchDescriptor {
    pub fn new(current_version: Version, root_required: bool, metadata: Option<PatchMetadata>) -> (descriptor: PatchDescriptor)
        ensures
            descriptor == (PatchDescriptor { current_version, root_required, metadata }),
    {
        PatchDescriptor { current_version, root_required, metadata }
    }

    /// Version of the newest known patch, if there is one.
    pub open spec fn latest(self) -> Option<Version> {
        match self.metadata {
            Some(metadata) => Some(metadata.latest_version),
            None => None,
        }
    }

    /// Version of the newest known patch, if the remote source knows one.
    pub fn latest_version(&self) -> (latest: Option<Version>)
        ensures
            latest == self.latest(),
    {
        match self.metadata {
            Some(metadata) => Some(metadata.latest_version),
            None => None,
        }
    }

    /// The status of the described patch. The rules are tried in this order:
    /// no metadata, a ceiling below the installed version, the testing track, and
    /// otherwise the patch is available.
    pub open spec fn status(self) -> PatchStatus {
        match self.metadata {
            None => PatchStatus::NotAvailable,
            Some(metadata) => if metadata.ceiling.below(self.current_version) {
                PatchStatus::Outdated { current: self.current_version }
            } else if metadata.channel is Testing {
                PatchStatus::Testing { version: metadata.latest_version }
            } else {
                PatchStatus::Available { version: metadata.latest_version }
            },
        }
    }
}

/// Maps the facts of a descriptor to the one status that holds of it.
pub fn classify(descriptor: &PatchDescriptor) -> (status: PatchStatus)
    ensures
        status == descriptor.status(),
{
    match descriptor.metadata {
        None => PatchStatus::NotAvailable,
        Some(metadata) => {
            if metadata.ceiling.is_below(&descriptor.current_version) {
                PatchStatus::Outdated { current: descriptor.current_version }
            } else {
                match metadata.channel {
                    Channel::Testing => PatchStatus::Testing { version: metadata.latest_version },
                    Channel::Stable => PatchStatus::Available { version: metadata.latest_version },
                }
            }
        },
    }
}

/// Without remote metadata the status is `NotAvailable`, whatever else the
/// descriptor holds, and applying is not allowed.
pub proof fn lemma_no_metadata_is_not_available(descriptor: PatchDescriptor)
    requires
        descriptor.metadata is None,
    ensures
        descriptor.status() == PatchStatus::NotAvailable,
        !descriptor.status().permits_apply(),
{
}

/// With a ceiling below the installed version the status is `Outdated` and
/// carries the installed version, and applying is not allowed.
pub proof fn lemma_low_ceiling_is_outdated(descriptor: PatchDescriptor)
    requires
        descriptor.metadata is Some,
        descriptor.metadata->0.ceiling.below(descriptor.current_version),
    ensures
        descriptor.status() == (PatchStatus::Outdated { current: descriptor.current_version }),
        !descriptor.status().permits_apply(),
{
}

/// With metadata and a ceiling that is not below the installed version, the
/// track alone decides between `Testing` and `Available`; either carries the
/// newest patch version, and applying is allowed.
pub proof fn lemma_channel_decides(descriptor: PatchDescriptor)
    requires
        descriptor.metadata is Some,
        !descriptor.metadata->0.ceiling.below(descriptor.current_version),
    ensures
        descriptor.metadata->0.channel is Testing ==> descriptor.status() == (PatchStatus::Testing {
            version: descriptor.metadata->0.latest_version,
        }),
        descriptor.metadata->0.channel is Stable ==> descriptor.status() == (PatchStatus::Available {
            version: descriptor.metadata->0.latest_version,
        }),
        descriptor.status().permits_apply(),
{
}

/// Two descriptors that both have metadata and a sufficient ceiling get the same
/// variant exactly when their tracks agree.
pub proof fn lemma_variant_follows_channel(first: PatchDescriptor, second: PatchDescriptor)
    requires
        first.metadata is Some,
        second.metadata is Some,
        !first.metadata->0.ceiling.below(first.current_version),
        !second.metadata->0.ceiling.below(second.current_version),
    ensures
        (first.status() is Testing <==> second.status() is Testing) <==> first.metadata->0.channel
            == second.metadata->0.channel,
        (first.status() is Available <==> second.status() is Available) <==> first.metadata->0.channel
            == second.metadata->0.channel,
{
}

/// Exactly one variant holds of a descriptor.
pub proof fn lemma_status_exclusive(descriptor: PatchDescriptor)
    ensures
        ({
            let status = descriptor.status();
            &&& (status is NotAvailable || status is Outdated || status is Testing || status is Available)
            &&& !(status is NotAvailable && status is Outdated)
            &&& !(status is Testing && status is Available)
            &&& status.permits_apply() <==> !(status is NotAvailable || status is Outdated)
        }),
{
}

/// The status is a function of the descriptor: descriptors that hold the same
/// facts have the same status, so classifying one twice cannot give two answers.
pub proof fn lemma_status_is_determined(first: PatchDescriptor, second: PatchDescriptor)
    requires
        first == second,
    ensures
        first.status() == second.status(),
{
}

} // verus!
