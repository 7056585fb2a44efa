//! The list of game versions that the vendor publishes.

use vstd::prelude::*;

verus! {

/// The published list of versions.
#[derive(Debug)]
pub struct VersionManifest {
    pub latest: Latest,
    pub versions: Vec<Version>,
}

/// The newest release and the newest snapshot.
#[derive(Debug)]
pub struct Latest {
    pub release: String,
    pub snapshot: String,
}

/// One published version.
#[derive(Debug)]
pub struct Version {
    pub id: String,
    pub type_: String,
    pub url: String,
    pub time: String,
    pub release_time: String,
    /// The major Java version that the game version needs, known once the
    /// version is installed.
    pub java_version: Option<u64>,
    /// Whether the version is installed.
    pub is_installed: Option<bool>,
}

/// A step on the way from a version to the plain version that it builds
/// on.
#[derive(Debug)]
pub enum RootStep {
    /// The version with this identifier is the root.
    Root(String),
    /// Look at the version with this identifier next.
    Parent(String),
}

/// The step from the version `current_id`, of which `inherits_from` is
/// known if the version is installed. A version that is not installed
/// counts as a plain one and is the root; so is one that builds on none;
/// from any other the way goes on to the version it builds on.
pub fn root_step(current_id: String, installed: Option<Option<String>>) -> (step: RootStep)
    ensures
        step == match installed {
            Some(Some(parent)) => RootStep::Parent(parent),
            _ => RootStep::Root(current_id),
        },
{
    match installed {
        Some(Some(parent)) => RootStep::Parent(parent),
        _ => RootStep::Root(current_id),
    }
}

} // verus!
