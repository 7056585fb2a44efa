//! The description of one game version: what to download and how to start.

use vstd::prelude::*;

use crate::json::{Json, Member};

verus! {

/// The client and server archives of a version.
#[derive(Debug)]
pub struct Downloads {
    pub client: DownloadArtifact,
    pub server: Option<DownloadArtifact>,
}

/// One file to download.
#[derive(Debug)]
pub struct DownloadArtifact {
    pub sha1: Option<String>,
    pub size: Option<u64>,
    pub url: String,
    pub path: Option<String>,
}

/// Where the index of a version's assets is found.
#[derive(Debug)]
pub struct AssetIndex {
    pub id: String,
    pub sha1: String,
    pub size: u64,
    pub url: String,
    pub total_size: Option<u64>,
}

/// The operating system that a rule speaks of.
#[derive(Debug)]
pub struct OsRule {
    /// `linux`, `osx` or `windows`.
    pub name: Option<String>,
    /// A pattern for the system's version.
    pub version: Option<String>,
    /// The processor architecture.
    pub arch: Option<String>,
}

/// The Java runtime that a version needs.
#[derive(Debug)]
pub struct JavaVersion {
    pub component: String,
    pub major_version: u64,
}

/// One feature that a rule asks to be on or off.
#[derive(Debug)]
pub struct FeatureRequirement {
    pub name: String,
    pub required: bool,
}

/// What a rule says about features.
#[derive(Debug)]
pub enum FeatureRule {
    /// The rule's features are not given as a list of named flags.
    Malformed,
    /// The features with the state each has to be in.
    Flags(Vec<FeatureRequirement>),
}

/// A condition under which a library or an argument is used or left out.
#[derive(Debug)]
pub struct Rule {
    /// `allow` or `disallow`.
    pub action: String,
    pub os: Option<OsRule>,
    pub features: Option<FeatureRule>,
}

/// What a rule says about features, from the value that stands for it: an
/// object gives its members as flags, a member that is no truth value
/// counting as off; any other value is malformed.
pub open spec fn feature_rule_view(value: Json) -> Option<Seq<(Seq<char>, bool)>> {
    match value {
        Json::Object(members) => Some(
            members@.map_values(
                |m: Member|
                    (
                        m.key@,
                        match m.value.flag() {
                            Some(b) => b,
                            None => false,
                        },
                    ),
            ),
        ),
        _ => None,
    }
}

/// The flags of a feature rule as pairs of name and state.
pub open spec fn flags_view(rule: FeatureRule) -> Option<Seq<(Seq<char>, bool)>> {
    match rule {
        FeatureRule::Flags(flags) => Some(
            flags@.map_values(|f: FeatureRequirement| (f.name@, f.required)),
        ),
        FeatureRule::Malformed => None,
    }
}

/// What a rule says about features, from the value that stands for it.
pub fn feature_rule_of(value: &Json) -> (rule: FeatureRule)
    ensures
        flags_view(rule) == feature_rule_view(*value),
{
    match value {
        Json::Object(members) => {
            let mut flags: Vec<FeatureRequirement> = Vec::new();
            let mut i: usize = 0;
            while i < members.len()
                invariant
                    i <= members@.len(),
                    flags@.len() == i,
                    forall|k: int|
                        0 <= k < i ==> (#[trigger] flags@[k]).name@ == members@[k].key@ && flags@[k].required
                            == match members@[k].value.flag() {
                            Some(b) => b,
                            None => false,
                        },
                decreases members@.len() - i,
            {
                let required = match members[i].value.as_bool() {
                    Some(b) => b,
                    None => false,
                };
                flags.push(FeatureRequirement { name: members[i].key.clone(), required });
                i += 1;
            }
            let rule = FeatureRule::Flags(flags);
            assert(flags_view(rule)->0 =~= feature_rule_view(*value)->0);
            rule
        },
        _ => FeatureRule::Malformed,
    }
}

/// What a library offers for download.
#[derive(Debug)]
pub struct LibraryDownloads {
    pub artifact: Option<DownloadArtifact>,
    /// The native libraries, filed under the names of platforms.
    pub classifiers: Option<Json>,
}

/// A library of a game version.
#[derive(Debug)]
pub struct Library {
    pub downloads: Option<LibraryDownloads>,
    pub name: String,
    pub rules: Option<Vec<Rule>>,
    pub natives: Option<Json>,
    /// The repository that holds the library, for libraries of mod
    /// loaders.
    pub url: Option<String>,
}

/// The arguments of a game version, for the game and for the Java
/// machine.
#[derive(Debug)]
pub struct Arguments {
    pub game: Option<Json>,
    pub jvm: Option<Json>,
}

/// The description of a game version. A version of a mod loader names the
/// plain version that it builds on and may leave to it what it does not
/// say itself.
#[derive(Debug)]
pub struct GameVersion {
    pub id: String,
    pub downloads: Option<Downloads>,
    pub asset_index: Option<AssetIndex>,
    pub libraries: Vec<Library>,
    pub main_class: String,
    pub minecraft_arguments: Option<String>,
    pub arguments: Option<Arguments>,
    pub java_version: Option<JavaVersion>,
    /// The version that this one builds on.
    pub inherits_from: Option<String>,
    pub assets: Option<String>,
    /// `release`, `snapshot`, `old_beta` and the like.
    pub version_type: Option<String>,
}

/// The path under which the artifact of a library is filed: its own path,
/// or the library's name with `.jar` where it has none.
pub fn artifact_path(artifact: &DownloadArtifact, library_name: &str) -> (path: String)
    ensures
        path@ == match artifact.path {
            Some(p) => p@,
            None => library_name@ + ".jar"@,
        },
{
    match &artifact.path {
        Some(p) => p.clone(),
        None => crate::text::concat2(library_name, ".jar"),
    }
}

} // verus!
