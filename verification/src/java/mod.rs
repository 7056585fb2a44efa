//! Java runtimes: what is installed, what can be downloaded, and which one
//! a game version gets.

pub mod adoptium;
pub mod error;
pub mod install;
pub mod persistence;
pub mod priority;
pub mod select;
pub mod validation;

use vstd::prelude::*;

use crate::java::validation::{
    extract_architecture, extract_vendor, major_version_of, parse_version_string,
};
use crate::text::{
    chars_of, contains, contains_text, lowercase, lowercase_of, same_text, starts_with_text,
    string_of_range,
};

verus! {

/// A Java runtime found on this machine.
#[derive(Debug)]
pub struct JavaInstallation {
    pub path: String,
    pub version: String,
    pub arch: String,
    pub vendor: String,
    pub source: String,
    pub is_64bit: bool,
}

/// The mathematical content of a `JavaInstallation`.
pub struct InstallationView {
    pub path: Seq<char>,
    pub version: Seq<char>,
    pub arch: Seq<char>,
    pub vendor: Seq<char>,
    pub source: Seq<char>,
    pub is_64bit: bool,
}

impl View for JavaInstallation {
    type V = InstallationView;

    open spec fn view(&self) -> InstallationView {
        InstallationView {
            path: self.path@,
            version: self.version@,
            arch: self.arch@,
            vendor: self.vendor@,
            source: self.source@,
            is_64bit: self.is_64bit,
        }
    }
}

impl Clone for JavaInstallation {
    fn clone(&self) -> (copy: Self)
        ensures
            copy@ == self@,
    {
        JavaInstallation {
            path: self.path.clone(),
            version: self.version.clone(),
            arch: self.arch.clone(),
            vendor: self.vendor.clone(),
            source: self.source.clone(),
            is_64bit: self.is_64bit,
        }
    }
}

impl InstallationView {
    /// The major version of the runtime.
    pub open spec fn major(self) -> u32 {
        major_version_of(self.version)
    }
}

/// The installations of `list` in order, as mathematical values.
pub open spec fn installations_of(list: Seq<JavaInstallation>) -> Seq<InstallationView> {
    list.map_values(|j: JavaInstallation| j@)
}

/// The view of an optional installation.
pub open spec fn opt_installation(java: Option<JavaInstallation>) -> Option<InstallationView> {
    match java {
        Some(j) => Some(j@),
        None => None,
    }
}

/// The kind of Java package: the runtime alone, or the development kit.
#[derive(Clone, Copy, Debug, PartialEq, Eq, Structural)]
pub enum ImageType {
    Jre,
    Jdk,
}

impl Default for ImageType {
    fn default() -> (kind: Self)
        ensures
            kind == ImageType::Jre,
    {
        ImageType::Jre
    }
}

impl ImageType {
    /// The name of the kind: `jre` or `jdk`.
    pub open spec fn name_of(self) -> Seq<char> {
        match self {
            ImageType::Jre => "jre"@,
            ImageType::Jdk => "jdk"@,
        }
    }

    /// The name of the kind: `jre` or `jdk`.
    pub fn name(&self) -> (name: &'static str)
        ensures
            name@ == self.name_of(),
    {
        match self {
            ImageType::Jre => "jre",
            ImageType::Jdk => "jdk",
        }
    }

    /// The name of the kind as an owned string.
    pub fn to_text(&self) -> (name: String)
        ensures
            name@ == self.name_of(),
    {
        self.name().to_string()
    }

    /// The kind that a stored name stands for: the development kit for
    /// `jdk`, the runtime for anything else.
    pub fn from_name(name: &str) -> (kind: Self)
        ensures
            kind == if name@ == "jdk"@ {
                ImageType::Jdk
            } else {
                ImageType::Jre
            },
    {
        if same_text(name, "jdk") {
            ImageType::Jdk
        } else {
            ImageType::Jre
        }
    }
}

/// A Java release as shown to the user.
#[derive(Debug)]
pub struct JavaReleaseInfo {
    pub major_version: u32,
    pub image_type: String,
    pub version: String,
    pub release_name: String,
    pub release_date: Option<String>,
    pub file_size: u64,
    pub checksum: Option<String>,
    pub download_url: String,
    pub is_lts: bool,
    pub is_available: bool,
    pub architecture: String,
}

/// The releases on offer, as last fetched.
#[derive(Debug)]
pub struct JavaCatalog {
    pub releases: Vec<JavaReleaseInfo>,
    pub available_major_versions: Vec<u32>,
    pub lts_versions: Vec<u32>,
    /// When the catalog was fetched, in seconds since the Unix epoch.
    pub cached_at: u64,
}

impl Default for JavaCatalog {
    fn default() -> (catalog: Self)
        ensures
            catalog.releases@.len() == 0,
            catalog.available_major_versions@.len() == 0,
            catalog.lts_versions@.len() == 0,
            catalog.cached_at == 0,
    {
        JavaCatalog {
            releases: Vec::new(),
            available_major_versions: Vec::new(),
            lts_versions: Vec::new(),
            cached_at: 0,
        }
    }
}

/// What is needed to download one Java release.
#[derive(Debug)]
pub struct JavaDownloadInfo {
    /// For example `17.0.2+8`.
    pub version: String,
    /// For example `jdk-17.0.2+8`.
    pub release_name: String,
    pub download_url: String,
    pub file_name: String,
    /// In bytes.
    pub file_size: u64,
    /// The SHA-256 hash of the archive.
    pub checksum: Option<String>,
    /// `jre` or `jdk`.
    pub image_type: String,
}

/// The marker that Windows puts before a path that it has resolved.
pub open spec fn unc_prefix() -> Seq<char> {
    seq!['\\', '\\', '?', '\\']
}

/// The path without the marker of a resolved Windows path.
pub open spec fn without_unc_prefix(path: Seq<char>, on_windows: bool) -> Seq<char> {
    if on_windows && starts_with_text(path, unc_prefix()) {
        path.subrange(4, path.len() as int)
    } else {
        path
    }
}

/// Removes the marker `\\?\` from the front of a path that Windows has
/// resolved. Elsewhere, and on a path without the marker, the path is
/// returned as it is.
pub fn strip_unc_prefix(path: String, on_windows: bool) -> (stripped: String)
    ensures
        stripped@ == without_unc_prefix(path@, on_windows),
{
    if !on_windows {
        return path;
    }
    let chars = chars_of(path.as_str());
    let s = chars.as_slice();
    if s.len() >= 4 && s[0] == '\\' && s[1] == '\\' && s[2] == '?' && s[3] == '\\' {
        assert(s@.subrange(0, 4) =~= unc_prefix());
        string_of_range(s, 4, s.len())
    } else {
        proof {
            if starts_with_text(path@, unc_prefix()) {
                assert(s@.subrange(0, 4) == unc_prefix());
                assert(s@.subrange(0, 4)[0] == s@[0]);
                assert(s@.subrange(0, 4)[1] == s@[1]);
                assert(s@.subrange(0, 4)[2] == s@[2]);
                assert(s@.subrange(0, 4)[3] == s@[3]);
            }
        }
        path
    }
}

/// Whether output of `java -version` tells of a 64-bit runtime, given the
/// architecture found in it.
pub open spec fn is_64bit_of(lower_output: Seq<char>, arch: Seq<char>) -> bool {
    contains_text(lower_output, "64-bit"@) || arch == "aarch64"@
}

/// What `java -version` printed tells of the runtime at `path`: nothing
/// where it states no version; else the version, the architecture, the
/// vendor, and whether the runtime is a 64-bit one. The installation counts
/// as one of the system.
pub fn installation_from_output(path: &str, version_output: &str) -> (java: Option<
    JavaInstallation,
>)
    ensures
        validation::first_version(crate::text::lines_of(version_output@)) is None ==> java is None,
        validation::first_version(crate::text::lines_of(version_output@)) matches Some(version)
            ==> java is Some && java->0@ == (InstallationView {
            path: path@,
            version,
            arch: validation::architecture_of(version_output@),
            vendor: validation::vendor_of(lowercase_of(version_output@)),
            source: "system"@,
            is_64bit: is_64bit_of(
                lowercase_of(version_output@),
                validation::architecture_of(version_output@),
            ),
        }),
{
    let version = match parse_version_string(version_output) {
        Some(v) => v,
        None => {
            return None;
        },
    };
    let arch = extract_architecture(version_output);
    let vendor = extract_vendor(version_output);
    let lower = lowercase(version_output);
    let lower_chars = chars_of(lower.as_str());
    let is_64bit = contains(lower_chars.as_slice(), chars_of("64-bit").as_slice()) || same_text(
        arch.as_str(),
        "aarch64",
    );
    Some(
        JavaInstallation {
            path: path.to_string(),
            version,
            arch,
            vendor,
            source: "system".to_string(),
            is_64bit,
        },
    )
}

} // verus!
