//! The Adoptium distribution of Java: the names it uses for platforms, the
//! addresses of its service, and what its answers become.

use vstd::prelude::*;

use crate::java::{JavaCatalog, JavaDownloadInfo, JavaReleaseInfo};
use crate::text::{clone_text, concat2, decimal, decimal_string, same_text};

verus! {

/// The address of the Adoptium service.
pub open spec fn api_base() -> Seq<char> {
    "https://api.adoptium.net/v3"@
}

/// One downloadable build, as the service describes it.
#[derive(Debug)]
pub struct AdoptiumAsset {
    pub binary: AdoptiumBinary,
    pub release_name: String,
    pub version: AdoptiumVersionData,
}

/// The binary of a build.
#[derive(Debug)]
pub struct AdoptiumBinary {
    pub os: String,
    pub architecture: String,
    pub image_type: String,
    pub package: AdoptiumPackage,
    pub updated_at: Option<String>,
}

/// The archive of a build.
#[derive(Debug)]
pub struct AdoptiumPackage {
    pub name: String,
    pub link: String,
    pub size: u64,
    /// The SHA-256 hash of the archive.
    pub checksum: Option<String>,
}

/// The version of a build.
#[derive(Debug)]
pub struct AdoptiumVersionData {
    pub major: u32,
    pub minor: u32,
    pub security: u32,
    pub semver: String,
    pub openjdk_version: String,
}

/// The major versions that the service offers.
#[derive(Debug)]
pub struct AvailableReleases {
    pub available_releases: Vec<u32>,
    pub available_lts_releases: Vec<u32>,
    pub most_recent_lts: Option<u32>,
    pub most_recent_feature_release: Option<u32>,
}

/// The provider of Adoptium builds.
#[derive(Clone, Copy, Debug, PartialEq, Eq, Structural)]
pub struct AdoptiumProvider;

impl Default for AdoptiumProvider {
    fn default() -> (provider: Self) {
        AdoptiumProvider::new()
    }
}

/// The name Adoptium gives to an operating system.
pub open spec fn adoptium_os_of(target_os: Seq<char>, alpine: bool) -> Seq<char> {
    if target_os == "linux"@ {
        if alpine {
            "alpine-linux"@
        } else {
            "linux"@
        }
    } else if target_os == "macos"@ {
        "mac"@
    } else if target_os == "windows"@ {
        "windows"@
    } else {
        "linux"@
    }
}

/// The name Adoptium gives to a processor architecture.
pub open spec fn adoptium_arch_of(target_arch: Seq<char>) -> Seq<char> {
    if target_arch == "x86_64"@ {
        "x64"@
    } else if target_arch == "aarch64"@ {
        "aarch64"@
    } else if target_arch == "x86"@ {
        "x86"@
    } else if target_arch == "arm"@ {
        "arm"@
    } else {
        "x64"@
    }
}

/// The name Adoptium gives to the operating system `target_os` (as Rust
/// names it): `mac` for `macos`, `windows` for `windows`, and `linux` for
/// `linux` and for any other, but `alpine-linux` for a Linux that is
/// Alpine.
pub fn get_adoptium_os(target_os: &str, alpine: bool) -> (name: &'static str)
    ensures
        name@ == adoptium_os_of(target_os@, alpine),
{
    if same_text(target_os, "linux") {
        if alpine {
            "alpine-linux"
        } else {
            "linux"
        }
    } else if same_text(target_os, "macos") {
        "mac"
    } else if same_text(target_os, "windows") {
        "windows"
    } else {
        "linux"
    }
}

/// The name Adoptium gives to the architecture `target_arch` (as Rust
/// names it): `x64` for `x86_64` and for any it does not know, and
/// `aarch64`, `x86` and `arm` for themselves.
pub fn get_adoptium_arch(target_arch: &str) -> (name: &'static str)
    ensures
        name@ == adoptium_arch_of(target_arch@),
{
    if same_text(target_arch, "x86_64") {
        "x64"
    } else if same_text(target_arch, "aarch64") {
        "aarch64"
    } else if same_text(target_arch, "x86") {
        "x86"
    } else if same_text(target_arch, "arm") {
        "arm"
    } else {
        "x64"
    }
}

/// The address that lists the major versions on offer.
pub open spec fn releases_url_of() -> Seq<char> {
    api_base() + "/info/available_releases"@
}

/// The address of the latest build of a major version for a platform.
pub open spec fn asset_url_of(
    major_version: u32,
    os: Seq<char>,
    arch: Seq<char>,
    image_type: Seq<char>,
) -> Seq<char> {
    api_base() + "/assets/latest/"@ + decimal(major_version as nat) + "/hotspot?os="@ + os
        + "&architecture="@ + arch + "&image_type="@ + image_type
}

/// The view of a release.
pub struct ReleaseView {
    pub major_version: u32,
    pub image_type: Seq<char>,
    pub version: Seq<char>,
    pub release_name: Seq<char>,
    pub release_date: Option<Seq<char>>,
    pub file_size: u64,
    pub checksum: Option<Seq<char>>,
    pub download_url: Seq<char>,
    pub is_lts: bool,
    pub is_available: bool,
    pub architecture: Seq<char>,
}

impl View for JavaReleaseInfo {
    type V = ReleaseView;

    open spec fn view(&self) -> ReleaseView {
        ReleaseView {
            major_version: self.major_version,
            image_type: self.image_type@,
            version: self.version@,
            release_name: self.release_name@,
            release_date: self.release_date.deep_view(),
            file_size: self.file_size,
            checksum: self.checksum.deep_view(),
            download_url: self.download_url@,
            is_lts: self.is_lts,
            is_available: self.is_available,
            architecture: self.architecture@,
        }
    }
}

impl AdoptiumProvider {
    /// The provider.
    pub fn new() -> (provider: Self) {
        AdoptiumProvider
    }

    /// The name of the provider.
    pub fn provider_name(&self) -> (name: &'static str)
        ensures
            name@ == "adoptium"@,
    {
        "adoptium"
    }

    /// The word that directories of this provider's runtimes begin with.
    pub fn install_prefix(&self) -> (prefix: &'static str)
        ensures
            prefix@ == "temurin"@,
    {
        "temurin"
    }

    /// The address that lists the major versions on offer.
    pub fn releases_url(&self) -> (url: String)
        ensures
            url@ == releases_url_of(),
    {
        concat2("https://api.adoptium.net/v3", "/info/available_releases")
    }

    /// The address of the latest build of `major_version` for the platform
    /// `os`/`arch`, as runtime or development kit.
    pub fn asset_url(&self, major_version: u32, os: &str, arch: &str, image_type: &str) -> (url:
        String)
        ensures
            url@ == asset_url_of(major_version, os@, arch@, image_type@),
    {
        let major = decimal_string(major_version as u64);
        let mut url = concat2("https://api.adoptium.net/v3", "/assets/latest/");
        url.append(major.as_str());
        url.append("/hotspot?os=");
        url.append(os);
        url.append("&architecture=");
        url.append(arch);
        url.append("&image_type=");
        url.append(image_type);
        url
    }

    /// The catalog entry of a build that the service has.
    pub fn release_from_asset(
        &self,
        major_version: u32,
        image_type: &str,
        asset: &AdoptiumAsset,
        is_lts: bool,
    ) -> (release: JavaReleaseInfo)
        ensures
            release@ == (ReleaseView {
                major_version,
                image_type: image_type@,
                version: asset.version.semver@,
                release_name: asset.release_name@,
                release_date: asset.binary.updated_at.deep_view(),
                file_size: asset.binary.package.size,
                checksum: asset.binary.package.checksum.deep_view(),
                download_url: asset.binary.package.link@,
                is_lts,
                is_available: true,
                architecture: asset.binary.architecture@,
            }),
    {
        JavaReleaseInfo {
            major_version,
            image_type: image_type.to_string(),
            version: asset.version.semver.clone(),
            release_name: asset.release_name.clone(),
            release_date: clone_text(&asset.binary.updated_at),
            file_size: asset.binary.package.size,
            checksum: clone_text(&asset.binary.package.checksum),
            download_url: asset.binary.package.link.clone(),
            is_lts,
            is_available: true,
            architecture: asset.binary.architecture.clone(),
        }
    }

    /// The catalog entry of a major version that has no build for this
    /// platform, or whose build could not be asked for.
    pub fn unavailable_release(
        &self,
        major_version: u32,
        image_type: &str,
        is_lts: bool,
        arch: &str,
    ) -> (release: JavaReleaseInfo)
        ensures
            release@ == (ReleaseView {
                major_version,
                image_type: image_type@,
                version: decimal(major_version as nat) + ".x"@,
                release_name: "jdk-"@ + decimal(major_version as nat),
                release_date: None,
                file_size: 0,
                checksum: None,
                download_url: Seq::empty(),
                is_lts,
                is_available: false,
                architecture: arch@,
            }),
    {
        let major = decimal_string(major_version as u64);
        JavaReleaseInfo {
            major_version,
            image_type: image_type.to_string(),
            version: concat2(major.as_str(), ".x"),
            release_name: concat2("jdk-", major.as_str()),
            release_date: None,
            file_size: 0,
            checksum: None,
            download_url: String::new(),
            is_lts,
            is_available: false,
            architecture: arch.to_string(),
        }
    }

    /// What is needed to download the build `asset`.
    pub fn download_info(&self, asset: AdoptiumAsset) -> (info: JavaDownloadInfo)
        ensures
            info.version@ == asset.version.semver@,
            info.release_name@ == asset.release_name@,
            info.download_url@ == asset.binary.package.link@,
            info.file_name@ == asset.binary.package.name@,
            info.file_size == asset.binary.package.size,
            info.checksum.deep_view() == asset.binary.package.checksum.deep_view(),
            info.image_type@ == asset.binary.image_type@,
    {
        JavaDownloadInfo {
            version: asset.version.semver,
            release_name: asset.release_name,
            download_url: asset.binary.package.link,
            file_name: asset.binary.package.name,
            file_size: asset.binary.package.size,
            checksum: asset.binary.package.checksum,
            image_type: asset.binary.image_type,
        }
    }
}

/// Whether `major_version` is one of the long-term-support versions.
pub fn is_lts_release(available: &AvailableReleases, major_version: u32) -> (lts: bool)
    ensures
        lts == available.available_lts_releases@.contains(major_version),
{
    let mut i: usize = 0;
    while i < available.available_lts_releases.len()
        invariant
            i <= available.available_lts_releases@.len(),
            forall|k: int| 0 <= k < i ==> available.available_lts_releases@[k] != major_version,
        decreases available.available_lts_releases@.len() - i,
    {
        if available.available_lts_releases[i] == major_version {
            return true;
        }
        i += 1;
    }
    false
}

/// The catalog made of the entries fetched at the time `now`.
pub fn build_catalog(releases: Vec<JavaReleaseInfo>, available: AvailableReleases, now: u64) -> (catalog:
    JavaCatalog)
    ensures
        catalog.releases == releases,
        catalog.available_major_versions == available.available_releases,
        catalog.lts_versions == available.available_lts_releases,
        catalog.cached_at == now,
{
    JavaCatalog {
        releases,
        available_major_versions: available.available_releases,
        lts_versions: available.available_lts_releases,
        cached_at: now,
    }
}

/// A stored catalog is used for this many seconds: one day.
pub const CACHE_DURATION_SECS: u64 = 24 * 60 * 60;

/// Whether a catalog fetched at `cached_at` is still used at the time
/// `now`: less than a day has passed. The difference counts modulo 2^64.
pub fn cache_is_fresh(now: u64, cached_at: u64) -> (fresh: bool)
    ensures
        fresh == (now.wrapping_sub(cached_at) < CACHE_DURATION_SECS),
        cached_at <= now ==> fresh == (now - cached_at < CACHE_DURATION_SECS),
{
    now.wrapping_sub(cached_at) < CACHE_DURATION_SECS
}

} // verus!
