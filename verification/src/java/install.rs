//! The decisions of installing a Java runtime from a downloaded archive,
//! and of resuming the installations that a crash interrupted.

use vstd::prelude::*;

use crate::integrity::{checksum_ok, verify_checksum};
use crate::java::{ImageType, JavaDownloadInfo};
use crate::queue::{DownloadQueue, PendingJavaDownload, PendingView};
use crate::text::{
    chars_of, clone_text, concat2, decimal, decimal_string, ends_with, ends_with_text, opt_text,
    same_text,
};

verus! {

/// The formats of archive that can be unpacked.
#[derive(Clone, Copy, Debug, PartialEq, Eq, Structural)]
pub enum ArchiveKind {
    /// A gzip-compressed tar archive.
    TarGz,
    /// A zip archive.
    Zip,
}

/// The format that a file name tells of.
pub open spec fn archive_kind_of(file_name: Seq<char>) -> Option<ArchiveKind> {
    if ends_with_text(file_name, ".tar.gz"@) || ends_with_text(file_name, ".tgz"@) {
        Some(ArchiveKind::TarGz)
    } else if ends_with_text(file_name, ".zip"@) {
        Some(ArchiveKind::Zip)
    } else {
        None
    }
}

/// The format of the archive `file_name`, by its ending: `.tar.gz` and
/// `.tgz` are tar archives, `.zip` is a zip archive, and any other ending
/// is an error that names the file.
pub fn archive_kind(file_name: &str) -> (kind: Result<ArchiveKind, String>)
    ensures
        match kind {
            Ok(k) => archive_kind_of(file_name@) == Some(k),
            Err(message) => archive_kind_of(file_name@) is None && message@
                == "Unsupported archive format: "@ + file_name@,
        },
{
    let chars = chars_of(file_name);
    let s = chars.as_slice();
    if ends_with(s, chars_of(".tar.gz").as_slice()) || ends_with(s, chars_of(".tgz").as_slice()) {
        Ok(ArchiveKind::TarGz)
    } else if ends_with(s, chars_of(".zip").as_slice()) {
        Ok(ArchiveKind::Zip)
    } else {
        Err(concat2("Unsupported archive format: ", file_name))
    }
}

/// The name of the directory of an installed runtime.
pub open spec fn install_dir_name_of(
    prefix: Seq<char>,
    major_version: u32,
    image_type: ImageType,
) -> Seq<char> {
    prefix + "-"@ + decimal(major_version as nat) + "-"@ + image_type.name_of()
}

/// The name of the directory that a runtime is installed into: the
/// provider's prefix, the major version and the kind of image, joined by
/// hyphens, as in `temurin-17-jre`.
pub fn install_dir_name(prefix: &str, major_version: u32, image_type: ImageType) -> (name: String)
    ensures
        name@ == install_dir_name_of(prefix@, major_version, image_type),
{
    let major = decimal_string(major_version as u64);
    let mut name = concat2(prefix, "-");
    name.append(major.as_str());
    name.append("-");
    name.append(image_type.name());
    name
}

/// The record that is queued before the download of `info` begins.
pub fn pending_record(
    major_version: u32,
    image_type: ImageType,
    info: &JavaDownloadInfo,
    install_path: &str,
    now: u64,
) -> (record: PendingJavaDownload)
    ensures
        record@ == (PendingView {
            major_version,
            image_type: image_type.name_of(),
            download_url: info.download_url@,
            file_name: info.file_name@,
            file_size: info.file_size,
            checksum: info.checksum.deep_view(),
            install_path: install_path@,
            created_at: now,
        }),
{
    PendingJavaDownload {
        major_version,
        image_type: image_type.to_text(),
        download_url: info.download_url.clone(),
        file_name: info.file_name.clone(),
        file_size: info.file_size,
        checksum: clone_text(&info.checksum),
        install_path: install_path.to_string(),
        created_at: now,
    }
}

/// Whether the archive has to be downloaded. `existing` is the content of
/// the archive on disk, or `None` where there is none. An archive that is
/// missing is downloaded; one that is there is downloaded again exactly
/// when a hash is declared and the content does not have it.
pub fn needs_download(existing: Option<&[u8]>, checksum: Option<&str>) -> (needed: bool)
    ensures
        needed == match existing {
            Some(data) => checksum is Some && !checksum_ok(data@, opt_text(checksum), None),
            None => true,
        },
{
    match existing {
        Some(data) => {
            match checksum {
                Some(expected) => !verify_checksum(data, Some(expected), None),
                None => false,
            }
        },
        None => true,
    }
}

/// Where the `java` program lies inside an unpacked runtime, as the names
/// of the directories to go through and of the program.
pub open spec fn executable_parts_of(target_os: Seq<char>) -> Seq<Seq<char>> {
    if target_os == "macos"@ {
        seq!["Contents"@, "Home"@, "bin"@, "java"@]
    } else if target_os == "windows"@ {
        seq!["bin"@, "java.exe"@]
    } else {
        seq!["bin"@, "java"@]
    }
}

/// Where the `java` program lies inside an unpacked runtime on the
/// operating system `target_os` (as Rust names it).
pub fn executable_parts(target_os: &str) -> (parts: Vec<&'static str>)
    ensures
        parts.deep_view() == executable_parts_of(target_os@),
{
    let mut parts: Vec<&'static str> = Vec::new();
    if same_text(target_os, "macos") {
        parts.push("Contents");
        parts.push("Home");
        parts.push("bin");
        parts.push("java");
        assert(parts.deep_view() =~= executable_parts_of(target_os@));
    } else if same_text(target_os, "windows") {
        parts.push("bin");
        parts.push("java.exe");
        assert(parts.deep_view() =~= executable_parts_of(target_os@));
    } else {
        parts.push("bin");
        parts.push("java");
        assert(parts.deep_view() =~= executable_parts_of(target_os@));
    }
    parts
}

/// The top directory of an unpacked archive, given the directories that
/// lie at its top: the only one if there is exactly one, and none (the
/// empty name) otherwise.
pub fn top_level_dir(directories: &Vec<String>) -> (name: String)
    ensures
        name@ == if directories@.len() == 1 {
            directories@[0]@
        } else {
            Seq::empty()
        },
{
    if directories.len() == 1 {
        directories[0].clone()
    } else {
        String::new()
    }
}

/// The error for an unpacked runtime in which no `java` program is found.
pub fn missing_executable_message(path: &str) -> (message: String)
    ensures
        message@ == "Installation completed but Java executable not found: "@ + path@,
{
    concat2("Installation completed but Java executable not found: ", path)
}

/// An installation to take up again.
#[derive(Debug)]
pub struct ResumeRequest {
    pub major_version: u32,
    pub image_type: ImageType,
    pub install_path: String,
}

/// The mathematical content of a `ResumeRequest`.
pub struct ResumeView {
    pub major_version: u32,
    pub image_type: ImageType,
    pub install_path: Seq<char>,
}

impl View for ResumeRequest {
    type V = ResumeView;

    open spec fn view(&self) -> ResumeView {
        ResumeView {
            major_version: self.major_version,
            image_type: self.image_type,
            install_path: self.install_path@,
        }
    }
}

/// The installation that takes up the pending record `record`: the same
/// major version and place, the development kit for the image type `jdk`
/// and the runtime for any other.
pub open spec fn resume_of(record: PendingView) -> ResumeView {
    ResumeView {
        major_version: record.major_version,
        image_type: if record.image_type == "jdk"@ {
            ImageType::Jdk
        } else {
            ImageType::Jre
        },
        install_path: record.install_path,
    }
}

/// The installations to take up again when the program starts: one for
/// each pending record, in the order of the queue. They are run one after
/// the other; one that fails leaves its record in the queue for the next
/// start, and one that succeeds removes its record.
pub fn resume_requests(queue: &DownloadQueue) -> (requests: Vec<ResumeRequest>)
    ensures
        requests@.len() == queue@.len(),
        forall|i: int| 0 <= i < queue@.len() ==> (#[trigger] requests@[i])@ == resume_of(queue@[i]),
{
    let mut requests: Vec<ResumeRequest> = Vec::new();
    let mut i: usize = 0;
    while i < queue.pending_downloads.len()
        invariant
            i <= queue.pending_downloads@.len(),
            queue@.len() == queue.pending_downloads@.len(),
            requests@.len() == i,
            forall|k: int| 0 <= k < i ==> (#[trigger] requests@[k])@ == resume_of(queue@[k]),
        decreases queue.pending_downloads@.len() - i,
    {
        let record = &queue.pending_downloads[i];
        assert(queue@[i as int] == record@);
        requests.push(
            ResumeRequest {
                major_version: record.major_version,
                image_type: ImageType::from_name(record.image_type.as_str()),
                install_path: record.install_path.clone(),
            },
        );
        i += 1;
    }
    requests
}

/// The line that reports an installation that could not be taken up.
pub fn resume_failure_message(major_version: u32, image_type: &str, error: &str) -> (message:
    String)
    ensures
        message@ == "Failed to resume Java "@ + decimal(major_version as nat) + " "@ + image_type@
            + " download: "@ + error@,
{
    let major = decimal_string(major_version as u64);
    let mut message = concat2("Failed to resume Java ", major.as_str());
    message.append(" ");
    message.append(image_type);
    message.append(" download: ");
    message.append(error);
    message
}

} // verus!
