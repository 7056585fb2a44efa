use dropout_core::java::adoptium::{
    build_catalog, cache_is_fresh, get_adoptium_arch, get_adoptium_os, is_lts_release,
    AdoptiumAsset, AdoptiumBinary, AdoptiumPackage, AdoptiumProvider, AdoptiumVersionData,
    AvailableReleases,
};
use dropout_core::java::error::JavaError;
use dropout_core::java::install::{
    archive_kind, executable_parts, install_dir_name, missing_executable_message, needs_download,
    pending_record, resume_failure_message, resume_requests, top_level_dir, ArchiveKind,
};
use dropout_core::java::persistence::{
    add_user_defined_path, get_preferred_java_path, remove_user_defined_path,
    set_preferred_java_path, update_last_detection_time, JavaConfig,
};
use dropout_core::java::priority::{
    after_detection, after_preferred, after_probe, first_step, JavaSource, ResolveStep,
};
use dropout_core::java::select::{
    detect_all_java_installations, detect_java_installations, get_compatible_java,
    get_recommended_java, is_java_compatible,
};
use dropout_core::java::validation::{
    extract_architecture, extract_vendor, is_version_compatible, parse_java_version,
    parse_version_string, vendor_of_lowercase,
};
use dropout_core::java::{installation_from_output, ImageType, JavaCatalog, JavaDownloadInfo, JavaInstallation};
use dropout_core::integrity::compute_sha256;
use dropout_core::queue::DownloadQueue;

const TEMURIN_17: &str = "openjdk version \"17.0.9\" 2023-10-17\nOpenJDK Runtime Environment Temurin-17.0.9+9 (build 17.0.9+9)\nOpenJDK 64-Bit Server VM Temurin-17.0.9+9 (build 17.0.9+9, mixed mode, sharing)\n";
const ORACLE_8: &str = "java version \"1.8.0_301\"\r\nJava(TM) SE Runtime Environment (build 1.8.0_301-b09)\r\nJava HotSpot(TM) 64-Bit Server VM (build 25.301-b09, mixed mode)\r\n";

#[test]
fn version_is_the_first_quoted_text_on_a_version_line() {
    assert_eq!(parse_version_string(TEMURIN_17).as_deref(), Some("17.0.9"));
    assert_eq!(parse_version_string(ORACLE_8).as_deref(), Some("1.8.0_301"));
    assert_eq!(parse_version_string("version \"a\" \"b\"").as_deref(), Some("a"));
    assert_eq!(parse_version_string("x \"\" version").as_deref(), Some(""));
}

#[test]
fn version_needs_the_word_and_two_quotes_on_one_line() {
    assert_eq!(parse_version_string(""), None);
    assert_eq!(parse_version_string("java \"17\""), None);
    assert_eq!(parse_version_string("version 17"), None);
    assert_eq!(parse_version_string("version \"17"), None);
    assert_eq!(parse_version_string("version \"17\n\""), None);
    // a line that fails does not stop the search
    assert_eq!(
        parse_version_string("version \"broken\nother\nopenjdk version \"21\"").as_deref(),
        Some("21")
    );
    assert_eq!(parse_version_string("\n\nversion \"9\"\n").as_deref(), Some("9"));
}

#[test]
fn major_version_of_both_schemes() {
    assert_eq!(parse_java_version("17.0.9"), 17);
    assert_eq!(parse_java_version("21"), 21);
    assert_eq!(parse_java_version("1.8.0_301"), 8);
    assert_eq!(parse_java_version("1.7"), 7);
    assert_eq!(parse_java_version("+11.0"), 11);
    assert_eq!(parse_java_version("008.1"), 8);
}

#[test]
fn major_version_of_unreadable_text_is_zero() {
    assert_eq!(parse_java_version(""), 0);
    assert_eq!(parse_java_version("abc"), 0);
    assert_eq!(parse_java_version("17-ea"), 0);
    assert_eq!(parse_java_version("1"), 0);
    assert_eq!(parse_java_version("1."), 0);
    assert_eq!(parse_java_version("1.x.3"), 0);
    assert_eq!(parse_java_version(".5"), 0);
    assert_eq!(parse_java_version("-5"), 0);
    assert_eq!(parse_java_version("+"), 0);
    assert_eq!(parse_java_version("4294967295.0"), 4294967295);
    assert_eq!(parse_java_version("4294967296.0"), 0);
    assert_eq!(parse_java_version("99999999999999999999999"), 0);
}

#[test]
fn architecture_by_marks_in_order() {
    assert_eq!(extract_architecture(TEMURIN_17), "x64");
    assert_eq!(extract_architecture("Client VM 32-Bit"), "x86");
    assert_eq!(extract_architecture("OpenJDK aarch64 VM"), "aarch64");
    assert_eq!(extract_architecture("ARM64"), "aarch64");
    assert_eq!(extract_architecture("64-Bit aarch64"), "x64");
    assert_eq!(extract_architecture("32-Bit aarch64"), "x86");
    assert_eq!(extract_architecture("64-bit"), "x64");
    assert_eq!(extract_architecture(""), "x64");
}

#[test]
fn vendor_by_the_first_mark_listed() {
    assert_eq!(extract_vendor(TEMURIN_17), "Temurin (Eclipse)");
    assert_eq!(extract_vendor(ORACLE_8), "Unknown");
    assert_eq!(extract_vendor("OpenJDK Runtime Environment (build 11)"), "OpenJDK");
    assert_eq!(extract_vendor("OpenJDK Runtime Environment Corretto-17"), "Corretto (Amazon)");
    assert_eq!(extract_vendor("Zulu17.44+53-CA"), "Zulu (Azul Systems)");
    assert_eq!(extract_vendor("GRAALVM CE"), "GraalVM");
    assert_eq!(extract_vendor("ORACLE"), "Java SE Development Kit (Oracle)");
    assert_eq!(extract_vendor("Microsoft build"), "OpenJDK (Microsoft)");
    assert_eq!(extract_vendor("IBM Semeru"), "Semeru (IBM)");
    assert_eq!(extract_vendor("semantic"), "Semeru (IBM)");
    assert_eq!(extract_vendor(""), "Unknown");
    // the lower-case form is taken by the Unicode rules: the Kelvin sign is a k
    assert_eq!(extract_vendor("\u{212A}ONA"), "Kona (Tencent)");
    assert_eq!(vendor_of_lowercase("\u{212A}ona"), "Unknown");
    assert_eq!(vendor_of_lowercase("TEMURIN"), "Unknown");
    assert_eq!(vendor_of_lowercase("bisheng"), "BiSheng (Huawei)");
}

#[test]
fn version_bounds() {
    assert!(is_version_compatible(17, None, None));
    assert!(is_version_compatible(17, Some(17), None));
    assert!(is_version_compatible(17, Some(8), Some(17)));
    assert!(!is_version_compatible(17, Some(21), None));
    assert!(!is_version_compatible(17, None, Some(16)));
    assert!(!is_version_compatible(8, Some(9), Some(7)));
    assert!(is_version_compatible(0, Some(0), Some(0)));
    // the lower bound counts by its low 32 bits
    assert!(is_version_compatible(8, Some((1u64 << 32) + 8), None));
    assert!(!is_version_compatible(8, Some((1u64 << 32) + 9), None));
}

#[test]
fn installation_from_what_java_printed() {
    let java = installation_from_output("/usr/bin/java", TEMURIN_17).unwrap();
    assert_eq!(java.path, "/usr/bin/java");
    assert_eq!(java.version, "17.0.9");
    assert_eq!(java.arch, "x64");
    assert_eq!(java.vendor, "Temurin (Eclipse)");
    assert_eq!(java.source, "system");
    assert!(java.is_64bit);
    let arm = installation_from_output("j", "openjdk version \"21\"\naarch64").unwrap();
    assert_eq!(arm.arch, "aarch64");
    assert!(arm.is_64bit);
    let x86 = installation_from_output("j", "java version \"1.8\"\n32-Bit").unwrap();
    assert_eq!(x86.arch, "x86");
    assert!(!x86.is_64bit);
    assert!(installation_from_output("j", "no such thing").is_none());
}

fn java(path: &str, version: &str) -> JavaInstallation {
    JavaInstallation {
        path: path.to_string(),
        version: version.to_string(),
        arch: String::from("x64"),
        vendor: String::from("OpenJDK"),
        source: String::from("system"),
        is_64bit: true,
    }
}

fn paths(list: &[JavaInstallation]) -> Vec<&str> {
    list.iter().map(|j| j.path.as_str()).collect()
}

#[test]
fn detection_drops_duplicates_and_puts_the_newest_first() {
    let found = vec![
        java("/a", "11.0.1"),
        java("/b", "17.0.2"),
        java("/a", "21"),
        java("/c", "1.8.0_301"),
        java("/d", "17.0.9"),
        java("/e", "21.0.1"),
        java("/b", "8"),
    ];
    let list = detect_java_installations(found);
    // /a stays with its first version; equal majors keep their order
    assert_eq!(paths(&list), vec!["/e", "/b", "/d", "/a", "/c"]);
    assert_eq!(list[3].version, "11.0.1");
    assert!(detect_java_installations(vec![]).is_empty());
}

#[test]
fn own_runtimes_join_the_system_ones() {
    let system = vec![java("/sys17", "17"), java("/sys8", "1.8")];
    let own = vec![java("/own21", "21"), java("/sys17", "17"), java("/own17", "17.0.1")];
    let all = detect_all_java_installations(system, own);
    assert_eq!(paths(&all), vec!["/own21", "/sys17", "/own17", "/sys8"]);
}

#[test]
fn the_first_fitting_runtime_is_chosen() {
    let list = vec![java("/21", "21"), java("/17", "17"), java("/8", "1.8.0")];
    assert_eq!(get_recommended_java(&list, None).unwrap().path, "/21");
    assert_eq!(get_recommended_java(&list, Some(17)).unwrap().path, "/21");
    assert!(get_recommended_java(&list, Some(22)).is_none());
    assert!(get_recommended_java(&vec![], None).is_none());
    assert_eq!(get_compatible_java(&list, Some(8), Some(17)).unwrap().path, "/17");
    assert_eq!(get_compatible_java(&list, None, Some(8)).unwrap().path, "/8");
    assert!(get_compatible_java(&list, Some(9), Some(16)).is_none());
    assert!(is_java_compatible(Some(&list[1]), Some(17), Some(17)));
    assert!(!is_java_compatible(Some(&list[1]), Some(18), None));
    assert!(!is_java_compatible(None, None, None));
}

#[test]
fn image_type_names() {
    assert_eq!(ImageType::Jre.name(), "jre");
    assert_eq!(ImageType::Jdk.name(), "jdk");
    assert_eq!(ImageType::Jdk.to_text(), "jdk");
    assert_eq!(ImageType::default(), ImageType::Jre);
    assert_eq!(ImageType::from_name("jdk"), ImageType::Jdk);
    assert_eq!(ImageType::from_name("jre"), ImageType::Jre);
    assert_eq!(ImageType::from_name("JDK"), ImageType::Jre);
    assert_eq!(ImageType::from_name(""), ImageType::Jre);
}

#[test]
fn adoptium_platform_names() {
    assert_eq!(get_adoptium_os("linux", false), "linux");
    assert_eq!(get_adoptium_os("linux", true), "alpine-linux");
    assert_eq!(get_adoptium_os("macos", true), "mac");
    assert_eq!(get_adoptium_os("windows", false), "windows");
    assert_eq!(get_adoptium_os("freebsd", true), "linux");
    assert_eq!(get_adoptium_arch("x86_64"), "x64");
    assert_eq!(get_adoptium_arch("aarch64"), "aarch64");
    assert_eq!(get_adoptium_arch("x86"), "x86");
    assert_eq!(get_adoptium_arch("arm"), "arm");
    assert_eq!(get_adoptium_arch("riscv64"), "x64");
}

fn asset() -> AdoptiumAsset {
    AdoptiumAsset {
        binary: AdoptiumBinary {
            os: String::from("linux"),
            architecture: String::from("x64"),
            image_type: String::from("jre"),
            package: AdoptiumPackage {
                name: String::from("OpenJDK17U-jre_x64_linux_hotspot_17.0.2_8.tar.gz"),
                link: String::from("https://example/17.tar.gz"),
                size: 45_000_000,
                checksum: Some(String::from("abc")),
            },
            updated_at: Some(String::from("2022-01-01")),
        },
        release_name: String::from("jdk-17.0.2+8"),
        version: AdoptiumVersionData {
            major: 17,
            minor: 0,
            security: 2,
            semver: String::from("17.0.2+8"),
            openjdk_version: String::from("17.0.2+8"),
        },
    }
}

#[test]
fn adoptium_addresses_and_entries() {
    let p = AdoptiumProvider::new();
    assert_eq!(p.provider_name(), "adoptium");
    assert_eq!(p.install_prefix(), "temurin");
    assert_eq!(p.releases_url(), "https://api.adoptium.net/v3/info/available_releases");
    assert_eq!(
        p.asset_url(17, "linux", "x64", "jre"),
        "https://api.adoptium.net/v3/assets/latest/17/hotspot?os=linux&architecture=x64&image_type=jre"
    );
    let r = p.release_from_asset(17, "jre", &asset(), true);
    assert_eq!(r.major_version, 17);
    assert_eq!(r.image_type, "jre");
    assert_eq!(r.version, "17.0.2+8");
    assert_eq!(r.release_name, "jdk-17.0.2+8");
    assert_eq!(r.release_date.as_deref(), Some("2022-01-01"));
    assert_eq!(r.file_size, 45_000_000);
    assert_eq!(r.checksum.as_deref(), Some("abc"));
    assert_eq!(r.download_url, "https://example/17.tar.gz");
    assert!(r.is_lts && r.is_available);
    assert_eq!(r.architecture, "x64");
    let u = p.unavailable_release(22, "jdk", false, "aarch64");
    assert_eq!(u.version, "22.x");
    assert_eq!(u.release_name, "jdk-22");
    assert_eq!((u.file_size, u.is_available, u.is_lts), (0, false, false));
    assert_eq!(u.download_url, "");
    assert_eq!(u.architecture, "aarch64");
    assert_eq!(u.checksum, None);
    let info = p.download_info(asset());
    assert_eq!(info.file_name, "OpenJDK17U-jre_x64_linux_hotspot_17.0.2_8.tar.gz");
    assert_eq!(info.download_url, "https://example/17.tar.gz");
    assert_eq!(info.image_type, "jre");
    assert_eq!(info.file_size, 45_000_000);
}

#[test]
fn catalog_and_its_cache() {
    let available = AvailableReleases {
        available_releases: vec![8, 11, 17, 21],
        available_lts_releases: vec![8, 11, 17, 21],
        most_recent_lts: Some(21),
        most_recent_feature_release: Some(22),
    };
    assert!(is_lts_release(&available, 17));
    assert!(!is_lts_release(&available, 18));
    let p = AdoptiumProvider::new();
    let releases = vec![p.release_from_asset(17, "jre", &asset(), true)];
    let catalog = build_catalog(releases, available, 1000);
    assert_eq!(catalog.releases.len(), 1);
    assert_eq!(catalog.available_major_versions, vec![8, 11, 17, 21]);
    assert_eq!(catalog.cached_at, 1000);
    assert!(cache_is_fresh(1000, 1000));
    assert!(cache_is_fresh(1000 + 86_399, 1000));
    assert!(!cache_is_fresh(1000 + 86_400, 1000));
    assert!(!cache_is_fresh(999, 1000));
    let empty = JavaCatalog::default();
    assert!(empty.releases.is_empty() && empty.cached_at == 0);
}

#[test]
fn java_error_texts() {
    assert_eq!(JavaError::NotFound.message(), "Java installation not found");
    assert_eq!(JavaError::InvalidVersion("x".into()).message(), "Invalid Java version: x");
    assert_eq!(JavaError::VerificationFailed("x".into()).message(), "Java verification failed: x");
    assert_eq!(JavaError::NetworkError("x".into()).message(), "Network error: x");
    assert_eq!(JavaError::IoError("x".into()).message(), "I/O error: x");
    assert_eq!(JavaError::Timeout("x".into()).message(), "Operation timeout: x");
    assert_eq!(JavaError::SerializationError("x".into()).message(), "Serialization error: x");
    assert_eq!(JavaError::InvalidConfig("x".into()).message(), "Invalid configuration: x");
    assert_eq!(JavaError::DownloadFailed("x".into()).message(), "Download failed: x");
    assert_eq!(JavaError::ExtractionFailed("x".into()).message(), "Extraction failed: x");
    assert_eq!(JavaError::ChecksumMismatch("x".into()).message(), "Checksum mismatch: x");
    assert_eq!(JavaError::Other("plain".into()).message(), "plain");
    assert!(matches!(JavaError::from(String::from("e")), JavaError::Other(m) if m == "e"));
    assert!(matches!(JavaError::from_request("t".into(), true), JavaError::Timeout(_)));
    assert!(matches!(JavaError::from_request("t".into(), false), JavaError::NetworkError(_)));
}

#[test]
fn java_settings() {
    let mut config = JavaConfig::default();
    assert!(config.user_defined_paths.is_empty());
    assert_eq!(config.preferred_java_path, None);
    assert_eq!(config.last_detection_time, 0);
    add_user_defined_path(&mut config, "/a".into());
    add_user_defined_path(&mut config, "/b".into());
    add_user_defined_path(&mut config, "/a".into());
    assert_eq!(config.user_defined_paths, vec!["/a", "/b"]);
    config.user_defined_paths.push("/a".into());
    config.user_defined_paths.push("/c".into());
    remove_user_defined_path(&mut config, "/a");
    assert_eq!(config.user_defined_paths, vec!["/b", "/c"]);
    remove_user_defined_path(&mut config, "/zzz");
    assert_eq!(config.user_defined_paths, vec!["/b", "/c"]);
    set_preferred_java_path(&mut config, Some("/b".into()));
    assert_eq!(get_preferred_java_path(&config).as_deref(), Some("/b"));
    set_preferred_java_path(&mut config, None);
    assert_eq!(get_preferred_java_path(&config), None);
    update_last_detection_time(&mut config, 77);
    assert_eq!(config.last_detection_time, 77);
    assert_eq!(config.user_defined_paths, vec!["/b", "/c"]);
}

#[test]
fn archive_formats() {
    assert_eq!(archive_kind("jdk.tar.gz"), Ok(ArchiveKind::TarGz));
    assert_eq!(archive_kind("jdk.tgz"), Ok(ArchiveKind::TarGz));
    assert_eq!(archive_kind("jdk.zip"), Ok(ArchiveKind::Zip));
    assert_eq!(archive_kind(".zip"), Ok(ArchiveKind::Zip));
    assert_eq!(archive_kind("jdk.7z"), Err(String::from("Unsupported archive format: jdk.7z")));
    assert_eq!(archive_kind("jdk.ZIP"), Err(String::from("Unsupported archive format: jdk.ZIP")));
    assert_eq!(archive_kind("zip"), Err(String::from("Unsupported archive format: zip")));
    assert_eq!(archive_kind(""), Err(String::from("Unsupported archive format: ")));
}

#[test]
fn install_names_and_places() {
    assert_eq!(install_dir_name("temurin", 17, ImageType::Jre), "temurin-17-jre");
    assert_eq!(install_dir_name("temurin", 8, ImageType::Jdk), "temurin-8-jdk");
    assert_eq!(executable_parts("macos"), vec!["Contents", "Home", "bin", "java"]);
    assert_eq!(executable_parts("windows"), vec!["bin", "java.exe"]);
    assert_eq!(executable_parts("linux"), vec!["bin", "java"]);
    assert_eq!(executable_parts("freebsd"), vec!["bin", "java"]);
    assert_eq!(top_level_dir(&vec![String::from("jdk-17.0.2+8")]), "jdk-17.0.2+8");
    assert_eq!(top_level_dir(&vec![]), "");
    assert_eq!(top_level_dir(&vec![String::from("a"), String::from("b")]), "");
    assert_eq!(
        missing_executable_message("/java/bin/java"),
        "Installation completed but Java executable not found: /java/bin/java"
    );
}

#[test]
fn an_archive_is_downloaded_unless_it_is_there_and_sound() {
    let data = b"archive";
    let good = compute_sha256(data);
    assert!(needs_download(None, None));
    assert!(needs_download(None, Some(&good)));
    assert!(!needs_download(Some(data), Some(&good)));
    assert!(needs_download(Some(b"other"), Some(&good)));
    assert!(!needs_download(Some(data), None));
}

#[test]
fn pending_records_are_taken_up_in_order() {
    let info = JavaDownloadInfo {
        version: "17.0.2+8".into(),
        release_name: "jdk-17.0.2+8".into(),
        download_url: "https://example/17.tar.gz".into(),
        file_name: "17.tar.gz".into(),
        file_size: 10,
        checksum: Some("abc".into()),
        image_type: "jdk".into(),
    };
    let record = pending_record(17, ImageType::Jdk, &info, "/java", 123);
    assert_eq!(record.major_version, 17);
    assert_eq!(record.image_type, "jdk");
    assert_eq!(record.download_url, "https://example/17.tar.gz");
    assert_eq!(record.file_name, "17.tar.gz");
    assert_eq!(record.file_size, 10);
    assert_eq!(record.checksum.as_deref(), Some("abc"));
    assert_eq!(record.install_path, "/java");
    assert_eq!(record.created_at, 123);
    let mut queue = DownloadQueue::default();
    queue.add(record);
    queue.add(pending_record(8, ImageType::Jre, &info, "/old", 124));
    let mut odd = pending_record(11, ImageType::Jre, &info, "/odd", 125);
    odd.image_type = "JDK".into();
    queue.add(odd);
    let requests = resume_requests(&queue);
    assert_eq!(requests.len(), 3);
    assert_eq!(
        (requests[0].major_version, requests[0].image_type, requests[0].install_path.as_str()),
        (17, ImageType::Jdk, "/java")
    );
    assert_eq!(
        (requests[1].major_version, requests[1].image_type, requests[1].install_path.as_str()),
        (8, ImageType::Jre, "/old")
    );
    assert_eq!(requests[2].image_type, ImageType::Jre);
    assert_eq!(
        resume_failure_message(17, "jdk", "Download cancelled"),
        "Failed to resume Java 17 jdk download: Download cancelled"
    );
    // a success removes its record; a failure leaves it for the next start
    queue.remove(17, "jdk");
    assert_eq!(resume_requests(&queue).len(), 2);
}

fn probe_of(step: &ResolveStep) -> Option<(JavaSource, &str)> {
    match step {
        ResolveStep::Probe { source, path } => Some((*source, path.as_str())),
        _ => None,
    }
}

#[test]
fn launch_runtime_is_sought_in_order() {
    let step = first_step(Some("/instance/java"), Some("/global/java"));
    assert_eq!(probe_of(&step), Some((JavaSource::InstanceOverride, "/instance/java")));
    let step = first_step(Some(""), Some("/global/java"));
    assert_eq!(probe_of(&step), Some((JavaSource::GlobalPath, "/global/java")));
    assert!(matches!(first_step(None, Some("")), ResolveStep::ReadPreferred));
    assert!(matches!(first_step(None, None), ResolveStep::ReadPreferred));

    let fit = java("/instance/java", "17");
    let step = after_probe(JavaSource::InstanceOverride, Some(fit), Some("/global/java"), Some(17), None);
    assert!(matches!(step, ResolveStep::Done(Some(j)) if j.path == "/instance/java"));
    let old = java("/instance/java", "1.8");
    let step = after_probe(JavaSource::InstanceOverride, Some(old), Some("/global/java"), Some(17), None);
    assert_eq!(probe_of(&step), Some((JavaSource::GlobalPath, "/global/java")));
    let step = after_probe(JavaSource::InstanceOverride, None, None, Some(17), None);
    assert!(matches!(step, ResolveStep::ReadPreferred));
    let step = after_probe(JavaSource::GlobalPath, None, Some("/global/java"), None, None);
    assert!(matches!(step, ResolveStep::ReadPreferred));
    let step = after_probe(JavaSource::Preferred, None, Some("/global/java"), None, None);
    assert!(matches!(step, ResolveStep::DetectAll));

    let step = after_preferred(Some(String::from("/pref")));
    assert_eq!(probe_of(&step), Some((JavaSource::Preferred, "/pref")));
    assert!(matches!(after_preferred(None), ResolveStep::DetectAll));
    // an empty preferred path is looked at like any other
    assert_eq!(probe_of(&after_preferred(Some(String::new()))), Some((JavaSource::Preferred, "")));

    let list = vec![java("/21", "21"), java("/17", "17")];
    assert!(matches!(after_detection(&list, Some(8), Some(17)), ResolveStep::Done(Some(j)) if j.path == "/17"));
    assert!(matches!(after_detection(&list, Some(22), None), ResolveStep::Done(None)));
}
