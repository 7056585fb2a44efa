use dropout_core::game_version::{artifact_path, feature_rule_of, DownloadArtifact, FeatureRule};
use dropout_core::json::{Json, Member};
use dropout_core::launch::{
    add_launcher_settings, loader_kind_of_name, native_candidates, version_constraint,
};
use dropout_core::manifest::{root_step, RootStep};

#[test]
fn java_constraints_in_words() {
    assert_eq!(version_constraint(Some(17), Some(17)), "Java 17");
    assert_eq!(version_constraint(Some(8), Some(16)), "Java 8 to 16");
    assert_eq!(version_constraint(None, Some(8)), "Java 8 (or lower)");
    assert_eq!(version_constraint(Some(21), None), "Java 21 or higher");
    assert_eq!(version_constraint(None, None), "any Java version");
    assert_eq!(version_constraint(Some(1 << 40), Some(0)), "Java 1099511627776 to 0");
}

#[test]
fn names_of_native_libraries() {
    assert_eq!(native_candidates("linux", "x86_64"), vec!["natives-linux", "natives-linux-x86_64"]);
    assert_eq!(
        native_candidates("linux", "aarch64"),
        vec!["natives-linux", "natives-linux-aarch64", "natives-linux-arm64"]
    );
    assert_eq!(native_candidates("windows", "x86"), vec!["natives-windows", "natives-windows-x86"]);
    assert_eq!(
        native_candidates("macos", "aarch64"),
        vec!["natives-osx", "natives-macos", "natives-macos-aarch64"]
    );
    assert!(native_candidates("freebsd", "x86_64").is_empty());
}

fn strings(list: &[&str]) -> Vec<String> {
    list.iter().map(|s| s.to_string()).collect()
}

#[test]
fn launcher_adds_its_settings() {
    let mut args = strings(&["-XX:+UseG1GC"]);
    add_launcher_settings(&mut args, 2048, 1024, "/natives", "a.jar:b.jar");
    assert_eq!(
        args,
        vec!["-XX:+UseG1GC", "-Xmx2048M", "-Xms1024M", "-Djava.library.path=/natives", "-cp", "a.jar:b.jar"]
    );
    let mut args = strings(&["-Dx=-Djava.library.path=/elsewhere", "-classpath", "x.jar"]);
    add_launcher_settings(&mut args, 1, 0, "/natives", "a.jar");
    assert_eq!(args, vec!["-Dx=-Djava.library.path=/elsewhere", "-classpath", "x.jar", "-Xmx1M", "-Xms0M"]);
    let mut args = strings(&["-cp"]);
    add_launcher_settings(&mut args, 1, 1, "/n", "a.jar");
    assert_eq!(args, vec!["-cp", "-Xmx1M", "-Xms1M", "-Djava.library.path=/n"]);
    // an argument that only holds -cp is no class path
    let mut args = strings(&["-cpx"]);
    add_launcher_settings(&mut args, 1, 1, "/n", "a.jar");
    assert_eq!(args, vec!["-cpx", "-Xmx1M", "-Xms1M", "-Djava.library.path=/n", "-cp", "a.jar"]);
    // the class path itself may name the library path
    let mut args = Vec::new();
    add_launcher_settings(&mut args, 1, 1, "-cp", "x");
    assert_eq!(args, vec!["-Xmx1M", "-Xms1M", "-Djava.library.path=-cp", "-cp", "x"]);
}

#[test]
fn loader_kinds_by_name() {
    assert_eq!(loader_kind_of_name("fabric-loader-0.14.0-1.20.4"), Some("fabric"));
    assert_eq!(loader_kind_of_name("1.20.1-forge-47.2.0"), Some("forge"));
    assert_eq!(loader_kind_of_name("forge-1.12.2"), Some("forge"));
    assert_eq!(loader_kind_of_name("fabric-loader-forge-"), Some("fabric"));
    assert_eq!(loader_kind_of_name("1.20.4"), None);
    assert_eq!(loader_kind_of_name("x-fabric-loader-1"), None);
    assert_eq!(loader_kind_of_name("forge"), None);
    assert_eq!(loader_kind_of_name(""), None);
}

#[test]
fn feature_rules_from_values() {
    let object = Json::Object(vec![
        Member { key: "is_demo_user".into(), value: Json::Bool(true) },
        Member { key: "has_custom_resolution".into(), value: Json::Bool(false) },
        Member { key: "odd".into(), value: Json::Text("true".into()) },
    ]);
    match feature_rule_of(&object) {
        FeatureRule::Flags(flags) => {
            let pairs: Vec<(&str, bool)> = flags.iter().map(|f| (f.name.as_str(), f.required)).collect();
            assert_eq!(pairs, vec![("is_demo_user", true), ("has_custom_resolution", false), ("odd", false)]);
        }
        FeatureRule::Malformed => panic!("an object gives flags"),
    }
    assert!(matches!(feature_rule_of(&Json::Object(vec![])), FeatureRule::Flags(f) if f.is_empty()));
    assert!(matches!(feature_rule_of(&Json::Bool(true)), FeatureRule::Malformed));
    assert!(matches!(feature_rule_of(&Json::List(vec![])), FeatureRule::Malformed));
    assert!(matches!(feature_rule_of(&Json::Null), FeatureRule::Malformed));
}

#[test]
fn artifact_paths_and_roots() {
    let mut artifact = DownloadArtifact { sha1: None, size: None, url: "u".into(), path: Some("a/b.jar".into()) };
    assert_eq!(artifact_path(&artifact, "org:lib:1"), "a/b.jar");
    artifact.path = None;
    assert_eq!(artifact_path(&artifact, "org:lib:1"), "org:lib:1.jar");
    assert!(matches!(root_step("1.20.4".into(), None), RootStep::Root(id) if id == "1.20.4"));
    assert!(matches!(root_step("1.20.4".into(), Some(None)), RootStep::Root(id) if id == "1.20.4"));
    assert!(
        matches!(root_step("fabric".into(), Some(Some("1.20.4".into()))), RootStep::Parent(id) if id == "1.20.4")
    );
}
