use dropout_core::config::FeatureFlags;
use dropout_core::game_version::{FeatureRequirement, FeatureRule, OsRule, Rule};
use dropout_core::launch::{
    has_unresolved_placeholder, parse_game_arguments, parse_jvm_arguments, substitute,
    ArgumentFilter, ArgumentRules, LaunchArgument, Replacement,
};
use dropout_core::rules::{is_library_allowed, rule_matches};

fn rule(action: &str, os: Option<&str>, arch: Option<&str>) -> Rule {
    Rule {
        action: action.to_string(),
        os: if os.is_some() || arch.is_some() {
            Some(OsRule { name: os.map(String::from), version: None, arch: arch.map(String::from) })
        } else {
            None
        },
        features: None,
    }
}

fn feature_rule(action: &str, flags: &[(&str, bool)]) -> Rule {
    Rule {
        action: action.to_string(),
        os: None,
        features: Some(FeatureRule::Flags(
            flags
                .iter()
                .map(|(n, r)| FeatureRequirement { name: n.to_string(), required: *r })
                .collect(),
        )),
    }
}

#[test]
fn without_rules_everything_is_allowed() {
    assert!(is_library_allowed(&None, None, "linux", "x86_64"));
    assert!(is_library_allowed(&Some(vec![]), None, "linux", "x86_64"));
}

#[test]
fn the_last_rule_that_applies_decides() {
    let rules = Some(vec![rule("allow", None, None), rule("disallow", Some("osx"), None)]);
    assert!(is_library_allowed(&rules, None, "linux", "x86_64"));
    assert!(!is_library_allowed(&rules, None, "macos", "x86_64"));
    let only_osx = Some(vec![rule("allow", Some("osx"), None)]);
    assert!(is_library_allowed(&only_osx, None, "macos", "aarch64"));
    assert!(!is_library_allowed(&only_osx, None, "windows", "x86_64"));
    let reversed = Some(vec![rule("disallow", Some("osx"), None), rule("allow", None, None)]);
    assert!(is_library_allowed(&reversed, None, "macos", "x86_64"));
    let odd = Some(vec![rule("Allow", None, None)]);
    assert!(!is_library_allowed(&odd, None, "linux", "x86_64"));
}

#[test]
fn operating_system_rules() {
    assert!(rule_matches(&rule("allow", Some("macos"), None), None, "macos", "x86_64"));
    assert!(rule_matches(&rule("allow", Some("linux"), None), None, "linux", "x86_64"));
    assert!(rule_matches(&rule("allow", Some("windows"), None), None, "windows", "x86_64"));
    assert!(!rule_matches(&rule("allow", Some("windows"), None), None, "linux", "x86_64"));
    assert!(!rule_matches(&rule("allow", Some("freebsd"), None), None, "freebsd", "x86_64"));
    assert!(rule_matches(&rule("allow", None, Some("x86")), None, "linux", "x86"));
    assert!(!rule_matches(&rule("allow", None, Some("x86")), None, "linux", "x86_64"));
    assert!(rule_matches(&rule("allow", Some("linux"), Some("aarch64")), None, "linux", "aarch64"));
    assert!(!rule_matches(&rule("allow", Some("osx"), Some("aarch64")), None, "linux", "aarch64"));
    let with_version = Rule {
        action: "allow".into(),
        os: Some(OsRule { name: None, version: Some("^10\\.".into()), arch: None }),
        features: None,
    };
    assert!(rule_matches(&with_version, None, "windows", "x86_64"));
}

#[test]
fn feature_rules() {
    let mut flags = FeatureFlags::default();
    let demo = feature_rule("allow", &[("is_demo_user", true)]);
    assert!(!rule_matches(&demo, Some(&flags), "linux", "x86_64"));
    flags.demo_user = true;
    assert!(rule_matches(&demo, Some(&flags), "linux", "x86_64"));
    assert!(!rule_matches(&demo, None, "linux", "x86_64"));
    // a feature asked to be off must be off
    let not_demo = feature_rule("allow", &[("is_demo_user", false)]);
    assert!(!rule_matches(&not_demo, Some(&flags), "linux", "x86_64"));
    // an unknown feature is off
    let unknown = feature_rule("allow", &[("has_custom_resolution", true)]);
    assert!(!rule_matches(&unknown, Some(&flags), "linux", "x86_64"));
    let unknown_off = feature_rule("allow", &[("has_custom_resolution", false)]);
    assert!(rule_matches(&unknown_off, Some(&flags), "linux", "x86_64"));
    // an empty list holds with features, and not without
    let empty = feature_rule("allow", &[]);
    assert!(rule_matches(&empty, Some(&flags), "linux", "x86_64"));
    assert!(!rule_matches(&empty, None, "linux", "x86_64"));
    let malformed = Rule { action: "allow".into(), os: None, features: Some(FeatureRule::Malformed) };
    assert!(!rule_matches(&malformed, Some(&flags), "linux", "x86_64"));
}

#[test]
fn quick_play_features() {
    let mut flags = FeatureFlags::default();
    let single = feature_rule("allow", &[("is_quick_play_singleplayer", true)]);
    let multi = feature_rule("allow", &[("is_quick_play_multiplayer", true)]);
    let support = feature_rule("allow", &[("has_quick_plays_support", true)]);
    assert!(!rule_matches(&single, Some(&flags), "linux", "x86_64"));
    flags.quick_play_enabled = true;
    assert!(rule_matches(&single, Some(&flags), "linux", "x86_64"));
    assert!(rule_matches(&support, Some(&flags), "linux", "x86_64"));
    assert!(!rule_matches(&multi, Some(&flags), "linux", "x86_64"));
    flags.quick_play_multiplayer_server = Some(String::new());
    assert!(!rule_matches(&multi, Some(&flags), "linux", "x86_64"));
    flags.quick_play_multiplayer_server = Some("play.example.org".into());
    assert!(rule_matches(&multi, Some(&flags), "linux", "x86_64"));
    flags.quick_play_singleplayer = false;
    assert!(!rule_matches(&single, Some(&flags), "linux", "x86_64"));
}

fn replacements() -> Vec<Replacement> {
    vec![
        Replacement { placeholder: "${natives_directory}".into(), value: "/natives".into() },
        Replacement { placeholder: "${classpath}".into(), value: "a.jar:b.jar".into() },
        Replacement { placeholder: "${launcher_name}".into(), value: "DropOut".into() },
    ]
}

#[test]
fn placeholders() {
    assert!(has_unresolved_placeholder("--width ${resolution_width}"));
    assert!(has_unresolved_placeholder("${"));
    assert!(has_unresolved_placeholder("a${b"));
    assert!(!has_unresolved_placeholder("$ {x}"));
    assert!(!has_unresolved_placeholder("{x}$"));
    assert!(!has_unresolved_placeholder(""));
    assert_eq!(
        substitute("-Djava.library.path=${natives_directory}", &replacements()),
        "-Djava.library.path=/natives"
    );
    assert_eq!(substitute("${classpath}${classpath}", &replacements()), "a.jar:b.jar:a.jar:b.jar".replace(":a", "a"));
    assert_eq!(substitute("${unknown}", &replacements()), "${unknown}");
    assert_eq!(substitute("plain", &vec![]), "plain");
}

#[test]
fn argument_filters() {
    assert!(!ArgumentFilter::NoMemorySettings.accepts("-Xmx2G"));
    assert!(!ArgumentFilter::NoMemorySettings.accepts("-Xms512M"));
    assert!(ArgumentFilter::NoMemorySettings.accepts("-Xss1M"));
    assert!(ArgumentFilter::NoMemorySettings.accepts(" -Xmx2G"));
    assert!(!ArgumentFilter::NoPlaceholders.accepts("${x}"));
    assert!(ArgumentFilter::NoPlaceholders.accepts("-Xmx2G"));
    assert!(ArgumentFilter::Everything.accepts("${x}"));
}

#[test]
fn jvm_arguments() {
    let entries = vec![
        LaunchArgument::Plain("-Djava.library.path=${natives_directory}".into()),
        LaunchArgument::Plain("-Xmx2G".into()),
        LaunchArgument::Other,
        LaunchArgument::Conditional {
            rules: ArgumentRules::Rules(vec![rule("allow", Some("osx"), None)]),
            values: vec!["-XstartOnFirstThread".into()],
        },
        LaunchArgument::Conditional {
            rules: ArgumentRules::Rules(vec![rule("allow", Some("linux"), None)]),
            values: vec!["-Dos=linux".into(), "-Xms1G".into(), "-cp".into(), "${classpath}".into()],
        },
        LaunchArgument::Conditional { rules: ArgumentRules::Unreadable, values: vec!["-Dunreadable".into()] },
        LaunchArgument::Conditional { rules: ArgumentRules::Absent, values: vec!["-Dname=${launcher_name}".into()] },
        LaunchArgument::Conditional { rules: ArgumentRules::Rules(vec![]), values: vec!["-Dempty".into()] },
    ];
    let mut args = vec![String::from("first")];
    parse_jvm_arguments(&entries, &mut args, &replacements(), &FeatureFlags::default(), "linux", "x86_64");
    assert_eq!(
        args,
        vec![
            "first",
            "-Djava.library.path=/natives",
            "-Dos=linux",
            "-cp",
            "a.jar:b.jar",
            "-Dname=DropOut",
            "-Dempty"
        ]
    );
}

#[test]
fn game_arguments() {
    let entries = vec![
        LaunchArgument::Plain("--username".into()),
        LaunchArgument::Plain("${auth_player_name}".into()),
        LaunchArgument::Conditional {
            rules: ArgumentRules::Rules(vec![feature_rule("allow", &[("is_demo_user", true)])]),
            values: vec!["--demo".into()],
        },
        LaunchArgument::Conditional {
            rules: ArgumentRules::Absent,
            values: vec!["--width".into(), "${resolution_width}".into()],
        },
        LaunchArgument::Conditional { rules: ArgumentRules::Unreadable, values: vec!["--kept".into()] },
        LaunchArgument::Other,
    ];
    let fill = vec![Replacement { placeholder: "${auth_player_name}".into(), value: "Steve".into() }];
    let mut args = Vec::new();
    parse_game_arguments(&entries, &mut args, &fill, &FeatureFlags::default(), "linux", "x86_64");
    assert_eq!(args, vec!["--username", "Steve", "--width", "--kept"]);
    let mut demo = FeatureFlags::default();
    demo.demo_user = true;
    let mut args = Vec::new();
    parse_game_arguments(&entries, &mut args, &fill, &demo, "linux", "x86_64");
    assert_eq!(args, vec!["--username", "Steve", "--demo", "--width", "--kept"]);
    // a plain argument stays even with a placeholder left
    let mut args = Vec::new();
    parse_game_arguments(&entries, &mut args, &vec![], &FeatureFlags::default(), "linux", "x86_64");
    assert_eq!(args[1], "${auth_player_name}");
}
