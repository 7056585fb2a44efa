//! The rules that decide whether a library or an argument is used on this
//! machine with the features that are switched on.
//!
//! With rules present nothing is allowed to begin with; the rules are gone
//! through in order, and each rule that applies sets the answer to its
//! action. So the last rule that applies decides.

use vstd::prelude::*;

use crate::config::FeatureFlags;
use crate::game_version::{FeatureRequirement, FeatureRule, OsRule, Rule};
use crate::text::same_text;

verus! {

/// The features as far as rules ask about them.
pub struct FeaturesView {
    pub demo_user: bool,
    pub quick_play_enabled: bool,
    pub quick_play_singleplayer: bool,
    /// Whether a server to join is named (and the name is not empty).
    pub has_multiplayer_server: bool,
}

/// What the rules see of the feature flags.
pub open spec fn features_of(flags: FeatureFlags) -> FeaturesView {
    FeaturesView {
        demo_user: flags.demo_user,
        quick_play_enabled: flags.quick_play_enabled,
        quick_play_singleplayer: flags.quick_play_singleplayer,
        has_multiplayer_server: flags.quick_play_multiplayer_server matches Some(server)
            && server@.len() > 0,
    }
}

/// What the rules see of optional feature flags.
pub open spec fn opt_features(flags: Option<&FeatureFlags>) -> Option<FeaturesView> {
    match flags {
        Some(f) => Some(features_of(*f)),
        None => None,
    }
}

/// Whether the feature `name` is on. A name that is not known is off.
pub open spec fn feature_is_on(name: Seq<char>, features: FeaturesView) -> bool {
    if name == "is_demo_user"@ {
        features.demo_user
    } else if name == "has_quick_plays_support"@ {
        features.quick_play_enabled
    } else if name == "is_quick_play_singleplayer"@ {
        features.quick_play_enabled && features.quick_play_singleplayer
    } else if name == "is_quick_play_multiplayer"@ {
        features.quick_play_enabled && features.has_multiplayer_server
    } else {
        false
    }
}

/// Every feature of `wanted` is in the state asked for.
pub open spec fn features_agree(wanted: Seq<FeatureRequirement>, features: FeaturesView) -> bool {
    forall|i: int|
        0 <= i < wanted.len() ==> feature_is_on((#[trigger] wanted[i]).name@, features)
            == wanted[i].required
}

/// Whether the feature part of a rule holds: a rule without one always
/// does; one with a list of flags does when the features are known and
/// each is in the state asked for; a malformed one never does.
pub open spec fn features_hold(rule: Option<FeatureRule>, features: Option<FeaturesView>) -> bool {
    match rule {
        None => true,
        Some(FeatureRule::Malformed) => false,
        Some(FeatureRule::Flags(wanted)) => features is Some && features_agree(
            wanted@,
            features->0,
        ),
    }
}

/// Whether a rule's name for an operating system means `target_os` (as
/// Rust names it). An unknown name means none.
pub open spec fn os_name_means(name: Seq<char>, target_os: Seq<char>) -> bool {
    if name == "osx"@ || name == "macos"@ {
        target_os == "macos"@
    } else if name == "linux"@ {
        target_os == "linux"@
    } else if name == "windows"@ {
        target_os == "windows"@
    } else {
        false
    }
}

/// Whether the operating-system part of a rule holds on this machine: the
/// name, if given, means this system, and the architecture, if given, is
/// this one. A version pattern is not looked at.
pub open spec fn os_holds(rule: Option<OsRule>, target_os: Seq<char>, target_arch: Seq<char>) -> bool {
    match rule {
        None => true,
        Some(os) => {
            &&& os.name matches Some(name) ==> os_name_means(name@, target_os)
            &&& os.arch matches Some(arch) ==> arch@ == target_arch
        },
    }
}

/// Whether a rule applies.
pub open spec fn rule_applies(
    rule: Rule,
    features: Option<FeaturesView>,
    target_os: Seq<char>,
    target_arch: Seq<char>,
) -> bool {
    features_hold(rule.features, features) && os_holds(rule.os, target_os, target_arch)
}

/// What a non-empty list of rules allows: the action of the last rule that
/// applies, and nothing where none applies.
pub open spec fn allowed_by(
    rules: Seq<Rule>,
    features: Option<FeaturesView>,
    target_os: Seq<char>,
    target_arch: Seq<char>,
) -> bool
    decreases rules.len(),
{
    if rules.len() == 0 {
        false
    } else if rule_applies(rules.last(), features, target_os, target_arch) {
        rules.last().action@ == "allow"@
    } else {
        allowed_by(rules.drop_last(), features, target_os, target_arch)
    }
}

/// Whether the feature `name` is on.
fn feature_on(name: &str, flags: &FeatureFlags) -> (on: bool)
    ensures
        on == feature_is_on(name@, features_of(*flags)),
{
    if same_text(name, "is_demo_user") {
        flags.demo_user
    } else if same_text(name, "has_quick_plays_support") {
        flags.quick_play_enabled
    } else if same_text(name, "is_quick_play_singleplayer") {
        flags.quick_play_enabled && flags.quick_play_singleplayer
    } else if same_text(name, "is_quick_play_multiplayer") {
        let has_server = match &flags.quick_play_multiplayer_server {
            Some(server) => server.as_str().unicode_len() > 0,
            None => false,
        };
        flags.quick_play_enabled && has_server
    } else {
        false
    }
}

/// Whether a rule applies on the operating system `target_os` with the
/// architecture `target_arch` (both as Rust names them) and the given
/// features.
pub fn rule_matches(
    rule: &Rule,
    features: Option<&FeatureFlags>,
    target_os: &str,
    target_arch: &str,
) -> (applies: bool)
    ensures
        applies == rule_applies(*rule, opt_features(features), target_os@, target_arch@),
{
    match &rule.features {
        None => {},
        Some(FeatureRule::Malformed) => {
            return false;
        },
        Some(FeatureRule::Flags(wanted)) => {
            let flags = match features {
                Some(f) => f,
                None => {
                    return false;
                },
            };
            let mut i: usize = 0;
            while i < wanted.len()
                invariant
                    i <= wanted@.len(),
                    rule.features == Some(FeatureRule::Flags(*wanted)),
                    features == Some(flags),
                    forall|k: int|
                        0 <= k < i ==> feature_is_on((#[trigger] wanted@[k]).name@, features_of(*flags))
                            == wanted@[k].required,
                decreases wanted@.len() - i,
            {
                if feature_on(wanted[i].name.as_str(), flags) != wanted[i].required {
                    return false;
                }
                i += 1;
            }
        },
    }
    match &rule.os {
        None => true,
        Some(os) => {
            let name_ok = match &os.name {
                Some(name) => {
                    if same_text(name.as_str(), "osx") || same_text(name.as_str(), "macos") {
                        same_text(target_os, "macos")
                    } else if same_text(name.as_str(), "linux") {
                        same_text(target_os, "linux")
                    } else if same_text(name.as_str(), "windows") {
                        same_text(target_os, "windows")
                    } else {
                        false
                    }
                },
                None => true,
            };
            if !name_ok {
                return false;
            }
            match &os.arch {
                Some(arch) => same_text(arch.as_str(), target_arch),
                None => true,
            }
        },
    }
}

/// Whether a library, or an argument, with the given rules is used.
/// Without rules, or with an empty list, it is. Otherwise the last rule
/// that applies decides by its action, `allow` or anything else; where no
/// rule applies it is not used.
pub fn is_library_allowed(
    rules: &Option<Vec<Rule>>,
    features: Option<&FeatureFlags>,
    target_os: &str,
    target_arch: &str,
) -> (allowed: bool)
    ensures
        allowed == match *rules {
            None => true,
            Some(list) => list@.len() == 0 || allowed_by(
                list@,
                opt_features(features),
                target_os@,
                target_arch@,
            ),
        },
{
    let list = match rules {
        Some(list) => list,
        None => {
            return true;
        },
    };
    if list.len() == 0 {
        return true;
    }
    let mut allowed = false;
    let mut i: usize = 0;
    while i < list.len()
        invariant
            i <= list@.len(),
            allowed == allowed_by(
                list@.take(i as int),
                opt_features(features),
                target_os@,
                target_arch@,
            ),
        decreases list@.len() - i,
    {
        proof {
            assert(list@.take(i + 1).drop_last() =~= list@.take(i as int));
            assert(list@.take(i + 1).last() == list@[i as int]);
        }
        if rule_matches(&list[i], features, target_os, target_arch) {
            allowed = same_text(list[i].action.as_str(), "allow");
        }
        i += 1;
    }
    assert(list@.take(list@.len() as int) =~= list@);
    allowed
}

} // verus!
