//! The arguments a game is started with: filling in placeholders, taking
//! or leaving conditional arguments, and the settings that the launcher
//! adds itself.

use vstd::prelude::*;

use crate::config::FeatureFlags;
use crate::game_version::Rule;
use crate::rules::{allowed_by, opt_features, FeaturesView};
use crate::text::{
    chars_of, concat2, concat3, contains, contains_text, decimal, decimal_string, replace_all,
    replaced, same_text, starts_with, starts_with_text, string_of,
};

verus! {

/// Whether an argument still holds a placeholder of the form `${...}`
/// after the known ones were filled in. An opening `${` without a closing
/// brace counts as one too.
pub fn has_unresolved_placeholder(s: &str) -> (unresolved: bool)
    ensures
        unresolved == contains_text(s@, "${"@),
{
    let chars = chars_of(s);
    contains(chars.as_slice(), chars_of("${").as_slice())
}

/// A placeholder and the text that takes its place.
#[derive(Debug)]
pub struct Replacement {
    pub placeholder: String,
    pub value: String,
}

/// `text` with the replacements made one after the other, in their order.
pub open spec fn filled_in(text: Seq<char>, replacements: Seq<Replacement>) -> Seq<char>
    decreases replacements.len(),
{
    if replacements.len() == 0 {
        text
    } else {
        replaced(
            filled_in(text, replacements.drop_last()),
            replacements.last().placeholder@,
            replacements.last().value@,
        )
    }
}

/// Fills the placeholders of `text` in: each replacement is made wherever
/// its placeholder occurs, one replacement after the other in the order
/// given.
pub fn substitute(text: &str, replacements: &Vec<Replacement>) -> (out: String)
    ensures
        out@ == filled_in(text@, replacements@),
{
    let mut current = chars_of(text);
    let mut i: usize = 0;
    assert(replacements@.take(0) =~= Seq::<Replacement>::empty());
    while i < replacements.len()
        invariant
            i <= replacements@.len(),
            current@ == filled_in(text@, replacements@.take(i as int)),
        decreases replacements@.len() - i,
    {
        proof {
            assert(replacements@.take(i + 1).drop_last() =~= replacements@.take(i as int));
            assert(replacements@.take(i + 1).last() == replacements@[i as int]);
        }
        let from = chars_of(replacements[i].placeholder.as_str());
        let to = chars_of(replacements[i].value.as_str());
        current = replace_all(current.as_slice(), from.as_slice(), to.as_slice());
        i += 1;
    }
    assert(replacements@.take(replacements@.len() as int) =~= replacements@);
    string_of(current.as_slice())
}

/// The rules that stand with a conditional argument.
#[derive(Debug)]
pub enum ArgumentRules {
    /// The argument has no rules.
    Absent,
    /// The argument has rules that cannot be read.
    Unreadable,
    /// The argument's rules.
    Rules(Vec<Rule>),
}

/// One entry of a version's list of arguments.
#[derive(Debug)]
pub enum LaunchArgument {
    /// An argument that always stands.
    Plain(String),
    /// Arguments that stand where their rules allow.
    Conditional { rules: ArgumentRules, values: Vec<String> },
    /// An entry that is neither.
    Other,
}

/// What the machine and the settings are, as far as rules ask.
pub struct RuleContext {
    pub features: Option<FeaturesView>,
    pub target_os: Seq<char>,
    pub target_arch: Seq<char>,
}

/// Whether a conditional argument stands. Without rules it does; with
/// rules, when they allow it; with rules that cannot be read, as
/// `unreadable_allows` says.
pub open spec fn argument_allowed(rules: ArgumentRules, unreadable_allows: bool, ctx: RuleContext) -> bool {
    match rules {
        ArgumentRules::Absent => true,
        ArgumentRules::Unreadable => unreadable_allows,
        ArgumentRules::Rules(list) => list@.len() == 0 || allowed_by(
            list@,
            ctx.features,
            ctx.target_os,
            ctx.target_arch,
        ),
    }
}

/// An argument that sets the memory of the Java machine. The launcher sets
/// the memory itself and leaves such arguments of a version out.
pub open spec fn is_memory_setting(arg: Seq<char>) -> bool {
    starts_with_text(arg, "-Xmx"@) || starts_with_text(arg, "-Xms"@)
}

/// The arguments of `texts` that are kept, with their placeholders filled
/// in: every one that `keep` accepts after filling in.
pub open spec fn kept_arguments(
    texts: Seq<Seq<char>>,
    replacements: Seq<Replacement>,
    keep: spec_fn(Seq<char>) -> bool,
) -> Seq<Seq<char>> {
    texts.map_values(|t: Seq<char>| filled_in(t, replacements)).filter(keep)
}

/// The texts of a list of strings.
pub open spec fn texts_of(values: Seq<String>) -> Seq<Seq<char>> {
    values.map_values(|v: String| v@)
}

/// The arguments for the Java machine that one entry gives.
pub open spec fn jvm_arguments_of_entry(
    entry: LaunchArgument,
    replacements: Seq<Replacement>,
    ctx: RuleContext,
) -> Seq<Seq<char>> {
    let keep = |a: Seq<char>| !is_memory_setting(a);
    match entry {
        LaunchArgument::Plain(text) => kept_arguments(seq![text@], replacements, keep),
        LaunchArgument::Conditional { rules, values } => if argument_allowed(rules, false, ctx) {
            kept_arguments(texts_of(values@), replacements, keep)
        } else {
            Seq::empty()
        },
        LaunchArgument::Other => Seq::empty(),
    }
}

/// The arguments for the Java machine that a list of entries gives.
pub open spec fn jvm_arguments_of(
    entries: Seq<LaunchArgument>,
    replacements: Seq<Replacement>,
    ctx: RuleContext,
) -> Seq<Seq<char>>
    decreases entries.len(),
{
    if entries.len() == 0 {
        Seq::empty()
    } else {
        jvm_arguments_of(entries.drop_last(), replacements, ctx) + jvm_arguments_of_entry(
            entries.last(),
            replacements,
            ctx,
        )
    }
}

/// The arguments for the game that one entry gives.
pub open spec fn game_arguments_of_entry(
    entry: LaunchArgument,
    replacements: Seq<Replacement>,
    ctx: RuleContext,
) -> Seq<Seq<char>> {
    match entry {
        LaunchArgument::Plain(text) => seq![filled_in(text@, replacements)],
        LaunchArgument::Conditional { rules, values } => if argument_allowed(rules, true, ctx) {
            kept_arguments(
                texts_of(values@),
                replacements,
                |a: Seq<char>| !contains_text(a, "${"@),
            )
        } else {
            Seq::empty()
        },
        LaunchArgument::Other => Seq::empty(),
    }
}

/// The arguments for the game that a list of entries gives.
pub open spec fn game_arguments_of(
    entries: Seq<LaunchArgument>,
    replacements: Seq<Replacement>,
    ctx: RuleContext,
) -> Seq<Seq<char>>
    decreases entries.len(),
{
    if entries.len() == 0 {
        Seq::empty()
    } else {
        game_arguments_of(entries.drop_last(), replacements, ctx) + game_arguments_of_entry(
            entries.last(),
            replacements,
            ctx,
        )
    }
}

/// Which arguments are left out after filling in.
#[derive(Clone, Copy, Debug, PartialEq, Eq, Structural)]
pub enum ArgumentFilter {
    /// Leave out settings of the Java machine's memory.
    NoMemorySettings,
    /// Leave out arguments with a placeholder left.
    NoPlaceholders,
    /// Leave out nothing.
    Everything,
}

impl ArgumentFilter {
    /// Whether the filter keeps `arg`.
    pub open spec fn keeps(self, arg: Seq<char>) -> bool {
        match self {
            ArgumentFilter::NoMemorySettings => !is_memory_setting(arg),
            ArgumentFilter::NoPlaceholders => !contains_text(arg, "${"@),
            ArgumentFilter::Everything => true,
        }
    }

    /// Whether the filter keeps `arg`.
    pub fn accepts(&self, arg: &str) -> (kept: bool)
        ensures
            kept == self.keeps(arg@),
    {
        match self {
            ArgumentFilter::NoMemorySettings => {
                let chars = chars_of(arg);
                !(starts_with(chars.as_slice(), chars_of("-Xmx").as_slice()) || starts_with(
                    chars.as_slice(),
                    chars_of("-Xms").as_slice(),
                ))
            },
            ArgumentFilter::NoPlaceholders => !has_unresolved_placeholder(arg),
            ArgumentFilter::Everything => true,
        }
    }
}

/// Appends to `args` the arguments of `values` that `filter` keeps, with
/// their placeholders filled in.
pub fn push_filled(
    args: &mut Vec<String>,
    values: &Vec<String>,
    replacements: &Vec<Replacement>,
    filter: ArgumentFilter,
)
    ensures
        texts_of(final(args)@) == texts_of(old(args)@) + kept_arguments(
            texts_of(values@),
            replacements@,
            |a: Seq<char>| filter.keeps(a),
        ),
{
    let ghost before = texts_of(args@);
    let ghost keep = |a: Seq<char>| filter.keeps(a);
    let ghost filled = texts_of(values@).map_values(|t: Seq<char>| filled_in(t, replacements@));
    let mut i: usize = 0;
    proof {
        reveal(Seq::filter);
        assert(filled.take(0).filter(keep) =~= Seq::<Seq<char>>::empty());
        assert(before + Seq::<Seq<char>>::empty() =~= before);
    }
    while i < values.len()
        invariant
            i <= values@.len(),
            filled == texts_of(values@).map_values(|t: Seq<char>| filled_in(t, replacements@)),
            keep == |a: Seq<char>| filter.keeps(a),
            texts_of(args@) == before + filled.take(i as int).filter(keep),
        decreases values@.len() - i,
    {
        proof {
            reveal(Seq::filter);
            assert(filled.take(i + 1).drop_last() =~= filled.take(i as int));
            assert(filled.take(i + 1).last() == filled_in(values@[i as int]@, replacements@));
        }
        let arg = substitute(values[i].as_str(), replacements);
        if filter.accepts(arg.as_str()) {
            let ghost prior = texts_of(args@);
            args.push(arg);
            assert(texts_of(args@) =~= prior.push(arg@));
            assert(before + filled.take(i as int).filter(keep).push(arg@) =~= (before + filled.take(
                i as int,
            ).filter(keep)).push(arg@));
        }
        i += 1;
    }
    assert(filled.take(values@.len() as int) =~= filled);
}

/// Whether a conditional argument stands.
fn rules_allow(
    rules: &ArgumentRules,
    unreadable_allows: bool,
    feature_flags: &FeatureFlags,
    target_os: &str,
    target_arch: &str,
) -> (allowed: bool)
    ensures
        allowed == argument_allowed(
            *rules,
            unreadable_allows,
            RuleContext {
                features: opt_features(Some(feature_flags)),
                target_os: target_os@,
                target_arch: target_arch@,
            },
        ),
{
    match rules {
        ArgumentRules::Absent => true,
        ArgumentRules::Unreadable => unreadable_allows,
        ArgumentRules::Rules(list) => {
            if list.len() == 0 {
                true
            } else {
                let mut allowed = false;
                let mut i: usize = 0;
                while i < list.len()
                    invariant
                        i <= list@.len(),
                        allowed == allowed_by(
                            list@.take(i as int),
                            opt_features(Some(feature_flags)),
                            target_os@,
                            target_arch@,
                        ),
                    decreases list@.len() - i,
                {
                    proof {
                        assert(list@.take(i + 1).drop_last() =~= list@.take(i as int));
                        assert(list@.take(i + 1).last() == list@[i as int]);
                    }
                    if crate::rules::rule_matches(&list[i], Some(feature_flags), target_os, target_arch) {
                        allowed = same_text(list[i].action.as_str(), "allow");
                    }
                    i += 1;
                }
                assert(list@.take(list@.len() as int) =~= list@);
                allowed
            }
        },
    }
}

/// Appends to `args` the arguments for the Java machine that a version
/// lists. Placeholders are filled in by `replacements`. A plain entry
/// gives its argument; a conditional entry gives its arguments where its
/// rules allow, and none where its rules cannot be read. Settings of the
/// machine's memory are left out: the launcher sets the memory itself.
pub fn parse_jvm_arguments(
    jvm_args: &Vec<LaunchArgument>,
    args: &mut Vec<String>,
    replacements: &Vec<Replacement>,
    feature_flags: &FeatureFlags,
    target_os: &str,
    target_arch: &str,
)
    ensures
        texts_of(final(args)@) == texts_of(old(args)@) + jvm_arguments_of(
            jvm_args@,
            replacements@,
            RuleContext {
                features: opt_features(Some(feature_flags)),
                target_os: target_os@,
                target_arch: target_arch@,
            },
        ),
{
    let ghost before = texts_of(args@);
    let ghost ctx = RuleContext {
        features: opt_features(Some(feature_flags)),
        target_os: target_os@,
        target_arch: target_arch@,
    };
    let mut i: usize = 0;
    proof {
        assert(jvm_args@.take(0) =~= Seq::<LaunchArgument>::empty());
        assert(before + Seq::<Seq<char>>::empty() =~= before);
    }
    while i < jvm_args.len()
        invariant
            i <= jvm_args@.len(),
            ctx == (RuleContext {
                features: opt_features(Some(feature_flags)),
                target_os: target_os@,
                target_arch: target_arch@,
            }),
            texts_of(args@) == before + jvm_arguments_of(jvm_args@.take(i as int), replacements@, ctx),
        decreases jvm_args@.len() - i,
    {
        let ghost so_far = jvm_arguments_of(jvm_args@.take(i as int), replacements@, ctx);
        let ghost entry = jvm_arguments_of_entry(jvm_args@[i as int], replacements@, ctx);
        proof {
            assert(jvm_args@.take(i + 1).drop_last() =~= jvm_args@.take(i as int));
            assert(jvm_args@.take(i + 1).last() == jvm_args@[i as int]);
            assert(before + (so_far + entry) =~= (before + so_far) + entry);
        }
        match &jvm_args[i] {
            LaunchArgument::Plain(text) => {
                let mut one: Vec<String> = Vec::new();
                one.push(text.clone());
                assert(texts_of(one@) =~= seq![text@]);
                assert(entry == kept_arguments(
                    seq![text@],
                    replacements@,
                    |a: Seq<char>| !is_memory_setting(a),
                ));
                push_filled(args, &one, replacements, ArgumentFilter::NoMemorySettings);
                assert((|a: Seq<char>| ArgumentFilter::NoMemorySettings.keeps(a)) =~= (|a: Seq<char>|
                    !is_memory_setting(a)));
            },
            LaunchArgument::Conditional { rules, values } => {
                if rules_allow(rules, false, feature_flags, target_os, target_arch) {
                    push_filled(args, values, replacements, ArgumentFilter::NoMemorySettings);
                    assert((|a: Seq<char>| ArgumentFilter::NoMemorySettings.keeps(a)) =~= (|
                        a: Seq<char>,
                    | !is_memory_setting(a)));
                } else {
                    assert(before + so_far + Seq::<Seq<char>>::empty() =~= before + so_far);
                }
            },
            LaunchArgument::Other => {
                assert(before + so_far + Seq::<Seq<char>>::empty() =~= before + so_far);
            },
        }
        i += 1;
    }
    assert(jvm_args@.take(jvm_args@.len() as int) =~= jvm_args@);
}

/// Appends to `args` the arguments for the game that a version lists.
/// Placeholders are filled in by `replacements`. A plain entry gives its
/// argument; a conditional entry gives its arguments where its rules
/// allow, also where its rules cannot be read, and leaves out each
/// argument in which a placeholder is left.
pub fn parse_game_arguments(
    game_args: &Vec<LaunchArgument>,
    args: &mut Vec<String>,
    replacements: &Vec<Replacement>,
    feature_flags: &FeatureFlags,
    target_os: &str,
    target_arch: &str,
)
    ensures
        texts_of(final(args)@) == texts_of(old(args)@) + game_arguments_of(
            game_args@,
            replacements@,
            RuleContext {
                features: opt_features(Some(feature_flags)),
                target_os: target_os@,
                target_arch: target_arch@,
            },
        ),
{
    let ghost before = texts_of(args@);
    let ghost ctx = RuleContext {
        features: opt_features(Some(feature_flags)),
        target_os: target_os@,
        target_arch: target_arch@,
    };
    let mut i: usize = 0;
    proof {
        assert(game_args@.take(0) =~= Seq::<LaunchArgument>::empty());
        assert(before + Seq::<Seq<char>>::empty() =~= before);
    }
    while i < game_args.len()
        invariant
            i <= game_args@.len(),
            ctx == (RuleContext {
                features: opt_features(Some(feature_flags)),
                target_os: target_os@,
                target_arch: target_arch@,
            }),
            texts_of(args@) == before + game_arguments_of(game_args@.take(i as int), replacements@, ctx),
        decreases game_args@.len() - i,
    {
        let ghost so_far = game_arguments_of(game_args@.take(i as int), replacements@, ctx);
        let ghost entry = game_arguments_of_entry(game_args@[i as int], replacements@, ctx);
        proof {
            assert(game_args@.take(i + 1).drop_last() =~= game_args@.take(i as int));
            assert(game_args@.take(i + 1).last() == game_args@[i as int]);
            assert(before + (so_far + entry) =~= (before + so_far) + entry);
        }
        match &game_args[i] {
            LaunchArgument::Plain(text) => {
                let arg = substitute(text.as_str(), replacements);
                let ghost prior = texts_of(args@);
                args.push(arg);
                assert(texts_of(args@) =~= prior + seq![arg@]);
            },
            LaunchArgument::Conditional { rules, values } => {
                if rules_allow(rules, true, feature_flags, target_os, target_arch) {
                    push_filled(args, values, replacements, ArgumentFilter::NoPlaceholders);
                    assert((|a: Seq<char>| ArgumentFilter::NoPlaceholders.keeps(a)) =~= (|a: Seq<char>|
                        !contains_text(a, "${"@)));
                } else {
                    assert(before + so_far + Seq::<Seq<char>>::empty() =~= before + so_far);
                }
            },
            LaunchArgument::Other => {
                assert(before + so_far + Seq::<Seq<char>>::empty() =~= before + so_far);
            },
        }
        i += 1;
    }
    assert(game_args@.take(game_args@.len() as int) =~= game_args@);
}

/// The words that say which Java versions a game version accepts.
pub open spec fn version_constraint_of(required: Option<u64>, max: Option<u32>) -> Seq<char> {
    match (required, max) {
        (Some(min), Some(max)) => if min == max {
            "Java "@ + decimal(min as nat)
        } else {
            "Java "@ + decimal(min as nat) + " to "@ + decimal(max as nat)
        },
        (None, Some(max)) => "Java "@ + decimal(max as nat) + " (or lower)"@,
        (Some(min), None) => "Java "@ + decimal(min as nat) + " or higher"@,
        (None, None) => "any Java version"@,
    }
}

/// The words that say which Java versions a game version accepts, for the
/// message that no such Java was found.
pub fn version_constraint(required_java_major: Option<u64>, max_java_major: Option<u32>) -> (text:
    String)
    ensures
        text@ == version_constraint_of(required_java_major, max_java_major),
{
    match (required_java_major, max_java_major) {
        (Some(min), Some(max)) => {
            if min == max as u64 {
                concat2("Java ", decimal_string(min).as_str())
            } else {
                let mut text = concat2("Java ", decimal_string(min).as_str());
                text.append(" to ");
                text.append(decimal_string(max as u64).as_str());
                text
            }
        },
        (None, Some(max)) => concat3("Java ", decimal_string(max as u64).as_str(), " (or lower)"),
        (Some(min), None) => concat3("Java ", decimal_string(min).as_str(), " or higher"),
        (None, None) => "any Java version".to_string(),
    }
}

/// The names under which the native libraries for an operating system and
/// an architecture may be filed, in the order in which they are tried.
pub open spec fn native_candidates_of(target_os: Seq<char>, target_arch: Seq<char>) -> Seq<Seq<char>> {
    if target_os == "linux"@ {
        seq!["natives-linux"@, "natives-linux-"@ + target_arch] + (if target_arch == "aarch64"@ {
            seq!["natives-linux-arm64"@]
        } else {
            Seq::empty()
        })
    } else if target_os == "windows"@ {
        seq!["natives-windows"@, "natives-windows-"@ + target_arch]
    } else if target_os == "macos"@ {
        seq!["natives-osx"@, "natives-macos"@, "natives-macos-"@ + target_arch]
    } else {
        Seq::empty()
    }
}

/// The names under which the native libraries for the operating system
/// `target_os` and the architecture `target_arch` (both as Rust names
/// them) may be filed, in the order in which they are tried. The first
/// that a library has is taken.
pub fn native_candidates(target_os: &str, target_arch: &str) -> (names: Vec<String>)
    ensures
        names.deep_view() == native_candidates_of(target_os@, target_arch@),
{
    let mut names: Vec<String> = Vec::new();
    if same_text(target_os, "linux") {
        names.push("natives-linux".to_string());
        names.push(concat2("natives-linux-", target_arch));
        if same_text(target_arch, "aarch64") {
            names.push("natives-linux-arm64".to_string());
        }
        assert(names.deep_view() =~= native_candidates_of(target_os@, target_arch@));
    } else if same_text(target_os, "windows") {
        names.push("natives-windows".to_string());
        names.push(concat2("natives-windows-", target_arch));
        assert(names.deep_view() =~= native_candidates_of(target_os@, target_arch@));
    } else if same_text(target_os, "macos") {
        names.push("natives-osx".to_string());
        names.push("natives-macos".to_string());
        names.push(concat2("natives-macos-", target_arch));
        assert(names.deep_view() =~= native_candidates_of(target_os@, target_arch@));
    } else {
        assert(names.deep_view() =~= native_candidates_of(target_os@, target_arch@));
    }
    names
}

/// Some argument holds `part`.
pub open spec fn some_contains(args: Seq<Seq<char>>, part: Seq<char>) -> bool {
    exists|i: int| 0 <= i < args.len() && contains_text(#[trigger] args[i], part)
}

/// Some argument is `word`.
pub open spec fn some_is(args: Seq<Seq<char>>, word: Seq<char>) -> bool {
    exists|i: int| 0 <= i < args.len() && #[trigger] args[i] == word
}

/// The arguments once the launcher has added its own settings: the most
/// and the least memory; the path of the native libraries, unless an
/// argument sets it already; and the class path, unless an argument gives
/// one already.
pub open spec fn with_launcher_settings(
    args: Seq<Seq<char>>,
    max_memory: u32,
    min_memory: u32,
    natives_path: Seq<char>,
    classpath: Seq<char>,
) -> Seq<Seq<char>> {
    let sized = args + seq![
        "-Xmx"@ + decimal(max_memory as nat) + "M"@,
        "-Xms"@ + decimal(min_memory as nat) + "M"@,
    ];
    let placed = if some_contains(sized, "-Djava.library.path"@) {
        sized
    } else {
        sized + seq!["-Djava.library.path="@ + natives_path]
    };
    if some_is(placed, "-cp"@) || some_is(placed, "-classpath"@) {
        placed
    } else {
        placed + seq!["-cp"@, classpath]
    }
}

/// Whether some argument holds `part`.
fn any_contains(args: &Vec<String>, part: &str) -> (found: bool)
    ensures
        found == some_contains(texts_of(args@), part@),
{
    let pattern = chars_of(part);
    let mut i: usize = 0;
    while i < args.len()
        invariant
            i <= args@.len(),
            pattern@ == part@,
            forall|k: int| 0 <= k < i ==> !contains_text(#[trigger] texts_of(args@)[k], part@),
        decreases args@.len() - i,
    {
        if contains(chars_of(args[i].as_str()).as_slice(), pattern.as_slice()) {
            assert(contains_text(texts_of(args@)[i as int], part@));
            return true;
        }
        i += 1;
    }
    false
}

/// Whether some argument is `word`.
fn any_is(args: &Vec<String>, word: &str) -> (found: bool)
    ensures
        found == some_is(texts_of(args@), word@),
{
    let mut i: usize = 0;
    while i < args.len()
        invariant
            i <= args@.len(),
            forall|k: int| 0 <= k < i ==> #[trigger] texts_of(args@)[k] != word@,
        decreases args@.len() - i,
    {
        if same_text(args[i].as_str(), word) {
            assert(texts_of(args@)[i as int] == word@);
            return true;
        }
        i += 1;
    }
    false
}

/// Adds the launcher's own settings to the arguments of the Java machine:
/// the most and the least memory, in megabytes; the path of the native
/// libraries, unless an argument sets it already; and the class path,
/// unless an argument gives one already.
pub fn add_launcher_settings(
    args: &mut Vec<String>,
    max_memory: u32,
    min_memory: u32,
    natives_path: &str,
    classpath: &str,
)
    ensures
        texts_of(final(args)@) == with_launcher_settings(
            texts_of(old(args)@),
            max_memory,
            min_memory,
            natives_path@,
            classpath@,
        ),
{
    let ghost before = texts_of(args@);
    args.push(concat3("-Xmx", decimal_string(max_memory as u64).as_str(), "M"));
    args.push(concat3("-Xms", decimal_string(min_memory as u64).as_str(), "M"));
    let ghost sized = texts_of(args@);
    assert(sized =~= before + seq![
        "-Xmx"@ + decimal(max_memory as nat) + "M"@,
        "-Xms"@ + decimal(min_memory as nat) + "M"@,
    ]);
    if !any_contains(args, "-Djava.library.path") {
        args.push(concat2("-Djava.library.path=", natives_path));
        assert(texts_of(args@) =~= sized + seq!["-Djava.library.path="@ + natives_path@]);
    }
    let ghost placed = texts_of(args@);
    if !(any_is(args, "-cp") || any_is(args, "-classpath")) {
        args.push("-cp".to_string());
        args.push(classpath.to_string());
        assert(texts_of(args@) =~= placed + seq!["-cp"@, classpath@]);
    }
}

/// The kind of an installed version that its name tells of: Fabric for a
/// name that begins with `fabric-loader-`, Forge for one that holds
/// `-forge` or `forge-`, and none for any other.
pub fn loader_kind_of_name(name: &str) -> (kind: Option<&'static str>)
    ensures
        match kind {
            Some(k) => if starts_with_text(name@, "fabric-loader-"@) {
                k@ == "fabric"@
            } else {
                k@ == "forge"@ && (contains_text(name@, "-forge"@) || contains_text(
                    name@,
                    "forge-"@,
                ))
            },
            None => !starts_with_text(name@, "fabric-loader-"@) && !contains_text(
                name@,
                "-forge"@,
            ) && !contains_text(name@, "forge-"@),
        },
{
    let chars = chars_of(name);
    let s = chars.as_slice();
    if starts_with(s, chars_of("fabric-loader-").as_slice()) {
        Some("fabric")
    } else if contains(s, chars_of("-forge").as_slice()) || contains(
        s,
        chars_of("forge-").as_slice(),
    ) {
        Some("forge")
    } else {
        None
    }
}

} // verus!
