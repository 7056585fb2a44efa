//! Modpacks: what an archive tells of itself, and which of its entries are
//! files to put into the game directory.
//!
//! Three formats are known: Modrinth, CurseForge and MultiMC.

use vstd::prelude::*;
use vstd::slice::slice_subrange;

use crate::text::{
    chars_of, ends_with, ends_with_text, lines_from, lines_of, same_chars, scan_until, starts_with,
    starts_with_text, string_of_range, trim_range, trimmed,
};

verus! {

/// What a modpack is.
#[derive(Debug)]
pub struct ModpackInfo {
    pub name: String,
    pub minecraft_version: Option<String>,
    pub mod_loader: Option<String>,
    pub mod_loader_version: Option<String>,
    pub modpack_type: String,
    pub instance_id: Option<String>,
}

/// A file that a modpack asks to download.
#[derive(Debug)]
pub struct ModpackFile {
    pub url: String,
    /// Where the file goes, relative to the game directory.
    pub path: String,
    pub size: Option<u64>,
    pub sha1: Option<String>,
}

/// What was read from a modpack archive, whatever its format.
#[derive(Debug)]
pub struct ParsedModpack {
    pub info: ModpackInfo,
    pub files: Vec<ModpackFile>,
    /// The directories of the archive whose content goes into the game
    /// directory.
    pub override_prefixes: Vec<String>,
}

/// What a modpack is, from what was read of its archive; the error of the
/// reading where it failed.
pub fn detect(parsed: Result<ParsedModpack, String>) -> (info: Result<ModpackInfo, String>)
    ensures
        match parsed {
            Ok(pack) => info == Ok::<ModpackInfo, String>(pack.info),
            Err(error) => info == Err::<ModpackInfo, String>(error),
        },
{
    match parsed {
        Ok(pack) => Ok(pack.info),
        Err(error) => Err(error),
    }
}

/// What is read of an archive that is of no known format: an unknown
/// modpack named after the archive, without files.
pub fn unknown_modpack(archive_stem: Option<&str>) -> (pack: ParsedModpack)
    ensures
        pack.info.name@ == match archive_stem {
            Some(stem) => stem@,
            None => "Imported Modpack"@,
        },
        pack.info.minecraft_version is None,
        pack.info.mod_loader is None,
        pack.info.mod_loader_version is None,
        pack.info.modpack_type@ == "unknown"@,
        pack.info.instance_id is None,
        pack.files@.len() == 0,
        pack.override_prefixes@.len() == 0,
{
    let name = match archive_stem {
        Some(stem) => stem.to_string(),
        None => "Imported Modpack".to_string(),
    };
    ParsedModpack {
        info: ModpackInfo {
            name,
            minecraft_version: None,
            mod_loader: None,
            mod_loader_version: None,
            modpack_type: "unknown".to_string(),
            instance_id: None,
        },
        files: Vec::new(),
        override_prefixes: Vec::new(),
    }
}

/// The value that the first of `lines` beginning with `prefix` gives:
/// what follows the prefix, without white space around it.
pub open spec fn first_value(lines: Seq<Seq<char>>, prefix: Seq<char>) -> Option<Seq<char>>
    decreases lines.len(),
{
    if lines.len() == 0 {
        None
    } else if starts_with_text(lines[0], prefix) {
        Some(trimmed(lines[0].subrange(prefix.len() as int, lines[0].len() as int)))
    } else {
        first_value(lines.drop_first(), prefix)
    }
}

/// The value of `key` in the text of a settings file of `key=value` lines:
/// on the first line that begins with the key and an equals sign, what
/// follows them, without white space around it.
pub fn cfg_value(content: &str, key: &str) -> (value: Option<String>)
    ensures
        value.deep_view() == first_value(lines_of(content@), key@ + "="@),
{
    let chars = chars_of(content);
    let s = chars.as_slice();
    let mut prefix = chars_of(key);
    let ghost key_chars = prefix@;
    let sign = chars_of("=");
    proof {
        reveal_strlit("=");
    }
    prefix.push('=');
    assert(prefix@ =~= key@ + "="@);
    let mut pos: usize = 0;
    while pos < s.len()
        invariant
            pos <= s@.len(),
            s@ == content@,
            prefix@ == key@ + "="@,
            first_value(lines_of(s@), prefix@) == first_value(lines_from(s@, pos as int), prefix@),
        decreases s@.len() - pos,
    {
        let end = scan_until(s, '\n', pos);
        let line = slice_subrange(s, pos, end);
        proof {
            let rest = lines_from(s@, pos as int);
            assert(rest[0] == line@);
            if end < s@.len() {
                assert(rest.drop_first() =~= lines_from(s@, end + 1));
            } else {
                assert(rest.drop_first() =~= Seq::<Seq<char>>::empty());
                assert(first_value(rest.drop_first(), prefix@) is None);
            }
        }
        if starts_with(line, prefix.as_slice()) {
            return Some(trim_range(line, prefix.len(), line.len()));
        }
        if end >= s.len() {
            return None;
        }
        pos = end + 1;
    }
    None
}

/// The number of `c` in `s`.
pub open spec fn count_of(s: Seq<char>, c: char) -> nat
    decreases s.len(),
{
    if s.len() == 0 {
        0
    } else if s.last() == c {
        count_of(s.drop_last(), c) + 1
    } else {
        count_of(s.drop_last(), c)
    }
}

/// Counts the `c` in `s`.
pub fn count_char(s: &[char], c: char) -> (n: usize)
    ensures
        n == count_of(s@, c),
{
    let mut n: usize = 0;
    let mut i: usize = 0;
    while i < s.len()
        invariant
            i <= s@.len(),
            n == count_of(s@.take(i as int), c),
            n <= i,
        decreases s@.len() - i,
    {
        assert(s@.take(i + 1).drop_last() =~= s@.take(i as int));
        if s[i] == c {
            n += 1;
        }
        i += 1;
    }
    assert(s@.take(s@.len() as int) =~= s@);
    n
}

/// The directory of a MultiMC instance that the entry `name` reveals: the
/// top of the archive for `instance.cfg` itself, and the first directory
/// for `instance.cfg` right inside it.
pub open spec fn multimc_root_of(name: Seq<char>) -> Option<Seq<char>> {
    if name == "instance.cfg"@ {
        Some(Seq::empty())
    } else if ends_with_text(name, "/instance.cfg"@) && count_of(name, '/') == 1 {
        Some(name.subrange(0, name.len() - "instance.cfg"@.len()))
    } else {
        None
    }
}

/// The directory revealed by the first of `names` that reveals one.
pub open spec fn first_multimc_root(names: Seq<Seq<char>>) -> Option<Seq<char>>
    decreases names.len(),
{
    if names.len() == 0 {
        None
    } else {
        match multimc_root_of(names[0]) {
            Some(root) => Some(root),
            None => first_multimc_root(names.drop_first()),
        }
    }
}

/// The directory of the MultiMC instance in an archive with the entries
/// `names`, in the archive's order: empty where `instance.cfg` lies at the
/// top, the directory with its slash where it lies one level down, and
/// none where there is no such entry.
pub fn find_multimc_root(names: &Vec<String>) -> (root: Option<String>)
    ensures
        root.deep_view() == first_multimc_root(names.deep_view()),
{
    let ghost all = names.deep_view();
    let plain = chars_of("instance.cfg");
    let nested = chars_of("/instance.cfg");
    proof {
        reveal_strlit("instance.cfg");
        reveal_strlit("/instance.cfg");
    }
    let mut i: usize = 0;
    assert(all.skip(0) =~= all);
    while i < names.len()
        invariant
            i <= names@.len(),
            all == names.deep_view(),
            plain@ == "instance.cfg"@,
            plain@.len() == 12,
            nested@ == "/instance.cfg"@,
            nested@.len() == 13,
            first_multimc_root(all) == first_multimc_root(all.skip(i as int)),
        decreases names@.len() - i,
    {
        proof {
            assert(all.skip(i as int)[0] == names@[i as int]@);
            assert(all.skip(i as int).drop_first() =~= all.skip(i + 1));
        }
        let name = chars_of(names[i].as_str());
        let s = name.as_slice();
        if same_chars(s, plain.as_slice()) {
            return Some(String::new());
        }
        if ends_with(s, nested.as_slice()) && count_char(s, '/') == 1 {
            return Some(string_of_range(s, 0, s.len() - 12));
        }
        i += 1;
    }
    None
}

/// What is left of `name` under the first of `prefixes` that it begins
/// with and is longer than.
pub open spec fn stripped_of(name: Seq<char>, prefixes: Seq<Seq<char>>) -> Option<Seq<char>>
    decreases prefixes.len(),
{
    if prefixes.len() == 0 {
        None
    } else if starts_with_text(name, prefixes[0]) && name.len() > prefixes[0].len() {
        Some(name.subrange(prefixes[0].len() as int, name.len() as int))
    } else {
        stripped_of(name, prefixes.drop_first())
    }
}

/// The path, relative to the game directory, of the archive entry `name`
/// if it lies under one of the override directories `prefixes`: what is
/// left of the name behind the first prefix that it begins with and is
/// longer than. An entry under none of them is no override.
pub fn strip_override(name: &str, prefixes: &Vec<String>) -> (relative: Option<String>)
    ensures
        relative.deep_view() == stripped_of(name@, prefixes.deep_view()),
{
    let ghost all = prefixes.deep_view();
    let chars = chars_of(name);
    let s = chars.as_slice();
    let mut i: usize = 0;
    assert(all.skip(0) =~= all);
    while i < prefixes.len()
        invariant
            i <= prefixes@.len(),
            all == prefixes.deep_view(),
            s@ == name@,
            stripped_of(name@, all) == stripped_of(name@, all.skip(i as int)),
        decreases prefixes@.len() - i,
    {
        proof {
            assert(all.skip(i as int)[0] == prefixes@[i as int]@);
            assert(all.skip(i as int).drop_first() =~= all.skip(i + 1));
        }
        let prefix = chars_of(prefixes[i].as_str());
        if starts_with(s, prefix.as_slice()) && s.len() > prefix.len() {
            return Some(string_of_range(s, prefix.len(), s.len()));
        }
        i += 1;
    }
    None
}

} // verus!
