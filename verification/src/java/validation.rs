//! Reading what a Java runtime prints about itself, and comparing versions.

use vstd::prelude::*;
use vstd::slice::slice_subrange;

use crate::text::{
    chars_of, contains, contains_text, lines_from, lines_of, lowercase, lowercase_of, parse_u32,
    parse_u32_spec, pieces_of, run_until, same_chars, scan_until, string_of_range,
};

verus! {

/// The text between the first two double quotes of `line`, if it has two.
pub open spec fn quoted_in(line: Seq<char>) -> Option<Seq<char>> {
    let open = run_until(line, '"', 0) as int;
    let close = open + 1 + run_until(line, '"', open + 1);
    if open < line.len() && close < line.len() {
        Some(line.subrange(open + 1, close))
    } else {
        None
    }
}

/// The version that `line` states: the line names a `version` and quotes a
/// text.
pub open spec fn version_of_line(line: Seq<char>) -> Option<Seq<char>> {
    if contains_text(line, "version"@) {
        quoted_in(line)
    } else {
        None
    }
}

/// The version stated by the first of `lines` that states one.
pub open spec fn first_version(lines: Seq<Seq<char>>) -> Option<Seq<char>>
    decreases lines.len(),
{
    if lines.len() == 0 {
        None
    } else {
        match version_of_line(lines[0]) {
            Some(v) => Some(v),
            None => first_version(lines.drop_first()),
        }
    }
}

/// The text of an optional string.
pub open spec fn text_of(s: Option<String>) -> Option<Seq<char>> {
    match s {
        Some(t) => Some(t@),
        None => None,
    }
}

/// The version that the line `s[from..to]` states.
fn version_in_line(s: &[char], from: usize, to: usize) -> (version: Option<String>)
    requires
        from <= to <= s@.len(),
    ensures
        text_of(version) == version_of_line(s@.subrange(from as int, to as int)),
{
    let line = slice_subrange(s, from, to);
    let word = chars_of("version");
    if !contains(line, word.as_slice()) {
        return None;
    }
    let open = scan_until(line, '"', 0);
    if open >= line.len() {
        return None;
    }
    let close = scan_until(line, '"', open + 1);
    if close >= line.len() {
        return None;
    }
    Some(string_of_range(line, open + 1, close))
}

/// The version in the output of `java -version`: on the first line that
/// holds the word `version` and two double quotes, the text between the
/// first two quotes. Lines end at a line feed.
pub fn parse_version_string(output: &str) -> (version: Option<String>)
    ensures
        text_of(version) == first_version(lines_of(output@)),
{
    let chars = chars_of(output);
    let s = chars.as_slice();
    let mut pos: usize = 0;
    while pos < s.len()
        invariant
            pos <= s@.len(),
            s@ == output@,
            first_version(lines_of(s@)) == first_version(lines_from(s@, pos as int)),
        decreases s@.len() - pos,
    {
        let end = scan_until(s, '\n', pos);
        let found = version_in_line(s, pos, end);
        proof {
            let rest = lines_from(s@, pos as int);
            assert(rest[0] == s@.subrange(pos as int, end as int));
            if end < s@.len() {
                assert(rest.drop_first() =~= lines_from(s@, end + 1));
            } else {
                assert(rest.drop_first() =~= Seq::<Seq<char>>::empty());
                assert(first_version(rest.drop_first()) is None);
            }
        }
        if found.is_some() {
            return found;
        }
        if end >= s.len() {
            return None;
        }
        pos = end + 1;
    }
    None
}

/// The number a text denotes, or zero where it denotes none.
pub open spec fn number_or_zero(s: Seq<char>) -> u32 {
    match parse_u32_spec(s) {
        Some(n) => n,
        None => 0,
    }
}

/// The major version that a version text stands for. The text is cut at
/// its dots. A first piece of `1` marks the old scheme (`1.8.0_301` is
/// Java 8): the second piece is the major version. Otherwise the first
/// piece is. A piece that is no number, or a missing one, counts as zero.
pub open spec fn major_version_of(version: Seq<char>) -> u32 {
    let pieces = pieces_of(version, '.');
    if pieces[0] == "1"@ {
        if pieces.len() > 1 {
            number_or_zero(pieces[1])
        } else {
            0
        }
    } else {
        number_or_zero(pieces[0])
    }
}

/// The major version that a version text stands for.
pub fn parse_java_version(version: &str) -> (major: u32)
    ensures
        major == major_version_of(version@),
{
    let chars = chars_of(version);
    let s = chars.as_slice();
    let one = chars_of("1");
    let first_end = scan_until(s, '.', 0);
    let first = slice_subrange(s, 0, first_end);
    if same_chars(first, one.as_slice()) {
        if first_end >= s.len() {
            0
        } else {
            let second_end = scan_until(s, '.', first_end + 1);
            let second = slice_subrange(s, first_end + 1, second_end);
            proof {
                let rest = crate::text::pieces_from(s@, '.', first_end + 1);
                assert(rest[0] == second@);
                assert(pieces_of(s@, '.')[1] == rest[0]);
            }
            match parse_u32(second) {
                Some(n) => n,
                None => 0,
            }
        }
    } else {
        match parse_u32(first) {
            Some(n) => n,
            None => 0,
        }
    }
}

/// The architecture named in the output of `java -version`.
pub open spec fn architecture_of(output: Seq<char>) -> Seq<char> {
    if contains_text(output, "64-Bit"@) {
        "x64"@
    } else if contains_text(output, "32-Bit"@) {
        "x86"@
    } else if contains_text(output, "aarch64"@) || contains_text(output, "ARM64"@) {
        "aarch64"@
    } else {
        "x64"@
    }
}

/// The architecture named in the output of `java -version`: `x64` for
/// `64-Bit`, else `x86` for `32-Bit`, else `aarch64` for `aarch64` or
/// `ARM64`, else `x64`.
pub fn extract_architecture(version_output: &str) -> (arch: String)
    ensures
        arch@ == architecture_of(version_output@),
{
    let chars = chars_of(version_output);
    let s = chars.as_slice();
    if contains(s, chars_of("64-Bit").as_slice()) {
        "x64".to_string()
    } else if contains(s, chars_of("32-Bit").as_slice()) {
        "x86".to_string()
    } else if contains(s, chars_of("aarch64").as_slice()) || contains(
        s,
        chars_of("ARM64").as_slice(),
    ) {
        "aarch64".to_string()
    } else {
        "x64".to_string()
    }
}

/// The vendor that lower-case output names. The vendors are tried in the
/// order written here, and the first whose mark occurs decides; output
/// without any mark is of an unknown vendor.
pub open spec fn vendor_of(lower: Seq<char>) -> Seq<char> {
    if contains_text(lower, "temurin"@) {
        "Temurin (Eclipse)"@
    } else if contains_text(lower, "adoptium"@) {
        "Eclipse Adoptium"@
    } else if contains_text(lower, "corretto"@) {
        "Corretto (Amazon)"@
    } else if contains_text(lower, "amzn"@) {
        "Corretto (Amazon)"@
    } else if contains_text(lower, "dragonwell"@) {
        "Dragonwell (Alibaba)"@
    } else if contains_text(lower, "albba"@) {
        "Dragonwell (Alibaba)"@
    } else if contains_text(lower, "graalvm"@) {
        "GraalVM"@
    } else if contains_text(lower, "oracle"@) {
        "Java SE Development Kit (Oracle)"@
    } else if contains_text(lower, "kona"@) {
        "Kona (Tencent)"@
    } else if contains_text(lower, "liberica"@) {
        "Liberica (Bellsoft)"@
    } else if contains_text(lower, "mandrel"@) {
        "Mandrel (Red Hat)"@
    } else if contains_text(lower, "microsoft"@) {
        "OpenJDK (Microsoft)"@
    } else if contains_text(lower, "sapmachine"@) {
        "SapMachine (SAP)"@
    } else if contains_text(lower, "semeru"@) {
        "Semeru (IBM)"@
    } else if contains_text(lower, "sem"@) {
        "Semeru (IBM)"@
    } else if contains_text(lower, "zulu"@) {
        "Zulu (Azul Systems)"@
    } else if contains_text(lower, "trava"@) {
        "Trava (Trava)"@
    } else if contains_text(lower, "bisheng"@) {
        "BiSheng (Huawei)"@
    } else if contains_text(lower, "openjdk"@) {
        "OpenJDK"@
    } else {
        "Unknown"@
    }
}

/// Whether `key` occurs in `s`.
fn has(s: &[char], key: &str) -> (found: bool)
    ensures
        found == contains_text(s@, key@),
{
    let pattern = chars_of(key);
    contains(s, pattern.as_slice())
}

/// The vendor that lower-case output names: the name that belongs to the
/// first mark, in the order of `vendor_of`, that occurs in `lower`, and
/// `Unknown` where none occurs.
pub fn vendor_of_lowercase(lower: &str) -> (vendor: String)
    ensures
        vendor@ == vendor_of(lower@),
{
    let chars = chars_of(lower);
    let s = chars.as_slice();
    if has(s, "temurin") {
        "Temurin (Eclipse)".to_string()
    } else if has(s, "adoptium") {
        "Eclipse Adoptium".to_string()
    } else if has(s, "corretto") {
        "Corretto (Amazon)".to_string()
    } else if has(s, "amzn") {
        "Corretto (Amazon)".to_string()
    } else if has(s, "dragonwell") {
        "Dragonwell (Alibaba)".to_string()
    } else if has(s, "albba") {
        "Dragonwell (Alibaba)".to_string()
    } else if has(s, "graalvm") {
        "GraalVM".to_string()
    } else if has(s, "oracle") {
        "Java SE Development Kit (Oracle)".to_string()
    } else if has(s, "kona") {
        "Kona (Tencent)".to_string()
    } else if has(s, "liberica") {
        "Liberica (Bellsoft)".to_string()
    } else if has(s, "mandrel") {
        "Mandrel (Red Hat)".to_string()
    } else if has(s, "microsoft") {
        "OpenJDK (Microsoft)".to_string()
    } else if has(s, "sapmachine") {
        "SapMachine (SAP)".to_string()
    } else if has(s, "semeru") {
        "Semeru (IBM)".to_string()
    } else if has(s, "sem") {
        "Semeru (IBM)".to_string()
    } else if has(s, "zulu") {
        "Zulu (Azul Systems)".to_string()
    } else if has(s, "trava") {
        "Trava (Trava)".to_string()
    } else if has(s, "bisheng") {
        "BiSheng (Huawei)".to_string()
    } else if has(s, "openjdk") {
        "OpenJDK".to_string()
    } else {
        "Unknown".to_string()
    }
}

/// The vendor named in the output of `java -version`, found in its
/// lower-case form.
pub fn extract_vendor(version_output: &str) -> (vendor: String)
    ensures
        vendor@ == vendor_of(lowercase_of(version_output@)),
{
    let lower = lowercase(version_output);
    vendor_of_lowercase(lower.as_str())
}

/// Whether a major version lies within the bounds asked for. The lower
/// bound counts by its low 32 bits.
pub open spec fn version_within(major: u32, required: Option<u64>, max: Option<u32>) -> bool {
    &&& required matches Some(r) ==> major >= r % 0x1_0000_0000
    &&& max matches Some(m) ==> major <= m
}

/// Whether the major version `major` is at least the required one, if one
/// is required, and at most the highest allowed, if there is one.
pub fn is_version_compatible(
    major: u32,
    required_major_version: Option<u64>,
    max_major_version: Option<u32>,
) -> (ok: bool)
    ensures
        ok == version_within(major, required_major_version, max_major_version),
{
    let meets_min = match required_major_version {
        Some(r) => {
            let low: u64 = r % 0x1_0000_0000;
            (major as u64) >= low
        },
        None => true,
    };
    let meets_max = match max_major_version {
        Some(m) => major <= m,
        None => true,
    };
    meets_min && meets_max
}

} // verus!
