use dropout_core::text::{
    chars_of, concat2, concat3, contains, decimal_chars, decimal_string, ends_with, find_from,
    find_text, is_space, matches_at, parse_u32, replace_all, same_chars, same_text, scan_until,
    starts_with, string_of, string_of_range, trim_range,
};

fn c(s: &str) -> Vec<char> {
    s.chars().collect()
}

#[test]
fn strings_and_characters_convert_both_ways() {
    assert_eq!(chars_of("héllo"), vec!['h', 'é', 'l', 'l', 'o']);
    assert_eq!(chars_of(""), Vec::<char>::new());
    assert_eq!(string_of(&c("héllo")), "héllo");
    assert_eq!(string_of_range(&c("héllo"), 1, 3), "él");
    assert_eq!(string_of_range(&c("héllo"), 2, 2), "");
    assert_eq!(concat2("ab", "cd"), "abcd");
    assert_eq!(concat3("ab", "", "cd"), "abcd");
}

#[test]
fn equality_of_texts() {
    assert!(same_text("abc", "abc"));
    assert!(same_text("", ""));
    assert!(!same_text("abc", "abd"));
    assert!(!same_text("abc", "ab"));
    assert!(!same_text("", "a"));
    assert!(same_chars(&c("xy"), &c("xy")));
    assert!(!same_chars(&c("xy"), &c("yx")));
}

#[test]
fn searching() {
    let s = c("abcabc");
    assert!(matches_at(&s, &c("bc"), 1));
    assert!(!matches_at(&s, &c("bc"), 2));
    assert!(matches_at(&s, &c(""), 6));
    assert!(!matches_at(&s, &c(""), 7));
    assert!(!matches_at(&s, &c("abcabcd"), 0));
    assert_eq!(find_text(&s, &c("bc")), Some(1));
    assert_eq!(find_from(&s, &c("bc"), 2), Some(4));
    assert_eq!(find_from(&s, &c("bc"), 5), None);
    assert_eq!(find_from(&s, &c(""), 6), Some(6));
    assert_eq!(find_from(&s, &c(""), 7), None);
    assert_eq!(find_text(&s, &c("x")), None);
    assert_eq!(find_text(&c(""), &c("")), Some(0));
    assert!(contains(&s, &c("cab")));
    assert!(contains(&s, &c("")));
    assert!(!contains(&s, &c("cb")));
    assert!(starts_with(&s, &c("abc")));
    assert!(starts_with(&s, &c("")));
    assert!(!starts_with(&s, &c("bc")));
    assert!(ends_with(&s, &c("abc")));
    assert!(ends_with(&s, &c("")));
    assert!(!ends_with(&s, &c("ab")));
    assert!(!ends_with(&c("c"), &c("bc")));
    assert_eq!(scan_until(&s, 'c', 0), 2);
    assert_eq!(scan_until(&s, 'c', 3), 5);
    assert_eq!(scan_until(&s, 'x', 0), 6);
    assert_eq!(scan_until(&s, 'a', 6), 6);
}

#[test]
fn decimal_numerals() {
    assert_eq!(decimal_string(0), "0");
    assert_eq!(decimal_string(7), "7");
    assert_eq!(decimal_string(10), "10");
    assert_eq!(decimal_string(1048576), "1048576");
    assert_eq!(decimal_string(u64::MAX), "18446744073709551615");
    assert_eq!(decimal_chars(905), vec!['9', '0', '5']);
}

#[test]
fn reading_numbers() {
    assert_eq!(parse_u32(&c("0")), Some(0));
    assert_eq!(parse_u32(&c("17")), Some(17));
    assert_eq!(parse_u32(&c("+17")), Some(17));
    assert_eq!(parse_u32(&c("0017")), Some(17));
    assert_eq!(parse_u32(&c("4294967295")), Some(u32::MAX));
    assert_eq!(parse_u32(&c("4294967296")), None);
    assert_eq!(parse_u32(&c("")), None);
    assert_eq!(parse_u32(&c("+")), None);
    assert_eq!(parse_u32(&c("-1")), None);
    assert_eq!(parse_u32(&c("++1")), None);
    assert_eq!(parse_u32(&c("1+")), None);
    assert_eq!(parse_u32(&c(" 1")), None);
    assert_eq!(parse_u32(&c("1_0")), None);
    assert_eq!(parse_u32(&c("١")), None);
    for text in ["0", "+5", "12", "007", "4294967295", "4294967296", "", "+", "a", "1a"] {
        assert_eq!(parse_u32(&c(text)), text.parse::<u32>().ok(), "{}", text);
    }
}

#[test]
fn white_space_is_what_unicode_says() {
    for code in 0u32..0x3100 {
        if let Some(ch) = char::from_u32(code) {
            assert_eq!(is_space(ch), ch.is_whitespace(), "{:x}", code);
        }
    }
}

#[test]
fn trimming() {
    let s = c("  \tab c\r\n ");
    assert_eq!(trim_range(&s, 0, s.len()), "ab c");
    assert_eq!(trim_range(&s, 3, 7), "ab c");
    assert_eq!(trim_range(&s, 0, 3), "");
    assert_eq!(trim_range(&s, 5, 6), "");
    assert_eq!(trim_range(&s, 4, 4), "");
    for text in ["", " ", "a", " a", "a ", " a b ", "\u{3000}x\u{a0}", "\n\n"] {
        let chars = c(text);
        assert_eq!(trim_range(&chars, 0, chars.len()), text.trim(), "{:?}", text);
    }
}

#[test]
fn replacing() {
    let r = |s: &str, from: &str, to: &str| string_of(&replace_all(&c(s), &c(from), &c(to)));
    assert_eq!(r("a${x}b${x}", "${x}", "1"), "a1b1");
    assert_eq!(r("aaa", "aa", "b"), "ba");
    assert_eq!(r("aaaa", "aa", "b"), "bb");
    assert_eq!(r("abc", "abc", ""), "");
    assert_eq!(r("abc", "abcd", "x"), "abc");
    assert_eq!(r("", "a", "x"), "");
    assert_eq!(r("abc", "b", "bb"), "abbc");
    // an empty pattern occurs nowhere
    assert_eq!(r("abc", "", "x"), "abc");
    for (s, from, to) in [("a-b-c", "-", "+"), ("xxxx", "xx", "y"), ("héllo", "l", "L"), ("ab", "ab", "abab")] {
        assert_eq!(r(s, from, to), s.replace(from, to));
    }
}
