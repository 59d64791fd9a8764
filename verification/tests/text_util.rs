use pike::text::{
    contains, ends_with, eq_ignore_case, file_name_of, parse_u16, parse_u32, parse_u64, path_join,
    replace_char, split_lines, split_once_char, starts_with, str_eq, str_le, to_lower_string,
    trim_ascii, trim_matches_char, trim_trailing_char, u64_to_string,
};

#[test]
fn string_comparisons_are_plain() {
    assert!(str_eq("abc", "abc"));
    assert!(!str_eq("abc", "abd"));
    assert!(starts_with("- hello", "- "));
    assert!(!starts_with("x- hello", "- "));
    assert!(ends_with("pkg.tar.gz", ".tar.gz"));
    assert!(contains("a cluster has already started here", "already started"));
    assert!(!contains("short", "longer than the text"));
}

#[test]
fn lexicographic_order_is_by_character() {
    assert!(str_le("0.1.0", "0.2.0"));
    assert!(str_le("0.10.0", "0.2.0"));
    assert!(!str_le("0.2.0", "0.10.0"));
    assert!(str_le("same", "same"));
}

#[test]
fn case_folding_is_ascii() {
    assert_eq!(to_lower_string("OnLine"), "online");
    assert!(eq_ignore_case("VERSION_ID", "version_id"));
    assert!(!eq_ignore_case("ID", "IDX"));
}

#[test]
fn trimming_strips_whitespace_and_matches() {
    assert_eq!(trim_ascii("  x y \t\n"), "x y");
    assert_eq!(trim_ascii("   "), "");
    assert_eq!(trim_matches_char("\"quoted\"", '"'), "quoted");
    assert_eq!(trim_matches_char("''", '\''), "");
    assert_eq!(trim_trailing_char("a/b///", '/'), "a/b");
}

#[test]
fn decimal_parsing_is_exact() {
    assert_eq!(parse_u64("0"), Some(0));
    assert_eq!(parse_u64("18446744073709551615"), Some(u64::MAX));
    assert_eq!(parse_u64("18446744073709551616"), None);
    assert_eq!(parse_u64(""), None);
    assert_eq!(parse_u64("12a"), None);
    assert_eq!(parse_u64("-1"), None);
    assert_eq!(parse_u16("65535"), Some(65535));
    assert_eq!(parse_u16("65536"), None);
    assert_eq!(parse_u32("4242"), Some(4242));
}

#[test]
fn decimal_formatting_is_exact() {
    assert_eq!(u64_to_string(0), "0");
    assert_eq!(u64_to_string(7), "7");
    assert_eq!(u64_to_string(12345), "12345");
    assert_eq!(u64_to_string(u64::MAX as u64), "18446744073709551615");
}

#[test]
fn line_splitting_matches_console_output_shape() {
    let lines = split_lines("a\nb\r\nc");
    assert_eq!(lines, vec!["a", "b", "c"]);
    assert_eq!(split_lines(""), Vec::<String>::new());
    assert_eq!(split_lines("one\n"), vec!["one"]);
    assert_eq!(split_lines("\n\n"), vec!["", ""]);
}

#[test]
fn splitting_and_file_names() {
    let (k, v) = split_once_char("ID=arch", '=').unwrap();
    assert_eq!(k, "ID");
    assert_eq!(v, "arch");
    let (k, v) = split_once_char("ID=arch=x", '=').unwrap();
    assert_eq!(k, "ID");
    assert_eq!(v, "arch=x");
    assert!(split_once_char("no-equals", '=').is_none());
    assert_eq!(file_name_of("/var/tmp/out/custom-name"), Some("custom-name"));
    assert!(file_name_of("dir/").is_none());
    assert!(file_name_of("a/..").is_none());
}

#[test]
fn path_joining_follows_join_semantics() {
    assert_eq!(path_join("/tmp/build", "custom.tar.gz"), "/tmp/build/custom.tar.gz");
    assert_eq!(path_join("/tmp/build", "/abs/olute"), "/abs/olute");
    assert_eq!(path_join("", "rel"), "rel");
    assert_eq!(path_join("dir/", "x"), "dir/x");
}

#[test]
fn character_replacement_is_total() {
    assert_eq!(replace_char("a b c", ' ', '_'), "a_b_c");
    assert_eq!(replace_char("none", 'x', '_'), "none");
}
