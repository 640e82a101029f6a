use dns_filter::net::{join_host_port, show_ip, IpAddr};
use dns_filter::text::{
    byte_len, chars_of, contains_text, equal_ignoring_case, find_from, has_char, join, number,
    parse_number, same, signed_number, split_lines, split_on, starts_with, strip_prefix,
    strip_trailing_dots, text_of, trim, white_space, word_list,
};

#[test]
fn texts_are_cut_and_joined() {
    assert_eq!(split_on("a,b,,c", ','), vec!["a", "b", "", "c"]);
    assert_eq!(split_on("", ','), vec![""]);
    assert_eq!(split_lines("a\r\nb\n\nc"), vec!["a", "b", "", "c"]);
    assert_eq!(split_lines("a\n"), vec!["a"]);
    assert_eq!(word_list("  a \t b\u{3000}c\n"), vec!["a", "b", "c"]);
    let parts = vec!["x".to_string(), "y".to_string()];
    assert_eq!(join(&parts, "; "), "x; y");
    assert_eq!(join(&vec![], "; "), "");
}

#[test]
fn texts_are_searched() {
    assert!(starts_with("dns-query", "dns"));
    assert!(!starts_with("dn", "dns"));
    assert!(contains_text("?mode=rwc", "mode="));
    assert!(contains_text("x", ""));
    assert!(!contains_text("mod", "mode="));
    assert!(has_char("a:b", ':'));
    assert_eq!(find_from(&chars_of("a.b.c"), 2, '.'), 3);
    assert_eq!(find_from(&chars_of("abc"), 0, '.'), 3);
    assert_eq!(strip_prefix("sqlite://x", "sqlite://"), Some("x".to_string()));
    assert_eq!(strip_prefix("x", "sqlite://"), None);
    assert_eq!(text_of(&chars_of("h\u{e9}llo"), 1, 3), "\u{e9}l");
}

#[test]
fn texts_are_compared() {
    assert!(same("a", "a") && !same("a", "A"));
    assert!(equal_ignoring_case("NuLL", "null"));
    assert!(!equal_ignoring_case("\u{c9}", "\u{e9}"));
    assert_eq!(byte_len("\u{e9}a\u{1f600}"), 7);
    assert_eq!(strip_trailing_dots("a.b.."), "a.b");
    assert_eq!(trim("\u{a0} a b \n"), "a b");
    assert!(white_space('\u{85}') && !white_space('_'));
}

#[test]
fn numbers_are_written_and_read() {
    assert_eq!(number(0), "0");
    assert_eq!(number(u64::MAX), "18446744073709551615");
    assert_eq!(signed_number(i64::MIN), "-9223372036854775808");
    assert_eq!(parse_number("+65535", 65535), Some(65535));
    assert_eq!(parse_number("65536", 65535), None);
    assert_eq!(parse_number("", 9), None);
    assert_eq!(parse_number("-1", 9), None);
}

#[test]
fn addresses_are_shown() {
    assert_eq!(show_ip(IpAddr::V6(0x2001_0db8_0000_0000_0000_0000_0000_0001)), "2001:db8::1");
    assert_eq!(join_host_port("::1", 53), "[::1]:53");
    assert_eq!(join_host_port("127.0.0.1", 53), "127.0.0.1:53");
}
