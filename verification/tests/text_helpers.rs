use moro_host::text::{
    chars_of, contains_char, decimal_string, escape_path, find_char, find_char_from, find_from,
    join_three, join_two, matches_at, str_equal, string_of, string_of_range, strip_prefix, trim,
    trim_end_char, trim_start_char,
};

fn chars(s: &str) -> Vec<char> {
    s.chars().collect()
}

#[test]
fn chars_and_strings_convert_both_ways() {
    assert_eq!(chars_of("héllo"), vec!['h', 'é', 'l', 'l', 'o']);
    assert_eq!(string_of(&chars("héllo")), "héllo");
    assert_eq!(string_of_range(&chars("abcdef"), 2, 4), "cd");
    assert_eq!(string_of_range(&chars("abc"), 1, 1), "");
}

#[test]
fn concat_joins_in_order() {
    assert_eq!(join_two("ab", "cd"), "abcd");
    assert_eq!(join_three("a", "", "c"), "ac");
}

#[test]
fn str_equal_compares_texts() {
    assert!(str_equal("abc", "abc"));
    assert!(!str_equal("abc", "abd"));
    assert!(!str_equal("abc", "ab"));
}

#[test]
fn matches_at_checks_position_and_bounds() {
    assert!(matches_at(&chars("hello"), &chars("ll"), 2));
    assert!(!matches_at(&chars("hello"), &chars("ll"), 1));
    assert!(!matches_at(&chars("hello"), &chars("lo!"), 3));
    assert!(matches_at(&chars("hello"), &chars(""), 5));
    assert!(!matches_at(&chars("hello"), &chars(""), 6));
}

#[test]
fn find_from_gives_the_first_occurrence() {
    assert_eq!(find_from(&chars("a,b,c"), &chars(","), 0), Some(1));
    assert_eq!(find_from(&chars("a,b,c"), &chars(","), 2), Some(3));
    assert_eq!(find_from(&chars("a,b,c"), &chars(","), 4), None);
    assert_eq!(find_from(&chars("abc"), &chars(""), 3), Some(3));
    assert_eq!(find_from(&chars("abc"), &chars("x"), 7), None);
}

#[test]
fn find_char_gives_the_length_where_nothing_is_found() {
    assert_eq!(find_char(&chars("ab\ncd"), '\n'), 2);
    assert_eq!(find_char(&chars("abcd"), '\n'), 4);
    assert_eq!(find_char_from(&chars("a\nb\nc"), 2, '\n'), 3);
    assert_eq!(find_char_from(&chars("a\nb"), 2, '\n'), 3);
    assert!(contains_char(&chars("a<b"), '<'));
    assert!(!contains_char(&chars("ab"), '<'));
}

#[test]
fn trim_start_char_removes_the_whole_run() {
    assert_eq!(trim_start_char("..txt", '.'), "txt");
    assert_eq!(trim_start_char("txt", '.'), "txt");
    assert_eq!(trim_start_char("...", '.'), "");
    assert_eq!(trim_start_char(".a.b", '.'), "a.b");
}

#[test]
fn trim_end_char_removes_the_whole_run() {
    assert_eq!(trim_end_char("http://x//", '/'), "http://x");
    assert_eq!(trim_end_char("http://x", '/'), "http://x");
    assert_eq!(trim_end_char("///", '/'), "");
}

#[test]
fn trim_removes_white_space_at_both_ends() {
    assert_eq!(trim("  a b \r\n"), "a b");
    assert_eq!(trim("\u{3000}x\u{a0}"), "x");
    assert_eq!(trim(" \t "), "");
    assert_eq!(trim(""), "");
}

/// The characters with the Unicode property `White_Space`.
fn listed_as_white_space(c: char) -> bool {
    matches!(
        c as u32,
        0x09..=0x0d
            | 0x20
            | 0x85
            | 0xa0
            | 0x1680
            | 0x2000..=0x200a
            | 0x2028
            | 0x2029
            | 0x202f
            | 0x205f
            | 0x3000
    )
}

#[test]
fn trim_takes_exactly_the_listed_characters_for_white_space() {
    let mut white = 0;
    for c in '\0'..=char::MAX {
        let trimmed_away = trim(c.to_string().as_str()).is_empty();
        assert_eq!(trimmed_away, listed_as_white_space(c), "U+{:04X}", c as u32);
        assert_eq!(c.is_whitespace(), listed_as_white_space(c), "U+{:04X}", c as u32);
        if trimmed_away {
            white += 1;
        }
    }
    assert_eq!(white, 25);
}

#[test]
fn strip_prefix_removes_one_copy() {
    assert_eq!(strip_prefix("data: {}", "data: "), Some("{}".to_string()));
    assert_eq!(strip_prefix("data:{}", "data: "), None);
    assert_eq!(strip_prefix("aab", "a"), Some("ab".to_string()));
    assert_eq!(strip_prefix("appApi_appApi_x", "appApi_"), Some("appApi_x".to_string()));
    assert_eq!(strip_prefix("x", ""), Some("x".to_string()));
}

#[test]
fn escape_path_doubles_backslashes() {
    assert_eq!(escape_path("C:\\plugins\\a\\index.js"), "C:\\\\plugins\\\\a\\\\index.js");
    assert_eq!(escape_path("/plugins/a/index.js"), "/plugins/a/index.js");
    assert_eq!(escape_path(""), "");
}

#[test]
fn decimal_string_prints_without_leading_zeros() {
    assert_eq!(decimal_string(0), "0");
    assert_eq!(decimal_string(9), "9");
    assert_eq!(decimal_string(10), "10");
    assert_eq!(decimal_string(8000), "8000");
    assert_eq!(decimal_string(u64::MAX), "18446744073709551615");
}
