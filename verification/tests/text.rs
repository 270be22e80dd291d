use aadk::text::{
    bool_text, cat2, cat3, cat4, cat5, cat7, cat9, chars_of, clone_texts, end_with_newline,
    ends_with, eq_ignore_case, find_char, i32_text, i64_text, is_blank, is_text_before,
    is_white_space, join, parse_i64, parse_list_tokens, parse_u32, parse_words, split,
    strip_prefix, text_eq, to_lower, trim, trim_owned, u32_text, u64_text, usize_text,
};

#[test]
fn white_space_is_what_std_calls_white_space() {
    for code in 0u32..0x11_0000 {
        if let Some(c) = char::from_u32(code) {
            assert_eq!(is_white_space(c), c.is_whitespace(), "code {code:x}");
        }
    }
}

#[test]
fn trimming_agrees_with_std() {
    for s in ["", " ", "a", " a ", "\ta b\n", "\u{2003}x\u{a0}", "é ", "  \r\n"] {
        assert_eq!(trim(s), s.trim());
        assert_eq!(trim_owned(s), s.trim());
        assert_eq!(is_blank(s), s.trim().is_empty());
    }
}

#[test]
fn trimming_twice_changes_nothing_more() {
    let once = trim_owned("  \t value with space \n");
    assert_eq!(once, "value with space");
    assert_eq!(trim_owned(&once), once);
    assert!(!once.starts_with(' '));
    assert!(!once.ends_with('\n'));
}

#[test]
fn characters_come_in_order() {
    assert_eq!(chars_of("aé\u{1F600}"), vec!['a', 'é', '\u{1F600}']);
    assert!(chars_of("").is_empty());
}

#[test]
fn texts_are_compared_and_cloned() {
    assert!(text_eq("abc", "abc"));
    assert!(!text_eq("abc", "abd"));
    assert!(!text_eq("abc", "ab"));
    let all = vec!["x".to_string(), "".to_string()];
    assert_eq!(clone_texts(&all), all);
}

#[test]
fn pieces_are_put_together_in_order() {
    assert_eq!(cat2("a", "b"), "ab");
    assert_eq!(cat3("a", "b", "c"), "abc");
    assert_eq!(cat4("a", "b", "c", "d"), "abcd");
    assert_eq!(cat5("a", "b", "c", "d", "e"), "abcde");
    assert_eq!(cat7("a", "b", "c", "d", "e", "f", "g"), "abcdefg");
    assert_eq!(cat9("a", "b", "c", "d", "e", "f", "g", "h", "i"), "abcdefghi");
}

#[test]
fn only_ascii_letters_are_lowered() {
    assert_eq!(to_lower("AbZ-É"), "AbZ-É".to_ascii_lowercase());
    assert!(eq_ignore_case("APK", "apk"));
    assert!(eq_ignore_case("", ""));
    assert!(!eq_ignore_case("É", "é"));
    assert!(!eq_ignore_case("apk", "apks"));
}

#[test]
fn numbers_are_written_in_decimal() {
    for n in [0u64, 1, 9, 10, 99, 100, 65_536, u64::MAX] {
        assert_eq!(u64_text(n), n.to_string());
    }
    for n in [0u32, 7, 4_294_967_295] {
        assert_eq!(u32_text(n), n.to_string());
    }
    for n in [0usize, 512, usize::MAX] {
        assert_eq!(usize_text(n), n.to_string());
    }
    for n in [0i64, -1, 42, i64::MIN, i64::MAX] {
        assert_eq!(i64_text(n), n.to_string());
    }
    for n in [0i32, -5, i32::MIN, i32::MAX] {
        assert_eq!(i32_text(n), n.to_string());
    }
    assert_eq!(bool_text(true), "true");
    assert_eq!(bool_text(false), "false");
}

#[test]
fn numbers_are_read_as_std_reads_them() {
    for s in [
        "", "+", "-", "0", "-0", "+7", "007", "12a", " 1", "1 ", "9223372036854775807",
        "9223372036854775808", "-9223372036854775808", "-9223372036854775809", "--1", "1_000",
        "\u{661}", "99999999999999999999999999",
    ] {
        assert_eq!(parse_i64(s), s.parse::<i64>().ok(), "{s}");
        assert_eq!(parse_u32(s), s.parse::<u32>().ok(), "{s}");
    }
    assert_eq!(parse_u32("4294967295"), Some(u32::MAX));
    assert_eq!(parse_u32("4294967296"), None);
    assert_eq!(parse_u32("-1"), None);
}

#[test]
fn what_is_written_is_read_back() {
    for n in [i64::MIN, -1000, -1, 0, 1, 999, i64::MAX] {
        assert_eq!(parse_i64(&i64_text(n)), Some(n));
    }
}

#[test]
fn joining_and_splitting() {
    let none: Vec<String> = Vec::new();
    assert_eq!(join(&none, ", "), "");
    let two = vec!["a".to_string(), "b".to_string()];
    assert_eq!(join(&two, ", "), "a, b");
    for s in ["", "a", "a,b", ",", "a,,b,", "\n"] {
        let expected: Vec<String> = s.split(',').map(|x| x.to_string()).collect();
        assert_eq!(split(s, ','), expected);
    }
}

#[test]
fn list_tokens_are_separated_by_commas_and_white_space() {
    assert_eq!(parse_list_tokens(" a, b\tc,,d \n"), vec!["a", "b", "c", "d"]);
    assert!(parse_list_tokens(" , ,\n").is_empty());
    assert!(parse_list_tokens("").is_empty());
    for token in parse_list_tokens("x,\u{2003}y z") {
        assert!(!token.is_empty());
        assert!(!token.contains(','));
        assert!(!token.contains(char::is_whitespace));
    }
}

#[test]
fn words_keep_their_commas() {
    let raw = "-Pa=1,2  --info\n-x";
    let expected: Vec<String> = raw.split_whitespace().map(|x| x.to_string()).collect();
    assert_eq!(parse_words(raw), expected);
    assert_eq!(parse_words(raw), vec!["-Pa=1,2", "--info", "-x"]);
}

#[test]
fn prefixes_suffixes_and_places() {
    assert_eq!(strip_prefix("~/a", "~/"), Some("a"));
    assert_eq!(strip_prefix("é/a", "é"), Some("/a"));
    assert_eq!(strip_prefix("a", "ab"), None);
    assert_eq!(strip_prefix("a", ""), Some("a"));
    assert!(ends_with("x.zip", ".zip"));
    assert!(!ends_with("zip", ".zip"));
    assert_eq!(end_with_newline("a".to_string()), "a\n");
    assert_eq!(end_with_newline("a\n".to_string()), "a\n");
    assert_eq!(end_with_newline(String::new()), "\n");
    assert_eq!(find_char("éa=b=c", '='), Some(2));
    assert_eq!(find_char("abc", '='), None);
}

#[test]
fn texts_are_ordered_as_std_orders_them() {
    let all = ["", "a", "aa", "ab", "b", "Z", "é", "\u{ffff}", "\u{10000}"];
    for a in all {
        for b in all {
            assert_eq!(is_text_before(a, b), a < b, "{a} {b}");
        }
    }
}

#[test]
fn the_order_of_texts_is_total_and_transitive() {
    assert!(is_text_before("apk", "mapping"));
    assert!(!is_text_before("mapping", "apk"));
    assert!(is_text_before("a", "b") && is_text_before("b", "c") && is_text_before("a", "c"));
    assert!(!is_text_before("same", "same"));
}
