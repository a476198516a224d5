use deemix_bot::text::{
    before, capitalize, contains, drop_suffix, eq_ignore_ascii_case, i64_text, join, parse_i64,
    parse_u8, percent_encode, replace, replace_char, replace_once, same, shorten, split_char,
    split_whitespace, starts_with, strip_prefix, trim, u64_text, usize_text,
};

#[test]
fn trimming_takes_white_space_of_every_kind() {
    assert_eq!(trim("  hello \n"), "hello");
    assert_eq!(trim("\u{a0}\u{3000}x y\u{2003}"), "x y");
    assert_eq!(trim(" \t\r\n "), "");
    assert_eq!(trim(""), "");
    // A zero-width space is no white space.
    assert_eq!(trim("\u{200b}a"), "\u{200b}a");
}

#[test]
fn words_are_split_and_joined() {
    let words = split_whitespace("  one\ttwo \n three ");
    assert_eq!(words, vec!["one", "two", "three"]);
    assert_eq!(join(&words, ", "), "one, two, three");
    assert!(split_whitespace("   ").is_empty());
    assert_eq!(join(&Vec::new(), "-"), "");
}

#[test]
fn pieces_between_a_character() {
    assert_eq!(split_char("1,2,,3", ','), vec!["1", "2", "", "3"]);
    assert_eq!(split_char("", ','), vec![""]);
    assert_eq!(before("a?b?c", '?'), "a");
    assert_eq!(before("abc", '?'), "abc");
}

#[test]
fn prefixes_and_suffixes() {
    assert!(starts_with("vt:12", "vt:"));
    assert!(!starts_with("v", "vt:"));
    assert_eq!(strip_prefix("dl:x", "dl:"), Some("x".to_string()));
    assert_eq!(strip_prefix("vt:x", "dl:"), None);
    assert_eq!(drop_suffix("Muse - Topic", " - Topic"), "Muse");
    assert_eq!(drop_suffix("Muse", " - Topic"), "Muse");
    assert!(contains("a - b", " - "));
    assert!(!contains("a-b", " - "));
    assert!(same("🎵", "🎵"));
    assert!(!same("🎵", "🎶"));
}

#[test]
fn replacing_all_and_once() {
    assert_eq!(replace("aXbXX", "X", "yy"), "ayybyyyy");
    assert_eq!(replace("aaa", "aa", "b"), "ba");
    assert_eq!(replace_once("http://http", "http", "ws"), "ws://http");
    assert_eq!(replace_once("ftp", "http", "ws"), "ftp");
    assert_eq!(replace_char("a|b|", '|', ' '), "a b ");
}

#[test]
fn letter_case() {
    assert_eq!(capitalize("track"), "Track");
    assert_eq!(capitalize("YouTube link"), "YouTube link");
    assert_eq!(capitalize("4k"), "4k");
    assert_eq!(capitalize("éa"), "Éa");
    assert_eq!(capitalize("ßa"), "SSa");
    assert_eq!(capitalize(""), "");
    assert!(eq_ignore_ascii_case("NotLoggedIn", "notloggedin"));
    assert!(!eq_ignore_ascii_case("NotLoggedIn!", "notloggedin"));
    assert!(!eq_ignore_ascii_case("É", "é"));
}

#[test]
fn numbers_are_written_in_decimal() {
    assert_eq!(u64_text(0), "0");
    assert_eq!(u64_text(u64::MAX), "18446744073709551615");
    assert_eq!(usize_text(1050), "1050");
    assert_eq!(i64_text(i64::MIN), "-9223372036854775808");
    assert_eq!(i64_text(-7), "-7");
}

#[test]
fn numbers_are_read_as_std_reads_them() {
    for text in [
        "0", "-0", "+5", "-", "+", "", "007", " 1", "1 ", "1_0", "9223372036854775807",
        "9223372036854775808", "-9223372036854775808", "-9223372036854775809", "٣",
    ] {
        assert_eq!(parse_i64(text), text.parse::<i64>().ok(), "{:?}", text);
        assert_eq!(parse_u8(text), text.parse::<u8>().ok(), "{:?}", text);
    }
    for text in ["255", "256", "+255", "-1", "-0"] {
        assert_eq!(parse_u8(text), text.parse::<u8>().ok(), "{:?}", text);
    }
}

#[test]
fn a_written_number_reads_back() {
    for n in [i64::MIN, -1, 0, 42, i64::MAX] {
        assert_eq!(parse_i64(i64_text(n).as_str()), Some(n));
    }
}

#[test]
fn long_texts_are_shortened_by_characters() {
    assert_eq!(shorten("abcdef", 6), "abcdef");
    assert_eq!(shorten("abcdefg", 6), "abcde…");
    assert_eq!(shorten("ééééé", 3), "éé…");
}

#[test]
fn percent_encoding_keeps_only_plain_characters() {
    assert_eq!(percent_encode("AZaz09-_.~"), "AZaz09-_.~");
    assert_eq!(percent_encode("a b&c"), "a%20b%26c");
    assert_eq!(percent_encode("é"), "%C3%A9");
    assert_eq!(percent_encode("🎵"), "%F0%9F%8E%B5");
    assert_eq!(percent_encode(""), "");
}
