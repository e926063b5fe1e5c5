use train_tracker::text::{
    chars_of, contains_chars, fields_of, lines_of, mentions_one_of, parse_number, same_text,
    signed_chars, string_of, text_or,
};

fn chars(s: &str) -> Vec<char> {
    s.chars().collect()
}

#[test]
fn characters_round_trip_through_text() {
    assert_eq!(chars_of("Sanremo è qui"), chars("Sanremo è qui"));
    assert_eq!(chars_of(""), Vec::<char>::new());
    assert_eq!(string_of(&chars("Sanremo è qui")), "Sanremo è qui");
    assert_eq!(string_of(&Vec::new()), "");
}

#[test]
fn signed_counts_are_written_with_their_sign() {
    assert_eq!(string_of(&signed_chars(0)), "0");
    assert_eq!(string_of(&signed_chars(7)), "+7");
    assert_eq!(string_of(&signed_chars(-3)), "-3");
    assert_eq!(string_of(&signed_chars(120)), "+120");
    assert_eq!(string_of(&signed_chars(-1005)), "-1005");
    assert_eq!(string_of(&signed_chars(i64::MAX)), "+9223372036854775807");
    assert_eq!(string_of(&signed_chars(i64::MIN)), "-9223372036854775808");
}

#[test]
fn absent_text_falls_back() {
    assert_eq!(text_or(&None, "--"), "--");
    assert_eq!(text_or(&Some("GENOVA".to_string()), "--"), "GENOVA");
    assert!(same_text("a", "a"));
    assert!(!same_text("a", "A"));
    assert!(same_text("", ""));
}

#[test]
fn fields_follow_the_separators() {
    assert_eq!(fields_of("a|b|c", '|'), vec!["a", "b", "c"]);
    assert_eq!(fields_of("abc", '|'), vec!["abc"]);
    assert_eq!(fields_of("", '|'), vec![""]);
    assert_eq!(fields_of("a|", '|'), vec!["a", ""]);
    assert_eq!(fields_of("|a", '|'), vec!["", "a"]);
    assert_eq!(fields_of("||", '|'), vec!["", "", ""]);
}

#[test]
fn fields_agree_with_the_standard_split() {
    for text in ["x-y-z", "--", "no separator", "-", "a--b", "tail-"] {
        let expected: Vec<String> = text.split('-').map(|s| s.to_string()).collect();
        assert_eq!(fields_of(text, '-'), expected);
    }
}

#[test]
fn lines_end_at_line_feeds() {
    assert_eq!(lines_of("a\nb\nc"), vec!["a", "b", "c"]);
    assert_eq!(lines_of("a\nb\n"), vec!["a", "b"]);
    assert_eq!(lines_of("a\r\nb\r\n"), vec!["a", "b"]);
    assert_eq!(lines_of(""), Vec::<String>::new());
    assert_eq!(lines_of("\n"), vec![""]);
    assert_eq!(lines_of("\n\n"), vec!["", ""]);
    assert_eq!(lines_of("a\r"), vec!["a\r"]);
    assert_eq!(lines_of("a\r\r\nb"), vec!["a\r", "b"]);
}

#[test]
fn lines_agree_with_the_standard_lines() {
    for text in ["one", "one\n", "one\ntwo", "\r\n", "a\rb\nc", "\n\nend", "x\r\n\r\ny", "\r"] {
        let expected: Vec<String> = text.lines().map(|s| s.to_string()).collect();
        assert_eq!(lines_of(text), expected);
    }
}

#[test]
fn needle_is_found_anywhere() {
    assert!(contains_chars(&chars("REG 1234 - VENTIMIGLIA"), &chars("VENTIMIGLIA")));
    assert!(contains_chars(&chars("VENTIMIGLIA"), &chars("VENTIMIGLIA")));
    assert!(contains_chars(&chars("abc"), &chars("")));
    assert!(contains_chars(&chars(""), &chars("")));
    assert!(!contains_chars(&chars("VENTIMIGLI"), &chars("VENTIMIGLIA")));
    assert!(!contains_chars(&chars(""), &chars("a")));
    assert!(contains_chars(&chars("aab"), &chars("ab")));
    assert!(!contains_chars(&chars("aba"), &chars("bb")));
}

#[test]
fn one_of_several_names_is_enough() {
    let names = vec!["ALBENGA".to_string(), "ALASSIO".to_string()];
    assert!(mentions_one_of("IC 631 ALASSIO", &names));
    assert!(!mentions_one_of("IC 631 GENOVA", &names));
    assert!(!mentions_one_of("IC 631 ALASSIO", &Vec::new()));
}

#[test]
fn numbers_are_read_from_decimal_digits() {
    assert_eq!(parse_number(&chars("0"), 100), Some(0));
    assert_eq!(parse_number(&chars("42"), 100), Some(42));
    assert_eq!(parse_number(&chars("+42"), 100), Some(42));
    assert_eq!(parse_number(&chars("007"), 100), Some(7));
    assert_eq!(parse_number(&chars("100"), 100), Some(100));
    assert_eq!(parse_number(&chars("101"), 100), None);
    assert_eq!(parse_number(&chars(""), 100), None);
    assert_eq!(parse_number(&chars("+"), 100), None);
    assert_eq!(parse_number(&chars("-1"), 100), None);
    assert_eq!(parse_number(&chars("4 2"), 100), None);
    assert_eq!(parse_number(&chars("42x"), 100), None);
    assert_eq!(parse_number(&chars("++1"), 100), None);
    assert_eq!(parse_number(&chars("٣"), 100), None);
}

#[test]
fn numbers_agree_with_the_standard_parse() {
    for text in ["4294967295", "4294967296", "18446744073709551615", "18446744073709551616", "0000000000000000000001", "+0", "99999999999999999999999"] {
        assert_eq!(parse_number(&chars(text), u32::MAX as u64), text.parse::<u32>().ok().map(u64::from));
        assert_eq!(parse_number(&chars(text), u64::MAX), text.parse::<u64>().ok());
    }
}
