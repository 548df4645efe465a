use proxymore::text::{
    after, before, begins, chain, decimal_text, join, matches_ignoring_case, padded_text,
    parse_unsigned, same, split_first, split_last, strip, to_chars,
};

#[test]
fn prefixes() {
    assert!(begins("abc", "ab"));
    assert!(!begins("abc", "b"));
    assert!(begins("abc", ""));
    assert!(!begins("", "a"));
    assert_eq!(strip("/traffic/7", "/traffic/"), Some("7"));
    assert_eq!(strip("/traffics", "/traffic/"), None);
    assert_eq!(strip("äöü", "ä"), Some("öü"));
}

#[test]
fn splits() {
    assert_eq!(split_first("a?b?c", '?'), Some(("a", "b?c")));
    assert_eq!(split_last("a:b:c", ':'), Some(("a:b", "c")));
    assert_eq!(split_first("abc", '?'), None);
    assert_eq!(split_last("abc", ':'), None);
    assert_eq!(before("a?b", '?'), "a");
    assert_eq!(before("ab", '?'), "ab");
    assert_eq!(after("a?b", '?'), "b");
    assert_eq!(after("ab", '?'), "");
}

#[test]
fn equality() {
    assert!(same("ab", "ab"));
    assert!(!same("ab", "aB"));
    assert!(!same("ab", "abc"));
    assert!(matches_ignoring_case("get", "GET"));
    assert!(!matches_ignoring_case("getx", "GET"));
    assert!(!matches_ignoring_case("ä", "Ä"));
}

#[test]
fn numbers_written() {
    assert_eq!(decimal_text(0), "0");
    assert_eq!(decimal_text(1205), "1205");
    assert_eq!(padded_text(7, 5), "00007");
    assert_eq!(padded_text(123456, 5), "123456");
}

#[test]
fn numbers_read() {
    assert_eq!(parse_unsigned("0", 10), Some(0));
    assert_eq!(parse_unsigned("10", 10), Some(10));
    assert_eq!(parse_unsigned("11", 10), None);
    assert_eq!(parse_unsigned("+7", 10), Some(7));
    assert_eq!(parse_unsigned("-7", 10), None);
    assert_eq!(parse_unsigned("", 10), None);
    assert_eq!(parse_unsigned("+", 10), None);
    assert_eq!(parse_unsigned("1x", 10), None);
    assert_eq!(parse_unsigned("007", 10), Some(7));
    assert_eq!(parse_unsigned("18446744073709551615", u64::MAX), Some(u64::MAX));
    assert_eq!(parse_unsigned("18446744073709551616", u64::MAX), None);
}

#[test]
fn joins() {
    assert_eq!(join(&vec![], "\n\n"), "");
    assert_eq!(join(&vec!["a".to_string()], "\n\n"), "a");
    assert_eq!(join(&vec!["a".to_string(), "".to_string(), "c".to_string()], ", "), "a, , c");
    assert_eq!(chain("a", "b"), "ab");
    assert_eq!(to_chars("aé"), vec!['a', 'é']);
}
