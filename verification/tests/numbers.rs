use tablesoccer::decimal::chars_to_i32;
use tablesoccer::decimal::i32_to_string;
use tablesoccer::decimal::i64_to_chars;
use tablesoccer::decimal::parse_i32;
use tablesoccer::decimal::usize_to_string;
use tablesoccer::text::chars_of;
use tablesoccer::text::same_text;
use tablesoccer::words::join_chars;
use tablesoccer::words::split_chars;

#[test]
fn decimal_numbers_are_read() {
    assert_eq!(parse_i32("0"), Some(0));
    assert_eq!(parse_i32("1985"), Some(1985));
    assert_eq!(parse_i32("-12"), Some(-12));
    assert_eq!(parse_i32("+7"), Some(7));
    assert_eq!(parse_i32("007"), Some(7));
    assert_eq!(parse_i32("-0"), Some(0));
    assert_eq!(parse_i32("2147483647"), Some(i32::MAX));
    assert_eq!(parse_i32("-2147483648"), Some(i32::MIN));
    assert_eq!(parse_i32("00000000000000000000002147483647"), Some(i32::MAX));
}

#[test]
fn other_texts_are_no_numbers() {
    assert_eq!(parse_i32(""), None);
    assert_eq!(parse_i32("-"), None);
    assert_eq!(parse_i32("+"), None);
    assert_eq!(parse_i32("+-1"), None);
    assert_eq!(parse_i32("--1"), None);
    assert_eq!(parse_i32(" 1"), None);
    assert_eq!(parse_i32("1 "), None);
    assert_eq!(parse_i32("12a"), None);
    assert_eq!(parse_i32("1.5"), None);
    assert_eq!(parse_i32("unknown"), None);
    assert_eq!(parse_i32("2147483648"), None);
    assert_eq!(parse_i32("-2147483649"), None);
    assert_eq!(parse_i32("99999999999999999999999999"), None);
    assert_eq!(parse_i32("\u{665}"), None);
}

#[test]
fn reading_agrees_with_the_standard_library() {
    let samples = [
        "", "0", "-", "+", "1", "-1", "+1", "++1", "1-", "01", "-01", "2147483647",
        "2147483648", "-2147483648", "-2147483649", "21474836470", "abc", "1e3", "0x10", " 5",
        "5 ", "1_000", "\u{a0}1", "12345678901234567890",
    ];
    for s in samples {
        assert_eq!(parse_i32(s), s.parse::<i32>().ok());
        assert_eq!(chars_to_i32(&s.chars().collect()), s.parse::<i32>().ok());
    }
}

#[test]
fn numbers_are_written() {
    assert_eq!(i32_to_string(0), "0");
    assert_eq!(i32_to_string(7), "7");
    assert_eq!(i32_to_string(-7), "-7");
    assert_eq!(i32_to_string(1985), "1985");
    assert_eq!(i32_to_string(i32::MAX), "2147483647");
    assert_eq!(i32_to_string(i32::MIN), "-2147483648");
    assert_eq!(usize_to_string(0), "0");
    assert_eq!(usize_to_string(1000), "1000");
    assert_eq!(usize_to_string(usize::MAX), usize::MAX.to_string());
    assert_eq!(i64_to_chars(i64::MIN).iter().collect::<String>(), i64::MIN.to_string());
    assert_eq!(i64_to_chars(i64::MAX).iter().collect::<String>(), i64::MAX.to_string());
}

#[test]
fn writing_and_reading_give_the_number_back() {
    for n in [0, 1, -1, 9, 10, 99, 100, -100, 2010, i32::MAX, i32::MIN, i32::MIN + 1] {
        assert_eq!(parse_i32(&i32_to_string(n)), Some(n));
    }
}

#[test]
fn texts_are_compared_by_their_characters() {
    assert!(same_text("", ""));
    assert!(same_text("true", "true"));
    assert!(!same_text("true", "True"));
    assert!(!same_text("true", "true "));
    assert_eq!(chars_of("a\u{e9}z"), vec!['a', '\u{e9}', 'z']);
}

fn split(s: &str) -> Vec<String> {
    split_chars(&s.chars().collect(), ' ').iter().map(|w| w.iter().collect()).collect()
}

#[test]
fn splitting_at_spaces() {
    assert_eq!(split(""), vec![""]);
    assert_eq!(split("a"), vec!["a"]);
    assert_eq!(split("a b"), vec!["a", "b"]);
    assert_eq!(split(" a"), vec!["", "a"]);
    assert_eq!(split("a "), vec!["a", ""]);
    assert_eq!(split("a  b"), vec!["a", "", "b"]);
    assert_eq!(split(" "), vec!["", ""]);
    for s in ["", " ", "x y z", "  lead", "trail  ", "VAN DER BERG Jan"] {
        let expected: Vec<String> = s.split(" ").map(String::from).collect();
        assert_eq!(split(s), expected);
    }
}

#[test]
fn joining_gives_the_text_back() {
    for s in ["", " ", "x y z", "  lead", "trail  ", "VAN DER BERG Jan"] {
        let parts = split_chars(&s.chars().collect(), ' ');
        let joined: String = join_chars(&parts, ' ').iter().collect();
        assert_eq!(joined, s);
    }
    let none: Vec<Vec<char>> = Vec::new();
    assert_eq!(join_chars(&none, ' '), Vec::<char>::new());
    let parts = vec![vec!['a'], vec![], vec!['b', 'c']];
    assert_eq!(join_chars(&parts, '-'), vec!['a', '-', '-', 'b', 'c']);
}
