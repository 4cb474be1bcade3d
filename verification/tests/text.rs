use social_credit_bot::text::{int_to_string, is_whitespace, nat_to_string, same_text, split_words};

#[test]
fn decimal_notation() {
    assert_eq!(nat_to_string(0), "0");
    assert_eq!(nat_to_string(1234567890), "1234567890");
    assert_eq!(nat_to_string(u64::MAX), u64::MAX.to_string());
    assert_eq!(int_to_string(-42), "-42");
    assert_eq!(int_to_string(i64::MIN), i64::MIN.to_string());
    assert_eq!(int_to_string(i64::MAX), i64::MAX.to_string());
}

#[test]
fn words_split_like_split_whitespace() {
    for s in ["", "  ", "a", " a  b\tc\n", "!leaderboard\u{00A0}total", "x\u{3000}y z"] {
        let expected: Vec<String> = s.split_whitespace().map(|w| w.to_string()).collect();
        assert_eq!(split_words(s), expected);
    }
}

#[test]
fn whitespace_class_matches_std() {
    for c in ['\t', '\n', '\u{0B}', ' ', '\u{85}', '\u{A0}', '\u{1680}', '\u{2000}', '\u{200A}', '\u{2028}', '\u{3000}', 'a', '!', '\u{200B}'] {
        assert_eq!(is_whitespace(c), c.is_whitespace());
    }
}

#[test]
fn text_equality() {
    assert!(same_text("héllo", "héllo"));
    assert!(!same_text("hello", "hell"));
    assert!(!same_text("abc", "abd"));
}
