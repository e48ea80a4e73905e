use nicolive_chat::text::{
    contains_char, leading_chars, same_text, to_chars, to_decimal, trim, unescape_quotes,
};

#[test]
fn to_chars_lists_characters() {
    assert_eq!(to_chars(""), Vec::<char>::new());
    assert_eq!(to_chars("aé日"), vec!['a', 'é', '日']);
}

#[test]
fn contains_char_finds_a_character() {
    assert!(contains_char("https://x/y?a=b", '?'));
    assert!(!contains_char("https://x/y", '?'));
    assert!(!contains_char("", '?'));
    assert!(contains_char("?", '?'));
    assert!(contains_char("日本語?", '?'));
}

#[test]
fn trim_removes_white_space_at_both_ends() {
    assert_eq!(trim("  a b \n"), "a b");
    assert_eq!(trim("a"), "a");
    assert_eq!(trim(""), "");
    assert_eq!(trim(" \t\r\n"), "");
    assert_eq!(trim("\u{3000}日本 語\u{a0}"), "日本 語");
    assert_eq!(trim("x  "), "x");
    assert_eq!(trim("  x"), "x");
}

#[test]
fn trim_agrees_with_std() {
    for s in ["", " ", "a", " a", "a ", "\n{\"k\": 1}\n  ", "\u{2003}é\u{2028}", "a\u{85}"] {
        assert_eq!(trim(s), s.trim());
    }
}

#[test]
fn unescape_quotes_restores_double_quotes() {
    assert_eq!(unescape_quotes("{&quot;a&quot;:1}"), "{\"a\":1}");
    assert_eq!(unescape_quotes(""), "");
    assert_eq!(unescape_quotes("&quot;"), "\"");
    assert_eq!(unescape_quotes("&quot"), "&quot");
    assert_eq!(unescape_quotes("&amp;quot;"), "&amp;quot;");
    assert_eq!(unescape_quotes("&&quot;;"), "&\";");
    assert_eq!(unescape_quotes("&quot;&quot;"), "\"\"");
    assert_eq!(unescape_quotes("日&quot;本"), "日\"本");
}

#[test]
fn unescape_quotes_agrees_with_std_replace() {
    for s in ["", "&quot;", "a&quot;b&quot;", "&quo&quot;t;", "&quot;&quot;&quot", "&QUOT;"] {
        assert_eq!(unescape_quotes(s), s.replace("&quot;", "\""));
    }
}

#[test]
fn to_decimal_writes_integers() {
    assert_eq!(to_decimal(0), "0");
    assert_eq!(to_decimal(7), "7");
    assert_eq!(to_decimal(10), "10");
    assert_eq!(to_decimal(12345), "12345");
    assert_eq!(to_decimal(-1), "-1");
    assert_eq!(to_decimal(-120), "-120");
    assert_eq!(to_decimal(i64::MAX), "9223372036854775807");
    assert_eq!(to_decimal(i64::MIN), "-9223372036854775808");
}

#[test]
fn to_decimal_agrees_with_std() {
    for n in [0i64, 1, -1, 9, 10, 99, 100, 1_700_000_000, -1_700_000_000, i64::MAX, i64::MIN] {
        assert_eq!(to_decimal(n), n.to_string());
    }
}

#[test]
fn leading_chars_counts_characters() {
    assert_eq!(leading_chars("abcdef", 3), "abc");
    assert_eq!(leading_chars("abc", 3), "abc");
    assert_eq!(leading_chars("ab", 3), "ab");
    assert_eq!(leading_chars("", 3), "");
    assert_eq!(leading_chars("abc", 0), "");
    assert_eq!(leading_chars("日本語です", 2), "日本");
}

#[test]
fn same_text_compares_texts() {
    assert!(same_text("ping", "ping"));
    assert!(!same_text("ping", "pong"));
    assert!(!same_text("ping", "pin"));
    assert!(same_text("", ""));
}
