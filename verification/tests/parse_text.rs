use chat_guard::parse::{parse_amount, parse_i64_str, parse_user_id, trim_chars};
use chat_guard::strings::{chars_of, i64_to_string};
use chat_guard::text::clear_text;

#[test]
fn parse_amount_plain_number() {
    assert_eq!(parse_amount("50"), 50);
    assert_eq!(parse_amount("  50  "), 50);
    assert_eq!(parse_amount("+7"), 7);
    assert_eq!(parse_amount("-3"), -3);
}

#[test]
fn parse_amount_thousands_suffix() {
    assert_eq!(parse_amount("5k"), 5000);
    assert_eq!(parse_amount("5K"), 5000);
    assert_eq!(parse_amount("5к"), 5000);
    assert_eq!(parse_amount(" 12К "), 12000);
}

#[test]
fn parse_amount_thousands_wraps() {
    assert_eq!(parse_amount("9223372036854775807k"), i64::MAX.wrapping_mul(1000));
}

#[test]
fn parse_amount_links_are_minus_one() {
    assert_eq!(parse_amount("http://example.com"), -1);
    assert_eq!(parse_amount("HTTPS://x"), -1);
    assert_eq!(parse_amount("see t.me/+abc"), -1);
    assert_eq!(parse_amount("T.ME/abc"), -1);
}

#[test]
fn parse_amount_other_text_is_zero() {
    assert_eq!(parse_amount("abc"), 0);
    assert_eq!(parse_amount(""), 0);
    assert_eq!(parse_amount("5kk"), 0);
    assert_eq!(parse_amount("k"), 0);
    assert_eq!(parse_amount("5 k"), 0);
    assert_eq!(parse_amount("99999999999999999999"), 0);
}

#[test]
fn parse_amount_reads_back_numbers() {
    for x in [0i64, 1, 42, -42, 1_000_000, i64::MIN, i64::MAX] {
        let text = x.to_string();
        assert_eq!(parse_amount(&text), x);
        assert_eq!(parse_amount(&format!("{}k", text)), x.wrapping_mul(1000));
        assert_eq!(parse_amount(&format!("{}к", text)), x.wrapping_mul(1000));
    }
}

#[test]
fn parse_i64_follows_str_parse() {
    for s in ["0", "+0", "-0", "123", "-9223372036854775808", "9223372036854775807", "9223372036854775808", "", "+", "-", "1a", " 1", "٣"] {
        assert_eq!(parse_i64_str(s), s.parse::<i64>().ok(), "{s}");
    }
}

#[test]
fn parse_user_id_forms() {
    assert_eq!(parse_user_id("123"), Some(123));
    assert_eq!(parse_user_id("-5"), Some(-5));
    assert_eq!(parse_user_id("_100"), Some(-100));
    assert_eq!(parse_user_id("_1001234567890"), Some(-1001234567890));
    assert_eq!(parse_user_id("_"), None);
    assert_eq!(parse_user_id("_-5"), None);
    assert_eq!(parse_user_id("abc"), None);
    assert_eq!(parse_user_id(""), None);
}

#[test]
fn parse_user_id_reads_back_identifiers() {
    for x in [0i64, 7, -7, i64::MIN, i64::MAX] {
        assert_eq!(parse_user_id(&x.to_string()), Some(x));
        if x < 0 {
            let digits = x.to_string()[1..].to_string();
            assert_eq!(parse_user_id(&format!("_{digits}")), Some(x));
        }
    }
}

#[test]
fn trim_removes_unicode_white_space() {
    let t = trim_chars(&chars_of("\u{3000} a b \t\n"));
    assert_eq!(t, vec!['a', ' ', 'b']);
    let e = trim_chars(&chars_of("   "));
    assert!(e.is_empty());
}

#[test]
fn decimal_text_of_integers() {
    for x in [0i64, 5, -5, 1234567890, i64::MIN, i64::MAX] {
        assert_eq!(i64_to_string(x), x.to_string());
    }
}

#[test]
fn clear_text_keeps_words() {
    assert_eq!(clear_text("  Hello,   World! ".to_string()), "Hello World");
    assert_eq!(clear_text("Иван-Петров 123".to_string()), "Иван Петров 123");
    assert_eq!(clear_text("!!!".to_string()), "");
    assert_eq!(clear_text(String::new()), "");
    assert_eq!(clear_text("a__b".to_string()), "a b");
}

#[test]
fn clear_text_is_idempotent() {
    for s in ["  Hello,   World! ", "✨ Star ✨ 42 ✨", "x", "..a..b.."] {
        let once = clear_text(s.to_string());
        let twice = clear_text(once.clone());
        assert_eq!(once, twice);
        assert!(!once.starts_with(' ') && !once.ends_with(' ') && !once.contains("  "));
    }
}
