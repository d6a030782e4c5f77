//! Text and numbers.
use loom::decimal::fixed;
use loom::decimal::parse_i64;
use loom::decimal::signed;
use loom::decimal::unsigned;
use loom::duration::Duration;
use loom::number::saturate;
use loom::text::is_blank;
use loom::text::less;
use loom::text::same;
use loom::text::split;
use loom::text::split_once;
use loom::wall_clock::to_unix_millis;

#[test]
fn numbers_are_written_and_read_back() {
    for n in [0, 1, -1, 42, i64::MAX, i64::MIN] {
        assert_eq!(signed(n), n.to_string());
        assert_eq!(parse_i64(&signed(n)), Some(n));
        assert_eq!(parse_i64(&n.to_string()), n.to_string().parse().ok());
    }
    assert_eq!(unsigned(u64::MAX), u64::MAX.to_string());
    assert_eq!(fixed(42, 5), "00042");
    for bad in ["", "-", "+", "1 ", "1.5", "x", "9223372036854775808"] {
        assert_eq!(parse_i64(bad), None);
    }
    assert_eq!(parse_i64("+7"), Some(7));
}

#[test]
fn text_is_compared_and_cut() {
    assert!(same("ab", "ab") && !same("ab", "abc"));
    assert!(less("ab", "abc") && less("a", "b") && !less("b", "a") && !less("a", "a"));
    assert_eq!(split("a.b..c", '.'), vec!["a", "b", "", "c"]);
    assert_eq!(split("", '.'), vec![""]);
    assert_eq!(split_once("a:b:c", ':'), Some(("a".to_owned(), "b:c".to_owned())));
    assert_eq!(split_once("abc", ':'), None);
    for white in ["", " ", "\t\n\u{b}\u{c}\r", "\u{85}\u{a0}\u{2028}\u{3000}"] {
        assert!(is_blank(white) && white.trim().is_empty());
    }
    assert!(!is_blank(" x ") && !is_blank("\u{200b}"));
}

#[test]
fn spans_and_clocks_saturate() {
    assert_eq!(saturate(i128::MAX), i64::MAX);
    assert_eq!(saturate(i128::MIN), i64::MIN);
    assert_eq!(saturate(-3), -3);
    assert_eq!(to_unix_millis(None), 0);
    assert_eq!(to_unix_millis(Some(5)), 5);
    assert_eq!(to_unix_millis(Some(u128::MAX)), i64::MAX);
    assert_eq!(Duration::from_secs(2).as_millis(), 2_000);
    assert_eq!(Duration::from_millis(3).as_nanos(), 3_000_000);
}
