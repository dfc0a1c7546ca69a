use ob_handlers::json::{flag_field, int_field, nat_field, text_field};
use ob_handlers::lists::{rank, top, Scored};
use ob_handlers::text::{
    blank, byte_len, contains, decimal_text, dollars_text, find, join, remove_char, replace_char,
    same, starts_with, suffix_after_first, suffix_after_last,
};
use ob_handlers::time::{
    elapsed_minutes, elapsed_nanos, elapsed_seconds, now, read_instant, Timestamp,
};

fn json(s: &str) -> serde_json::Value {
    serde_json::from_str(s).unwrap()
}

#[test]
fn texts_are_compared_and_searched() {
    assert!(same("é", "é"));
    assert!(!same("e", "é"));
    assert!(!same("a", "ab"));
    assert_eq!(find("aXbXc", "X"), Some(1));
    assert_eq!(find("éX", "X"), Some(1));
    assert_eq!(find("abc", ""), Some(0));
    assert_eq!(find("ab", "abc"), None);
    assert!(contains("hello", "ell") && !contains("hello", "elo"));
    assert!(starts_with("hello", "he") && !starts_with("he", "hello"));
    assert_eq!(suffix_after_first("a:b:c", ':'), "b:c");
    assert_eq!(suffix_after_last("a:b:c", ':'), "c");
    assert_eq!(suffix_after_last("abc", ':'), "abc");
    assert_eq!(remove_char(" a b ", ' '), "ab");
    assert_eq!(replace_char("a:b:", ':', '_'), "a_b_");
    assert_eq!(join(&["a", "", "bc"]), "abc");
    assert_eq!(byte_len("aé"), 3);
}

#[test]
fn white_space_is_unicode_white_space() {
    for n in 0..0x11_0000u32 {
        if let Some(c) = char::from_u32(n) {
            let listed = matches!(
                n,
                0x09..=0x0d
                    | 0x20
                    | 0x85
                    | 0xa0
                    | 0x1680
                    | 0x2000..=0x200a
                    | 0x2028
                    | 0x2029
                    | 0x202f
                    | 0x205f
                    | 0x3000
            );
            assert_eq!(c.is_whitespace(), listed, "{n:x}");
        }
    }
    assert!(blank("") && blank(" \t\u{3000}") && !blank(" x "));
}

#[test]
fn numbers_are_written_in_decimal() {
    for n in [0u128, 9, 10, 99, 100, 12345, u128::MAX] {
        assert_eq!(decimal_text(n), n.to_string());
    }
    for n in [0i64, -1, 7, -10, i64::MAX, i64::MIN] {
    }
    assert_eq!(dollars_text(0), "0.00");
    assert_eq!(dollars_text(-5), "-0.05");
    assert_eq!(dollars_text(123_456), "1234.56");
}

#[test]
fn numbers_of_documents() {
    let doc = json(
        r#"{"a": 9223372036854775807, "b": 9223372036854775808, "c": -1, "d": 1.0, "e": "1", "f": true}"#,
    );
    assert_eq!(int_field(&doc, "a"), Some(i64::MAX));
    assert_eq!(int_field(&doc, "b"), None);
    assert_eq!(nat_field(&doc, "b"), Some(9_223_372_036_854_775_808));
    assert_eq!((int_field(&doc, "c"), nat_field(&doc, "c")), (Some(-1), None));
    assert_eq!((int_field(&doc, "d"), nat_field(&doc, "d")), (None, None));
    assert_eq!((int_field(&doc, "e"), text_field(&doc, "e")), (None, Some("1")));
    assert_eq!((flag_field(&doc, "f"), flag_field(&doc, "a")), (Some(true), None));
    assert_eq!(text_field(&json("[1]"), "a"), None);
    assert_eq!(text_field(&json("\"a\""), "a"), None);
}

#[test]
fn instants_are_read_in_utc() {
    let doc = json(r#"{"a": "2026-03-10T08:00:00.25-04:00", "b": "2016-12-31T23:59:60.5Z", "c": 5}"#);
    let a = read_instant(&doc, "a").unwrap();
    assert_eq!(a, Timestamp { secs: 1_773_144_000, nanos: 250_000_000 });
    let b = read_instant(&doc, "b").unwrap();
    assert_eq!(b, Timestamp { secs: 1_483_228_799, nanos: 1_500_000_000 });
    assert!(read_instant(&doc, "c").is_none());
    assert!(now().after(a) || a.after(now()));
}

#[test]
fn differences_agree_with_the_calendar() {
    let texts = [
        "2016-12-31T23:59:60.5Z",
        "2016-12-31T23:59:59.25Z",
        "2017-01-01T00:00:00Z",
        "2016-12-30T23:59:60.75Z",
        "2016-12-31T12:00:00.999999999Z",
        "1969-12-31T23:59:59.5Z",
        "1955-06-01T03:04:05Z",
        "2400-01-01T00:00:00.000000001Z",
    ];
    for x in texts {
        for y in texts {
            let doc = json(&format!(r#"{{"x": "{x}", "y": "{y}"}}"#));
            let (a, b) = (read_instant(&doc, "x").unwrap(), read_instant(&doc, "y").unwrap());
            let p = chrono::DateTime::parse_from_rfc3339(x).unwrap();
            let q = chrono::DateTime::parse_from_rfc3339(y).unwrap();
            let d = p - q;
            assert_eq!(elapsed_seconds(a, b), d.num_seconds(), "{x} {y}");
            assert_eq!(elapsed_minutes(a, b), d.num_minutes(), "{x} {y}");
            let limit = chrono::Duration::hours(23);
            assert_eq!(elapsed_nanos(a, b) < 23 * 3600 * 1_000_000_000, d < limit, "{x} {y}");
            assert_eq!(a.after(b), p > q, "{x} {y}");
        }
    }
}

#[test]
fn ranking_is_stable() {
    let list = |v: &[(u64, &str)]| -> Vec<Scored> {
        v.iter().map(|(s, i)| Scored { score: *s, id: i.to_string() }).collect()
    };
    let shown = |v: Vec<Scored>| -> String { v.iter().map(|s| s.id.as_str()).collect() };
    let v = list(&[(1, "a"), (3, "b"), (1, "c"), (3, "d"), (2, "e")]);
    assert_eq!(shown(rank(&v)), "bdeac");
    assert_eq!(shown(top(&v, 3)), "bde");
    assert_eq!(shown(top(&v, 9)), "bdeac");
    assert_eq!(shown(top(&v, 0)), "");
}
