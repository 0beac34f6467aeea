use exam_server::query::parse_query_string;
use exam_server::text::{i64_to_string, parse_i64, str_contains, str_eq, string_of, chars_of};

#[test]
fn query_basic_pairs() {
    let q = parse_query_string("user=alice&token=abc");
    assert_eq!(q.get("user").map(|s| s.as_str()), Some("alice"));
    assert_eq!(q.get("token").map(|s| s.as_str()), Some("abc"));
    assert_eq!(q.get("missing"), None);
    assert_eq!(q.len(), 2);
}

#[test]
fn query_later_pair_wins() {
    let q = parse_query_string("a=1&b=2&a=3");
    assert_eq!(q.get("a").map(|s| s.as_str()), Some("3"));
    assert_eq!(q.get("b").map(|s| s.as_str()), Some("2"));
    assert_eq!(q.len(), 2);
    let r = parse_query_string("a=1&a=2");
    assert_eq!(r.get("a").map(|s| s.as_str()), Some("2"));
    assert_eq!(r.len(), 1);
}

#[test]
fn query_segments_without_equals_are_dropped() {
    let q = parse_query_string("flag&x=1&&y");
    assert_eq!(q.len(), 1);
    assert_eq!(q.get("flag"), None);
    assert_eq!(q.get("x").map(|s| s.as_str()), Some("1"));
    let empty = parse_query_string("");
    assert_eq!(empty.len(), 0);
}

#[test]
fn query_value_keeps_later_equals_and_empty_parts() {
    let q = parse_query_string("k=a=b&=v&e=");
    assert_eq!(q.get("k").map(|s| s.as_str()), Some("a=b"));
    assert_eq!(q.get("").map(|s| s.as_str()), Some("v"));
    assert_eq!(q.get("e").map(|s| s.as_str()), Some(""));
    assert_eq!(q.get_or_empty("nothing"), "");
}

#[test]
fn query_concat_law_example() {
    let a = parse_query_string("user=bob&token=t1");
    let b = parse_query_string("token=t2&x=9");
    let ab = parse_query_string("user=bob&token=t1&token=t2&x=9");
    assert_eq!(ab.get("user"), a.get("user"));
    assert_eq!(ab.get("token"), b.get("token"));
    assert_eq!(ab.get("x"), b.get("x"));
}

#[test]
fn query_non_ascii() {
    let q = parse_query_string("名=值&u=ü");
    assert_eq!(q.get("名").map(|s| s.as_str()), Some("值"));
    assert_eq!(q.get("u").map(|s| s.as_str()), Some("ü"));
}

#[test]
fn decimal_formatting() {
    assert_eq!(i64_to_string(0), "0");
    assert_eq!(i64_to_string(7), "7");
    assert_eq!(i64_to_string(-42), "-42");
    assert_eq!(i64_to_string(1234567890), "1234567890");
    assert_eq!(i64_to_string(i64::MAX), i64::MAX.to_string());
    assert_eq!(i64_to_string(i64::MIN), i64::MIN.to_string());
}

#[test]
fn decimal_parsing() {
    assert_eq!(parse_i64("0"), Some(0));
    assert_eq!(parse_i64("+15"), Some(15));
    assert_eq!(parse_i64("-15"), Some(-15));
    assert_eq!(parse_i64("007"), Some(7));
    assert_eq!(parse_i64(""), None);
    assert_eq!(parse_i64("-"), None);
    assert_eq!(parse_i64("+"), None);
    assert_eq!(parse_i64("12a"), None);
    assert_eq!(parse_i64(" 1"), None);
    assert_eq!(parse_i64("9223372036854775807"), Some(i64::MAX));
    assert_eq!(parse_i64("9223372036854775808"), None);
    assert_eq!(parse_i64("-9223372036854775808"), Some(i64::MIN));
    assert_eq!(parse_i64("-9223372036854775809"), None);
    for s in ["0", "+1", "-1", "42", "x", "", "99999999999999999999"] {
        assert_eq!(parse_i64(s), s.parse::<i64>().ok());
    }
}

#[test]
fn decimal_roundtrip_law_example() {
    for v in [0i64, 1, -1, 10, -10, 123456, i64::MAX, i64::MIN] {
        assert_eq!(parse_i64(&i64_to_string(v)), Some(v));
    }
}

#[test]
fn substring_and_equality() {
    assert!(str_contains("/list_user", "list"));
    assert!(str_contains("/list_user", ""));
    assert!(str_contains("abc", "abc"));
    assert!(!str_contains("abc", "abcd"));
    assert!(!str_contains("/paper/1", "/user"));
    assert!(str_eq("tok", "tok"));
    assert!(!str_eq("tok", "Tok"));
    assert!(!str_eq("tok", "toke"));
}

#[test]
fn chars_roundtrip() {
    let cs = chars_of("héllo");
    assert_eq!(cs, vec!['h', 'é', 'l', 'l', 'o']);
    assert_eq!(string_of(&cs), "héllo");
}
