use helix_term::text::{chars_of, matches_tail, parse_usize, push_decimal, replace, str_eq, string_from_range};

#[test]
fn replacing() {
    assert_eq!(replace("{0}-{0}", "{0}", "x"), "x-x");
    assert_eq!(replace("aaa", "aa", "b"), "ba");
    assert_eq!(replace("none here", "{1}", "x"), "none here");
    assert_eq!(replace("", "a", "b"), "");
}

#[test]
fn numbers() {
    assert_eq!(parse_usize("8080"), Some(8080));
    assert_eq!(parse_usize("+42"), Some(42));
    assert_eq!(parse_usize("007"), Some(7));
    assert_eq!(parse_usize(""), None);
    assert_eq!(parse_usize("+"), None);
    assert_eq!(parse_usize("-1"), None);
    assert_eq!(parse_usize("12a"), None);
    assert_eq!(parse_usize("18446744073709551615"), Some(usize::MAX));
    assert_eq!(parse_usize("18446744073709551616"), None);
    assert_eq!(parse_usize("99999999999999999999x"), None);
    for n in [0usize, 7, 10, 1234567, usize::MAX] {
        let mut s = String::new();
        push_decimal(&mut s, n);
        assert_eq!(s, n.to_string());
        assert_eq!(parse_usize(&s), Some(n));
    }
}

#[test]
fn small_helpers() {
    assert!(str_eq("abc", "abc"));
    assert!(!str_eq("abc", "abd"));
    let v = chars_of("héllo");
    assert_eq!(v.len(), 5);
    assert_eq!(string_from_range(&v, 1, 3), "él");
    assert!(matches_tail("llo", &v, 2));
    assert!(!matches_tail("ll", &v, 2));
}
