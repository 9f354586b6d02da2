use meetily::text::{replace, replacen, str_equal, str_lt, strip_suffix, u64_to_string};

#[test]
fn replace_all_and_first_n() {
    assert_eq!(replace("a{}b{}c", "{}", "X"), "aXbXc");
    assert_eq!(replacen("a{}b{}c", "{}", "X", 1), "aXb{}c");
    assert_eq!(replacen("a{}b{}c", "{}", "X", 0), "a{}b{}c");
    assert_eq!(replace("aaa", "aa", "b"), "ba");
    assert_eq!(replace("", "{}", "X"), "");
    assert_eq!(replace("خلال {} دقائق", "{}", "٣"), "خلال ٣ دقائق");
}

#[test]
fn suffix_equality_and_order() {
    assert_eq!(strip_suffix("a.json", ".json"), Some("a"));
    assert_eq!(strip_suffix("json", ".json"), None);
    assert!(str_equal("ar", "ar"));
    assert!(!str_equal("ar", "arr"));
    assert!(str_lt("a", "b"));
    assert!(str_lt("ab", "abc"));
    assert!(!str_lt("abc", "ab"));
    assert!(!str_lt("x", "x"));
    assert!(str_lt("Z", "a"));
    assert!(str_lt("z", "é"));
}

#[test]
fn decimal_notation() {
    assert_eq!(u64_to_string(0), "0");
    assert_eq!(u64_to_string(7), "7");
    assert_eq!(u64_to_string(10), "10");
    assert_eq!(u64_to_string(1_000_200), "1000200");
    assert_eq!(u64_to_string(u64::MAX), u64::MAX.to_string());
}
