use lumina_convert::text::{
    chars_of, contains_str, decimal_string, join_strings, replace_all, signed_decimal_string,
    str_eq, zero_padded4,
};

#[test]
fn chars_and_equality() {
    assert_eq!(chars_of("a图b"), vec!['a', '图', 'b']);
    assert!(str_eq("照片", "照片"));
    assert!(!str_eq("照片", "照"));
    assert!(!str_eq("abc", "abd"));
    assert!(str_eq("", ""));
}

#[test]
fn replace_matches_std() {
    let cases = [
        ("aaa", "aa", "b"),
        ("{x}{x}", "{x}", "yy"),
        ("no match", "zz", "q"),
        ("图片{x}图片", "图片", "P"),
        ("ab", "abc", "Z"),
        ("", "a", "b"),
        ("xxxx", "xx", "x"),
    ];
    for (s, p, r) in cases {
        assert_eq!(replace_all(s, p, r), s.replace(p, r), "{} {} {}", s, p, r);
    }
}

#[test]
fn contains_matches_std() {
    for (s, p) in [("my_error.jpg", "error"), ("errr", "error"), ("", ""), ("abc", ""), ("é", "é"), ("ab", "abc")] {
        assert_eq!(contains_str(s, p), s.contains(p));
    }
}

#[test]
fn decimal_formatting() {
    assert_eq!(decimal_string(0), "0");
    assert_eq!(decimal_string(7), "7");
    assert_eq!(decimal_string(1920), "1920");
    assert_eq!(decimal_string(u64::MAX), u64::MAX.to_string());
    assert_eq!(signed_decimal_string(-42), "-42");
    assert_eq!(signed_decimal_string(0), "0");
    assert_eq!(signed_decimal_string(i64::MIN), i64::MIN.to_string());
    assert_eq!(signed_decimal_string(i64::MAX), i64::MAX.to_string());
}

#[test]
fn zero_padding() {
    assert_eq!(zero_padded4(0), "0000");
    assert_eq!(zero_padded4(7), "0007");
    assert_eq!(zero_padded4(123), "0123");
    assert_eq!(zero_padded4(1234), "1234");
    assert_eq!(zero_padded4(123456), "123456");
    for n in [0u64, 5, 99, 1000, 9999, 10000, 4242424] {
        assert_eq!(zero_padded4(n), format!("{:04}", n));
    }
}

#[test]
fn joining() {
    let v = vec!["Q=80".to_string(), "strip".to_string()];
    assert_eq!(join_strings(&v, ","), "Q=80,strip");
    assert_eq!(join_strings(&vec![], ","), "");
    assert_eq!(join_strings(&vec!["a".to_string()], ","), "a");
    let w = vec!["a".to_string(), "".to_string(), "c".to_string()];
    assert_eq!(join_strings(&w, ", "), w.join(", "));
}
