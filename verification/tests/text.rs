use media_manager_client::text::{
    chars_of, join_strings, parse_u64, push_decimal, replace_str, trim_start_str,
};

#[test]
fn replace_every_occurrence() {
    assert_eq!(replace_str("/a/{job_id}/b/{job_id}", "{job_id}", "42"), "/a/42/b/42");
    assert_eq!(replace_str("no placeholder", "{job_id}", "42"), "no placeholder");
    assert_eq!(replace_str("aaa", "aa", "b"), "ba");
    assert_eq!(replace_str("{job_id}", "{job_id}", ""), "");
    assert_eq!(replace_str("é{x}ü", "{x}", "ß"), "éßü");
}

#[test]
fn replace_matches_std() {
    for (s, p, t) in [("abcabc", "bc", "X"), ("xxxx", "xx", "y"), ("", "a", "b"), ("ab", "abc", "z"), ("ab", "", "-"), ("", "", "x"), ("é", "", "[]")] {
        assert_eq!(replace_str(s, p, t), s.replace(p, t));
    }
}

#[test]
fn trim_leading_slashes() {
    assert_eq!(trim_start_str("///api/x/", '/'), "api/x/");
    assert_eq!(trim_start_str("api", '/'), "api");
    assert_eq!(trim_start_str("///", '/'), "");
    assert_eq!(trim_start_str("", '/'), "");
}

#[test]
fn parse_u64_like_std() {
    for s in ["0", "5", "+7", "007", "18446744073709551615", "18446744073709551616", "", "+", "-1", " 5", "5 ", "1a", "-0", "++1"] {
        assert_eq!(parse_u64(s), s.parse::<u64>().ok(), "input {:?}", s);
    }
}

#[test]
fn decimal_numerals() {
    for n in [0u64, 7, 10, 99, 12345, u64::MAX] {
        let mut s = String::from("x");
        push_decimal(&mut s, n);
        assert_eq!(s, format!("x{}", n));
        assert_eq!(parse_u64(&s[1..]), Some(n));
    }
}

#[test]
fn join_with_separator() {
    let parts = vec!["a".to_string(), "b".to_string(), "c".to_string()];
    assert_eq!(join_strings(&parts, ", "), "a, b, c");
    assert_eq!(join_strings(&vec!["x".to_string()], ", "), "x");
    assert_eq!(join_strings(&Vec::new(), ", "), "");
}

#[test]
fn chars_in_order() {
    assert_eq!(chars_of("héllo"), vec!['h', 'é', 'l', 'l', 'o']);
    assert_eq!(chars_of(""), Vec::<char>::new());
}
