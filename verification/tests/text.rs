use lib::text::{chars_of, has_prefix, has_suffix, less_chars, same_chars, string_of};

#[test]
fn chars_and_strings_round_trip() {
    let cs = chars_of("héllo");
    assert_eq!(cs, vec!['h', 'é', 'l', 'l', 'o']);
    assert_eq!(string_of(&cs), "héllo".to_string());
    assert_eq!(string_of(&[]), String::new());
}

#[test]
fn prefixes_and_suffixes() {
    let s = chars_of("libfoo.rlib");
    assert!(has_prefix(&s, &chars_of("lib")));
    assert!(!has_prefix(&s, &chars_of("foo")));
    assert!(has_suffix(&s, &chars_of(".rlib")));
    assert!(!has_suffix(&s, &chars_of(".so")));
    assert!(!has_prefix(&chars_of("li"), &chars_of("lib")));
}

#[test]
fn lexicographic_order() {
    assert!(less_chars(&chars_of("abc"), &chars_of("abd")));
    assert!(less_chars(&chars_of("ab"), &chars_of("abc")));
    assert!(!less_chars(&chars_of("abc"), &chars_of("abc")));
    assert!(!less_chars(&chars_of("b"), &chars_of("abc")));
    assert!(less_chars(&chars_of("Z"), &chars_of("a")));
    assert!(same_chars(&chars_of("x"), &chars_of("x")));
    assert!(!same_chars(&chars_of("x"), &chars_of("xy")));
}
