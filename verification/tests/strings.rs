use lib::strings::ScriptStrExt;

#[test]
fn first_and_last_characters() {
    assert_eq!("héllo".first(), "h");
    assert_eq!("héllo".head(), "h");
    assert_eq!("héllo".start(), "h");
    assert_eq!("héllo".begin(), "h");
    assert_eq!("héllo".last(), "o");
    assert_eq!("héllo".tail(), "o");
    assert_eq!("ñ".end(), "ñ");
    assert_eq!("".first(), "");
    assert_eq!("".last(), "");
}

#[test]
fn reverse_reverses_characters() {
    assert_eq!("abc".reverse(), "cba");
    assert_eq!("héllo".reverse(), "olléh");
    assert_eq!("".reverse(), "");
}

#[test]
fn size_counts_bytes() {
    assert_eq!("abc".size(), 3);
    assert_eq!("héllo".length(), 6);
    assert_eq!("".size(), 0);
}

#[test]
fn case_conversions() {
    assert_eq!("Hello".upper(), "HELLO");
    assert_eq!("Hello".to_upper(), "HELLO");
    assert_eq!("Hello".toUpper(), "HELLO");
    assert_eq!("straße".uppercase(), "STRASSE");
    assert_eq!("Hello".lower(), "hello");
    assert_eq!("HeLLo".to_lower(), "hello");
    assert_eq!("ÀB".toLower(), "àb");
    assert_eq!("ABC".lowercase(), "abc");
}

#[test]
fn containment() {
    assert!("hello world".includes("o w"));
    assert!("hello".has(""));
    assert!(!"hello".holds("z"));
    assert!(!"".includes("a"));
}

#[test]
fn search_gives_byte_positions() {
    assert_eq!("hello".search("l"), Some(2));
    assert_eq!("héllo".locate("l"), Some(3));
    assert_eq!("hello".search("z"), None);
    assert_eq!("hello".search(""), Some(0));
    assert_eq!("aéb€c".search("c"), Some(7));
    assert_eq!("abab".locate("ab"), Some(0));
    assert_eq!("xabab".locate("bab"), Some(2));
}

#[test]
fn substitution_replaces_every_occurrence() {
    assert_eq!("a-b-c".substitute("-", "+"), "a+b+c");
    assert_eq!("aaa".swap("a", "bb"), "bbbbbb");
    assert_eq!("abc".substitute("x", "y"), "abc");
    assert_eq!("aaa".substitute("aa", "b"), "ba");
    assert_eq!("aaaa".swap("aa", "b"), "bb");
    assert_eq!("abc".substitute("", "-"), "-a-b-c-");
    assert_eq!("".substitute("", "x"), "x");
    assert_eq!("".substitute("a", "x"), "");
}
