use claude_session::text::join_path;
use claude_session::text::shorten;
use claude_session::text::str_eq;
use claude_session::text::to_hex;

#[test]
fn strings_are_equal_when_their_characters_are() {
    assert!(str_eq("", ""));
    assert!(str_eq("type", "type"));
    assert!(str_eq("h\u{e9}llo", "h\u{e9}llo"));
    assert!(!str_eq("type", "typo"));
    assert!(!str_eq("type", "types"));
    assert!(!str_eq("", "a"));
    assert!(!str_eq("\u{e9}", "e"));
}

#[test]
fn short_text_is_not_cut() {
    assert_eq!(shorten("", 3), "");
    assert_eq!(shorten("abc", 3), "abc");
    assert_eq!(shorten("hello", 50), "hello");
}

#[test]
fn long_text_is_cut_to_the_limit() {
    assert_eq!(shorten("abcd", 3), "...");
    assert_eq!(shorten("abcdefghij", 8), "abcde...");
    assert_eq!(shorten("\u{4e16}\u{754c}\u{4e16}\u{754c}\u{4e16}\u{754c}", 5), "\u{4e16}\u{754c}...");
}

#[test]
fn paths_are_joined_with_one_separator() {
    assert_eq!(join_path("/home/ann", "x"), "/home/ann/x");
    assert_eq!(join_path("/home/ann/", "x"), "/home/ann/x");
    assert_eq!(join_path("", "x"), "x");
    assert_eq!(join_path("/", "x"), "/x");
    assert_eq!(join_path("a", ""), "a/");
    assert_eq!(join_path("rel", "a/b"), "rel/a/b");
}

#[test]
fn absolute_name_stands_alone() {
    assert_eq!(join_path("/home/ann", "/etc"), "/etc");
    assert_eq!(join_path("", "/etc"), "/etc");
}

#[test]
fn join_agrees_with_the_path_type_of_std() {
    for (base, name) in [("/home/ann", "x"), ("/home/ann/", "x"), ("", "x"), ("/a", "/b"), ("a", "b/c"), ("a", "")] {
        let expected = std::path::Path::new(base).join(name);
        assert_eq!(join_path(base, name), expected.to_str().unwrap(), "{:?} {:?}", base, name);
    }
}

#[test]
fn numbers_in_hexadecimal() {
    assert_eq!(to_hex(0), "0");
    assert_eq!(to_hex(9), "9");
    assert_eq!(to_hex(10), "a");
    assert_eq!(to_hex(15), "f");
    assert_eq!(to_hex(16), "10");
    assert_eq!(to_hex(255), "ff");
    assert_eq!(to_hex(4096), "1000");
    assert_eq!(to_hex(0xdead_beef), "deadbeef");
    assert_eq!(to_hex(u64::MAX), "ffffffffffffffff");
    assert_eq!(to_hex(0x0123_4567_89ab_cdef), "123456789abcdef");
}

#[test]
fn hexadecimal_agrees_with_the_formatter_of_std() {
    let mut n: u64 = 1;
    for _ in 0..200 {
        n = n.wrapping_mul(6364136223846793005).wrapping_add(1442695040888963407);
        assert_eq!(to_hex(n), format!("{:x}", n));
        assert_eq!(to_hex(n >> 40), format!("{:x}", n >> 40));
    }
}

#[test]
fn limit_below_three_leaves_only_the_dots() {
    assert_eq!(shorten("abcd", 2), "...");
    assert_eq!(shorten("abcd", 0), "...");
    assert_eq!(shorten("ab", 2), "ab");
    assert_eq!(shorten("", 0), "");
}
