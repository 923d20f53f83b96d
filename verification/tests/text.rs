use semantic::text::{
    char_is_whitespace, contains, contains_range, from_chars, matches_at, replace_all, same_text,
    strip_bounds, to_chars, Strip,
};

fn chars(s: &str) -> Vec<char> {
    s.chars().collect()
}

fn stripped(s: &str, what: Strip) -> String {
    let v = chars(s);
    let (a, b) = strip_bounds(&v, 0, v.len(), what);
    from_chars(&v, a, b)
}

#[test]
fn white_space_is_what_the_standard_library_calls_so() {
    let mut code: u32 = 0;
    while code <= 0x10FFFF {
        if let Some(c) = char::from_u32(code) {
            assert_eq!(char_is_whitespace(c), c.is_whitespace(), "on U+{:04X}", code);
        }
        code += 1;
    }
}

#[test]
fn characters_go_in_and_out_unchanged() {
    for s in ["", "a", "héllo wörld", "日本語\n\t", "a\u{0}b"] {
        let v = to_chars(s);
        assert_eq!(v, chars(s));
        assert_eq!(from_chars(&v, 0, v.len()), s);
    }
    let v = chars("héllo");
    assert_eq!(from_chars(&v, 1, 3), "él");
    assert_eq!(from_chars(&v, 2, 2), "");
}

#[test]
fn trimming_is_that_of_the_standard_library() {
    for s in ["", "  ", "a", " a", "a ", " \t a b \r\n", "\u{a0}x\u{3000}", "\u{feff}x", "a\u{200b}"] {
        assert_eq!(stripped(s, Strip::Whitespace), s.trim(), "on {:?}", s);
    }
}

#[test]
fn stripping_a_character_is_that_of_the_standard_library() {
    for s in ["", "\"", "\"\"", "\"a\"", "\"\"a\"b\"\"\"", "a\"", " \"a\" ", "'a'"] {
        assert_eq!(stripped(s, Strip::Char('"')), s.trim_matches('"'), "on {:?}", s);
        assert_eq!(stripped(s, Strip::Char('\'')), s.trim_matches('\''), "on {:?}", s);
    }
    let v = chars("xxaxbxx");
    assert_eq!(strip_bounds(&v, 0, 7, Strip::Char('x')), (2, 5));
    assert_eq!(strip_bounds(&v, 1, 4, Strip::Char('x')), (2, 3));
    assert_eq!(strip_bounds(&v, 0, 2, Strip::Char('x')), (2, 2));
}

#[test]
fn containing_is_that_of_the_standard_library() {
    let cases = [
        ("", ""),
        ("abc", ""),
        ("", "a"),
        ("abc", "abc"),
        ("abc", "bc"),
        ("abc", "abcd"),
        ("aab", "ab"),
        ("abab", "bab"),
        ("héllo", "él"),
        ("hello", "lo "),
        ("schedule meeting", "meeting"),
    ];
    for (hay, needle) in cases {
        assert_eq!(contains(&chars(hay), &chars(needle)), hay.contains(needle), "on {:?}", (hay, needle));
    }
    assert!(contains_range(&chars("x bc y"), &chars("abcd"), 1, 3));
    assert!(!contains_range(&chars("x bc y"), &chars("abcd"), 0, 3));
    assert!(matches_at(&chars("xabc"), 1, &chars("abc"), 0, 3));
    assert!(!matches_at(&chars("xabc"), 0, &chars("abc"), 0, 3));
    assert!(matches_at(&chars("xabc"), 4, &chars("abc"), 1, 1));
}

#[test]
fn replacing_is_that_of_the_standard_library() {
    let cases = [
        ("Say {x} and {x}.", "{x}", "yes"),
        ("{x}", "{x}", ""),
        ("aaa", "aa", "b"),
        ("aaaa", "aa", "b"),
        ("abc", "abcd", "x"),
        ("abc", "c", "{c}"),
        ("", "a", "b"),
        ("héllo", "é", "e"),
        ("{a}{b}", "{a}", "{b}"),
        ("ababab", "aba", "x"),
    ];
    for (s, from, to) in cases {
        assert_eq!(replace_all(s, from, to), s.replace(from, to), "on {:?}", (s, from, to));
    }
    assert_eq!(replace_all("abc", "", "x"), "abc");
}

#[test]
fn texts_are_compared_by_their_characters() {
    assert!(same_text("", ""));
    assert!(same_text("héllo", "héllo"));
    assert!(!same_text("hello", "hellO"));
    assert!(!same_text("hello", "hell"));
    assert!(!same_text("", "a"));
}
