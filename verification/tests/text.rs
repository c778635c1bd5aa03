use tokensaver::text::{
    characters, contains_white_space, is_white_space, join, same, strip_prefix, to_decimal, trim,
};

#[test]
fn white_space_is_that_of_unicode() {
    for c in '\0'..=char::MAX {
        assert_eq!(is_white_space(c), c.is_whitespace(), "{:?}", c);
    }
}

#[test]
fn trim_is_that_of_the_standard_library() {
    for s in ["", " ", "a", " a", "a ", " a b ", "\t\u{3000}x\u{85}\n", "\u{a0}", "é à "] {
        assert_eq!(trim(s), s.trim());
        assert_eq!(trim(trim(s)), trim(s));
    }
}

#[test]
fn prefixes_are_stripped_once() {
    assert_eq!(strip_prefix("activate activate x", "activate "), Some("activate x"));
    assert_eq!(strip_prefix("activate", "activate "), None);
    assert_eq!(strip_prefix("übung", "ü"), Some("bung"));
    assert_eq!(strip_prefix("x", ""), Some("x"));
    assert_eq!(strip_prefix("xy", "xz"), None);
}

#[test]
fn small_helpers_are_exact() {
    assert_eq!(characters("aé"), vec!['a', 'é']);
    assert!(same("aé", "aé") && !same("a", "b") && !same("a", "ab"));
    assert!(contains_white_space("a b") && !contains_white_space("ab"));
    assert_eq!(join(&[]), "");
    assert_eq!(join(&["gain"]), "gain");
    assert_eq!(join(&["gain", "--history", "x"]), "gain --history x");
}

#[test]
fn numbers_are_written_in_decimal() {
    for n in [0u16, 7, 9, 10, 19, 100, 401, 503, 9999, 65535] {
        assert_eq!(to_decimal(n), n.to_string());
    }
}
