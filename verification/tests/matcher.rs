use minimatch::{is_match, is_match_one, search};

#[test]
fn test_is_match_one() {
    assert!(is_match_one("a", "a"));
    assert!(is_match_one("a", "b") == false);
    assert!(is_match_one("", "t"));
    assert!(is_match_one("p", "") == false);
    assert!(is_match_one(".", "z"));
}

#[test]
fn test_is_match() {
    assert!(is_match("a.c", "abc"));
    assert!(is_match("a.c", "bbc") == false);
    assert!(is_match("ab$", "ab"));
    assert!(is_match("ab$", "aba") == false);
    assert!(is_match("ab?c", "ac"));
    assert!(is_match("ab?c", "abc"));
    assert!(is_match("a?b?c?", "abc"));
    assert!(is_match("a?b?c?", ""));
}

#[test]
fn test_search() {
    assert!(search("^abc", "abc"));
    assert!(search("^abcd", "abcd"));
    assert!(search("bc", "abcd"));
    assert!(search("a*", ""));
    assert!(search("a*", "aaaaaa"));
    assert!(search("a*b", "aaaaaab"));
}
