use minimatch::{is_match, is_match_one, is_match_question, is_match_star, search, split_at};

#[test]
fn atom_rules_on_concrete_atoms() {
    assert!(is_match_one("", ""));
    assert!(is_match_one("", "x"));
    assert!(is_match_one("x", "") == false);
    assert!(is_match_one(".", "q"));
    assert!(is_match_one("q", "q"));
    assert!(is_match_one("q", "r") == false);
}

#[test]
fn empty_pattern_matches_everything() {
    assert!(is_match("", ""));
    assert!(is_match("", "abc"));
    assert!(search("", ""));
    assert!(search("", "any text"));
}

#[test]
fn anchored_search_stays_at_the_start() {
    assert!(search("^abc", "xabc") == false);
    assert!(search("^", "anything"));
    assert!(search("^a", "") == false);
    assert!(search("^a*", "bbb"));
}

#[test]
fn unanchored_search_scans_every_offset() {
    assert!(search("bc", "abcd"));
    assert!(search("bc", "ab") == false);
    assert!(search("ab$", "xxab"));
    assert!(search("d", "abcd"));
}

#[test]
fn end_anchor_requires_full_consumption() {
    assert!(is_match("$", ""));
    assert!(is_match("abc$", "abc"));
    assert!(is_match("abc$", "abcd") == false);
    assert!(is_match("a*$", "aaa"));
    assert!(is_match("a*$", "aab") == false);
}

#[test]
fn wildcard_consumes_exactly_one_character() {
    assert!(is_match("a.c", "abc"));
    assert!(is_match("a.c", "ac") == false);
    assert!(is_match(".", "x"));
    assert!(is_match(".", "") == false);
    assert!(search(".", "héllo"));
}

#[test]
fn optional_consumes_at_most_one() {
    assert!(is_match("ab?c", "ac"));
    assert!(is_match("ab?c", "abc"));
    assert!(is_match("ab?c", "abbc") == false);
    assert!(is_match_question("b?", "b"));
    assert!(is_match_question("b?", ""));
}

#[test]
fn star_consumes_any_number() {
    assert!(search("a*b", "aaaaaac") == false);
    assert!(is_match_star("a*", "aaa"));
    assert!(is_match_star("x*", "yz"));
}

#[test]
fn quantifier_with_no_preceding_atom_is_a_literal() {
    assert!(is_match("?", "?"));
    assert!(is_match("?", "a") == false);
    assert!(is_match("*", "*"));
}

#[test]
fn split_at_clamps_to_the_text_length() {
    assert_eq!(split_at("abcd", 1), ("a", "bcd"));
    assert_eq!(split_at("ab", 5), ("ab", ""));
    assert_eq!(split_at("", 1), ("", ""));
}
