//! A minimal backtracking pattern matcher.
//!
//! Patterns are plain characters plus five control tokens: `^` anchors a
//! search to the start of the text, `$` as the whole remaining pattern
//! demands that the text has been fully consumed, `.` matches any single
//! character, and `?` / `*` make the character before them optional or
//! repeatable. [`search`] is the public entry point; [`is_match`] matches a
//! pattern against a text from its first character onward.
//!
//! Everything is a pure function over two character sequences. The
//! specifications [`pattern_matches`] and [`search_matches`] say exactly
//! which pairs match, and each executable function is proved to return what
//! its specification says.

use vstd::prelude::*;
use vstd::string::StrSliceExecFns;

verus! {

/// Whether pattern character `pc` accepts text character `tc`:
/// the wildcard `.` accepts any character, every other pattern character
/// accepts only itself.
pub open spec fn char_matches(pc: char, tc: char) -> bool {
    pc == '.' || pc == tc
}

/// What [`is_match_one`] decides, on atoms of at most one character:
/// an empty pattern atom asks for nothing and accepts; a non-empty pattern
/// atom needs a text character, accepted per [`char_matches`].
pub open spec fn atom_matches(p: Seq<char>, t: Seq<char>) -> bool {
    if p.len() == 0 {
        true
    } else if t.len() == 0 {
        false
    } else {
        char_matches(p[0], t[0])
    }
}

/// What [`is_match`] decides: whether pattern suffix `p` matches text
/// suffix `t` from its first character onward.
///
/// An empty pattern asks for nothing more and matches; the lone end anchor
/// `$` matches exactly the empty text. Otherwise the character after the
/// first pattern character decides: `?` lets the first character consume one
/// text character or none, `*` lets it consume any number (greedily, with
/// backtracking), and anything else makes it a plain one-character step.
/// Note that a pattern exhausted before the text still matches: matching is
/// not anchored to the end of the text unless the pattern ends in `$`.
pub open spec fn pattern_matches(p: Seq<char>, t: Seq<char>) -> bool
    decreases p.len() + t.len(),
{
    if p.len() == 0 {
        true
    } else if p.len() == 1 && p[0] == '$' && t.len() == 0 {
        true
    } else if p.len() >= 2 && p[1] == '?' {
        ||| t.len() > 0 && char_matches(p[0], t[0]) && pattern_matches(p.skip(2), t.skip(1))
        ||| pattern_matches(p.skip(2), t)
    } else if p.len() >= 2 && p[1] == '*' {
        ||| t.len() > 0 && char_matches(p[0], t[0]) && pattern_matches(p, t.skip(1))
        ||| pattern_matches(p.skip(2), t)
    } else {
        t.len() > 0 && char_matches(p[0], t[0]) && pattern_matches(p.skip(1), t.skip(1))
    }
}

/// What [`search`] decides: a pattern starting with `^` is tried at the
/// start of the text only; any other pattern matches if it matches at some
/// character offset of the text (trivially offset zero for an empty text).
pub open spec fn search_matches(p: Seq<char>, t: Seq<char>) -> bool {
    if p.len() > 0 && p[0] == '^' {
        pattern_matches(p.skip(1), t)
    } else if t.len() == 0 {
        pattern_matches(p, t)
    } else {
        exists|i: int| 0 <= i < t.len() && pattern_matches(p, t.skip(i))
    }
}

/// Decides whether a single pattern atom accepts a single text atom.
///
/// Both arguments are atoms: a slice of at most one character. A longer
/// argument is a defect in the caller's slicing, never a consequence of any
/// user-supplied pattern or text, so it is ruled out here rather than
/// handled.
pub fn is_match_one(pattern: &str, text: &str) -> (r: bool)
    requires
        pattern@.len() <= 1,
        text@.len() <= 1,
    ensures
        r == atom_matches(pattern@, text@),
{
    if pattern.unicode_len() == 0 {
        true
    } else if text.unicode_len() == 0 {
        false
    } else if pattern.get_char(0) == '.' {
        true
    } else {
        pattern.get_char(0) == text.get_char(0)
    }
}

/// Splits `text` before its `size`-th character. Where fewer than `size`
/// characters remain, the whole text is the first half and the second half
/// is empty, rather than a failure: the matcher works on suffixes that may
/// be shorter than what it asks for.
pub fn split_at<'a>(text: &'a str, size: usize) -> (r: (&'a str, &'a str))
    ensures
        size <= text@.len() ==> {
            &&& r.0@ == text@.subrange(0, size as int)
            &&& r.1@ == text@.skip(size as int)
        },
        size > text@.len() ==> {
            &&& r.0@ == text@
            &&& r.1@ == Seq::<char>::empty()
        },
{
    let n = text.unicode_len();
    if n >= size {
        let head = text.substring_char(0, size);
        let tail = text.substring_char(size, n);
        proof {
            assert(tail@ =~= text@.skip(size as int));
        }
        (head, tail)
    } else {
        let tail = text.substring_char(n, n);
        proof {
            assert(tail@ =~= Seq::<char>::empty());
        }
        (text, tail)
    }
}

/// Decides whether `pattern` matches `text` from its first character
/// onward, per [`pattern_matches`]. The character after the first pattern
/// character is the lookahead: `?` and `*` hand the step to the quantifier
/// rules, anything else makes it a plain one-character step.
pub fn is_match(pattern: &str, text: &str) -> (r: bool)
    ensures
        r == pattern_matches(pattern@, text@),
    decreases pattern@.len() + text@.len(), 1int,
{
    let p_len = pattern.unicode_len();
    let t_len = text.unicode_len();
    if p_len == 0 {
        return true;
    }
    if p_len == 1 && pattern.get_char(0) == '$' && t_len == 0 {
        return true;
    }

    if p_len >= 2 && pattern.get_char(1) == '?' {
        is_match_question(pattern, text)
    } else if p_len >= 2 && pattern.get_char(1) == '*' {
        is_match_star(pattern, text)
    } else {
        let (first_pattern, rest_pattern) = split_at(pattern, 1);
        let (first_text, rest_text) = split_at(text, 1);

        is_match_one(first_pattern, first_text) && is_match(rest_pattern, rest_text)
    }
}

/// The zero-or-one step for a pattern of the shape `x?rest`: either `x`
/// consumes the first text character and `rest` matches what is left, or
/// `rest` matches the whole text and `x` consumes nothing.
pub fn is_match_question(pattern: &str, text: &str) -> (r: bool)
    requires
        pattern@.len() >= 2,
        pattern@[1] == '?',
    ensures
        r == pattern_matches(pattern@, text@),
    decreases pattern@.len() + text@.len(), 0int,
{
    let (first_pattern, _) = split_at(pattern, 1);
    let (first_text, text_slice) = split_at(text, 1);
    let (_, pattern_slice) = split_at(pattern, 2);

    (is_match_one(first_pattern, first_text) && is_match(pattern_slice, text_slice))
        || is_match(pattern_slice, text)
}

/// The zero-or-more step for a pattern of the shape `x*rest`: either `x`
/// consumes the first text character and the whole `x*rest` matches what is
/// left, or the repetition stops and `rest` matches the whole text.
pub fn is_match_star(pattern: &str, text: &str) -> (r: bool)
    requires
        pattern@.len() >= 2,
        pattern@[1] == '*',
    ensures
        r == pattern_matches(pattern@, text@),
    decreases pattern@.len() + text@.len(), 0int,
{
    let (first_pattern, _) = split_at(pattern, 1);
    let (first_text, text_slice) = split_at(text, 1);
    let (_, pattern_slice) = split_at(pattern, 2);

    (is_match_one(first_pattern, first_text) && is_match(pattern, text_slice))
        || is_match(pattern_slice, text)
}

/// Decides whether `pattern` matches `text` under search semantics, per
/// [`search_matches`]: a leading `^` pins the single match attempt to the
/// start of the text; otherwise every character offset is tried left to
/// right until one matches. Total over all string pairs: no input fails.
pub fn search(pattern: &str, text: &str) -> (r: bool)
    ensures
        r == search_matches(pattern@, text@),
{
    let (first_pattern, rest_pattern) = split_at(pattern, 1);

    if first_pattern.unicode_len() == 1 && first_pattern.get_char(0) == '^' {
        is_match(rest_pattern, text)
    } else if text.unicode_len() == 0 {
        is_match(pattern, text)
    } else {
        let n = text.unicode_len();
        let mut idx: usize = 0;
        while idx < n
            invariant
                n == text@.len(),
                idx <= n,
                pattern@.len() > 0 ==> pattern@[0] != '^',
                forall|j: int| 0 <= j < idx ==> !pattern_matches(pattern@, text@.skip(j)),
            decreases n - idx,
        {
            let suffix = text.substring_char(idx, n);
            proof {
                assert(suffix@ =~= text@.skip(idx as int));
            }
            if is_match(pattern, suffix) {
                return true;
            }
            idx += 1;
        }
        false
    }
}

/// Like [`pattern_matches`], but success demands that the pattern consume
/// the text exactly: an exhausted pattern accepts only an exhausted text.
/// This is the yardstick the end-anchor law [`lemma_end_anchor`] measures
/// `$` against; nothing executable dispatches on it.
pub open spec fn exact_matches(p: Seq<char>, t: Seq<char>) -> bool
    decreases p.len() + t.len(),
{
    if p.len() == 0 {
        t.len() == 0
    } else if p.len() >= 2 && p[1] == '?' {
        ||| t.len() > 0 && char_matches(p[0], t[0]) && exact_matches(p.skip(2), t.skip(1))
        ||| exact_matches(p.skip(2), t)
    } else if p.len() >= 2 && p[1] == '*' {
        ||| t.len() > 0 && char_matches(p[0], t[0]) && exact_matches(p, t.skip(1))
        ||| exact_matches(p.skip(2), t)
    } else {
        t.len() > 0 && char_matches(p[0], t[0]) && exact_matches(p.skip(1), t.skip(1))
    }
}

/// The end anchor: a pattern ending in `$` matches exactly when the pattern
/// before the `$` consumes the whole text, nothing remaining.
///
/// The law asks that the text hold no literal `$`: the anchor is just a
/// character, recognised only when it stands last against an exhausted
/// text, so a text such as `a$x` lets the pattern `a$` match the `$` as a
/// literal with text remaining — exact consumption does not follow there.
pub proof fn lemma_end_anchor(p: Seq<char>, t: Seq<char>)
    requires
        forall|i: int| 0 <= i < t.len() ==> t[i] != '$',
    ensures
        pattern_matches(p + seq!['$'], t) == exact_matches(p, t),
    decreases p.len() + t.len(),
{
    let q = p + seq!['$'];
    if t.len() > 0 {
        assert forall|i: int| 0 <= i < t.skip(1).len() implies t.skip(1)[i] != '$' by {
            assert(t.skip(1)[i] == t[i + 1]);
        }
    }
    if p.len() == 0 {
        assert(q =~= seq!['$']);
    } else if p.len() >= 2 && p[1] == '?' {
        assert(q.skip(2) =~= p.skip(2) + seq!['$']);
        if t.len() > 0 {
            lemma_end_anchor(p.skip(2), t.skip(1));
        }
        lemma_end_anchor(p.skip(2), t);
    } else if p.len() >= 2 && p[1] == '*' {
        assert(q.skip(2) =~= p.skip(2) + seq!['$']);
        if t.len() > 0 {
            lemma_end_anchor(p, t.skip(1));
        }
        lemma_end_anchor(p.skip(2), t);
    } else {
        assert(q.skip(1) =~= p.skip(1) + seq!['$']);
        if t.len() > 0 {
            lemma_end_anchor(p.skip(1), t.skip(1));
        }
    }
}

/// The atom rules, spelled out for single characters: an empty pattern atom
/// accepts any atom, a non-empty pattern atom rejects an empty text atom,
/// the wildcard `.` accepts every character, and any other character
/// accepts exactly itself.
pub proof fn lemma_atom_rules(c: char, c1: char, c2: char)
    ensures
        atom_matches(Seq::<char>::empty(), seq![c]),
        !atom_matches(seq![c], Seq::<char>::empty()),
        atom_matches(seq!['.'], seq![c]),
        c1 != '.' ==> atom_matches(seq![c1], seq![c2]) == (c1 == c2),
{
}

/// The empty pattern asks for nothing: [`pattern_matches`] accepts it
/// against every text (matching is not anchored to the end of the text, so
/// leftover text is no obstacle), it consumes a text exactly only when the
/// text is empty, and a search for it succeeds on any text.
pub proof fn lemma_empty_pattern(t: Seq<char>)
    ensures
        pattern_matches(Seq::<char>::empty(), t),
        exact_matches(Seq::<char>::empty(), t) == (t.len() == 0),
        search_matches(Seq::<char>::empty(), t),
{
    if t.len() > 0 {
        assert(pattern_matches(Seq::<char>::empty(), t.skip(0)));
    }
}

/// The start anchor: searching for `^p` is exactly one match attempt of `p`
/// at the start of the text — no other offset is ever consulted.
pub proof fn lemma_start_anchor(p: Seq<char>, t: Seq<char>)
    ensures
        search_matches(seq!['^'] + p, t) == pattern_matches(p, t),
{
    assert((seq!['^'] + p).skip(1) =~= p);
}

/// The zero-or-one rule, as one unrolling: `x?r` matches `t` exactly when
/// `r` matches all of `t`, or `x` accepts the first character of `t` and
/// `r` matches the rest.
pub proof fn lemma_optional(x: char, r: Seq<char>, t: Seq<char>)
    ensures
        pattern_matches(seq![x, '?'] + r, t) == (pattern_matches(r, t) || (t.len() > 0
            && char_matches(x, t[0]) && pattern_matches(r, t.skip(1)))),
{
    assert((seq![x, '?'] + r).skip(2) =~= r);
}

/// The zero-or-more rule, as one unrolling: `x*r` matches `t` exactly when
/// `r` matches all of `t`, or `x` accepts the first character of `t` and
/// `x*r` itself matches the rest.
pub proof fn lemma_star_unroll(x: char, r: Seq<char>, t: Seq<char>)
    ensures
        pattern_matches(seq![x, '*'] + r, t) == (pattern_matches(r, t) || (t.len() > 0
            && char_matches(x, t[0]) && pattern_matches(seq![x, '*'] + r, t.skip(1)))),
{
    assert((seq![x, '*'] + r).skip(2) =~= r);
}

} // verus!
