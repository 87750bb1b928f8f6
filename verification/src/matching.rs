//! What the store's `LIKE` operator matches, and why the pattern of a text
//! filter selects exactly the rows that contain the filter's value.

use vstd::prelude::*;
use vstd::string::StringExecFns;
use vstd::string::StrSliceExecFns;
use crate::filterable::contains_pattern;

verus! {

/// Whether `text` matches the `LIKE` pattern: `%` stands for any run of
/// characters, `_` for any one character, a backslash takes the character
/// after it literally, and every other character stands for itself, upper
/// and lower case apart. A pattern that ends in a lone backslash, which the
/// store rejects, matches nothing.
pub open spec fn like_matches(pattern: Seq<char>, text: Seq<char>) -> bool
    decreases pattern.len() + text.len(),
{
    if pattern.len() == 0 {
        text.len() == 0
    } else if pattern[0] == '%' {
        like_matches(pattern.drop_first(), text) || (text.len() > 0 && like_matches(
            pattern,
            text.drop_first(),
        ))
    } else if pattern[0] == '_' {
        text.len() > 0 && like_matches(pattern.drop_first(), text.drop_first())
    } else if pattern[0] == '\\' {
        pattern.len() > 1 && text.len() > 0 && text[0] == pattern[1] && like_matches(
            pattern.skip(2),
            text.drop_first(),
        )
    } else {
        text.len() > 0 && text[0] == pattern[0] && like_matches(
            pattern.drop_first(),
            text.drop_first(),
        )
    }
}

/// Whether no character of `value` has a special meaning in a pattern.
pub open spec fn is_plain(value: Seq<char>) -> bool {
    forall|i: int|
        0 <= i < value.len() ==> #[trigger] value[i] != '%' && value[i] != '_' && value[i] != '\\'
}

/// Whether `value` stands at position `start` of `stored`.
pub open spec fn occurs_at(value: Seq<char>, stored: Seq<char>, start: int) -> bool {
    0 <= start && start + value.len() <= stored.len() && stored.subrange(
        start,
        start + value.len(),
    ) == value
}

/// Whether `stored` contains `value` as a substring, character for
/// character.
pub open spec fn occurs_in(value: Seq<char>, stored: Seq<char>) -> bool {
    exists|start: int| occurs_at(value, stored, start)
}

/// Whether some suffix of `text` matches `pattern`.
pub open spec fn suffix_matches(pattern: Seq<char>, text: Seq<char>) -> bool {
    exists|start: int|
        0 <= start <= text.len() && #[trigger] like_matches(pattern, text.skip(start))
}

/// A pattern behind `%` matches a text exactly when it matches one of the
/// text's suffixes.
pub proof fn lemma_leading_wildcard(pattern: Seq<char>, text: Seq<char>)
    ensures
        like_matches(seq!['%'] + pattern, text) <==> suffix_matches(pattern, text),
    decreases text.len(),
{
    let whole = seq!['%'] + pattern;
    assert(whole[0] == '%');
    assert(whole.drop_first() =~= pattern);
    assert(text.skip(0) =~= text);
    if like_matches(pattern, text) {
        assert(like_matches(pattern, text.skip(0)));
    }
    if text.len() > 0 {
        let rest = text.drop_first();
        lemma_leading_wildcard(pattern, rest);
        if like_matches(whole, rest) {
            let k = choose|start: int|
                0 <= start <= rest.len() && #[trigger] like_matches(pattern, rest.skip(start));
            assert(rest.skip(k) =~= text.skip(k + 1));
            assert(like_matches(pattern, text.skip(k + 1)));
        }
        if suffix_matches(pattern, text) {
            let k = choose|start: int|
                0 <= start <= text.len() && #[trigger] like_matches(pattern, text.skip(start));
            if k > 0 {
                assert(rest.skip(k - 1) =~= text.skip(k));
                assert(like_matches(pattern, rest.skip(k - 1)));
                assert(suffix_matches(pattern, rest));
            }
        }
    } else {
        if suffix_matches(pattern, text) {
            let k = choose|start: int|
                0 <= start <= text.len() && #[trigger] like_matches(pattern, text.skip(start));
            assert(text.skip(k) =~= text);
        }
    }
}

/// Plain characters at the head of a pattern match themselves: the text
/// has to begin with them, and what follows them has to match the rest of
/// the pattern.
pub proof fn lemma_plain_prefix(value: Seq<char>, pattern: Seq<char>, text: Seq<char>)
    requires
        is_plain(value),
    ensures
        like_matches(value + pattern, text) <==> (occurs_at(value, text, 0) && like_matches(
            pattern,
            text.skip(value.len() as int),
        )),
    decreases value.len(),
{
    if value.len() == 0 {
        assert(value + pattern =~= pattern);
        assert(text.skip(0) =~= text);
        assert(text.subrange(0, 0) =~= value);
    } else {
        let whole = value + pattern;
        assert(whole[0] == value[0]);
        assert(whole.drop_first() =~= value.drop_first() + pattern);
        assert(is_plain(value.drop_first())) by {
            let rest = value.drop_first();
            assert forall|i: int| 0 <= i < rest.len() implies #[trigger] rest[i] != '%' && rest[i]
                != '_' && rest[i] != '\\' by {
                assert(rest[i] == value[i + 1]);
            }
        }
        if text.len() > 0 {
            let rest = text.drop_first();
            lemma_plain_prefix(value.drop_first(), pattern, rest);
            if value.len() <= text.len() {
                assert(rest.skip(value.len() - 1) =~= text.skip(value.len() as int));
            }
            if occurs_at(value, text, 0) {
                assert(text[0] == text.subrange(0, value.len() as int)[0]);
                assert(rest.subrange(0, value.len() - 1) =~= value.drop_first());
            }
            if text[0] == value[0] && occurs_at(value.drop_first(), rest, 0) {
                assert(text.subrange(0, value.len() as int) =~= value) by {
                    assert forall|i: int| 0 <= i < value.len() implies text.subrange(
                        0,
                        value.len() as int,
                    )[i] == value[i] by {
                        if i > 0 {
                            assert(rest.subrange(0, value.len() - 1)[i - 1] == value.drop_first()[i
                                - 1]);
                        }
                    }
                }
            }
        }
    }
}

/// The pattern `%` matches every text.
pub proof fn lemma_wildcard_matches_all(text: Seq<char>)
    ensures
        like_matches(seq!['%'], text),
{
    let nothing = Seq::<char>::empty();
    lemma_leading_wildcard(nothing, text);
    assert(seq!['%'] + nothing =~= seq!['%']);
    assert(text.skip(text.len() as int) =~= nothing);
    assert(like_matches(nothing, text.skip(text.len() as int)));
}

/// A text filter matches substrings, case-sensitively: for a value without
/// pattern characters, the filter's pattern matches a stored text exactly
/// when the text contains the value.
pub proof fn lemma_text_filter_matches_substrings(value: Seq<char>, stored: Seq<char>)
    requires
        is_plain(value),
    ensures
        like_matches(contains_pattern(value), stored) <==> occurs_in(value, stored),
{
    reveal_strlit("%");
    let any = seq!['%'];
    assert("%"@ =~= any);
    assert(contains_pattern(value) =~= any + (value + any));
    lemma_leading_wildcard(value + any, stored);
    if like_matches(contains_pattern(value), stored) {
        let k = choose|start: int|
            0 <= start <= stored.len() && #[trigger] like_matches(value + any, stored.skip(start));
        lemma_plain_prefix(value, any, stored.skip(k));
        assert(stored.skip(k).subrange(0, value.len() as int) =~= stored.subrange(
            k,
            k + value.len(),
        ));
        assert(occurs_at(value, stored, k));
    }
    if occurs_in(value, stored) {
        let k = choose|start: int| occurs_at(value, stored, start);
        lemma_plain_prefix(value, any, stored.skip(k));
        assert(stored.skip(k).subrange(0, value.len() as int) =~= stored.subrange(
            k,
            k + value.len(),
        ));
        lemma_wildcard_matches_all(stored.skip(k).skip(value.len() as int));
        assert(like_matches(value + any, stored.skip(k)));
    }
}

/// Whether the text from position `j` on matches the pattern from position
/// `i` on.
fn like_matches_from(pattern: &Vec<char>, i: usize, text: &Vec<char>, j: usize) -> (result: bool)
    requires
        i <= pattern.len(),
        j <= text.len(),
    ensures
        result == like_matches(pattern@.skip(i as int), text@.skip(j as int)),
    decreases (pattern.len() - i) + (text.len() - j),
{
    let ghost p = pattern@.skip(i as int);
    let ghost t = text@.skip(j as int);
    proof {
        assert(p.len() == pattern.len() - i);
        assert(t.len() == text.len() - j);
        if i < pattern.len() {
            assert(p[0] == pattern@[i as int]);
            assert(p.drop_first() =~= pattern@.skip(i + 1));
        }
        if i + 1 < pattern.len() {
            assert(p[1] == pattern@[i + 1]);
            assert(p.skip(2) =~= pattern@.skip(i + 2));
        }
        if j < text.len() {
            assert(t[0] == text@[j as int]);
            assert(t.drop_first() =~= text@.skip(j + 1));
        }
    }
    if i == pattern.len() {
        j == text.len()
    } else if pattern[i] == '%' {
        if like_matches_from(pattern, i + 1, text, j) {
            true
        } else {
            j < text.len() && like_matches_from(pattern, i, text, j + 1)
        }
    } else if pattern[i] == '_' {
        j < text.len() && like_matches_from(pattern, i + 1, text, j + 1)
    } else if pattern[i] == '\\' {
        i + 1 < pattern.len() && j < text.len() && text[j] == pattern[i + 1] && like_matches_from(
            pattern,
            i + 2,
            text,
            j + 1,
        )
    } else {
        j < text.len() && text[j] == pattern[i] && like_matches_from(pattern, i + 1, text, j + 1)
    }
}

/// The characters of a text.
pub fn text_chars(text: &str) -> (chars: Vec<char>)
    ensures
        chars@ == text@,
{
    let count = text.unicode_len();
    let mut chars: Vec<char> = Vec::new();
    let mut i: usize = 0;
    while i < count
        invariant
            i <= count,
            count == text@.len(),
            chars@ == text@.take(i as int),
        decreases count - i,
    {
        chars.push(text.get_char(i));
        proof {
            assert(chars@ =~= text@.take(i as int + 1));
        }
        i = i + 1;
    }
    proof {
        assert(text@.take(count as int) =~= text@);
    }
    chars
}

/// Whether `text` matches the `LIKE` pattern `pattern`.
pub fn matches_pattern(pattern: &str, text: &str) -> (result: bool)
    ensures
        result == like_matches(pattern@, text@),
{
    let pattern_chars = text_chars(pattern);
    let chars = text_chars(text);
    proof {
        assert(pattern_chars@.skip(0) =~= pattern@);
        assert(chars@.skip(0) =~= text@);
    }
    like_matches_from(&pattern_chars, 0, &chars, 0)
}

/// Whether a text filter with `value` selects a row whose column holds
/// `stored`.
pub fn text_filter_matches(value: &str, stored: &str) -> (result: bool)
    ensures
        result == like_matches(contains_pattern(value@), stored@),
{
    let pattern = String::from_str("%").concat(value).concat("%");
    matches_pattern(pattern.as_str(), stored)
}

} // verus!
