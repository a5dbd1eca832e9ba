//! Tokenizer: splits a raw message into an ordered list of arguments.
//!
//! A token is either a maximal run of characters that are neither whitespace
//! nor a quote, or the content between a pair of matching `"` or `'` quotes
//! (the quotes themselves are not part of the token). A quote of one kind
//! does not close a span opened by the other. Whitespace only separates
//! tokens and never produces one. An unterminated quote takes the whole rest
//! of the line as the token content; this choice is fixed and tested.
//! Whitespace here is the ASCII class: space, tab, line feed, vertical tab,
//! form feed and carriage return.

use vstd::prelude::*;

use crate::text::{lemma_views_of_push, views_of};

verus! {

/// The whitespace class the tokenizer discards between tokens.
pub open spec fn is_space(c: char) -> bool {
    c == ' ' || c == '\t' || c == '\n' || c == '\r' || c == '\u{b}' || c == '\u{c}'
}

/// The two quote characters that open and close a quoted span.
pub open spec fn is_quote(c: char) -> bool {
    c == '"' || c == '\''
}

/// First position at or after `i` holding exactly `q`, or `s.len()` if none.
pub open spec fn find_char(s: Seq<char>, i: int, q: char) -> int
    decreases s.len() - i,
{
    if i < 0 || i >= s.len() {
        s.len() as int
    } else if s[i] == q {
        i
    } else {
        find_char(s, i + 1, q)
    }
}

pub proof fn lemma_find_char(s: Seq<char>, i: int, q: char)
    requires
        0 <= i <= s.len(),
    ensures
        i <= find_char(s, i, q) <= s.len(),
        forall|k: int| i <= k < find_char(s, i, q) ==> s[k] != q,
        find_char(s, i, q) < s.len() ==> s[find_char(s, i, q)] == q,
    decreases s.len() - i,
{
    if i < s.len() && s[i] != q {
        lemma_find_char(s, i + 1, q);
    }
}

/// First position at or after `i` that cannot belong to a bare token
/// (whitespace or a quote), or `s.len()` if the token runs to the end.
pub open spec fn bare_end(s: Seq<char>, i: int) -> int
    decreases s.len() - i,
{
    if i < 0 || i >= s.len() {
        s.len() as int
    } else if is_space(s[i]) || is_quote(s[i]) {
        i
    } else {
        bare_end(s, i + 1)
    }
}

pub proof fn lemma_bare_end(s: Seq<char>, i: int)
    requires
        0 <= i <= s.len(),
    ensures
        i <= bare_end(s, i) <= s.len(),
        forall|k: int| i <= k < bare_end(s, i) ==> !is_space(s[k]) && !is_quote(s[k]),
        bare_end(s, i) < s.len() ==> is_space(s[bare_end(s, i)]) || is_quote(s[bare_end(s, i)]),
    decreases s.len() - i,
{
    if i < s.len() && !is_space(s[i]) && !is_quote(s[i]) {
        lemma_bare_end(s, i + 1);
    }
}

/// The tokens of the part of `s` that starts at position `i`.
pub open spec fn tokens_from(s: Seq<char>, i: int) -> Seq<Seq<char>>
    decreases s.len() - i,
    via tokens_from_decreases
{
    if i < 0 || i >= s.len() {
        Seq::empty()
    } else if is_space(s[i]) {
        tokens_from(s, i + 1)
    } else if is_quote(s[i]) {
        let j = find_char(s, i + 1, s[i]);
        if j >= s.len() {
            seq![s.subrange(i + 1, s.len() as int)]
        } else {
            seq![s.subrange(i + 1, j)] + tokens_from(s, j + 1)
        }
    } else {
        let j = bare_end(s, i + 1);
        seq![s.subrange(i, j)] + tokens_from(s, j)
    }
}

#[via_fn]
proof fn tokens_from_decreases(s: Seq<char>, i: int) {
    if 0 <= i < s.len() {
        if is_space(s[i]) {
        } else if is_quote(s[i]) {
            lemma_find_char(s, i + 1, s[i]);
        } else {
            lemma_bare_end(s, i + 1);
        }
    }
}

/// The ordered argument list of a whole message.
pub open spec fn spec_tokenize(s: Seq<char>) -> Seq<Seq<char>> {
    tokens_from(s, 0)
}

fn is_space_char(c: char) -> (r: bool)
    ensures
        r == is_space(c),
{
    c == ' ' || c == '\t' || c == '\n' || c == '\r' || c == '\u{b}' || c == '\u{c}'
}

fn is_quote_char(c: char) -> (r: bool)
    ensures
        r == is_quote(c),
{
    c == '"' || c == '\''
}

/// Splits a message into its tokens, left to right.
pub fn tokenize(text: &str) -> (tokens: Vec<String>)
    ensures
        views_of(tokens@) == spec_tokenize(text@),
{
    let ghost s = text@;
    let n: usize = text.unicode_len();
    let mut tokens: Vec<String> = Vec::new();
    let mut i: usize = 0;
    while i < n
        invariant
            i <= n,
            n == s.len(),
            s == text@,
            spec_tokenize(s) == views_of(tokens@) + tokens_from(s, i as int),
        decreases n - i,
    {
        let c = text.get_char(i);
        if is_space_char(c) {
            proof {
                assert(views_of(tokens@) + tokens_from(s, i as int) == views_of(tokens@)
                    + tokens_from(s, i as int + 1));
            }
            i += 1;
        } else if is_quote_char(c) {
            let mut j: usize = i + 1;
            while j < n && text.get_char(j) != c
                invariant
                    i + 1 <= j <= n,
                    n == s.len(),
                    s == text@,
                    i < n,
                    c == s[i as int],
                    forall|k: int| i + 1 <= k < j ==> s[k] != c,
                decreases n - j,
            {
                j += 1;
            }
            proof {
                lemma_find_char(s, i as int + 1, c);
                assert(find_char(s, i as int + 1, c) == j) by {
                    let f = find_char(s, i as int + 1, c);
                    if f < j {
                        assert(s[f] == c);
                    }
                    if f > j {
                        assert(j < s.len() && s[j as int] == c);
                    }
                }
            }
            let tok = String::from_str(text.substring_char(i + 1, j));
            proof {
                lemma_views_of_push(tokens@, tok);
                if j < n {
                    assert(tokens_from(s, i as int) == seq![s.subrange(i as int + 1, j as int)]
                        + tokens_from(s, j as int + 1));
                } else {
                    assert(tokens_from(s, i as int) == seq![
                        s.subrange(i as int + 1, s.len() as int),
                    ]);
                    assert(tokens_from(s, n as int) =~= Seq::<Seq<char>>::empty());
                }
                assert(views_of(tokens@).push(tok@) + tokens_from(s, j as int + 1) =~= views_of(
                    tokens@,
                ) + tokens_from(s, i as int));
                assert(views_of(tokens@).push(tok@) + Seq::<Seq<char>>::empty() =~= views_of(
                    tokens@,
                ).push(tok@));
            }
            tokens.push(tok);
            if j < n {
                i = j + 1;
            } else {
                i = n;
            }
        } else {
            let mut j: usize = i + 1;
            while j < n && !ends_bare(text.get_char(j))
                invariant
                    i + 1 <= j <= n,
                    n == s.len(),
                    s == text@,
                    i < n,
                    forall|k: int| i + 1 <= k < j ==> !is_space(s[k]) && !is_quote(s[k]),
                decreases n - j,
            {
                j += 1;
            }
            proof {
                lemma_bare_end(s, i as int + 1);
                assert(bare_end(s, i as int + 1) == j) by {
                    let f = bare_end(s, i as int + 1);
                    if f < j {
                        assert(is_space(s[f]) || is_quote(s[f]));
                    }
                    if f > j {
                        assert(j < s.len() && (is_space(s[j as int]) || is_quote(s[j as int])));
                    }
                }
            }
            let tok = String::from_str(text.substring_char(i, j));
            proof {
                lemma_views_of_push(tokens@, tok);
                assert(tokens_from(s, i as int) == seq![s.subrange(i as int, j as int)]
                    + tokens_from(s, j as int));
                assert(views_of(tokens@).push(tok@) + tokens_from(s, j as int) =~= views_of(tokens@)
                    + tokens_from(s, i as int));
            }
            tokens.push(tok);
            i = j;
        }
    }
    proof {
        assert(tokens_from(s, n as int) =~= Seq::<Seq<char>>::empty());
        assert(views_of(tokens@) + Seq::<Seq<char>>::empty() =~= views_of(tokens@));
    }
    tokens
}

fn ends_bare(c: char) -> (r: bool)
    ensures
        r == (is_space(c) || is_quote(c)),
{
    is_space_char(c) || is_quote_char(c)
}

} // verus!
