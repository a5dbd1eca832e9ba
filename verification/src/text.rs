//! Small verified text helpers shared by the tokenizer and the command
//! pipeline, plus the one lowercasing primitive taken from the standard
//! library on trust.

use vstd::prelude::*;

verus! {

/// The character sequences of a sequence of owned strings.
pub open spec fn views_of(ts: Seq<String>) -> Seq<Seq<char>> {
    ts.map_values(|t: String| t@)
}

pub proof fn lemma_views_of_push(ts: Seq<String>, t: String)
    ensures
        views_of(ts.push(t)) == views_of(ts).push(t@),
{
    assert(views_of(ts.push(t)) =~= views_of(ts).push(t@));
}

/// Character-by-character string comparison, verified against the views.
pub fn str_eq(a: &str, b: &str) -> (r: bool)
    ensures
        r == (a@ == b@),
{
    let na: usize = a.unicode_len();
    let nb: usize = b.unicode_len();
    if na != nb {
        proof {
            assert(a@ != b@) by {
                if a@ == b@ {
                    assert(a@.len() == b@.len());
                }
            }
        }
        return false;
    }
    let mut i: usize = 0;
    while i < na
        invariant
            i <= na,
            na == a@.len(),
            na == b@.len(),
            forall|k: int| 0 <= k < i ==> a@[k] == b@[k],
        decreases na - i,
    {
        if a.get_char(i) != b.get_char(i) {
            proof {
                assert(a@ != b@) by {
                    if a@ == b@ {
                        assert(a@[i as int] == b@[i as int]);
                    }
                }
            }
            return false;
        }
        i += 1;
    }
    proof {
        assert(a@ =~= b@);
    }
    true
}

/// What is left of a string once every double-quote character is removed.
pub open spec fn without_double_quotes(s: Seq<char>) -> Seq<char> {
    s.filter(|c: char| c != '"')
}

/// Defensive unquoting of a role argument: drops every embedded `"` so that a
/// token the tokenizer did not quote-match still resolves by its bare name.
pub fn strip_double_quotes(s: &str) -> (r: String)
    ensures
        r@ == without_double_quotes(s@),
{
    broadcast use vstd::seq_lib::group_filter_ensures;

    let n: usize = s.unicode_len();
    let mut r = String::new();
    let mut i: usize = 0;
    while i < n
        invariant
            i <= n,
            n == s@.len(),
            r@ == without_double_quotes(s@.subrange(0, i as int)),
        decreases n - i,
    {
        let c = s.get_char(i);
        if c != '"' {
            r.append(s.substring_char(i, i + 1));
        }
        proof {
            let pred = |c: char| c != '"';
            let prefix = s@.subrange(0, i as int);
            let single = seq![s@[i as int]];
            assert(s@.subrange(0, i as int + 1) =~= prefix + single);
            Seq::<char>::filter_distributes_over_add(prefix, single, pred);
            reveal_with_fuel(Seq::filter, 2);
            assert(single.drop_last() =~= Seq::<char>::empty());
            assert(single.filter(pred) == if pred(s@[i as int]) {
                Seq::<char>::empty().push(s@[i as int])
            } else {
                Seq::<char>::empty()
            });
            assert(without_double_quotes(s@.subrange(0, i as int + 1)) =~= (
            if s@[i as int] != '"' {
                without_double_quotes(prefix).push(s@[i as int])
            } else {
                without_double_quotes(prefix)
            }));
            if s@[i as int] != '"' {
                assert(s@.subrange(i as int, i as int + 1) =~= single);
            }
        }
        i += 1;
    }
    proof {
        assert(s@.subrange(0, n as int) =~= s@);
    }
    r
}

/// The lower-cased form of a character sequence, as the standard library
/// computes it. It depends on the characters alone, so it is only named here;
/// no contract of this crate says what it is on given characters.
pub uninterp spec fn lower_of(s: Seq<char>) -> Seq<char>;

/// Relies on `str::to_lowercase`: the result is a pure function of the input
/// characters (no locale or environment is consulted).
#[verifier::external_body]
pub(crate) fn lowercase(s: &str) -> (r: String)
    ensures
        r@ == lower_of(s@),
{
    s.to_lowercase()
}

} // verus!
