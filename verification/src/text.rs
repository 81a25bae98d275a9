//! Whitespace tokenization of table lines, and plain string comparison.

use vstd::prelude::*;

verus! {

/// A field separator: a character with the Unicode `White_Space` property,
/// the set that std's `char::is_whitespace` documents.
pub open spec fn is_space(c: char) -> bool {
    ||| c == ' '
    ||| c == '\t'
    ||| c == '\n'
    ||| c == '\u{000B}'
    ||| c == '\u{000C}'
    ||| c == '\r'
    ||| c == '\u{0085}'
    ||| c == '\u{00A0}'
    ||| c == '\u{1680}'
    ||| c == '\u{2000}'
    ||| c == '\u{2001}'
    ||| c == '\u{2002}'
    ||| c == '\u{2003}'
    ||| c == '\u{2004}'
    ||| c == '\u{2005}'
    ||| c == '\u{2006}'
    ||| c == '\u{2007}'
    ||| c == '\u{2008}'
    ||| c == '\u{2009}'
    ||| c == '\u{200A}'
    ||| c == '\u{2028}'
    ||| c == '\u{2029}'
    ||| c == '\u{202F}'
    ||| c == '\u{205F}'
    ||| c == '\u{3000}'
}

/// End of the run of non-separator characters that starts at `i`.
pub open spec fn token_end(s: Seq<char>, i: int) -> int
    decreases s.len() - i when 0 <= i <= s.len()
{
    if 0 <= i < s.len() && !is_space(s[i]) {
        token_end(s, i + 1)
    } else {
        i
    }
}

pub proof fn lemma_token_end_bounds(s: Seq<char>, i: int)
    requires
        0 <= i <= s.len(),
    ensures
        i <= token_end(s, i) <= s.len(),
    decreases s.len() - i,
{
    if i < s.len() && !is_space(s[i]) {
        lemma_token_end_bounds(s, i + 1);
    }
}

/// The run starting at `i` ends exactly where the separator (or the end of
/// the line) is.
pub proof fn lemma_token_end_at(s: Seq<char>, i: int, j: int)
    requires
        0 <= i <= j <= s.len(),
        forall|m: int| i <= m < j ==> !is_space(#[trigger] s[m]),
        j == s.len() || is_space(s[j]),
    ensures
        token_end(s, i) == j,
    decreases j - i,
{
    if i < j {
        lemma_token_end_at(s, i + 1, j);
    }
}

/// The fields of `s` from position `i` on: the maximal runs of
/// non-separator characters, in order.
pub open spec fn tokens_from(s: Seq<char>, i: int) -> Seq<Seq<char>>
    decreases s.len() - i when 0 <= i <= s.len()
        via tokens_from_decreases
{
    if !(0 <= i < s.len()) {
        Seq::empty()
    } else if is_space(s[i]) {
        tokens_from(s, i + 1)
    } else {
        seq![s.subrange(i, token_end(s, i))] + tokens_from(s, token_end(s, i))
    }
}

#[via_fn]
proof fn tokens_from_decreases(s: Seq<char>, i: int) {
    if 0 <= i < s.len() && !is_space(s[i]) {
        lemma_token_end_bounds(s, i + 1);
    }
}

/// The whitespace-separated fields of a whole line.
pub open spec fn tokens(s: Seq<char>) -> Seq<Seq<char>> {
    tokens_from(s, 0)
}

/// Recognizes a field separator.
pub fn is_space_char(c: char) -> (r: bool)
    ensures
        r == is_space(c),
{
    c == ' ' || c == '\t' || c == '\n' || c == '\u{000B}' || c == '\u{000C}' || c == '\r'
        || c == '\u{0085}' || c == '\u{00A0}' || c == '\u{1680}' || c == '\u{2000}'
        || c == '\u{2001}' || c == '\u{2002}' || c == '\u{2003}' || c == '\u{2004}'
        || c == '\u{2005}' || c == '\u{2006}' || c == '\u{2007}' || c == '\u{2008}'
        || c == '\u{2009}' || c == '\u{200A}' || c == '\u{2028}' || c == '\u{2029}'
        || c == '\u{202F}' || c == '\u{205F}' || c == '\u{3000}'
}

/// Character-for-character string equality, stated over the views.
pub fn str_eq(a: &str, b: &str) -> (r: bool)
    ensures
        r == (a@ == b@),
{
    let n = a.unicode_len();
    if n != b.unicode_len() {
        return false;
    }
    let mut i: usize = 0;
    while i < n
        invariant
            n == a@.len(),
            n == b@.len(),
            i <= n,
            forall|m: int| 0 <= m < i ==> a@[m] == b@[m],
        decreases n - i,
    {
        if a.get_char(i) != b.get_char(i) {
            return false;
        }
        i += 1;
    }
    proof {
        assert(a@ =~= b@);
    }
    true
}

/// Splits a line into its whitespace-separated fields, in order.
pub fn split_fields(line: &str) -> (r: Vec<String>)
    ensures
        r@.len() == tokens(line@).len(),
        forall|k: int| 0 <= k < r@.len() ==> #[trigger] r@[k]@ == tokens(line@)[k],
{
    let ghost s = line@;
    let n = line.unicode_len();
    let mut r: Vec<String> = Vec::new();
    let mut i: usize = 0;
    while i < n
        invariant
            s == line@,
            n == s.len(),
            i <= n,
            tokens(s).len() == r@.len() + tokens_from(s, i as int).len(),
            forall|k: int| 0 <= k < r@.len() ==> #[trigger] r@[k]@ == tokens(s)[k],
            forall|k: int|
                0 <= k < tokens_from(s, i as int).len() ==> #[trigger] tokens_from(
                    s,
                    i as int,
                )[k] == tokens(s)[r@.len() + k],
        decreases n - i,
    {
        let c = line.get_char(i);
        if is_space_char(c) {
            proof {
                assert(tokens_from(s, i as int) == tokens_from(s, i as int + 1));
            }
            i += 1;
        } else {
            let ghost i0 = i as int;
            let mut j: usize = i + 1;
            while j < n && !is_space_char(line.get_char(j))
                invariant
                    s == line@,
                    n == s.len(),
                    i < j <= n,
                    !is_space(s[i as int]),
                    forall|m: int| i <= m < j ==> !is_space(#[trigger] s[m]),
                decreases n - j,
            {
                j += 1;
            }
            proof {
                lemma_token_end_at(s, i0, j as int);
                assert(tokens_from(s, i0) =~= seq![s.subrange(i0, j as int)] + tokens_from(
                    s,
                    j as int,
                ));
                assert(tokens_from(s, i0)[0] == s.subrange(i0, j as int));
                assert(forall|k: int|
                    0 <= k < tokens_from(s, j as int).len() ==> #[trigger] tokens_from(
                        s,
                        j as int,
                    )[k] == tokens_from(s, i0)[1 + k]);
            }
            let tok = line.substring_char(i, j).to_owned();
            r.push(tok);
            i = j;
        }
    }
    proof {
        assert(tokens_from(s, i as int) =~= Seq::<Seq<char>>::empty());
    }
    r
}

} // verus!
