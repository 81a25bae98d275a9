//! The grammar of decimal floating-point literals.
//!
//! A numeric field of a composition table must be a decimal floating-point
//! literal, optionally in scientific notation:
//!
//! ```text
//! Literal  ::= Sign? ( 'inf' | 'infinity' | 'nan' | Number )
//! Number   ::= Digits '.'? Digits? Exponent?
//!            | '.' Digits Exponent?
//! Exponent ::= ('e' | 'E') Sign? Digits
//! Sign     ::= '+' | '-'
//! Digits   ::= Digit+
//! ```
//!
//! with the three special words matched case-insensitively.  This is the
//! language that Rust's standard float parser documents, so a field accepted
//! here converts to a numeric value without error.

use vstd::prelude::*;

verus! {

/// A decimal digit.
pub open spec fn is_digit(c: char) -> bool {
    c == '0' || c == '1' || c == '2' || c == '3' || c == '4' || c == '5' || c == '6' || c == '7'
        || c == '8' || c == '9'
}

/// End of the run of digits that starts at `i`.
pub open spec fn digits_end(s: Seq<char>, i: int) -> int
    decreases s.len() - i when 0 <= i <= s.len()
{
    if 0 <= i < s.len() && is_digit(s[i]) {
        digits_end(s, i + 1)
    } else {
        i
    }
}

/// An exponent part that fills the rest of the literal: `e` or `E`, an
/// optional sign, and at least one digit.
pub open spec fn exponent_fills(s: Seq<char>, i: int) -> bool {
    &&& 0 <= i < s.len()
    &&& (s[i] == 'e' || s[i] == 'E')
    &&& {
        let j = if i + 1 < s.len() && (s[i + 1] == '+' || s[i + 1] == '-') {
            i + 2
        } else {
            i + 1
        };
        j < s.len() && digits_end(s, j) == s.len()
    }
}

/// A number (no sign, no special word) that fills `s` from `i` on.
pub open spec fn number_fills(s: Seq<char>, i: int) -> bool
    recommends
        0 <= i <= s.len(),
{
    let e1 = digits_end(s, i);
    if e1 > i {
        // integer part present; then an optional point with optional digits
        let k = if e1 < s.len() && s[e1] == '.' {
            digits_end(s, e1 + 1)
        } else {
            e1
        };
        k == s.len() || exponent_fills(s, k)
    } else {
        // no integer part: a point with at least one digit after it
        &&& i < s.len()
        &&& s[i] == '.'
        &&& {
            let e2 = digits_end(s, i + 1);
            e2 > i + 1 && (e2 == s.len() || exponent_fills(s, e2))
        }
    }
}

/// One character of a case-insensitive word.
pub open spec fn char_ci(c: char, lower: char, upper: char) -> bool {
    c == lower || c == upper
}

/// `inf`, filling `s` from `i` on.
pub open spec fn inf_fills(s: Seq<char>, i: int) -> bool {
    &&& s.len() - i == 3
    &&& char_ci(s[i], 'i', 'I')
    &&& char_ci(s[i + 1], 'n', 'N')
    &&& char_ci(s[i + 2], 'f', 'F')
}

/// `infinity`, filling `s` from `i` on.
pub open spec fn infinity_fills(s: Seq<char>, i: int) -> bool {
    &&& s.len() - i == 8
    &&& char_ci(s[i], 'i', 'I')
    &&& char_ci(s[i + 1], 'n', 'N')
    &&& char_ci(s[i + 2], 'f', 'F')
    &&& char_ci(s[i + 3], 'i', 'I')
    &&& char_ci(s[i + 4], 'n', 'N')
    &&& char_ci(s[i + 5], 'i', 'I')
    &&& char_ci(s[i + 6], 't', 'T')
    &&& char_ci(s[i + 7], 'y', 'Y')
}

/// `nan`, filling `s` from `i` on.
pub open spec fn nan_fills(s: Seq<char>, i: int) -> bool {
    &&& s.len() - i == 3
    &&& char_ci(s[i], 'n', 'N')
    &&& char_ci(s[i + 1], 'a', 'A')
    &&& char_ci(s[i + 2], 'n', 'N')
}

/// A whole decimal floating-point literal.
pub open spec fn is_float_literal(s: Seq<char>) -> bool {
    let i: int = if s.len() > 0 && (s[0] == '+' || s[0] == '-') {
        1
    } else {
        0
    };
    ||| inf_fills(s, i)
    ||| infinity_fills(s, i)
    ||| nan_fills(s, i)
    ||| number_fills(s, i)
}

/// Recognizes a decimal digit.
fn digit_char(c: char) -> (r: bool)
    ensures
        r == is_digit(c),
{
    c == '0' || c == '1' || c == '2' || c == '3' || c == '4' || c == '5' || c == '6' || c == '7'
        || c == '8' || c == '9'
}

/// Scans the run of digits that starts at `i`.
fn scan_digits(s: &str, i: usize) -> (r: usize)
    requires
        i <= s@.len(),
    ensures
        r == digits_end(s@, i as int),
        i <= r <= s@.len(),
{
    let n = s.unicode_len();
    let mut j: usize = i;
    while j < n && digit_char(s.get_char(j))
        invariant
            n == s@.len(),
            i <= j <= n,
            digits_end(s@, i as int) == digits_end(s@, j as int),
        decreases n - j,
    {
        j += 1;
    }
    j
}

/// Checks for an exponent part filling the rest of the literal.
fn check_exponent(s: &str, i: usize) -> (r: bool)
    requires
        i <= s@.len(),
    ensures
        r == exponent_fills(s@, i as int),
{
    let n = s.unicode_len();
    if i < n {
        let c = s.get_char(i);
        if c == 'e' || c == 'E' {
            let j = if i + 1 < n {
                let c1 = s.get_char(i + 1);
                if c1 == '+' || c1 == '-' {
                    i + 2
                } else {
                    i + 1
                }
            } else {
                i + 1
            };
            j < n && scan_digits(s, j) == n
        } else {
            false
        }
    } else {
        false
    }
}

/// Checks for a number filling `s` from `i` on.
fn check_number(s: &str, i: usize) -> (r: bool)
    requires
        i <= s@.len(),
    ensures
        r == number_fills(s@, i as int),
{
    let n = s.unicode_len();
    let e1 = scan_digits(s, i);
    if e1 > i {
        let k = if e1 < n && s.get_char(e1) == '.' {
            scan_digits(s, e1 + 1)
        } else {
            e1
        };
        k == n || check_exponent(s, k)
    } else if i < n && s.get_char(i) == '.' {
        let e2 = scan_digits(s, i + 1);
        e2 > i + 1 && (e2 == n || check_exponent(s, e2))
    } else {
        false
    }
}

/// One character of a case-insensitive word.
fn char_ci_eq(c: char, lower: char, upper: char) -> (r: bool)
    ensures
        r == char_ci(c, lower, upper),
{
    c == lower || c == upper
}

/// Checks for one of the special words filling `s` from `i` on.
fn check_special(s: &str, i: usize) -> (r: bool)
    requires
        i <= s@.len(),
    ensures
        r == (inf_fills(s@, i as int) || infinity_fills(s@, i as int) || nan_fills(s@, i as int)),
{
    let n = s.unicode_len();
    if n - i == 3 {
        let inf = char_ci_eq(s.get_char(i), 'i', 'I') && char_ci_eq(s.get_char(i + 1), 'n', 'N')
            && char_ci_eq(s.get_char(i + 2), 'f', 'F');
        let nan = char_ci_eq(s.get_char(i), 'n', 'N') && char_ci_eq(s.get_char(i + 1), 'a', 'A')
            && char_ci_eq(s.get_char(i + 2), 'n', 'N');
        inf || nan
    } else if n - i == 8 {
        char_ci_eq(s.get_char(i), 'i', 'I') && char_ci_eq(s.get_char(i + 1), 'n', 'N')
            && char_ci_eq(s.get_char(i + 2), 'f', 'F') && char_ci_eq(s.get_char(i + 3), 'i', 'I')
            && char_ci_eq(s.get_char(i + 4), 'n', 'N') && char_ci_eq(s.get_char(i + 5), 'i', 'I')
            && char_ci_eq(s.get_char(i + 6), 't', 'T') && char_ci_eq(s.get_char(i + 7), 'y', 'Y')
    } else {
        false
    }
}

/// Decides whether `s` is a decimal floating-point literal.
pub fn is_float_token(s: &str) -> (r: bool)
    ensures
        r == is_float_literal(s@),
{
    let n = s.unicode_len();
    let i: usize = if n > 0 {
        let c = s.get_char(0);
        if c == '+' || c == '-' {
            1
        } else {
            0
        }
    } else {
        0
    };
    check_special(s, i) || check_number(s, i)
}

} // verus!
