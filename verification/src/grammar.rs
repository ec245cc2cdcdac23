//! Character classes and token shapes of the wire protocol.
//!
//! A square is written file then rank, `a1` through `h8`; a promotion
//! piece is one of the letters `Q`, `R`, `B`, `N`.  Whitespace may stand
//! around the `:` of a JSON field.

use vstd::prelude::*;

verus! {

/// A file letter, `a` through `h`.
pub open spec fn is_file_char(c: char) -> bool {
    'a' <= c && c <= 'h'
}

/// A rank digit, `1` through `8`.
pub open spec fn is_rank_char(c: char) -> bool {
    '1' <= c && c <= '8'
}

/// A promotion piece letter.
pub open spec fn is_promo_char(c: char) -> bool {
    c == 'Q' || c == 'R' || c == 'B' || c == 'N'
}

/// Whitespace tolerated around the `:` of a field.
pub open spec fn is_ws_char(c: char) -> bool {
    c == ' ' || c == '\t' || c == '\n' || c == '\r'
}

/// The textual form of a board square: file letter then rank digit.
pub open spec fn is_square(s: Seq<char>) -> bool {
    s.len() == 2 && is_file_char(s[0]) && is_rank_char(s[1])
}

/// The textual form of a promotion choice: a single piece letter.
pub open spec fn is_promo(s: Seq<char>) -> bool {
    s.len() == 1 && is_promo_char(s[0])
}

/// Decides whether a string is a square token.
pub fn check_square(s: &str) -> (r: bool)
    ensures
        r == is_square(s@),
{
    let n = s.unicode_len();
    if n != 2 {
        return false;
    }
    let f = s.get_char(0);
    let k = s.get_char(1);
    'a' <= f && f <= 'h' && '1' <= k && k <= '8'
}

/// Decides whether a string is a promotion token.
pub fn check_promo(s: &str) -> (r: bool)
    ensures
        r == is_promo(s@),
{
    let n = s.unicode_len();
    if n != 1 {
        return false;
    }
    let c = s.get_char(0);
    c == 'Q' || c == 'R' || c == 'B' || c == 'N'
}

} // verus!
