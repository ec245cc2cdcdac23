//! Extraction of protocol fields from a request body.
//!
//! A body is a flat JSON map.  A field is matched by a fixed grammar:
//! the quoted field name, optional whitespace, `:`, optional whitespace,
//! then a quoted value of the shape the field demands.  The first
//! occurrence of the full pattern wins; reordering of fields is
//! tolerated, escaping is not.

use vstd::prelude::*;
use crate::envelope::NotatedMove;
use crate::grammar::{is_file_char, is_promo_char, is_rank_char, is_ws_char};

verus! {

/// The first position at or after `i` that does not hold whitespace
/// (the length of `s` if whitespace runs to the end).
pub open spec fn spec_skip_ws(s: Seq<char>, i: int) -> int
    decreases s.len() - i,
{
    if i < 0 || i >= s.len() {
        i
    } else if is_ws_char(s[i]) {
        spec_skip_ws(s, i + 1)
    } else {
        i
    }
}

/// `pat` stands in `s` at position `i`.
pub open spec fn contains_at(s: Seq<char>, pat: Seq<char>, i: int) -> bool {
    0 <= i && i + pat.len() <= s.len() && s.subrange(i, i + pat.len()) == pat
}

/// `pat` stands somewhere in `s`.
pub open spec fn contains_seq(s: Seq<char>, pat: Seq<char>) -> bool {
    exists|i: int| contains_at(s, pat, i)
}

/// If the field `name` (written with its quotes) stands at `i`, followed
/// by optional whitespace, `:`, optional whitespace and a `"`, the
/// position of that opening quote.
pub open spec fn value_quote_at(s: Seq<char>, name: Seq<char>, i: int) -> Option<int> {
    if contains_at(s, name, i) {
        let j = spec_skip_ws(s, i + name.len());
        if j < s.len() && s[j] == ':' {
            let k = spec_skip_ws(s, j + 1);
            if k < s.len() && s[k] == '"' {
                Some(k)
            } else {
                None
            }
        } else {
            None
        }
    } else {
        None
    }
}

/// The square value of field `name` if the full pattern
/// `name ws* : ws* "fr"` stands at `i`.
pub open spec fn square_field_at(s: Seq<char>, name: Seq<char>, i: int) -> Option<(char, char)> {
    match value_quote_at(s, name, i) {
        Some(k) => if k + 4 <= s.len() && is_file_char(s[k + 1]) && is_rank_char(s[k + 2]) && s[k
            + 3] == '"' {
            Some((s[k + 1], s[k + 2]))
        } else {
            None
        },
        None => None,
    }
}

/// The promotion letter of field `name` if the full pattern
/// `name ws* : ws* "X"` stands at `i`.
pub open spec fn promo_field_at(s: Seq<char>, name: Seq<char>, i: int) -> Option<char> {
    match value_quote_at(s, name, i) {
        Some(k) => if k + 3 <= s.len() && is_promo_char(s[k + 1]) && s[k + 2] == '"' {
            Some(s[k + 1])
        } else {
            None
        },
        None => None,
    }
}

/// The field `name` stands at `i` with exactly the quoted value `value`.
pub open spec fn literal_field_at(s: Seq<char>, name: Seq<char>, value: Seq<char>, i: int) -> bool {
    match value_quote_at(s, name, i) {
        Some(k) => contains_at(s, value, k + 1) && k + 1 + value.len() < s.len() && s[k + 1
            + value.len()] == '"',
        None => false,
    }
}

/// The square value of `name` at its first full match in `s`.
pub open spec fn find_square_field_from(s: Seq<char>, name: Seq<char>, i: int) -> Option<
    (char, char),
>
    decreases s.len() - i,
{
    if i < 0 || i >= s.len() {
        None
    } else if square_field_at(s, name, i) is Some {
        square_field_at(s, name, i)
    } else {
        find_square_field_from(s, name, i + 1)
    }
}

/// The square value of `name` at its first full match in `s`.
pub open spec fn find_square_field(s: Seq<char>, name: Seq<char>) -> Option<(char, char)> {
    find_square_field_from(s, name, 0)
}

/// The promotion letter of `name` at its first full match in `s`.
pub open spec fn find_promo_field_from(s: Seq<char>, name: Seq<char>, i: int) -> Option<char>
    decreases s.len() - i,
{
    if i < 0 || i >= s.len() {
        None
    } else if promo_field_at(s, name, i) is Some {
        promo_field_at(s, name, i)
    } else {
        find_promo_field_from(s, name, i + 1)
    }
}

/// The promotion letter of `name` at its first full match in `s`.
pub open spec fn find_promo_field(s: Seq<char>, name: Seq<char>) -> Option<char> {
    find_promo_field_from(s, name, 0)
}

/// Some position of `s` holds field `name` with the quoted value `value`.
pub open spec fn has_literal_field(s: Seq<char>, name: Seq<char>, value: Seq<char>) -> bool {
    exists|i: int| literal_field_at(s, name, value, i)
}

/// Decides `a@ == b@`.
pub fn str_eq(a: &str, b: &str) -> (r: bool)
    ensures
        r == (a@ == b@),
{
    let n = a.unicode_len();
    if n != b.unicode_len() {
        return false;
    }
    let mut i: usize = 0;
    while i < n
        invariant
            n == a@.len(),
            n == b@.len(),
            0 <= i <= n,
            forall|m: int| 0 <= m < i ==> a@[m] == b@[m],
        decreases n - i,
    {
        if a.get_char(i) != b.get_char(i) {
            return false;
        }
        i += 1;
    }
    proof {
        assert(a@ =~= b@);
    }
    true
}

/// Decides whether `pat` stands in `s` at position `i`.
fn matches_token_at(s: &str, pat: &str, i: usize, n: usize, np: usize) -> (r: bool)
    requires
        i <= n,
        n == s@.len(),
        np == pat@.len(),
    ensures
        r == contains_at(s@, pat@, i as int),
{
    if np > n - i {
        assert(!contains_at(s@, pat@, i as int));
        return false;
    }
    let mut m: usize = 0;
    while m < np
        invariant
            0 <= m <= np,
            i + np <= n,
            n == s@.len(),
            np == pat@.len(),
            forall|q: int| 0 <= q < m ==> s@[i + q] == pat@[q],
        decreases np - m,
    {
        if s.get_char(i + m) != pat.get_char(m) {
            proof {
                assert(s@.subrange(i as int, i + pat@.len())[m as int] == s@[i + m]);
                assert(!contains_at(s@, pat@, i as int));
            }
            return false;
        }
        m += 1;
    }
    proof {
        assert(s@.subrange(i as int, i + pat@.len()) =~= pat@);
    }
    true
}

/// The first position at or after `i` that does not hold whitespace.
fn skip_ws(s: &str, i: usize, n: usize) -> (r: usize)
    requires
        i <= n,
        n == s@.len(),
    ensures
        r == spec_skip_ws(s@, i as int),
        i <= r <= n,
{
    let mut j = i;
    while j < n
        invariant
            i <= j <= n,
            n == s@.len(),
            spec_skip_ws(s@, i as int) == spec_skip_ws(s@, j as int),
        decreases n - j,
    {
        let c = s.get_char(j);
        if !(c == ' ' || c == '\t' || c == '\n' || c == '\r') {
            return j;
        }
        j += 1;
    }
    j
}

/// Decides whether `pat` stands anywhere in `s`.
pub fn contains_sub(s: &str, pat: &str) -> (r: bool)
    ensures
        r == contains_seq(s@, pat@),
{
    let n = s.unicode_len();
    let np = pat.unicode_len();
    if np == 0 {
        proof {
            assert(s@.subrange(0, 0) =~= pat@);
            assert(contains_at(s@, pat@, 0));
        }
        return true;
    }
    let mut i: usize = 0;
    while i < n
        invariant
            n == s@.len(),
            np == pat@.len(),
            0 <= i <= n,
            forall|m: int| 0 <= m < i ==> !contains_at(s@, pat@, m),
        decreases n - i,
    {
        if matches_token_at(s, pat, i, n, np) {
            return true;
        }
        i += 1;
    }
    proof {
        assert(forall|m: int| contains_at(s@, pat@, m) ==> 0 <= m < n);
    }
    false
}

/// The value-quote position of field `name` at `i`, per `value_quote_at`.
fn value_quote_at_pos(s: &str, name: &str, i: usize, n: usize, nn: usize) -> (r: Option<usize>)
    requires
        i <= n,
        n == s@.len(),
        nn == name@.len(),
    ensures
        match r {
            Some(k) => value_quote_at(s@, name@, i as int) == Some(k as int) && k < n,
            None => value_quote_at(s@, name@, i as int) is None,
        },
{
    if !matches_token_at(s, name, i, n, nn) {
        return None;
    }
    let j = skip_ws(s, i + nn, n);
    if j == n {
        return None;
    }
    if s.get_char(j) != ':' {
        return None;
    }
    let k = skip_ws(s, j + 1, n);
    if k == n {
        return None;
    }
    if s.get_char(k) != '"' {
        return None;
    }
    Some(k)
}

/// The value-quote position of a square-valued match of `name` at `i`.
fn square_field_at_pos(s: &str, name: &str, i: usize, n: usize, nn: usize) -> (r: Option<usize>)
    requires
        i <= n,
        n == s@.len(),
        nn == name@.len(),
    ensures
        match r {
            Some(k) => {
                &&& square_field_at(s@, name@, i as int) == Some((s@[k + 1], s@[k + 2]))
                &&& k + 4 <= n
                &&& is_file_char(s@[k + 1])
                &&& is_rank_char(s@[k + 2])
            },
            None => square_field_at(s@, name@, i as int) is None,
        },
{
    let k = match value_quote_at_pos(s, name, i, n, nn) {
        Some(k) => k,
        None => {
            return None;
        },
    };
    if n - k < 4 {
        return None;
    }
    let f = s.get_char(k + 1);
    let r = s.get_char(k + 2);
    if 'a' <= f && f <= 'h' && '1' <= r && r <= '8' && s.get_char(k + 3) == '"' {
        Some(k)
    } else {
        None
    }
}

/// The value-quote position of a promotion-valued match of `name` at `i`.
fn promo_field_at_pos(s: &str, name: &str, i: usize, n: usize, nn: usize) -> (r: Option<usize>)
    requires
        i <= n,
        n == s@.len(),
        nn == name@.len(),
    ensures
        match r {
            Some(k) => {
                &&& promo_field_at(s@, name@, i as int) == Some(s@[k + 1])
                &&& k + 3 <= n
                &&& is_promo_char(s@[k + 1])
            },
            None => promo_field_at(s@, name@, i as int) is None,
        },
{
    let k = match value_quote_at_pos(s, name, i, n, nn) {
        Some(k) => k,
        None => {
            return None;
        },
    };
    if n - k < 3 {
        return None;
    }
    let c = s.get_char(k + 1);
    if (c == 'Q' || c == 'R' || c == 'B' || c == 'N') && s.get_char(k + 2) == '"' {
        Some(k)
    } else {
        None
    }
}

/// Decides whether field `name` stands at `i` with exactly the value `value`.
fn literal_field_at_pos(s: &str, name: &str, value: &str, i: usize, n: usize, nn: usize, nv: usize)
    -> (r: bool)
    requires
        i <= n,
        n == s@.len(),
        nn == name@.len(),
        nv == value@.len(),
    ensures
        r == literal_field_at(s@, name@, value@, i as int),
{
    let k = match value_quote_at_pos(s, name, i, n, nn) {
        Some(k) => k,
        None => {
            return false;
        },
    };
    let room = n - (k + 1);
    if nv >= room {
        return false;
    }
    matches_token_at(s, value, k + 1, n, nv) && s.get_char(k + 1 + nv) == '"'
}

/// The value-quote position of the first square-valued match of `name` in `s`.
pub fn find_square_field_pos(s: &str, name: &str) -> (r: Option<usize>)
    ensures
        match r {
            Some(k) => {
                &&& find_square_field(s@, name@) == Some((s@[k + 1], s@[k + 2]))
                &&& k + 4 <= s@.len()
                &&& is_file_char(s@[k + 1])
                &&& is_rank_char(s@[k + 2])
            },
            None => find_square_field(s@, name@) is None,
        },
{
    let n = s.unicode_len();
    let nn = name.unicode_len();
    let mut i: usize = 0;
    while i < n
        invariant
            n == s@.len(),
            nn == name@.len(),
            0 <= i <= n,
            find_square_field(s@, name@) == find_square_field_from(s@, name@, i as int),
        decreases n - i,
    {
        match square_field_at_pos(s, name, i, n, nn) {
            Some(k) => {
                return Some(k);
            },
            None => {
                i += 1;
            },
        }
    }
    None
}

/// The value-quote position of the first promotion-valued match of `name` in `s`.
pub fn find_promo_field_pos(s: &str, name: &str) -> (r: Option<usize>)
    ensures
        match r {
            Some(k) => {
                &&& find_promo_field(s@, name@) == Some(s@[k + 1])
                &&& k + 3 <= s@.len()
                &&& is_promo_char(s@[k + 1])
            },
            None => find_promo_field(s@, name@) is None,
        },
{
    let n = s.unicode_len();
    let nn = name.unicode_len();
    let mut i: usize = 0;
    while i < n
        invariant
            n == s@.len(),
            nn == name@.len(),
            0 <= i <= n,
            find_promo_field(s@, name@) == find_promo_field_from(s@, name@, i as int),
        decreases n - i,
    {
        match promo_field_at_pos(s, name, i, n, nn) {
            Some(k) => {
                return Some(k);
            },
            None => {
                i += 1;
            },
        }
    }
    None
}

/// Decides whether `s` holds field `name` with exactly the value `value`.
pub fn has_field(s: &str, name: &str, value: &str) -> (r: bool)
    ensures
        r == has_literal_field(s@, name@, value@),
{
    let n = s.unicode_len();
    let nn = name.unicode_len();
    let nv = value.unicode_len();
    let mut i: usize = 0;
    while i < n
        invariant
            n == s@.len(),
            nn == name@.len(),
            nv == value@.len(),
            0 <= i <= n,
            forall|m: int| 0 <= m < i ==> !literal_field_at(s@, name@, value@, m),
        decreases n - i,
    {
        if literal_field_at_pos(s, name, value, i, n, nn, nv) {
            return true;
        }
        i += 1;
    }
    proof {
        assert forall|m: int| !literal_field_at(s@, name@, value@, m) by {
            if m >= n {
                assert(spec_skip_ws(s@, m + name@.len()) >= m + name@.len()) by {
                    lemma_skip_ws_bounds(s@, m + name@.len());
                }
            }
        }
    }
    false
}

/// The name of the start-square field, with its quotes.
pub open spec fn start_square_name() -> Seq<char> {
    "\"start_square\""@
}

/// The name of the end-square field, with its quotes.
pub open spec fn end_square_name() -> Seq<char> {
    "\"end_square\""@
}

/// The name of the promotion field, with its quotes.
pub open spec fn promote_name() -> Seq<char> {
    "\"promote_to\""@
}

/// The move `m` is exactly what the body's fields carry: the first
/// start-square and end-square matches, and the promotion when its
/// field stands in the body.
pub open spec fn envelope_matches_body(body: Seq<char>, m: NotatedMove) -> bool {
    &&& m.wf()
    &&& m.start_position@.len() == 2
    &&& find_square_field(body, start_square_name()) == Some(
        (m.start_position@[0], m.start_position@[1]),
    )
    &&& m.end_position@.len() == 2
    &&& find_square_field(body, end_square_name()) == Some(
        (m.end_position@[0], m.end_position@[1]),
    )
    &&& match m.promotes_to {
        Some(p) => p@.len() == 1 && find_promo_field(body, promote_name()) == Some(p@[0]),
        None => find_promo_field(body, promote_name()) is None,
    }
}

/// Both square fields stand in a move body.
pub open spec fn move_body_parses(body: Seq<char>) -> bool {
    find_square_field(body, start_square_name()) is Some && find_square_field(
        body,
        end_square_name(),
    ) is Some
}

/// The move a `/move` body carries: present exactly when both square
/// fields stand in the body, with the promotion taken along when its
/// field stands there too.
pub fn parse_move_body(body: &str) -> (r: Option<NotatedMove>)
    ensures
        r is Some <==> move_body_parses(body@),
        match r {
            Some(m) => envelope_matches_body(body@, m),
            None => true,
        },
{
    let n = body.unicode_len();
    let ks = match find_square_field_pos(body, "\"start_square\"") {
        Some(k) => k,
        None => {
            return None;
        },
    };
    let ke = match find_square_field_pos(body, "\"end_square\"") {
        Some(k) => k,
        None => {
            return None;
        },
    };
    let start_position = body.substring_char(ks + 1, ks + 3).to_owned();
    let end_position = body.substring_char(ke + 1, ke + 3).to_owned();
    let promotes_to = match find_promo_field_pos(body, "\"promote_to\"") {
        Some(kp) => Some(body.substring_char(kp + 1, kp + 2).to_owned()),
        None => None,
    };
    proof {
        assert(start_position@[0] == body@[ks + 1]);
        assert(start_position@[1] == body@[ks + 2]);
        assert(end_position@[0] == body@[ke + 1]);
        assert(end_position@[1] == body@[ke + 2]);
    }
    Some(NotatedMove { start_position, end_position, promotes_to })
}

/// The search returns the value of the first full match: if `name`
/// matches at `p` with nothing before it, that is the result.
pub proof fn lemma_find_square_first(s: Seq<char>, name: Seq<char>, i: int, p: int)
    requires
        0 <= i <= p < s.len(),
        square_field_at(s, name, p) is Some,
        forall|j: int| i <= j < p ==> square_field_at(s, name, j) is None,
    ensures
        find_square_field_from(s, name, i) == square_field_at(s, name, p),
    decreases p - i,
{
    if i < p {
        lemma_find_square_first(s, name, i + 1, p);
    }
}

/// Where no position matches, the search finds nothing.
pub proof fn lemma_find_promo_none(s: Seq<char>, name: Seq<char>, i: int)
    requires
        forall|j: int| promo_field_at(s, name, j) is None,
    ensures
        find_promo_field_from(s, name, i) is None,
    decreases s.len() - i,
{
    if 0 <= i < s.len() {
        lemma_find_promo_none(s, name, i + 1);
    }
}

/// The search returns the value of the first full match: if `name`
/// matches at `p` with nothing before it, that is the result.
pub proof fn lemma_find_promo_first(s: Seq<char>, name: Seq<char>, i: int, p: int)
    requires
        0 <= i <= p < s.len(),
        promo_field_at(s, name, p) is Some,
        forall|j: int| i <= j < p ==> promo_field_at(s, name, j) is None,
    ensures
        find_promo_field_from(s, name, i) == promo_field_at(s, name, p),
    decreases p - i,
{
    if i < p {
        lemma_find_promo_first(s, name, i + 1, p);
    }
}

/// The search finds nothing exactly when no position at or after `i`
/// holds a full square-valued match.
pub proof fn lemma_find_square_none_iff(s: Seq<char>, name: Seq<char>, i: int)
    requires
        0 <= i,
    ensures
        find_square_field_from(s, name, i) is None <==> (forall|j: int|
            i <= j ==> #[trigger] square_field_at(s, name, j) is None),
    decreases s.len() - i,
{
    if i >= s.len() {
        assert forall|j: int| i <= j implies square_field_at(s, name, j) is None by {
            if contains_at(s, name, j) {
                assert(j + name.len() == s.len());
                assert(spec_skip_ws(s, j + name.len()) == s.len());
            }
        }
    } else {
        lemma_find_square_none_iff(s, name, i + 1);
        if square_field_at(s, name, i) is None && find_square_field_from(s, name, i + 1) is None {
            assert forall|j: int| i <= j implies square_field_at(s, name, j) is None by {
                if j > i {
                    assert(square_field_at(s, name, j) is None);
                }
            }
        }
    }
}

/// The search finds nothing exactly when no position at or after `i`
/// holds a full promotion-valued match.
pub proof fn lemma_find_promo_none_iff(s: Seq<char>, name: Seq<char>, i: int)
    requires
        0 <= i,
    ensures
        find_promo_field_from(s, name, i) is None <==> (forall|j: int|
            i <= j ==> #[trigger] promo_field_at(s, name, j) is None),
    decreases s.len() - i,
{
    if i >= s.len() {
        assert forall|j: int| i <= j implies promo_field_at(s, name, j) is None by {
            if contains_at(s, name, j) {
                assert(j + name.len() == s.len());
                assert(spec_skip_ws(s, j + name.len()) == s.len());
            }
        }
    } else {
        lemma_find_promo_none_iff(s, name, i + 1);
        if promo_field_at(s, name, i) is None && find_promo_field_from(s, name, i + 1) is None {
            assert forall|j: int| i <= j implies promo_field_at(s, name, j) is None by {
                if j > i {
                    assert(promo_field_at(s, name, j) is None);
                }
            }
        }
    }
}

/// `spec_skip_ws` never moves backwards and never runs past the end.
proof fn lemma_skip_ws_bounds(s: Seq<char>, i: int)
    ensures
        spec_skip_ws(s, i) >= i,
        i <= s.len() ==> spec_skip_ws(s, i) <= s.len(),
    decreases s.len() - i,
{
    if 0 <= i < s.len() && is_ws_char(s[i]) {
        lemma_skip_ws_bounds(s, i + 1);
    }
}

} // verus!
