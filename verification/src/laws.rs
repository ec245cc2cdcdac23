//! Properties that tie the pieces together: a serialized move parses
//! back to itself, and a move the peer already applied is refused when
//! it is replayed.

use vstd::prelude::*;
use crate::color::GameStatus;
use crate::envelope::NotatedMove;
use crate::parse::{
    contains_at, end_square_name, envelope_matches_body, find_square_field,
    lemma_find_promo_first, lemma_find_promo_none, lemma_find_square_first, promo_field_at,
    promote_name, square_field_at, start_square_name,
};
use crate::router::{
    finish_move_post, move_route_post, start_game_post, valid_move_body, RouteOutcome,
};
use crate::session::{EngineVerdict, Session};

verus! {

/// A move serialized by `jsonify` parses back to itself: each square
/// field is found with exactly the serialized square, and the promotion
/// field is found exactly when a promotion was serialized.  This is the
/// wire compatibility of the two peers: what one sends, the other reads
/// unchanged.
pub proof fn lemma_jsonify_round_trip(m: NotatedMove)
    requires
        m.wf(),
    ensures
        envelope_matches_body(m.spec_jsonify(), m),
{
    let body = m.spec_jsonify();
    let st = m.start_position@;
    let en = m.end_position@;
    reveal_strlit("{\"start_square\":\"");
    reveal_strlit("\",\"end_square\":\"");
    reveal_strlit("\",\"promote_to\":\"");
    reveal_strlit("\"}");
    reveal_strlit("\"start_square\"");
    reveal_strlit("\"end_square\"");
    reveal_strlit("\"promote_to\"");
    let sn = start_square_name();
    let endn = end_square_name();
    let pn = promote_name();
    assert(sn.len() == 14);
    assert(endn.len() == 12);
    assert(pn.len() == 12);
    match m.promotes_to {
        None => {
            assert(body.len() == 39);
            assert(body[0] == '{');
            assert(body[1] == '"');
            assert(body[2] == 's');
            assert(body[3] == 't');
            assert(body[4] == 'a');
            assert(body[5] == 'r');
            assert(body[6] == 't');
            assert(body[7] == '_');
            assert(body[8] == 's');
            assert(body[9] == 'q');
            assert(body[10] == 'u');
            assert(body[11] == 'a');
            assert(body[12] == 'r');
            assert(body[13] == 'e');
            assert(body[14] == '"');
            assert(body[15] == ':');
            assert(body[16] == '"');
            assert(body[17] == st[0]);
            assert(body[18] == st[1]);
            assert(body[19] == '"');
            assert(body[20] == ',');
            assert(body[21] == '"');
            assert(body[22] == 'e');
            assert(body[23] == 'n');
            assert(body[24] == 'd');
            assert(body[25] == '_');
            assert(body[26] == 's');
            assert(body[27] == 'q');
            assert(body[28] == 'u');
            assert(body[29] == 'a');
            assert(body[30] == 'r');
            assert(body[31] == 'e');
            assert(body[32] == '"');
            assert(body[33] == ':');
            assert(body[34] == '"');
            assert(body[35] == en[0]);
            assert(body[36] == en[1]);
            assert(body[37] == '"');
            assert(body[38] == '}');
            lemma_start_field(body, st);
            // The end-square field matches at 21 and nowhere earlier.
            assert(body.subrange(21, 33) =~= endn);
            assert(square_field_at(body, endn, 21) == Some((en[0], en[1])));
            assert forall|j: int| 0 <= j < 21 implies square_field_at(body, endn, j) is None by {
                if contains_at(body, endn, j) {
                    assert(body.subrange(j, j + 12)[4] == endn[4]);
                    assert(body[j + 4] == '_');
                    assert(body.subrange(j, j + 12)[0] == endn[0]);
                    assert(body[j] == '"');
                }
            }
            lemma_find_square_first(body, endn, 0, 21);
            // No promotion field stands anywhere: the body holds no 'p'.
            assert forall|j: int| promo_field_at(body, pn, j) is None by {
                if contains_at(body, pn, j) {
                    assert(body.subrange(j, j + 12)[1] == pn[1]);
                    assert(body[j + 1] == 'p');
                }
            }
            lemma_find_promo_none(body, pn, 0);
        },
        Some(p) => {
            let pv = p@;
            assert(body.len() == 56);
            assert(body[0] == '{');
            assert(body[1] == '"');
            assert(body[2] == 's');
            assert(body[3] == 't');
            assert(body[4] == 'a');
            assert(body[5] == 'r');
            assert(body[6] == 't');
            assert(body[7] == '_');
            assert(body[8] == 's');
            assert(body[9] == 'q');
            assert(body[10] == 'u');
            assert(body[11] == 'a');
            assert(body[12] == 'r');
            assert(body[13] == 'e');
            assert(body[14] == '"');
            assert(body[15] == ':');
            assert(body[16] == '"');
            assert(body[17] == st[0]);
            assert(body[18] == st[1]);
            assert(body[19] == '"');
            assert(body[20] == ',');
            assert(body[21] == '"');
            assert(body[22] == 'e');
            assert(body[23] == 'n');
            assert(body[24] == 'd');
            assert(body[25] == '_');
            assert(body[26] == 's');
            assert(body[27] == 'q');
            assert(body[28] == 'u');
            assert(body[29] == 'a');
            assert(body[30] == 'r');
            assert(body[31] == 'e');
            assert(body[32] == '"');
            assert(body[33] == ':');
            assert(body[34] == '"');
            assert(body[35] == en[0]);
            assert(body[36] == en[1]);
            assert(body[37] == '"');
            assert(body[38] == ',');
            assert(body[39] == '"');
            assert(body[40] == 'p');
            assert(body[41] == 'r');
            assert(body[42] == 'o');
            assert(body[43] == 'm');
            assert(body[44] == 'o');
            assert(body[45] == 't');
            assert(body[46] == 'e');
            assert(body[47] == '_');
            assert(body[48] == 't');
            assert(body[49] == 'o');
            assert(body[50] == '"');
            assert(body[51] == ':');
            assert(body[52] == '"');
            assert(body[53] == pv[0]);
            assert(body[54] == '"');
            assert(body[55] == '}');
            lemma_start_field(body, st);
            // The end-square field matches at 21 and nowhere earlier.
            assert(body.subrange(21, 33) =~= endn);
            assert(square_field_at(body, endn, 21) == Some((en[0], en[1])));
            assert forall|j: int| 0 <= j < 21 implies square_field_at(body, endn, j) is None by {
                if contains_at(body, endn, j) {
                    assert(body.subrange(j, j + 12)[4] == endn[4]);
                    assert(body[j + 4] == '_');
                    assert(body.subrange(j, j + 12)[0] == endn[0]);
                    assert(body[j] == '"');
                }
            }
            lemma_find_square_first(body, endn, 0, 21);
            // The promotion field matches at 39 and nowhere earlier: no
            // earlier position holds a 'p' one step in.
            assert(body.subrange(39, 51) =~= pn);
            assert(promo_field_at(body, pn, 39) == Some(pv[0]));
            assert forall|j: int| 0 <= j < 39 implies promo_field_at(body, pn, j) is None by {
                if contains_at(body, pn, j) {
                    assert(body.subrange(j, j + 12)[1] == pn[1]);
                    assert(body[j + 1] == 'p');
                }
            }
            lemma_find_promo_first(body, pn, 0, 39);
        },
    }
}

/// The start-square field of a serialized move matches at position 1
/// and nowhere earlier.
proof fn lemma_start_field(body: Seq<char>, st: Seq<char>)
    requires
        body.len() >= 20,
        body[0] == '{',
        body[1] == '"',
        body[2] == 's',
        body[3] == 't',
        body[4] == 'a',
        body[5] == 'r',
        body[6] == 't',
        body[7] == '_',
        body[8] == 's',
        body[9] == 'q',
        body[10] == 'u',
        body[11] == 'a',
        body[12] == 'r',
        body[13] == 'e',
        body[14] == '"',
        body[15] == ':',
        body[16] == '"',
        body[17] == st[0],
        body[18] == st[1],
        body[19] == '"',
        st.len() == 2,
        crate::grammar::is_file_char(st[0]),
        crate::grammar::is_rank_char(st[1]),
    ensures
        find_square_field(body, start_square_name()) == Some((st[0], st[1])),
{
    reveal_strlit("\"start_square\"");
    let sn = start_square_name();
    assert(sn.len() == 14);
    assert(body.subrange(1, 15) =~= sn);
    assert(square_field_at(body, sn, 1) == Some((st[0], st[1])));
    assert(square_field_at(body, sn, 0) is None) by {
        if contains_at(body, sn, 0) {
            assert(body.subrange(0, 14)[0] == sn[0]);
        }
    }
    lemma_find_square_first(body, sn, 0, 1);
}


/// Of two successive start-game requests, at most the first is
/// accepted: once a color is negotiated, every further attempt answers
/// 409 and changes nothing.
pub proof fn lemma_start_game_exactly_once(
    s0: Session,
    b1: Seq<char>,
    s1: Session,
    c1: int,
    r1: Seq<char>,
    b2: Seq<char>,
    s2: Session,
    c2: int,
    r2: Seq<char>,
)
    requires
        start_game_post(s0, b1, s1, c1, r1),
        start_game_post(s1, b2, s2, c2, r2),
        c1 == 200,
    ensures
        c2 == 409,
        s2 == s1,
{
}

/// A move the rule engine has applied is not applied twice: replaying
/// the same body against the session that recorded it is refused as
/// out of turn, with no state change.
pub proof fn lemma_replayed_move_is_refused(
    s0: Session,
    body: Seq<char>,
    r1: RouteOutcome,
    st: GameStatus,
    s2: Session,
    code: int,
    rbody: Seq<char>,
    r2: RouteOutcome,
)
    requires
        move_route_post(s0, body, r1),
        r1 is ApplyMove,
        finish_move_post(s0, EngineVerdict::Applied(st), s2, code, rbody),
        move_route_post(s2, body, r2),
    ensures
        r2 matches RouteOutcome::Done(rep) && rep.code == 400 && rep.body@ == valid_move_body(
            false,
        ),
        s2.negotiated == s0.negotiated,
{
}

} // verus!
