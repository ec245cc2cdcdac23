//! The board snapshot served to a board query.
//!
//! The rule engine owns the board; the library receives the pieces as
//! plain values, in the order the engine enumerates them, and renders
//! the reply body.

use vstd::prelude::*;
use crate::color::Color;
use crate::grammar::is_square;
use crate::router::HttpReply;

verus! {

/// A kind of piece.
#[derive(Clone, Copy, PartialEq, Eq, Structural, Debug)]
pub enum PieceKind {
    King,
    Queen,
    Rook,
    Bishop,
    Knight,
    Pawn,
}

impl PieceKind {
    /// The kind's name on the wire.
    pub open spec fn spec_name(self) -> Seq<char> {
        match self {
            PieceKind::King => "king"@,
            PieceKind::Queen => "queen"@,
            PieceKind::Rook => "rook"@,
            PieceKind::Bishop => "bishop"@,
            PieceKind::Knight => "knight"@,
            PieceKind::Pawn => "pawn"@,
        }
    }

    /// The kind's name on the wire.
    pub fn name(&self) -> (s: &'static str)
        ensures
            s@ == self.spec_name(),
    {
        match self {
            PieceKind::King => "king",
            PieceKind::Queen => "queen",
            PieceKind::Rook => "rook",
            PieceKind::Bishop => "bishop",
            PieceKind::Knight => "knight",
            PieceKind::Pawn => "pawn",
        }
    }
}

/// One piece of the snapshot: kind, color and the square it stands on.
#[derive(Clone, Debug)]
pub struct Piece {
    pub kind: PieceKind,
    pub color: Color,
    pub position: String,
}

impl Piece {
    /// The square has the square shape.
    pub open spec fn wf(self) -> bool {
        is_square(self.position@)
    }
}

/// One piece as it stands in the reply body.
pub open spec fn piece_json(p: Piece) -> Seq<char> {
    "{\"piece-type\":\""@ + p.kind.spec_name() + "\",\"color\":\""@ + p.color.spec_name()
        + "\",\"position\":\""@ + p.position@ + "\"}"@
}

/// The pieces as they stand in the reply body, comma-separated, in the
/// order the rule engine enumerated them.
pub open spec fn pieces_json(ps: Seq<Piece>) -> Seq<char>
    decreases ps.len(),
{
    if ps.len() == 0 {
        Seq::<char>::empty()
    } else if ps.len() == 1 {
        piece_json(ps[0])
    } else {
        pieces_json(ps.drop_last()) + ","@ + piece_json(ps.last())
    }
}

/// The whole reply body of a board query.
pub open spec fn board_reply_body(ps: Seq<Piece>) -> Seq<char> {
    "{\"board\":["@ + pieces_json(ps) + "]}"@
}

/// One piece rendered for the reply body.
fn render_piece(p: &Piece) -> (r: String)
    ensures
        r@ == piece_json(*p),
{
    let mut out = String::new();
    out.append("{\"piece-type\":\"");
    out.append(p.kind.name());
    out.append("\",\"color\":\"");
    out.append(p.color.name());
    out.append("\",\"position\":\"");
    out.append(p.position.as_str());
    out.append("\"}");
    proof {
        assert(out@ =~= piece_json(*p));
    }
    out
}

/// Render the reply to a board query from the engine's snapshot.
pub fn board_reply(pieces: &Vec<Piece>) -> (r: HttpReply)
    ensures
        r.code == 200,
        r.body@ == board_reply_body(pieces@),
{
    let mut out = String::new();
    out.append("{\"board\":[");
    let n = pieces.len();
    let mut i: usize = 0;
    while i < n
        invariant
            n == pieces@.len(),
            0 <= i <= n,
            out@ == "{\"board\":["@ + pieces_json(pieces@.subrange(0, i as int)),
        decreases n - i,
    {
        if i > 0 {
            out.append(",");
        }
        let pj = render_piece(&pieces[i]);
        out.append(pj.as_str());
        proof {
            let pre = pieces@.subrange(0, i as int);
            let cur = pieces@.subrange(0, i + 1 as int);
            assert(cur.drop_last() =~= pre);
            assert(cur.last() == pieces@[i as int]);
            if i == 0 {
                assert(cur.len() == 1);
                assert(cur[0] == pieces@[0]);
                assert(out@ =~= "{\"board\":["@ + pieces_json(cur));
            } else {
                assert(out@ =~= "{\"board\":["@ + pieces_json(cur));
            }
        }
        i += 1;
    }
    proof {
        assert(pieces@.subrange(0, n as int) =~= pieces@);
    }
    out.append("]}");
    proof {
        assert(out@ =~= board_reply_body(pieces@));
    }
    HttpReply { code: 200, body: out }
}

} // verus!
