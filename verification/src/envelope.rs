//! The wire representation of one move.

use vstd::prelude::*;
use crate::grammar::{is_promo, is_square};

verus! {

/// A move as it travels between the peers: start square, end square and,
/// for a pawn reaching the last rank, the piece it promotes to.
#[derive(Clone, Debug)]
pub struct NotatedMove {
    pub start_position: String,
    pub end_position: String,
    pub promotes_to: Option<String>,
}

impl NotatedMove {
    /// Both squares have the square shape and the promotion, if any, is
    /// a single piece letter.
    pub open spec fn wf(self) -> bool {
        &&& is_square(self.start_position@)
        &&& is_square(self.end_position@)
        &&& match self.promotes_to {
            Some(p) => is_promo(p@),
            None => true,
        }
    }

    /// The JSON body that carries this move to the peer.
    pub open spec fn spec_jsonify(self) -> Seq<char> {
        match self.promotes_to {
            Some(p) => "{\"start_square\":\""@ + self.start_position@ + "\",\"end_square\":\""@
                + self.end_position@ + "\",\"promote_to\":\""@ + p@ + "\"}"@,
            None => "{\"start_square\":\""@ + self.start_position@ + "\",\"end_square\":\""@
                + self.end_position@ + "\"}"@,
        }
    }

    /// The text form handed to the rule engine: `start-end` or `start-end=X`.
    pub open spec fn spec_to_text(self) -> Seq<char> {
        match self.promotes_to {
            Some(p) => self.start_position@ + "-"@ + self.end_position@ + "="@ + p@,
            None => self.start_position@ + "-"@ + self.end_position@,
        }
    }

    pub fn new(start_position: String, end_position: String, promotes_to: Option<String>) -> (m:
        NotatedMove)
        ensures
            m.start_position == start_position,
            m.end_position == end_position,
            m.promotes_to == promotes_to,
    {
        NotatedMove { start_position, end_position, promotes_to }
    }

    /// The JSON body that carries this move to the peer.
    pub fn jsonify(&self) -> (r: String)
        ensures
            r@ == self.spec_jsonify(),
    {
        let mut out = String::new();
        out.append("{\"start_square\":\"");
        out.append(self.start_position.as_str());
        out.append("\",\"end_square\":\"");
        out.append(self.end_position.as_str());
        match &self.promotes_to {
            Some(p) => {
                out.append("\",\"promote_to\":\"");
                out.append(p.as_str());
                out.append("\"}");
            },
            None => {
                out.append("\"}");
            },
        }
        assert(out@ =~= self.spec_jsonify());
        out
    }

    /// The text form handed to the rule engine: `start-end` or `start-end=X`.
    pub fn to_text(&self) -> (r: String)
        ensures
            r@ == self.spec_to_text(),
    {
        let mut out = String::new();
        out.append(self.start_position.as_str());
        out.append("-");
        out.append(self.end_position.as_str());
        match &self.promotes_to {
            Some(p) => {
                out.append("=");
                out.append(p.as_str());
            },
            None => {},
        }
        assert(out@ =~= self.spec_to_text());
        out
    }
}

impl PartialEq for NotatedMove {
    fn eq(&self, other: &NotatedMove) -> (r: bool) {
        let promo_eq = match (&self.promotes_to, &other.promotes_to) {
            (Some(a), Some(b)) => *a == *b,
            (None, None) => true,
            _ => false,
        };
        promo_eq && self.start_position == other.start_position && self.end_position
            == other.end_position
    }
}

impl vstd::std_specs::cmp::PartialEqSpecImpl for NotatedMove {
    open spec fn obeys_eq_spec() -> bool {
        true
    }

    open spec fn eq_spec(&self, other: &NotatedMove) -> bool {
        &&& self.start_position@ == other.start_position@
        &&& self.end_position@ == other.end_position@
        &&& match (self.promotes_to, other.promotes_to) {
            (Some(a), Some(b)) => a@ == b@,
            (None, None) => true,
            _ => false,
        }
    }
}

} // verus!
