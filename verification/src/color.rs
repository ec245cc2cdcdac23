//! The two sides of a match and the match status.

use vstd::prelude::*;

verus! {

/// The side a piece or a player belongs to.
#[derive(Clone, Copy, PartialEq, Eq, Structural, Debug)]
pub enum Color {
    White,
    Black,
}

impl Color {
    /// The opposite side.
    pub open spec fn spec_invert(self) -> Color {
        match self {
            Color::White => Color::Black,
            Color::Black => Color::White,
        }
    }

    /// Inverting twice gives the color back.
    pub proof fn lemma_invert_involutive(self)
        ensures
            self.spec_invert().spec_invert() == self,
    {
    }

    /// The opposite side.
    pub fn invert(&self) -> (c: Color)
        ensures
            c == self.spec_invert(),
    {
        match self {
            Color::White => Color::Black,
            Color::Black => Color::White,
        }
    }

    /// The color's name on the wire.
    pub open spec fn spec_name(self) -> Seq<char> {
        match self {
            Color::White => "white"@,
            Color::Black => "black"@,
        }
    }

    /// The color's name on the wire.
    pub fn name(&self) -> (s: &'static str)
        ensures
            s@ == self.spec_name(),
    {
        match self {
            Color::White => "white",
            Color::Black => "black",
        }
    }
}

/// Where the match stands, as last reported by the rule engine.
#[derive(Clone, Copy, PartialEq, Eq, Structural, Debug)]
pub enum GameStatus {
    /// The game goes on and nobody is in check.
    Normal,
    /// The named color is in check.
    Check(Color),
    /// The named color has won.
    Checkmate(Color),
    /// The game ended in a draw.
    Draw,
}

impl GameStatus {
    /// A concluded match accepts no further moves.
    pub open spec fn spec_is_concluded(self) -> bool {
        self is Checkmate || self is Draw
    }

    /// A concluded match accepts no further moves.
    pub fn is_concluded(&self) -> (r: bool)
        ensures
            r == self.spec_is_concluded(),
    {
        match self {
            GameStatus::Checkmate(_) => true,
            GameStatus::Draw => true,
            _ => false,
        }
    }

    /// The status word served to a `gamestate` query.
    pub open spec fn spec_state_name(self) -> Seq<char> {
        match self {
            GameStatus::Draw => "draw"@,
            GameStatus::Checkmate(Color::White) => "white-won"@,
            GameStatus::Checkmate(Color::Black) => "black-won"@,
            _ => "in-progress"@,
        }
    }

    /// The status word served to a `gamestate` query.
    pub fn state_name(&self) -> (s: &'static str)
        ensures
            s@ == self.spec_state_name(),
    {
        match self {
            GameStatus::Draw => "draw",
            GameStatus::Checkmate(Color::White) => "white-won",
            GameStatus::Checkmate(Color::Black) => "black-won",
            _ => "in-progress",
        }
    }
}

} // verus!
