//! The two-click move selection.
//!
//! The first click selects a square whose piece may move; the second
//! either reselects, forwards a move, or — when the move promotes —
//! waits for a key naming the promotion piece.  The engine's answers
//! about pieces and legal destinations come in as plain values; the
//! decision and the selection state live here.

use vstd::prelude::*;
use crate::envelope::NotatedMove;

verus! {

/// One legal destination from a selected square, as the rule engine
/// reports it: the square and whether moving there promotes.
#[derive(Clone, Debug)]
pub struct Destination {
    pub position: String,
    pub promotes: bool,
}

/// Whether some destination in `ms` is `end`, and whether the first
/// such destination promotes.
pub open spec fn find_dest_from(ms: Seq<Destination>, end: Seq<char>, i: int) -> (bool, bool)
    decreases ms.len() - i,
{
    if i < 0 || i >= ms.len() {
        (false, false)
    } else if ms[i].position@ == end {
        (true, ms[i].promotes)
    } else {
        find_dest_from(ms, end, i + 1)
    }
}

/// Whether the piece on the selected square may move to `end`, and
/// whether that move promotes; `(false, false)` when the engine listed
/// no destinations at all.
pub open spec fn spec_can_move_to(ms: Option<Seq<Destination>>, end: Seq<char>) -> (bool, bool) {
    match ms {
        Some(list) => find_dest_from(list, end, 0),
        None => (false, false),
    }
}

/// Whether the piece whose destinations are `moves` may move to `end`,
/// and whether the first listed such move promotes.
pub fn piece_at_position_can_move_to(moves: &Option<Vec<Destination>>, end: &str) -> (r: (
    bool,
    bool,
))
    ensures
        r == spec_can_move_to(
            match moves {
                Some(list) => Some(list@),
                None => None,
            },
            end@,
        ),
{
    let list = match moves {
        Some(list) => list,
        None => {
            return (false, false);
        },
    };
    let n = list.len();
    let mut i: usize = 0;
    while i < n
        invariant
            (moves matches Some(l) && l@ == list@),
            n == list@.len(),
            0 <= i <= n,
            find_dest_from(list@, end@, 0) == find_dest_from(list@, end@, i as int),
        decreases n - i,
    {
        if crate::parse::str_eq(list[i].position.as_str(), end) {
            proof {
                assert(find_dest_from(list@, end@, i as int) == (
                    true,
                    list@[i as int].promotes,
                ));
            }
            return (true, list[i].promotes);
        }
        i += 1;
    }
    (false, false)
}

/// What the surrounding process is to do after a click or a key.
#[derive(Clone, Debug)]
pub enum ClickAction {
    /// Nothing changed.
    Ignore,
    /// A square was selected: mark its destinations.
    SelectAndMark,
    /// The selection moved to another own piece: clear the marks, then
    /// mark the new square's destinations.
    ReselectAndMark,
    /// The selection was dropped: clear the marks.
    ClearMarks,
    /// A promoting move was chosen: wait for the key naming the piece.
    AwaitPromotion,
    /// A complete move was chosen: apply it locally and relay it.
    Forward(NotatedMove),
}

/// The two-click selection state.
#[derive(Clone, Debug)]
pub struct InputHandler {
    pub clicked_tile: Option<String>,
    pub clicked_tile_2: Option<String>,
}

impl InputHandler {
    pub fn new() -> (h: InputHandler)
        ensures
            h.clicked_tile is None,
            h.clicked_tile_2 is None,
    {
        InputHandler { clicked_tile: None, clicked_tile_2: None }
    }

    pub fn reset_clicked_squares(&mut self)
        ensures
            final(self).clicked_tile is None,
            final(self).clicked_tile_2 is None,
    {
        self.clicked_tile = None;
        self.clicked_tile_2 = None;
    }

    /// Decide what a click on `clicked` does.  The engine's answers come
    /// along as plain values: whether a piece of the side to move stands
    /// on `clicked`, the destinations from `clicked`, and the
    /// destinations from the currently selected square.
    pub fn clicked_at(
        &mut self,
        clicked: &str,
        can_move_at_clicked: bool,
        moves_from_clicked: &Option<Vec<Destination>>,
        moves_from_selected: &Option<Vec<Destination>>,
    ) -> (a: ClickAction)
        ensures
            clicked_at_post(
                *old(self),
                *final(self),
                clicked@,
                can_move_at_clicked,
                match moves_from_clicked {
                    Some(list) => Some(list@),
                    None => None,
                },
                match moves_from_selected {
                    Some(list) => Some(list@),
                    None => None,
                },
                a,
            ),
    {
        if self.clicked_tile_2.is_some() {
            return ClickAction::Ignore;
        }
        if self.clicked_tile.is_none() {
            if moves_from_clicked.is_some() {
                self.clicked_tile = Some(clicked.to_owned());
                ClickAction::SelectAndMark
            } else {
                ClickAction::Ignore
            }
        } else if can_move_at_clicked {
            self.clicked_tile = Some(clicked.to_owned());
            ClickAction::ReselectAndMark
        } else {
            let (can, promotes) = piece_at_position_can_move_to(moves_from_selected, clicked);
            if can && promotes {
                self.clicked_tile_2 = Some(clicked.to_owned());
                ClickAction::AwaitPromotion
            } else if can {
                let start = match &self.clicked_tile {
                    Some(t) => t.clone(),
                    None => {
                        return ClickAction::Ignore;  // unreachable: the selection is some
                    },
                };
                let mov = NotatedMove::new(start, clicked.to_owned(), None);
                self.clicked_tile = None;
                self.clicked_tile_2 = None;
                ClickAction::Forward(mov)
            } else {
                self.clicked_tile = None;
                ClickAction::ClearMarks
            }
        }
    }

    /// Decide what a pressed key does while a promotion waits: one of
    /// the four piece letters completes the move, anything else is
    /// ignored.
    pub fn key_pressed(&mut self, key: char) -> (a: ClickAction)
        ensures
            key_pressed_post(*old(self), *final(self), key, a),
    {
        let awaiting = self.clicked_tile.is_some() && self.clicked_tile_2.is_some();
        if !awaiting || !(key == 'Q' || key == 'R' || key == 'B' || key == 'N') {
            return ClickAction::Ignore;
        }
        let start = match &self.clicked_tile {
            Some(t) => t.clone(),
            None => {
                return ClickAction::Ignore;  // unreachable: checked above
            },
        };
        let end = match &self.clicked_tile_2 {
            Some(t) => t.clone(),
            None => {
                return ClickAction::Ignore;  // unreachable: checked above
            },
        };
        let promo_str: &str = if key == 'Q' {
            "Q"
        } else if key == 'R' {
            "R"
        } else if key == 'B' {
            "B"
        } else {
            "N"
        };
        proof {
            reveal_strlit("Q");
            reveal_strlit("R");
            reveal_strlit("B");
            reveal_strlit("N");
            assert(promo_str@ =~= seq![key]);
        }
        let mov = NotatedMove::new(start, end, Some(promo_str.to_owned()));
        self.clicked_tile = None;
        self.clicked_tile_2 = None;
        ClickAction::Forward(mov)
    }
}

/// The full case analysis of one click.
pub open spec fn clicked_at_post(
    s0: InputHandler,
    s1: InputHandler,
    clicked: Seq<char>,
    can_move_at_clicked: bool,
    moves_from_clicked: Option<Seq<Destination>>,
    moves_from_selected: Option<Seq<Destination>>,
    a: ClickAction,
) -> bool {
    if s0.clicked_tile_2 is Some {
        s1 == s0 && a is Ignore
    } else if s0.clicked_tile is None {
        if moves_from_clicked is Some {
            &&& (s1.clicked_tile matches Some(t) && t@ == clicked)
            &&& s1.clicked_tile_2 is None
            &&& a is SelectAndMark
        } else {
            s1 == s0 && a is Ignore
        }
    } else if can_move_at_clicked {
        &&& (s1.clicked_tile matches Some(t) && t@ == clicked)
        &&& s1.clicked_tile_2 is None
        &&& a is ReselectAndMark
    } else {
        let (can, promotes) = spec_can_move_to(moves_from_selected, clicked);
        if can && promotes {
            &&& s1.clicked_tile == s0.clicked_tile
            &&& (s1.clicked_tile_2 matches Some(t) && t@ == clicked)
            &&& a is AwaitPromotion
        } else if can {
            &&& s1.clicked_tile is None
            &&& s1.clicked_tile_2 is None
            &&& (a matches ClickAction::Forward(m) && m.start_position@
                == s0.clicked_tile->0@ && m.end_position@ == clicked && m.promotes_to is None)
        } else {
            &&& s1.clicked_tile is None
            &&& s1.clicked_tile_2 == s0.clicked_tile_2
            &&& a is ClearMarks
        }
    }
}

/// The full case analysis of one key while a promotion may wait.
pub open spec fn key_pressed_post(
    s0: InputHandler,
    s1: InputHandler,
    key: char,
    a: ClickAction,
) -> bool {
    if s0.clicked_tile is Some && s0.clicked_tile_2 is Some && (key == 'Q' || key == 'R' || key
        == 'B' || key == 'N') {
        &&& s1.clicked_tile is None
        &&& s1.clicked_tile_2 is None
        &&& (a matches ClickAction::Forward(m) && m.start_position@ == s0.clicked_tile->0@
            && m.end_position@ == s0.clicked_tile_2->0@ && (m.promotes_to matches Some(p) && p@
            == seq![key]))
    } else {
        s1 == s0 && a is Ignore
    }
}

} // verus!
