//! Per-session state: the one-shot color negotiation, the two consent
//! handshakes, and the shared match record.

use vstd::prelude::*;
use crate::color::{Color, GameStatus};
use crate::envelope::NotatedMove;

verus! {

/// One topic of the two-sided consent handshake (draw or rematch).
/// Each side requests independently; consent holds exactly when both
/// have requested since the topic was last reset.
#[derive(Clone, Copy, PartialEq, Eq, Structural, Debug)]
pub struct ConsentPair {
    pub local_requested: bool,
    pub remote_requested: bool,
}

impl ConsentPair {
    /// A fresh topic: nobody has requested.
    pub open spec fn spec_new() -> ConsentPair {
        ConsentPair { local_requested: false, remote_requested: false }
    }

    /// Consent holds exactly when both sides have requested.
    pub open spec fn spec_consent(self) -> bool {
        self.local_requested && self.remote_requested
    }

    pub fn new() -> (c: ConsentPair)
        ensures
            c == ConsentPair::spec_new(),
    {
        ConsentPair { local_requested: false, remote_requested: false }
    }

    /// The remote peer posted its request: record it, and report whether
    /// the local side had requested the topic as well — the value the
    /// wire reply carries back.
    pub fn remote_request(&mut self) -> (r: bool)
        ensures
            *final(self) == (ConsentPair {
                remote_requested: true,
                ..*old(self)
            }),
            r == old(self).local_requested,
    {
        self.remote_requested = true;
        self.local_requested
    }

    /// The local side requests the topic.
    pub fn local_request(&mut self)
        ensures
            *final(self) == (ConsentPair { local_requested: true, ..*old(self) }),
    {
        self.local_requested = true;
    }

    /// Consent holds exactly when both sides have requested.
    pub fn consent(&self) -> (r: bool)
        ensures
            r == self.spec_consent(),
    {
        self.local_requested && self.remote_requested
    }

    /// Wipe the topic for a new match.
    pub fn reset(&mut self)
        ensures
            *final(self) == ConsentPair::spec_new(),
    {
        self.local_requested = false;
        self.remote_requested = false;
    }
}

/// What can happen to one consent topic over the life of a session.
#[derive(Clone, Copy, PartialEq, Eq, Structural, Debug)]
pub enum ConsentEvent {
    /// The local side posted its request.
    LocalRequest,
    /// The remote side posted its request.
    RemoteRequest,
    /// A new match began and the topic was wiped.
    Reset,
}

/// The consent pair after one event.
pub open spec fn apply_consent_event(c: ConsentPair, e: ConsentEvent) -> ConsentPair {
    match e {
        ConsentEvent::LocalRequest => ConsentPair { local_requested: true, ..c },
        ConsentEvent::RemoteRequest => ConsentPair { remote_requested: true, ..c },
        ConsentEvent::Reset => ConsentPair::spec_new(),
    }
}

/// The consent pair after a sequence of events.
pub open spec fn run_consent_events(c: ConsentPair, es: Seq<ConsentEvent>) -> ConsentPair
    decreases es.len(),
{
    if es.len() == 0 {
        c
    } else {
        apply_consent_event(run_consent_events(c, es.drop_last()), es.last())
    }
}

/// Over a stretch of a session in which the topic is never reset,
/// consent holds exactly when each side independently requested it at
/// least once.
pub proof fn lemma_consent_iff_both_requested(es: Seq<ConsentEvent>)
    requires
        forall|i: int| 0 <= i < es.len() ==> es[i] != ConsentEvent::Reset,
    ensures
        run_consent_events(ConsentPair::spec_new(), es).local_requested <==> es.contains(
            ConsentEvent::LocalRequest,
        ),
        run_consent_events(ConsentPair::spec_new(), es).remote_requested <==> es.contains(
            ConsentEvent::RemoteRequest,
        ),
        run_consent_events(ConsentPair::spec_new(), es).spec_consent() <==> (es.contains(
            ConsentEvent::LocalRequest,
        ) && es.contains(ConsentEvent::RemoteRequest)),
    decreases es.len(),
{
    if es.len() == 0 {
        assert(!es.contains(ConsentEvent::LocalRequest));
        assert(!es.contains(ConsentEvent::RemoteRequest));
    } else {
        let head = es.drop_last();
        lemma_consent_iff_both_requested(head);
        assert forall|e: ConsentEvent| #[trigger] es.contains(e) implies head.contains(e)
            || es.last() == e by {
            let i = choose|i: int| 0 <= i < es.len() && es[i] == e;
            if i < es.len() - 1 {
                assert(head[i] == e);
            }
        }
        assert forall|e: ConsentEvent| #[trigger] head.contains(e) implies es.contains(e) by {
            let i = choose|i: int| 0 <= i < head.len() && head[i] == e;
            assert(es[i] == e);
        }
        if es.last() == ConsentEvent::LocalRequest {
            assert(es.contains(ConsentEvent::LocalRequest)) by {
                assert(es[es.len() - 1] == ConsentEvent::LocalRequest);
            }
        }
        if es.last() == ConsentEvent::RemoteRequest {
            assert(es.contains(ConsentEvent::RemoteRequest)) by {
                assert(es[es.len() - 1] == ConsentEvent::RemoteRequest);
            }
        }
    }
}

/// A reset wipes the topic: what stands afterwards depends only on the
/// events that came after the last reset.
pub proof fn lemma_reset_restarts(c0: ConsentPair, es: Seq<ConsentEvent>, p: int)
    requires
        0 <= p < es.len(),
        es[p] == ConsentEvent::Reset,
    ensures
        run_consent_events(c0, es) == run_consent_events(
            ConsentPair::spec_new(),
            es.subrange(p + 1, es.len() as int),
        ),
    decreases es.len(),
{
    if p == es.len() - 1 {
        assert(es.subrange(p + 1, es.len() as int) =~= Seq::<ConsentEvent>::empty());
    } else {
        let head = es.drop_last();
        lemma_reset_restarts(c0, head, p);
        assert(head.subrange(p + 1, head.len() as int) =~= es.subrange(
            p + 1,
            es.len() as int,
        ).drop_last());
    }
}

/// The color this process plays, set at most once per match.
#[derive(Clone, Copy, PartialEq, Eq, Structural, Debug)]
pub struct NegotiatedColor {
    pub value: Option<Color>,
}

/// What one claim does to the negotiated color: the first claim fixes
/// it, every later claim leaves it alone and is not accepted.
pub open spec fn spec_accept_claim(v: Option<Color>, local: Color) -> (Option<Color>, bool) {
    match v {
        None => (Some(local), true),
        Some(_) => (v, false),
    }
}

impl NegotiatedColor {
    pub fn new() -> (c: NegotiatedColor)
        ensures
            c.value is None,
    {
        NegotiatedColor { value: None }
    }

    pub fn get(&self) -> (c: Option<Color>)
        ensures
            c == self.value,
    {
        self.value
    }

    /// The peer claims to play `claim`: if nothing is negotiated yet,
    /// the local side takes the opposite color and the claim is
    /// accepted; otherwise nothing changes.
    pub fn accept_claim(&mut self, claim: Color) -> (accepted: bool)
        ensures
            (final(self).value, accepted) == spec_accept_claim(
                old(self).value,
                claim.spec_invert(),
            ),
    {
        match self.value {
            None => {
                self.value = Some(claim.invert());
                true
            },
            Some(_) => false,
        }
    }

    /// The local side claims `local` for itself (the side that opens
    /// the negotiation): only if nothing is negotiated yet.
    pub fn claim_local(&mut self, local: Color) -> (accepted: bool)
        ensures
            (final(self).value, accepted) == spec_accept_claim(old(self).value, local),
    {
        match self.value {
            None => {
                self.value = Some(local);
                true
            },
            Some(_) => false,
        }
    }

    /// Back to Negotiating, for the match after an accepted rematch.
    pub fn reset(&mut self)
        ensures
            final(self).value is None,
    {
        self.value = None;
    }
}

/// The negotiated color is set at most once: of two successive claims,
/// at most the first is accepted, and an accepted claim is never
/// overwritten by a later one.
pub proof fn lemma_negotiated_color_set_once(v0: Option<Color>, c1: Color, c2: Color)
    ensures
        !(spec_accept_claim(v0, c1).1 && spec_accept_claim(spec_accept_claim(v0, c1).0, c2).1),
        spec_accept_claim(v0, c1).1 ==> spec_accept_claim(spec_accept_claim(v0, c1).0, c2).0
            == Some(c1),
{
}

/// Why a move attempt was refused.
#[derive(Clone, PartialEq, Eq, Debug)]
pub enum MoveError {
    /// No color has been negotiated yet, so there is no opponent.
    NoOpponent,
    /// The acting color is not the color whose turn it is.
    WrongTurn,
    /// The rule engine rejected the move; its reason passes through
    /// unread.
    IllegalMove(String),
}

/// What the rule engine said about one move handed to it.
#[derive(Clone, PartialEq, Eq, Debug)]
pub enum EngineVerdict {
    /// The move was applied; the engine reports the match status that
    /// now holds.
    Applied(GameStatus),
    /// The move was rejected for the carried reason.
    Rejected(String),
}

/// The mutable match record both threads share: whose turn it is, where
/// the match stands, and whether the board changed since it was last
/// drawn.
#[derive(Clone, Copy, PartialEq, Eq, Structural, Debug)]
pub struct MatchState {
    pub turn: Color,
    pub status: GameStatus,
    pub dirty: bool,
}

impl MatchState {
    /// The opening position: White to move, nothing has happened.
    pub open spec fn spec_new() -> MatchState {
        MatchState { turn: Color::White, status: GameStatus::Normal, dirty: false }
    }

    pub fn new() -> (s: MatchState)
        ensures
            s == MatchState::spec_new(),
    {
        MatchState { turn: Color::White, status: GameStatus::Normal, dirty: false }
    }

    /// Gate a move coming from the peer, acting as `as_color`: only the
    /// side whose turn it is may act.  On success the caller hands the
    /// returned text to the rule engine and records its verdict with
    /// `complete_move`.
    pub fn begin_receive_move(&self, mov: &NotatedMove, as_color: Color) -> (r: Result<
        String,
        MoveError,
    >)
        ensures
            r is Ok <==> as_color == self.turn,
            match r {
                Ok(t) => t@ == mov.spec_to_text(),
                Err(e) => e == MoveError::WrongTurn,
            },
    {
        if self.turn != as_color {
            return Err(MoveError::WrongTurn);
        }
        Ok(mov.to_text())
    }

    /// Gate a move made at the local board: a color must have been
    /// negotiated and it must be the local side's turn.  On success the
    /// caller hands the returned text to the rule engine, records the
    /// verdict with `complete_move`, and only then relays the envelope
    /// to the peer.
    pub fn begin_local_move(&self, mov: &NotatedMove, negotiated: Option<Color>) -> (r: Result<
        String,
        MoveError,
    >)
        ensures
            r is Ok <==> (negotiated is Some && negotiated->0 == self.turn),
            match r {
                Ok(t) => t@ == mov.spec_to_text(),
                Err(e) => if negotiated is None {
                    e == MoveError::NoOpponent
                } else {
                    e == MoveError::WrongTurn
                },
            },
    {
        match negotiated {
            None => Err(MoveError::NoOpponent),
            Some(local) => {
                if self.turn != local {
                    Err(MoveError::WrongTurn)
                } else {
                    Ok(mov.to_text())
                }
            },
        }
    }

    /// Take in what the rule engine said about a move the turn check
    /// allowed: an applied move flips the turn, refreshes the status and
    /// marks the record dirty; a rejected move changes nothing.
    pub fn complete_move(&mut self, verdict: EngineVerdict) -> (r: Result<(), MoveError>)
        ensures
            match verdict {
                EngineVerdict::Applied(st) => r is Ok && *final(self) == (MatchState {
                    turn: old(self).turn.spec_invert(),
                    status: st,
                    dirty: true,
                }),
                EngineVerdict::Rejected(reason) => *final(self) == *old(self) && match r {
                    Err(e) => e == MoveError::IllegalMove(reason),
                    Ok(_) => false,
                },
            },
    {
        match verdict {
            EngineVerdict::Applied(st) => {
                self.turn = self.turn.invert();
                self.status = st;
                self.dirty = true;
                Ok(())
            },
            EngineVerdict::Rejected(reason) => Err(MoveError::IllegalMove(reason)),
        }
    }

    /// The board was redrawn: clear the dirty mark.
    pub fn mark_clean(&mut self)
        ensures
            *final(self) == (MatchState { dirty: false, ..*old(self) }),
    {
        self.dirty = false;
    }
}

/// A move answered with `Applied` flips the turn, so replaying the same
/// envelope as the same color immediately afterwards fails the turn
/// gate instead of being applied twice.
pub proof fn lemma_replay_fails_wrong_turn(pre: MatchState, post: MatchState, st: GameStatus)
    requires
        post == (MatchState { turn: pre.turn.spec_invert(), status: st, dirty: true }),
    ensures
        pre.turn != post.turn,
{
}

/// Everything one session holds besides the board itself, which the
/// rule engine owns.
#[derive(Clone, Copy, PartialEq, Eq, Structural, Debug)]
pub struct Session {
    pub negotiated: NegotiatedColor,
    pub draw: ConsentPair,
    pub rematch: ConsentPair,
    pub match_state: MatchState,
}

impl Session {
    pub open spec fn spec_new() -> Session {
        Session {
            negotiated: NegotiatedColor { value: None },
            draw: ConsentPair::spec_new(),
            rematch: ConsentPair::spec_new(),
            match_state: MatchState::spec_new(),
        }
    }

    pub fn new() -> (s: Session)
        ensures
            s == Session::spec_new(),
    {
        Session {
            negotiated: NegotiatedColor::new(),
            draw: ConsentPair::new(),
            rematch: ConsentPair::new(),
            match_state: MatchState::new(),
        }
    }

    /// Start the match after an accepted rematch: back to Negotiating,
    /// with the opening position and both handshakes wiped.  The caller
    /// resets the rule engine's board alongside.
    pub fn begin_rematch(&mut self)
        ensures
            *final(self) == Session::spec_new(),
    {
        self.negotiated.reset();
        self.draw.reset();
        self.rematch.reset();
        self.match_state = MatchState::new();
    }
}

} // verus!
