//! The inbound protocol dispatcher.
//!
//! One request at a time reaches `handle_request`, which parses the body,
//! consults and updates the session, and either finishes the reply itself
//! or names the one step only the rule engine can take (applying a move,
//! listing the pieces).  The caller performs that step and closes the
//! exchange with `finish_inbound_move` or `board_reply`.

use vstd::prelude::*;
use crate::color::{Color, GameStatus};
use crate::envelope::NotatedMove;
use crate::parse::{
    contains_seq, contains_sub, envelope_matches_body, has_field, has_literal_field,
    move_body_parses, parse_move_body, str_eq,
};
use crate::session::{ConsentPair, EngineVerdict, MatchState, NegotiatedColor, Session};

verus! {

/// The request method, as far as the protocol distinguishes it.
#[derive(Clone, Copy, PartialEq, Eq, Structural, Debug)]
pub enum Method {
    Get,
    Post,
    /// Any method besides GET and POST.
    Other,
}

/// A finished wire reply.
#[derive(Debug)]
pub struct HttpReply {
    pub code: u16,
    pub body: String,
}

/// What the router decided about one request.
#[derive(Debug)]
pub enum RouteOutcome {
    /// The reply is ready; nothing else is owed.
    Done(HttpReply),
    /// An inbound move passed parsing and the turn gate.  The caller
    /// hands `move_text` to the rule engine and records the verdict
    /// with `finish_inbound_move`.
    ApplyMove { envelope: NotatedMove, move_text: String },
    /// A board query.  The caller snapshots the pieces from the rule
    /// engine and renders the reply with `board_reply`.
    QueryBoard,
}

/// The reply body of a start-game exchange.
pub open spec fn accepted_body(accepted: bool) -> Seq<char> {
    if accepted {
        "{\"accepted\":true}"@
    } else {
        "{\"accepted\":false}"@
    }
}

/// The reply body of a move exchange.
pub open spec fn valid_move_body(valid: bool) -> Seq<char> {
    if valid {
        "{\"valid_move\":true}"@
    } else {
        "{\"valid_move\":false}"@
    }
}

/// The reply body of a draw or rematch request.
pub open spec fn consent_reply_body(accepted: bool) -> Seq<char> {
    if accepted {
        "{\"draw_accepted\":true}"@
    } else {
        "{\"draw_accepted\":false}"@
    }
}

/// The reply body of a gamestate query.
pub open spec fn state_reply_body(st: GameStatus) -> Seq<char> {
    "{\"state\":\""@ + st.spec_state_name() + "\"}"@
}

/// The reply body of a current-turn query.
pub open spec fn turn_reply_body(turn: Color) -> Seq<char> {
    "{\"current_turn\":\""@ + turn.spec_name() + "\"}"@
}

/// What a start-game request does: the first claim of a color fixes the
/// local side to the opposite color and is accepted; a body that names
/// no color is refused; once a color is negotiated every further
/// attempt is refused without a state change.
pub open spec fn start_game_post(
    s0: Session,
    body: Seq<char>,
    s1: Session,
    code: int,
    rbody: Seq<char>,
) -> bool {
    if s0.negotiated.value is Some {
        s1 == s0 && code == 409 && rbody == accepted_body(false)
    } else if contains_seq(body, "white"@) {
        &&& s1 == (Session { negotiated: NegotiatedColor { value: Some(Color::Black) }, ..s0 })
        &&& code == 200
        &&& rbody == accepted_body(true)
    } else if contains_seq(body, "black"@) {
        &&& s1 == (Session { negotiated: NegotiatedColor { value: Some(Color::White) }, ..s0 })
        &&& code == 200
        &&& rbody == accepted_body(true)
    } else {
        s1 == s0 && code == 400 && rbody == accepted_body(false)
    }
}

/// What a draw or rematch request does to its topic: the remote flag is
/// set, and the reply reports whether the local side had requested the
/// topic as well.
pub open spec fn consent_request_post(
    c0: ConsentPair,
    c1: ConsentPair,
    code: int,
    rbody: Seq<char>,
) -> bool {
    &&& c1 == (ConsentPair { remote_requested: true, ..c0 })
    &&& code == 200
    &&& rbody == consent_reply_body(c0.local_requested)
}

/// What routing a move request decides.  Routing itself never changes
/// the session: a malformed body, a missing negotiation or a move out
/// of turn is refused at once, and a move that passes every gate is
/// handed on to the rule engine.
pub open spec fn move_route_post(s0: Session, body: Seq<char>, r: RouteOutcome) -> bool {
    if !move_body_parses(body) {
        r matches RouteOutcome::Done(rep) && rep.code == 400 && rep.body@ == valid_move_body(false)
    } else if s0.negotiated.value is None {
        r matches RouteOutcome::Done(rep) && rep.code == 400 && rep.body@ == valid_move_body(false)
    } else if s0.negotiated.value->0.spec_invert() != s0.match_state.turn {
        r matches RouteOutcome::Done(rep) && rep.code == 400 && rep.body@ == valid_move_body(false)
    } else {
        r matches RouteOutcome::ApplyMove { envelope, move_text } && envelope_matches_body(
            body,
            envelope,
        ) && move_text@ == envelope.spec_to_text()
    }
}

/// What a read-only query decides: a gamestate query reports the status
/// word, a current-turn query the color to move, a board query is
/// handed on to the rule engine, and anything else is refused.
pub open spec fn get_route_post(s0: Session, body: Seq<char>, r: RouteOutcome) -> bool {
    if has_literal_field(body, "\"requested_data\""@, "gamestate"@) {
        r matches RouteOutcome::Done(rep) && rep.code == 200 && rep.body@ == state_reply_body(
            s0.match_state.status,
        )
    } else if has_literal_field(body, "\"requested_data\""@, "current-turn"@) {
        r matches RouteOutcome::Done(rep) && rep.code == 200 && rep.body@ == turn_reply_body(
            s0.match_state.turn,
        )
    } else if has_literal_field(body, "\"requested_data\""@, "board"@) {
        r is QueryBoard
    } else {
        r matches RouteOutcome::Done(rep) && rep.code == 400 && rep.body@ == ""@
    }
}

/// The whole routing contract, one case per endpoint.
pub open spec fn route_post(
    s0: Session,
    method: Method,
    url: Seq<char>,
    body: Seq<char>,
    s1: Session,
    r: RouteOutcome,
) -> bool {
    match method {
        Method::Get => s1 == s0 && get_route_post(s0, body, r),
        Method::Post => if url == "/start-game"@ {
            r matches RouteOutcome::Done(rep) && start_game_post(
                s0,
                body,
                s1,
                rep.code as int,
                rep.body@,
            )
        } else if url == "/move"@ {
            s1 == s0 && move_route_post(s0, body, r)
        } else if url == "/request-draw"@ {
            &&& s1 == (Session { draw: s1.draw, ..s0 })
            &&& r matches RouteOutcome::Done(rep) && consent_request_post(
                s0.draw,
                s1.draw,
                rep.code as int,
                rep.body@,
            )
        } else if url == "/request-rematch"@ {
            &&& s1 == (Session { rematch: s1.rematch, ..s0 })
            &&& r matches RouteOutcome::Done(rep) && consent_request_post(
                s0.rematch,
                s1.rematch,
                rep.code as int,
                rep.body@,
            )
        } else {
            s1 == s0 && (r matches RouteOutcome::Done(rep) && rep.code == 404 && rep.body@ == ""@)
        },
        Method::Other => s1 == s0 && (r matches RouteOutcome::Done(rep) && rep.code == 405
            && rep.body@ == ""@),
    }
}

/// A reply from a code and a fixed body.
fn reply(code: u16, body: &str) -> (r: HttpReply)
    ensures
        r.code == code,
        r.body@ == body@,
{
    HttpReply { code, body: body.to_owned() }
}

/// Serve a start-game request.
pub fn start_game(session: &mut Session, body: &str) -> (r: HttpReply)
    ensures
        start_game_post(*old(session), body@, *final(session), r.code as int, r.body@),
{
    if session.negotiated.get().is_some() {
        return reply(409, "{\"accepted\":false}");
    }
    if contains_sub(body, "white") {
        let accepted = session.negotiated.accept_claim(Color::White);
        assert(accepted);
        reply(200, "{\"accepted\":true}")
    } else if contains_sub(body, "black") {
        let accepted = session.negotiated.accept_claim(Color::Black);
        assert(accepted);
        reply(200, "{\"accepted\":true}")
    } else {
        reply(400, "{\"accepted\":false}")
    }
}

/// Serve a draw or rematch request against its consent topic.
pub fn serve_consent_request(pair: &mut ConsentPair) -> (r: HttpReply)
    ensures
        consent_request_post(*old(pair), *final(pair), r.code as int, r.body@),
{
    let local_already = pair.remote_request();
    if local_already {
        reply(200, "{\"draw_accepted\":true}")
    } else {
        reply(200, "{\"draw_accepted\":false}")
    }
}

/// Route one inbound request.
pub fn handle_request(session: &mut Session, method: Method, url: &str, body: &str) -> (r:
    RouteOutcome)
    ensures
        route_post(*old(session), method, url@, body@, *final(session), r),
{
    match method {
        Method::Other => RouteOutcome::Done(reply(405, "")),
        Method::Get => {
            if has_field(body, "\"requested_data\"", "gamestate") {
                let mut out = String::new();
                out.append("{\"state\":\"");
                out.append(session.match_state.status.state_name());
                out.append("\"}");
                proof {
                    assert(out@ =~= state_reply_body(session.match_state.status));
                }
                RouteOutcome::Done(HttpReply { code: 200, body: out })
            } else if has_field(body, "\"requested_data\"", "current-turn") {
                let mut out = String::new();
                out.append("{\"current_turn\":\"");
                out.append(session.match_state.turn.name());
                out.append("\"}");
                proof {
                    assert(out@ =~= turn_reply_body(session.match_state.turn));
                }
                RouteOutcome::Done(HttpReply { code: 200, body: out })
            } else if has_field(body, "\"requested_data\"", "board") {
                RouteOutcome::QueryBoard
            } else {
                RouteOutcome::Done(reply(400, ""))
            }
        },
        Method::Post => {
            if str_eq(url, "/start-game") {
                RouteOutcome::Done(start_game(session, body))
            } else if str_eq(url, "/move") {
                route_move(session, body)
            } else if str_eq(url, "/request-draw") {
                RouteOutcome::Done(serve_consent_request(&mut session.draw))
            } else if str_eq(url, "/request-rematch") {
                RouteOutcome::Done(serve_consent_request(&mut session.rematch))
            } else {
                RouteOutcome::Done(reply(404, ""))
            }
        },
    }
}

/// Route a move request: parse the body, check that a color is
/// negotiated and that the move acts in turn; never changes the session.
fn route_move(session: &Session, body: &str) -> (r: RouteOutcome)
    ensures
        move_route_post(*session, body@, r),
{
    let envelope = match parse_move_body(body) {
        Some(m) => m,
        None => {
            return RouteOutcome::Done(reply(400, "{\"valid_move\":false}"));
        },
    };
    let local = match session.negotiated.get() {
        Some(c) => c,
        None => {
            return RouteOutcome::Done(reply(400, "{\"valid_move\":false}"));
        },
    };
    let acting = local.invert();
    match session.match_state.begin_receive_move(&envelope, acting) {
        Ok(move_text) => RouteOutcome::ApplyMove { envelope, move_text },
        Err(_) => RouteOutcome::Done(reply(400, "{\"valid_move\":false}")),
    }
}

/// What recording the rule engine's verdict on a routed move does: an
/// applied move answers valid, flips the turn and refreshes the status;
/// a rejected one answers invalid and changes nothing.
pub open spec fn finish_move_post(
    s0: Session,
    verdict: EngineVerdict,
    s1: Session,
    code: int,
    rbody: Seq<char>,
) -> bool {
    match verdict {
        EngineVerdict::Applied(st) => {
            &&& s1 == (Session {
                match_state: MatchState {
                    turn: s0.match_state.turn.spec_invert(),
                    status: st,
                    dirty: true,
                },
                ..s0
            })
            &&& code == 200
            &&& rbody == valid_move_body(true)
        },
        EngineVerdict::Rejected(_) => s1 == s0 && code == 400 && rbody == valid_move_body(false),
    }
}

/// Record the rule engine's verdict on a move that `handle_request`
/// handed out, and finish the wire reply.
pub fn finish_inbound_move(session: &mut Session, verdict: EngineVerdict) -> (r: HttpReply)
    ensures
        finish_move_post(*old(session), verdict, *final(session), r.code as int, r.body@),
{
    match session.match_state.complete_move(verdict) {
        Ok(_) => reply(200, "{\"valid_move\":true}"),
        Err(_) => reply(400, "{\"valid_move\":false}"),
    }
}

} // verus!
