use schack_peer::color::{Color, GameStatus};
use schack_peer::envelope::NotatedMove;
use schack_peer::input::{ClickAction, Destination, InputHandler, piece_at_position_can_move_to};
use schack_peer::session::{
    ConsentPair, EngineVerdict, MatchState, MoveError, NegotiatedColor, Session,
};

#[test]
fn colors_invert() {
    assert_eq!(Color::White.invert(), Color::Black);
    assert_eq!(Color::Black.invert(), Color::White);
    assert_eq!(Color::White.invert().invert(), Color::White);
}

#[test]
fn status_names() {
    assert_eq!(GameStatus::Normal.state_name(), "in-progress");
    assert_eq!(GameStatus::Check(Color::Black).state_name(), "in-progress");
    assert_eq!(GameStatus::Checkmate(Color::White).state_name(), "white-won");
    assert_eq!(GameStatus::Draw.state_name(), "draw");
    assert!(!GameStatus::Normal.is_concluded());
    assert!(!GameStatus::Check(Color::White).is_concluded());
    assert!(GameStatus::Checkmate(Color::Black).is_concluded());
    assert!(GameStatus::Draw.is_concluded());
}

#[test]
fn consent_holds_only_when_both_requested() {
    let mut pair = ConsentPair::new();
    assert!(!pair.consent());
    assert!(!pair.remote_request());
    assert!(!pair.consent());
    pair.local_request();
    assert!(pair.consent());
    assert!(pair.remote_request());
    pair.reset();
    assert!(!pair.consent());
    assert!(!pair.local_requested);
    assert!(!pair.remote_requested);
}

#[test]
fn consent_in_the_other_order() {
    let mut pair = ConsentPair::new();
    pair.local_request();
    assert!(!pair.consent());
    assert!(pair.remote_request());
    assert!(pair.consent());
}

#[test]
fn negotiated_color_is_set_at_most_once() {
    let mut neg = NegotiatedColor::new();
    assert_eq!(neg.get(), None);
    assert!(neg.accept_claim(Color::White));
    assert_eq!(neg.get(), Some(Color::Black));
    assert!(!neg.accept_claim(Color::Black));
    assert_eq!(neg.get(), Some(Color::Black));
    assert!(!neg.claim_local(Color::White));
    assert_eq!(neg.get(), Some(Color::Black));
}

#[test]
fn local_claim_takes_the_named_color() {
    let mut neg = NegotiatedColor::new();
    assert!(neg.claim_local(Color::White));
    assert_eq!(neg.get(), Some(Color::White));
}

#[test]
fn local_move_without_opponent_fails() {
    let state = MatchState::new();
    let mov = NotatedMove::new("e2".to_string(), "e4".to_string(), None);
    assert_eq!(state.begin_local_move(&mov, None), Err(MoveError::NoOpponent));
}

#[test]
fn local_move_out_of_turn_fails() {
    let state = MatchState::new();
    let mov = NotatedMove::new("e7".to_string(), "e5".to_string(), None);
    assert_eq!(
        state.begin_local_move(&mov, Some(Color::Black)),
        Err(MoveError::WrongTurn)
    );
}

#[test]
fn local_move_in_turn_yields_engine_text() {
    let state = MatchState::new();
    let mov = NotatedMove::new("e2".to_string(), "e4".to_string(), None);
    assert_eq!(
        state.begin_local_move(&mov, Some(Color::White)),
        Ok("e2-e4".to_string())
    );
}

#[test]
fn received_move_checks_the_acting_color() {
    let state = MatchState::new();
    let mov = NotatedMove::new("e2".to_string(), "e4".to_string(), None);
    assert_eq!(
        state.begin_receive_move(&mov, Color::Black),
        Err(MoveError::WrongTurn)
    );
    assert_eq!(
        state.begin_receive_move(&mov, Color::White),
        Ok("e2-e4".to_string())
    );
}

#[test]
fn applied_verdict_flips_turn_and_refreshes_status() {
    let mut state = MatchState::new();
    assert_eq!(
        state.complete_move(EngineVerdict::Applied(GameStatus::Check(Color::Black))),
        Ok(())
    );
    assert_eq!(state.turn, Color::Black);
    assert_eq!(state.status, GameStatus::Check(Color::Black));
    assert!(state.dirty);
}

#[test]
fn rejected_verdict_changes_nothing() {
    let mut state = MatchState::new();
    let before = state;
    let r = state.complete_move(EngineVerdict::Rejected("no".to_string()));
    assert_eq!(r, Err(MoveError::IllegalMove("no".to_string())));
    assert_eq!(state, before);
}

#[test]
fn mark_clean_clears_only_the_dirty_flag() {
    let mut state = MatchState::new();
    state.complete_move(EngineVerdict::Applied(GameStatus::Normal)).unwrap();
    state.mark_clean();
    assert!(!state.dirty);
    assert_eq!(state.turn, Color::Black);
}

#[test]
fn rematch_resets_the_whole_session() {
    let mut session = Session::new();
    session.negotiated.accept_claim(Color::White);
    session.draw.local_request();
    session.rematch.local_request();
    session.match_state.complete_move(EngineVerdict::Applied(GameStatus::Draw)).unwrap();
    session.begin_rematch();
    assert_eq!(session, Session::new());
}

#[test]
fn destination_search_reports_first_match() {
    let moves = Some(vec![
        Destination { position: "e3".to_string(), promotes: false },
        Destination { position: "e4".to_string(), promotes: false },
    ]);
    assert_eq!(piece_at_position_can_move_to(&moves, "e4"), (true, false));
    assert_eq!(piece_at_position_can_move_to(&moves, "e5"), (false, false));
    assert_eq!(piece_at_position_can_move_to(&None, "e4"), (false, false));
}

#[test]
fn destination_search_carries_promotion() {
    let moves = Some(vec![Destination { position: "e8".to_string(), promotes: true }]);
    assert_eq!(piece_at_position_can_move_to(&moves, "e8"), (true, true));
}

#[test]
fn first_click_selects_when_moves_exist() {
    let mut handler = InputHandler::new();
    let moves = Some(vec![Destination { position: "e4".to_string(), promotes: false }]);
    let action = handler.clicked_at("e2", false, &moves, &None);
    assert!(matches!(action, ClickAction::SelectAndMark));
    assert_eq!(handler.clicked_tile, Some("e2".to_string()));
}

#[test]
fn first_click_on_empty_square_is_ignored() {
    let mut handler = InputHandler::new();
    let action = handler.clicked_at("e5", false, &None, &None);
    assert!(matches!(action, ClickAction::Ignore));
    assert_eq!(handler.clicked_tile, None);
}

#[test]
fn second_click_on_own_piece_reselects() {
    let mut handler = InputHandler::new();
    let knight_moves = Some(vec![Destination { position: "f3".to_string(), promotes: false }]);
    handler.clicked_at("e2", false, &knight_moves, &None);
    let action = handler.clicked_at("g1", true, &knight_moves, &None);
    assert!(matches!(action, ClickAction::ReselectAndMark));
    assert_eq!(handler.clicked_tile, Some("g1".to_string()));
}

#[test]
fn second_click_on_destination_forwards_the_move() {
    let mut handler = InputHandler::new();
    let pawn_moves = Some(vec![
        Destination { position: "e3".to_string(), promotes: false },
        Destination { position: "e4".to_string(), promotes: false },
    ]);
    handler.clicked_at("e2", false, &pawn_moves, &None);
    let action = handler.clicked_at("e4", false, &None, &pawn_moves);
    match action {
        ClickAction::Forward(mov) => {
            assert_eq!(mov, NotatedMove::new("e2".to_string(), "e4".to_string(), None));
        }
        _ => panic!("a reachable destination must forward the move"),
    }
    assert_eq!(handler.clicked_tile, None);
    assert_eq!(handler.clicked_tile_2, None);
}

#[test]
fn second_click_elsewhere_clears_the_selection() {
    let mut handler = InputHandler::new();
    let pawn_moves = Some(vec![Destination { position: "e3".to_string(), promotes: false }]);
    handler.clicked_at("e2", false, &pawn_moves, &None);
    let action = handler.clicked_at("h5", false, &None, &pawn_moves);
    assert!(matches!(action, ClickAction::ClearMarks));
    assert_eq!(handler.clicked_tile, None);
}

#[test]
fn promoting_destination_waits_for_the_key() {
    let mut handler = InputHandler::new();
    let pawn_moves = Some(vec![Destination { position: "e8".to_string(), promotes: true }]);
    handler.clicked_at("e7", false, &pawn_moves, &None);
    let action = handler.clicked_at("e8", false, &None, &pawn_moves);
    assert!(matches!(action, ClickAction::AwaitPromotion));
    assert_eq!(handler.clicked_tile_2, Some("e8".to_string()));
    let key_action = handler.key_pressed('Q');
    match key_action {
        ClickAction::Forward(mov) => {
            assert_eq!(
                mov,
                NotatedMove::new("e7".to_string(), "e8".to_string(), Some("Q".to_string()))
            );
        }
        _ => panic!("a promotion key must forward the move"),
    }
    assert_eq!(handler.clicked_tile, None);
    assert_eq!(handler.clicked_tile_2, None);
}

#[test]
fn other_keys_are_ignored_while_promotion_waits() {
    let mut handler = InputHandler::new();
    let pawn_moves = Some(vec![Destination { position: "e8".to_string(), promotes: true }]);
    handler.clicked_at("e7", false, &pawn_moves, &None);
    handler.clicked_at("e8", false, &None, &pawn_moves);
    let action = handler.key_pressed('K');
    assert!(matches!(action, ClickAction::Ignore));
    assert_eq!(handler.clicked_tile_2, Some("e8".to_string()));
}

#[test]
fn keys_without_pending_promotion_are_ignored() {
    let mut handler = InputHandler::new();
    let action = handler.key_pressed('Q');
    assert!(matches!(action, ClickAction::Ignore));
}
