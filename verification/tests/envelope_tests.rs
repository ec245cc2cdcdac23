use schack_peer::envelope::NotatedMove;
use schack_peer::parse::parse_move_body;

#[test]
fn new_keeps_fields() {
    let m = NotatedMove::new("e2".to_string(), "e4".to_string(), None);
    assert_eq!(m.start_position, "e2");
    assert_eq!(m.end_position, "e4");
    assert_eq!(m.promotes_to, None);
}

#[test]
fn jsonify_without_promotion() {
    let m = NotatedMove::new("e2".to_string(), "e4".to_string(), None);
    assert_eq!(
        m.jsonify(),
        "{\"start_square\":\"e2\",\"end_square\":\"e4\"}"
    );
}

#[test]
fn jsonify_with_promotion() {
    let m = NotatedMove::new("e7".to_string(), "e8".to_string(), Some("Q".to_string()));
    assert_eq!(
        m.jsonify(),
        "{\"start_square\":\"e7\",\"end_square\":\"e8\",\"promote_to\":\"Q\"}"
    );
}

#[test]
fn to_text_without_promotion() {
    let m = NotatedMove::new("g1".to_string(), "f3".to_string(), None);
    assert_eq!(m.to_text(), "g1-f3");
}

#[test]
fn to_text_with_promotion() {
    let m = NotatedMove::new("a7".to_string(), "a8".to_string(), Some("N".to_string()));
    assert_eq!(m.to_text(), "a7-a8=N");
}

#[test]
fn round_trip_without_promotion() {
    let m = NotatedMove::new("e2".to_string(), "e4".to_string(), None);
    let parsed = parse_move_body(&m.jsonify()).expect("serialized move must parse");
    assert_eq!(parsed, m);
}

#[test]
fn round_trip_with_promotion() {
    let m = NotatedMove::new("h7".to_string(), "h8".to_string(), Some("R".to_string()));
    let parsed = parse_move_body(&m.jsonify()).expect("serialized move must parse");
    assert_eq!(parsed, m);
}

#[test]
fn envelope_equality_is_by_content() {
    let a = NotatedMove::new("e2".to_string(), "e4".to_string(), None);
    let b = NotatedMove::new("e2".to_string(), "e4".to_string(), None);
    let c = NotatedMove::new("e2".to_string(), "e4".to_string(), Some("Q".to_string()));
    assert_eq!(a, b);
    assert_ne!(a, c);
}
