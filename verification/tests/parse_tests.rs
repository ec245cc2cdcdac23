use schack_peer::grammar::{check_promo, check_square};
use schack_peer::parse::{contains_sub, find_promo_field_pos, find_square_field_pos, has_field,
    parse_move_body, str_eq};

#[test]
fn parses_plain_move_body() {
    let m = parse_move_body("{\"start_square\":\"e2\",\"end_square\":\"e4\"}").unwrap();
    assert_eq!(m.start_position, "e2");
    assert_eq!(m.end_position, "e4");
    assert_eq!(m.promotes_to, None);
}

#[test]
fn parses_with_whitespace_around_colon() {
    let m = parse_move_body("{\"start_square\" : \"d2\",\"end_square\"\t:\n\"d4\"}").unwrap();
    assert_eq!(m.start_position, "d2");
    assert_eq!(m.end_position, "d4");
}

#[test]
fn parses_promotion_field() {
    let m = parse_move_body(
        "{\"start_square\":\"b7\",\"end_square\":\"b8\",\"promote_to\":\"B\"}",
    )
    .unwrap();
    assert_eq!(m.promotes_to, Some("B".to_string()));
}

#[test]
fn missing_start_square_fails() {
    assert!(parse_move_body("{\"end_square\":\"e4\"}").is_none());
}

#[test]
fn missing_end_square_fails() {
    assert!(parse_move_body("{\"start_square\":\"e2\"}").is_none());
}

#[test]
fn empty_body_fails() {
    assert!(parse_move_body("").is_none());
}

#[test]
fn square_outside_board_fails() {
    assert!(parse_move_body("{\"start_square\":\"i2\",\"end_square\":\"e4\"}").is_none());
    assert!(parse_move_body("{\"start_square\":\"e9\",\"end_square\":\"e4\"}").is_none());
}

#[test]
fn invalid_promotion_letter_is_dropped() {
    let m = parse_move_body(
        "{\"start_square\":\"c7\",\"end_square\":\"c8\",\"promote_to\":\"K\"}",
    )
    .unwrap();
    assert_eq!(m.promotes_to, None);
}

#[test]
fn first_full_match_wins_on_repeated_fields() {
    let m = parse_move_body(
        "{\"start_square\":\"a2\",\"start_square\":\"b2\",\"end_square\":\"a3\"}",
    )
    .unwrap();
    assert_eq!(m.start_position, "a2");
}

#[test]
fn malformed_first_occurrence_is_skipped() {
    let m = parse_move_body(
        "{\"start_square\":\"zz\",\"start_square\":\"b2\",\"end_square\":\"b3\"}",
    )
    .unwrap();
    assert_eq!(m.start_position, "b2");
}

#[test]
fn find_square_field_pos_points_at_value() {
    let body = "{\"start_square\":\"e2\",\"end_square\":\"e4\"}";
    let k = find_square_field_pos(body, "\"start_square\"").unwrap();
    assert_eq!(&body[k + 1..k + 3], "e2");
    assert!(find_square_field_pos(body, "\"promote_to\"").is_none());
}

#[test]
fn find_promo_field_pos_points_at_value() {
    let body = "{\"promote_to\":\"N\"}";
    let k = find_promo_field_pos(body, "\"promote_to\"").unwrap();
    assert_eq!(&body[k + 1..k + 2], "N");
}

#[test]
fn has_field_matches_exact_value() {
    let body = "{\"requested_data\":\"gamestate\"}";
    assert!(has_field(body, "\"requested_data\"", "gamestate"));
    assert!(!has_field(body, "\"requested_data\"", "board"));
    assert!(has_field(
        "{\"requested_data\" : \"current-turn\"}",
        "\"requested_data\"",
        "current-turn"
    ));
}

#[test]
fn contains_sub_finds_substring() {
    assert!(contains_sub("{\"color\":\"white\"}", "white"));
    assert!(!contains_sub("{\"color\":\"white\"}", "black"));
    assert!(contains_sub("anything", ""));
    assert!(!contains_sub("", "white"));
}

#[test]
fn str_eq_compares_content() {
    assert!(str_eq("abc", "abc"));
    assert!(!str_eq("abc", "abd"));
    assert!(!str_eq("abc", "ab"));
    assert!(str_eq("", ""));
}

#[test]
fn square_grammar() {
    assert!(check_square("a1"));
    assert!(check_square("h8"));
    assert!(!check_square("i1"));
    assert!(!check_square("a9"));
    assert!(!check_square("a"));
    assert!(!check_square("a12"));
    assert!(!check_square(""));
}

#[test]
fn promotion_grammar() {
    assert!(check_promo("Q"));
    assert!(check_promo("R"));
    assert!(check_promo("B"));
    assert!(check_promo("N"));
    assert!(!check_promo("K"));
    assert!(!check_promo("q"));
    assert!(!check_promo("QQ"));
    assert!(!check_promo(""));
}
