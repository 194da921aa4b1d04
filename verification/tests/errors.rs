use analog_literals::{
    recognize, recognize_within, tokenize, Edge, Literal, RecognitionError, Token,
    DEFAULT_MAX_DEPTH,
};

fn tokens(text: &str) -> Vec<Token> {
    tokenize(text.as_bytes()).expect("the text of a drawing")
}

fn failure(text: &str) -> RecognitionError {
    match recognize(&tokens(text)) {
        Err(e) => e,
        Ok(literal) => panic!("recognized as {:?}", literal),
    }
}

fn line_of(n: usize, terminator: Token) -> Vec<Token> {
    let mut v = vec![terminator];
    for _ in 0..n {
        v.push(Token::Dash);
        v.push(Token::Dash);
    }
    v.push(terminator);
    v
}

#[test]
fn empty_stream_is_malformed() {
    assert_eq!(recognize(&[]).err(), Some(RecognitionError::UnexpectedToken));
}

#[test]
fn only_marker_or_plus_may_lead() {
    assert_eq!(failure("-"), RecognitionError::UnexpectedToken);
    assert_eq!(failure("|"), RecognitionError::UnexpectedToken);
    assert_eq!(failure("/"), RecognitionError::UnexpectedToken);
    assert_eq!(failure("--I"), RecognitionError::UnexpectedToken);
    assert_eq!(failure("| |"), RecognitionError::UnexpectedToken);
}

#[test]
fn unterminated_line_is_malformed() {
    assert_eq!(failure("I"), RecognitionError::UnexpectedToken);
    assert_eq!(failure("I--"), RecognitionError::UnexpectedToken);
    assert_eq!(failure("I----"), RecognitionError::UnexpectedToken);
    assert_eq!(failure("+"), RecognitionError::UnexpectedToken);
    assert_eq!(failure("+--"), RecognitionError::UnexpectedToken);
}

#[test]
fn half_a_width_unit_is_malformed() {
    assert_eq!(failure("I-I"), RecognitionError::UnexpectedToken);
    assert_eq!(failure("I---I"), RecognitionError::UnexpectedToken);
    assert_eq!(failure("+-+"), RecognitionError::UnexpectedToken);
}

#[test]
fn line_terminators_do_not_mix() {
    assert_eq!(failure("I--+"), RecognitionError::UnexpectedToken);
    assert_eq!(failure("+--I"), RecognitionError::UnexpectedToken);
}

#[test]
fn tokens_after_the_closing_marker_are_malformed() {
    assert_eq!(failure("I--I I"), RecognitionError::UnexpectedToken);
    assert_eq!(failure("I--I--"), RecognitionError::UnexpectedToken);
    assert_eq!(failure("III"), RecognitionError::UnexpectedToken);
}

#[test]
fn truncated_box_is_malformed() {
    assert_eq!(failure("+--+ | |"), RecognitionError::UnexpectedToken);
    assert_eq!(failure("+--+ | | +"), RecognitionError::UnexpectedToken);
    assert_eq!(failure("+--+ | | +--"), RecognitionError::UnexpectedToken);
    assert_eq!(failure("+--+ |"), RecognitionError::UnexpectedToken);
    assert_eq!(failure("+--++"), RecognitionError::UnexpectedToken);
}

#[test]
fn tokens_after_the_closing_corner_are_malformed() {
    assert_eq!(failure("+--+ | | +--+ +"), RecognitionError::UnexpectedToken);
    assert_eq!(failure("+--+ | | +--+ | |"), RecognitionError::UnexpectedToken);
}

#[test]
fn wrong_symbol_at_a_row_boundary_is_malformed() {
    assert_eq!(failure("+--+ | / +--+"), RecognitionError::UnexpectedToken);
    assert_eq!(failure("+--+ | | -- +--+"), RecognitionError::UnexpectedToken);
    assert_eq!(failure("+--+ I +--+"), RecognitionError::UnexpectedToken);
}

#[test]
fn top_4_bottom_3_is_a_width_mismatch() {
    let r = recognize(&tokens(
        "
        +--------+
        |        |
        +------+
        ",
    ));
    assert_eq!(
        r.err(),
        Some(RecognitionError::DimensionMismatch { edge: Edge::Width, expected: 4, actual: 3 })
    );
}

#[test]
fn top_5_bottom_4_is_a_width_mismatch() {
    assert_eq!(
        failure(
            "
            +----------+
            |          |
            |          |
            +--------+
            "
        ),
        RecognitionError::DimensionMismatch { edge: Edge::Width, expected: 5, actual: 4 }
    );
    assert_eq!(
        failure(
            "
                 +----------+
                /          /|
               /          / |
              /          /  +
             /          /  /
            +----------+  /
            |          | /
            |          |/
            +--------+
            "
        ),
        RecognitionError::DimensionMismatch { edge: Edge::Width, expected: 5, actual: 4 }
    );
}

#[test]
fn wider_bottom_is_a_width_mismatch_too() {
    assert_eq!(
        failure("+--+ | | +----+"),
        RecognitionError::DimensionMismatch { edge: Edge::Width, expected: 1, actual: 2 }
    );
    assert_eq!(
        failure("++ +--+"),
        RecognitionError::DimensionMismatch { edge: Edge::Width, expected: 0, actual: 1 }
    );
}

#[test]
fn front_edge_of_other_width_is_a_width_mismatch() {
    assert_eq!(
        failure(
            "
               +--------+
              /        /|
             /        / |
            +------+    +
            |        | /
            |        |/
            +--------+
            "
        ),
        RecognitionError::DimensionMismatch { edge: Edge::Width, expected: 4, actual: 3 }
    );
}

#[test]
fn front_width_is_compared_before_bottom_width() {
    assert_eq!(
        failure(
            "
               +--------+
              /        /|
             /        / |
            +----------+  +
            |        | /
            |        |/
            +--+
            "
        ),
        RecognitionError::DimensionMismatch { edge: Edge::Width, expected: 4, actual: 5 }
    );
}

#[test]
fn front_face_of_other_height_is_a_height_mismatch() {
    assert_eq!(
        failure(
            "
               +--------+
              /        /|
             /        / |
            +--------+  +
            |        | /
            |        |/
            |        |/
            +--------+
            "
        ),
        RecognitionError::DimensionMismatch { edge: Edge::Height, expected: 2, actual: 3 }
    );
}

#[test]
fn height_is_compared_before_length() {
    assert_eq!(
        failure(
            "
               +--------+
              /        /|
             /        / |
            +--------+  +
            |        | /
            +--------+
            "
        ),
        RecognitionError::DimensionMismatch { edge: Edge::Height, expected: 2, actual: 1 }
    );
}

#[test]
fn bottom_edge_of_other_length_is_a_length_mismatch() {
    assert_eq!(
        failure(
            "
               +--------+
              /        /|
             /        / |
            +--------+  +
            |        | /
            |        | +
            +--------+
            "
        ),
        RecognitionError::DimensionMismatch { edge: Edge::Length, expected: 2, actual: 1 }
    );
}

#[test]
fn rows_before_the_first_row_of_depth_are_malformed() {
    assert_eq!(
        failure(
            "
               +--------+
               |        |
              /        /|
            +--------+  +
            |        | /
            +--------+
            "
        ),
        RecognitionError::UnexpectedToken
    );
}

#[test]
fn cuboid_must_open_beside_the_vertical_edge() {
    assert_eq!(failure("+--+ / / + +--+ / +--+"), RecognitionError::UnexpectedToken);
    assert_eq!(failure("+--+ / / / +--+ / +--+"), RecognitionError::UnexpectedToken);
}

#[test]
fn truncated_cuboid_is_malformed() {
    assert_eq!(failure("+--+ / / |"), RecognitionError::UnexpectedToken);
    assert_eq!(failure("+--+ / / | +--+"), RecognitionError::UnexpectedToken);
    assert_eq!(failure("+--+ / / | +--+ +"), RecognitionError::UnexpectedToken);
    assert_eq!(failure("+--+ / / | +--+ + | | /"), RecognitionError::UnexpectedToken);
    assert_eq!(failure("+--+ / / | +--+ + | | / +--"), RecognitionError::UnexpectedToken);
    assert_eq!(failure("+--+ / / | +--+ + | | / +--+ +"), RecognitionError::UnexpectedToken);
    assert_eq!(failure("+--+ / / | +--+ I"), RecognitionError::UnexpectedToken);
    assert_eq!(failure("+--+ / / + / / | +--+ / +--+"), RecognitionError::UnexpectedToken);
}

#[test]
fn depth_limit_is_the_number_of_transitions() {
    // `I--I--I` is not a line; `I----I` is one, read in four transitions.
    assert_eq!(failure("I--I--I"), RecognitionError::UnexpectedToken);
    let line = tokens("I----I");
    assert!(matches!(recognize_within(&line, 4), Ok(Literal::Line(l)) if l.0 == 2));
    assert!(matches!(recognize_within(&line, 5), Ok(Literal::Line(l)) if l.0 == 2));
    assert_eq!(
        recognize_within(&line, 3).err(),
        Some(RecognitionError::RecognitionDepthExceeded)
    );
    assert_eq!(
        recognize_within(&line, 0).err(),
        Some(RecognitionError::RecognitionDepthExceeded)
    );
}

#[test]
fn depth_of_a_rectangle_is_w_plus_h_plus_bottom_w_plus_4() {
    let r = tokens("+----+ | | | | | | +----+");
    assert!(matches!(recognize_within(&r, 11), Ok(Literal::Rectangle(r)) if r.w == 2 && r.h == 3));
    assert_eq!(
        recognize_within(&r, 10).err(),
        Some(RecognitionError::RecognitionDepthExceeded)
    );
    let bad = tokens("+----+ | | | | | | +--+");
    assert_eq!(
        recognize_within(&bad, 10).err(),
        Some(RecognitionError::DimensionMismatch { edge: Edge::Width, expected: 2, actual: 1 })
    );
    assert_eq!(
        recognize_within(&bad, 9).err(),
        Some(RecognitionError::RecognitionDepthExceeded)
    );
}

#[test]
fn depth_of_a_cuboid_is_3w_plus_h_plus_l_plus_6() {
    let c = tokens(
        "
             +----------+
            /          /|
           /          / |
          /          /  +
         /          /  /
        +----------+  /
        |          | /
        |          |/
        +----------+
        ",
    );
    assert!(matches!(
        recognize_within(&c, 27),
        Ok(Literal::Cuboid(c)) if c.w == 5 && c.h == 2 && c.l == 4
    ));
    assert_eq!(
        recognize_within(&c, 26).err(),
        Some(RecognitionError::RecognitionDepthExceeded)
    );
}

#[test]
fn default_limit_is_128_transitions() {
    assert_eq!(DEFAULT_MAX_DEPTH, 128);
    for terminator in [Token::LineMarker, Token::Plus] {
        assert!(matches!(
            recognize(&line_of(126, terminator)),
            Ok(Literal::Line(l)) if l.0 == 126
        ));
        assert_eq!(
            recognize(&line_of(127, terminator)).err(),
            Some(RecognitionError::RecognitionDepthExceeded)
        );
        assert!(matches!(
            recognize_within(&line_of(127, terminator), 129),
            Ok(Literal::Line(l)) if l.0 == 127
        ));
    }
}

#[test]
fn oversized_stream_is_refused_whatever_it_holds() {
    let mut v = line_of(200, Token::LineMarker);
    v.push(Token::Pipe);
    assert_eq!(recognize(&v).err(), Some(RecognitionError::RecognitionDepthExceeded));
    assert_eq!(
        recognize_within(&v, 1000).err(),
        Some(RecognitionError::UnexpectedToken)
    );
}

#[test]
fn large_line_is_read_whole_when_allowed() {
    let v = line_of(100_000, Token::LineMarker);
    assert!(matches!(
        recognize_within(&v, usize::MAX),
        Ok(Literal::Line(l)) if l.0 == 100_000
    ));
    assert_eq!(recognize(&v).err(), Some(RecognitionError::RecognitionDepthExceeded));
}

#[test]
fn recognition_is_repeatable() {
    let texts = [
        "II",
        "+----+",
        "+--+ | | +--+",
        "+--+ | | +----+",
        "+--+ / / | +--+ + | | / +--+",
        "+--+ / / | +--+ + | | / +--",
        "",
    ];
    for text in texts {
        let t = tokens(text);
        let first = format!("{:?}", recognize(&t));
        let second = format!("{:?}", recognize(&t));
        assert_eq!(first, second);
    }
}
