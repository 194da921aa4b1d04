use analog_literals::recognizer::{
    at1, at2, at3, at_end, at_width_unit, dispatch, read_bottom, read_bottom_height,
    read_bottom_width, read_line, read_mid, read_mid_width, read_top, read_top_depth,
    read_top_l_bottom_l, unexpected, Step,
};
use analog_literals::validator::{check_edge, validate_cuboid, validate_rectangle};
use analog_literals::{Counters, Edge, Literal, RecognitionError, RecognizerState, Token};
use Token::{Dash, LineMarker, Pipe, Plus, Slash};

fn counters(values: [usize; 7]) -> Counters {
    Counters {
        w: values[0],
        h: values[1],
        l: values[2],
        mid_w: values[3],
        bottom_w: values[4],
        bottom_h: values[5],
        bottom_l: values[6],
    }
}

fn tally(c: &Counters) -> [usize; 7] {
    [c.w, c.h, c.l, c.mid_w, c.bottom_w, c.bottom_h, c.bottom_l]
}

fn is_unexpected(step: Step) -> bool {
    matches!(step, Step::Finish { outcome: Err(RecognitionError::UnexpectedToken) })
}

#[test]
fn lookahead_reads_from_the_given_position() {
    let t = [Plus, Dash, Dash, Pipe, Slash];
    assert!(at1(&t, 0, Plus));
    assert!(!at1(&t, 0, Dash));
    assert!(at1(&t, 4, Slash));
    assert!(!at1(&t, 5, Slash));
    assert!(at2(&t, 1, Dash, Dash));
    assert!(!at2(&t, 0, Dash, Dash));
    assert!(at2(&t, 3, Pipe, Slash));
    assert!(!at2(&t, 4, Slash, Slash));
    assert!(at3(&t, 2, Dash, Pipe, Slash));
    assert!(!at3(&t, 3, Pipe, Slash, Slash));
    assert!(!at3(&t, 5, Pipe, Slash, Slash));
    assert!(at_width_unit(&t, 1));
    assert!(!at_width_unit(&t, 2));
}

#[test]
fn end_of_input_is_the_last_token_only() {
    let t = [Plus, Plus];
    assert!(!at_end(&t, 0, Plus));
    assert!(at_end(&t, 1, Plus));
    assert!(!at_end(&t, 1, LineMarker));
    assert!(!at_end(&t, 2, Plus));
}

#[test]
fn no_transition_is_an_unexpected_token() {
    assert!(is_unexpected(unexpected()));
}

#[test]
fn dispatcher_selects_by_first_token() {
    assert!(matches!(
        dispatch(&[LineMarker, LineMarker], 0),
        Step::Advance { next: RecognizerState::Line { n: 0 }, consumed: 1 }
    ));
    assert!(matches!(
        dispatch(&[Plus, Plus], 0),
        Step::Advance { next: RecognizerState::Top { w: 0 }, consumed: 1 }
    ));
    assert!(is_unexpected(dispatch(&[Dash, Dash], 0)));
    assert!(is_unexpected(dispatch(&[Pipe], 0)));
    assert!(is_unexpected(dispatch(&[Slash], 0)));
    assert!(is_unexpected(dispatch(&[], 0)));
    assert!(matches!(
        RecognizerState::Start.step(&[Plus], 0),
        Step::Advance { next: RecognizerState::Top { w: 0 }, consumed: 1 }
    ));
}

#[test]
fn line_counts_width_units_until_its_marker() {
    let t = [LineMarker, Dash, Dash, Dash, Dash, LineMarker];
    assert!(matches!(
        read_line(0, &t, 1),
        Step::Advance { next: RecognizerState::Line { n: 1 }, consumed: 2 }
    ));
    assert!(matches!(
        read_line(1, &t, 3),
        Step::Advance { next: RecognizerState::Line { n: 2 }, consumed: 2 }
    ));
    assert!(matches!(
        read_line(2, &t, 5),
        Step::Finish { outcome: Ok(Literal::Line(l)) } if l.0 == 2
    ));
    assert!(is_unexpected(read_line(1, &t, 4)));
    assert!(is_unexpected(read_line(0, &[LineMarker, LineMarker, LineMarker], 1)));
    assert!(is_unexpected(read_line(0, &[LineMarker, Plus], 1)));
    assert!(is_unexpected(read_line(0, &[LineMarker], 1)));
    assert!(matches!(
        RecognizerState::Line { n: 1 }.step(&t, 3),
        Step::Advance { next: RecognizerState::Line { n: 2 }, consumed: 2 }
    ));
}

#[test]
fn top_edge_collapses_to_a_line_only_at_the_end() {
    let lone = [Plus, Dash, Dash, Plus];
    assert!(matches!(
        read_top(0, &lone, 1),
        Step::Advance { next: RecognizerState::Top { w: 1 }, consumed: 2 }
    ));
    assert!(matches!(
        read_top(1, &lone, 3),
        Step::Finish { outcome: Ok(Literal::Line(l)) } if l.0 == 1
    ));
    let boxed = [Plus, Dash, Dash, Plus, Plus, Dash, Dash, Plus];
    assert!(matches!(
        read_top(1, &boxed, 3),
        Step::Advance { next: RecognizerState::Mid { w: 1, h: 0 }, consumed: 1 }
    ));
    assert!(is_unexpected(read_top(0, &[Plus, Pipe], 1)));
    assert!(is_unexpected(read_top(0, &[Plus, LineMarker], 1)));
    assert!(is_unexpected(read_top(0, &[Plus], 1)));
    assert!(matches!(
        RecognizerState::Top { w: 3 }.step(&lone, 3),
        Step::Finish { outcome: Ok(Literal::Line(l)) } if l.0 == 3
    ));
}

#[test]
fn rows_count_height_and_plus_opens_the_bottom() {
    let t = [Plus, Plus, Pipe, Pipe, Plus, Plus];
    assert!(matches!(
        read_mid(0, 0, &t, 2),
        Step::Advance { next: RecognizerState::Mid { w: 0, h: 1 }, consumed: 2 }
    ));
    assert!(matches!(
        read_mid(0, 1, &t, 4),
        Step::Advance { next: RecognizerState::Bottom { w: 0, h: 1, bottom_w: 0 }, consumed: 1 }
    ));
    assert!(is_unexpected(read_mid(0, 0, &[Plus, Plus, Pipe, Plus], 2)));
    assert!(is_unexpected(read_mid(0, 0, &[Plus, Plus], 2)));
    assert!(matches!(
        RecognizerState::Mid { w: 2, h: 1 }.step(&t, 2),
        Step::Advance { next: RecognizerState::Mid { w: 2, h: 2 }, consumed: 2 }
    ));
}

#[test]
fn first_row_of_depth_opens_a_cuboid_only_below_the_top_edge() {
    let t = [Plus, Plus, Slash, Slash, Pipe, Plus];
    match read_mid(0, 0, &t, 2) {
        Step::Advance { next: RecognizerState::TopDepth(c), consumed: 3 } => {
            assert_eq!(tally(&c), [0, 1, 1, 0, 0, 0, 0]);
        },
        other => panic!("{:?}", other),
    }
    let wide = [Plus, Dash, Dash, Dash, Dash, Plus, Slash, Slash, Pipe, Plus];
    match read_mid(2, 0, &wide, 6) {
        Step::Advance { next: RecognizerState::TopDepth(c), consumed: 3 } => {
            assert_eq!(tally(&c), [2, 1, 1, 0, 0, 0, 0]);
        },
        other => panic!("{:?}", other),
    }
    let late = [Plus, Plus, Pipe, Pipe, Slash, Slash, Pipe, Plus];
    assert!(is_unexpected(read_mid(0, 1, &late, 4)));
    assert!(is_unexpected(read_mid(0, 0, &[Plus, Plus, Slash, Slash, Plus], 2)));
    assert!(is_unexpected(read_mid(0, 0, &[Plus, Plus, Slash, Slash, Slash], 2)));
    assert!(is_unexpected(read_mid(0, 0, &[Plus, Plus, Slash, Slash], 2)));
}

#[test]
fn bottom_edge_closes_the_box_through_the_validator() {
    let t = [Plus, Plus, Plus, Dash, Dash, Plus];
    assert!(matches!(
        read_bottom(1, 0, 0, &t, 3),
        Step::Advance { next: RecognizerState::Bottom { w: 1, h: 0, bottom_w: 1 }, consumed: 2 }
    ));
    assert!(matches!(
        read_bottom(1, 0, 1, &t, 5),
        Step::Finish { outcome: Ok(Literal::Rectangle(r)) } if r.w == 1 && r.h == 0
    ));
    assert!(matches!(
        read_bottom(2, 3, 1, &t, 5),
        Step::Finish {
            outcome: Err(RecognitionError::DimensionMismatch {
                edge: Edge::Width,
                expected: 2,
                actual: 1
            })
        }
    ));
    assert!(is_unexpected(read_bottom(0, 0, 0, &t, 2)));
    assert!(is_unexpected(read_bottom(0, 0, 0, &t, 6)));
    assert!(matches!(
        RecognizerState::Bottom { w: 1, h: 2, bottom_w: 1 }.step(&t, 5),
        Step::Finish { outcome: Ok(Literal::Rectangle(r)) } if r.w == 1 && r.h == 2
    ));
}

#[test]
fn top_depth_rows_count_height_and_length_together() {
    let c = counters([3, 1, 1, 0, 0, 0, 0]);
    let pad = [Plus; 10];
    let mut t = pad.to_vec();
    t.extend([Slash, Slash, Pipe, Slash, Slash, Plus, Plus]);
    match read_top_depth(c, &t, 10) {
        Step::Advance { next: RecognizerState::TopDepth(n), consumed: 3 } => {
            assert_eq!(tally(&n), [3, 2, 2, 0, 0, 0, 0]);
        },
        other => panic!("{:?}", other),
    }
    match read_top_depth(c, &t, 13) {
        Step::Advance { next: RecognizerState::TopLBottomL(n), consumed: 3 } => {
            assert_eq!(tally(&n), [3, 1, 2, 0, 0, 0, 0]);
        },
        other => panic!("{:?}", other),
    }
    match RecognizerState::TopDepth(c).step(&t, 16) {
        Step::Advance { next: RecognizerState::MidWidth(n), consumed: 1 } => {
            assert_eq!(tally(&n), [3, 1, 1, 0, 0, 0, 0]);
        },
        other => panic!("{:?}", other),
    }
    assert!(is_unexpected(read_top_depth(c, &t, 11)));
    assert!(is_unexpected(read_top_depth(c, &t, 17)));
    let mut slashes = pad.to_vec();
    slashes.extend([Slash, Slash, Slash]);
    assert!(is_unexpected(read_top_depth(c, &slashes, 10)));
}

#[test]
fn rows_below_the_corner_count_length_twice() {
    let c = counters([3, 1, 2, 0, 0, 0, 0]);
    let mut t = [Plus; 10].to_vec();
    t.extend([Slash, Slash, Slash, Plus, Slash, Slash, Pipe]);
    match read_top_l_bottom_l(c, &t, 10) {
        Step::Advance { next: RecognizerState::TopLBottomL(n), consumed: 3 } => {
            assert_eq!(tally(&n), [3, 1, 3, 0, 0, 0, 1]);
        },
        other => panic!("{:?}", other),
    }
    match RecognizerState::TopLBottomL(c).step(&t, 13) {
        Step::Advance { next: RecognizerState::MidWidth(n), consumed: 1 } => {
            assert_eq!(tally(&n), [3, 1, 2, 0, 0, 0, 0]);
        },
        other => panic!("{:?}", other),
    }
    assert!(is_unexpected(read_top_l_bottom_l(c, &t, 14)));
    assert!(is_unexpected(read_top_l_bottom_l(c, &t, 11)));
    assert!(is_unexpected(read_top_l_bottom_l(c, &t, 17)));
}

#[test]
fn front_edge_closes_with_the_right_hand_column() {
    let c = counters([3, 1, 2, 0, 0, 0, 1]);
    let mut t = [Plus; 10].to_vec();
    t.extend([Dash, Dash, Plus, Plus, Pipe, Plus, Slash, Plus, Dash]);
    match read_mid_width(c, &t, 10) {
        Step::Advance { next: RecognizerState::MidWidth(n), consumed: 2 } => {
            assert_eq!(tally(&n), [3, 1, 2, 1, 0, 0, 1]);
        },
        other => panic!("{:?}", other),
    }
    match read_mid_width(c, &t, 12) {
        Step::Advance { next: RecognizerState::BottomHeight(n), consumed: 2 } => {
            assert_eq!(tally(&n), [3, 1, 2, 0, 0, 0, 1]);
        },
        other => panic!("{:?}", other),
    }
    match read_mid_width(c, &t, 13) {
        Step::Advance { next: RecognizerState::BottomHeight(n), consumed: 2 } => {
            assert_eq!(tally(&n), [3, 2, 2, 0, 0, 0, 1]);
        },
        other => panic!("{:?}", other),
    }
    match RecognizerState::MidWidth(c).step(&t, 15) {
        Step::Advance { next: RecognizerState::BottomHeight(n), consumed: 2 } => {
            assert_eq!(tally(&n), [3, 1, 2, 0, 0, 0, 2]);
        },
        other => panic!("{:?}", other),
    }
    assert!(is_unexpected(read_mid_width(c, &t, 17)));
    assert!(is_unexpected(read_mid_width(c, &t, 14)));
    assert!(is_unexpected(read_mid_width(c, &t, 19)));
}

#[test]
fn front_rows_count_by_their_right_hand_column() {
    let c = counters([3, 2, 2, 3, 0, 1, 1]);
    let mut t = [Plus; 10].to_vec();
    t.extend([Pipe, Pipe, Plus, Pipe, Pipe, Slash, Pipe, Pipe, Pipe, Plus, Dash]);
    match read_bottom_height(c, &t, 10) {
        Step::Advance { next: RecognizerState::BottomHeight(n), consumed: 3 } => {
            assert_eq!(tally(&n), [3, 2, 2, 3, 0, 2, 1]);
        },
        other => panic!("{:?}", other),
    }
    match read_bottom_height(c, &t, 13) {
        Step::Advance { next: RecognizerState::BottomHeight(n), consumed: 3 } => {
            assert_eq!(tally(&n), [3, 2, 2, 3, 0, 2, 2]);
        },
        other => panic!("{:?}", other),
    }
    match read_bottom_height(c, &t, 16) {
        Step::Advance { next: RecognizerState::BottomHeight(n), consumed: 3 } => {
            assert_eq!(tally(&n), [3, 3, 2, 3, 0, 2, 1]);
        },
        other => panic!("{:?}", other),
    }
    match RecognizerState::BottomHeight(c).step(&t, 19) {
        Step::Advance { next: RecognizerState::BottomWidth(n), consumed: 1 } => {
            assert_eq!(tally(&n), [3, 2, 2, 3, 0, 1, 1]);
        },
        other => panic!("{:?}", other),
    }
    assert!(is_unexpected(read_bottom_height(c, &t, 20)));
    assert!(is_unexpected(read_bottom_height(c, &t, 18)));
    assert!(is_unexpected(read_bottom_height(c, &t, 21)));
    let mut odd = [Plus; 10].to_vec();
    odd.extend([Pipe, Pipe, Dash]);
    assert!(is_unexpected(read_bottom_height(c, &odd, 10)));
}

#[test]
fn bottom_edge_closes_the_cuboid_through_the_validator() {
    let c = counters([1, 2, 3, 1, 0, 2, 3]);
    let mut t = [Plus; 10].to_vec();
    t.extend([Dash, Dash, Plus]);
    match read_bottom_width(c, &t, 10) {
        Step::Advance { next: RecognizerState::BottomWidth(n), consumed: 2 } => {
            assert_eq!(tally(&n), [1, 2, 3, 1, 1, 2, 3]);
        },
        other => panic!("{:?}", other),
    }
    let full = counters([1, 2, 3, 1, 1, 2, 3]);
    assert!(matches!(
        read_bottom_width(full, &t, 12),
        Step::Finish { outcome: Ok(Literal::Cuboid(k)) } if k.w == 1 && k.h == 2 && k.l == 3
    ));
    assert!(matches!(
        RecognizerState::BottomWidth(c).step(&t, 12),
        Step::Finish {
            outcome: Err(RecognitionError::DimensionMismatch {
                edge: Edge::Width,
                expected: 1,
                actual: 0
            })
        }
    ));
    assert!(is_unexpected(read_bottom_width(full, &t, 11)));
    assert!(is_unexpected(read_bottom_width(full, &t, 13)));
    assert!(is_unexpected(read_bottom_width(full, &t, 9)));
}

#[test]
fn edges_agree_only_when_equal() {
    assert_eq!(check_edge(Edge::Width, 3, 3), Ok(()));
    assert_eq!(check_edge(Edge::Height, 0, 0), Ok(()));
    assert_eq!(
        check_edge(Edge::Width, 4, 3),
        Err(RecognitionError::DimensionMismatch { edge: Edge::Width, expected: 4, actual: 3 })
    );
    assert_eq!(
        check_edge(Edge::Length, 3, 4),
        Err(RecognitionError::DimensionMismatch { edge: Edge::Length, expected: 3, actual: 4 })
    );
}

#[test]
fn rectangle_exists_only_if_its_widths_agree() {
    assert!(matches!(validate_rectangle(4, 3, 4), Ok(r) if r.w == 4 && r.h == 3));
    assert!(matches!(validate_rectangle(0, 0, 0), Ok(r) if r.w == 0 && r.h == 0));
    assert_eq!(
        validate_rectangle(4, 3, 3).err(),
        Some(RecognitionError::DimensionMismatch { edge: Edge::Width, expected: 4, actual: 3 })
    );
    assert_eq!(
        validate_rectangle(4, 4, 5).err(),
        Some(RecognitionError::DimensionMismatch { edge: Edge::Width, expected: 4, actual: 5 })
    );
}

#[test]
fn cuboid_exists_only_if_all_four_pairs_agree() {
    assert!(matches!(
        validate_cuboid(&counters([5, 2, 4, 5, 5, 2, 4])),
        Ok(c) if c.w == 5 && c.h == 2 && c.l == 4
    ));
    assert_eq!(
        validate_cuboid(&counters([5, 2, 4, 6, 7, 3, 5])).err(),
        Some(RecognitionError::DimensionMismatch { edge: Edge::Width, expected: 5, actual: 6 })
    );
    assert_eq!(
        validate_cuboid(&counters([5, 2, 4, 5, 7, 3, 5])).err(),
        Some(RecognitionError::DimensionMismatch { edge: Edge::Width, expected: 5, actual: 7 })
    );
    assert_eq!(
        validate_cuboid(&counters([5, 2, 4, 5, 5, 3, 5])).err(),
        Some(RecognitionError::DimensionMismatch { edge: Edge::Height, expected: 2, actual: 3 })
    );
    assert_eq!(
        validate_cuboid(&counters([5, 2, 4, 5, 5, 2, 5])).err(),
        Some(RecognitionError::DimensionMismatch { edge: Edge::Length, expected: 4, actual: 5 })
    );
}
