use analog_literals::lexer::{blank, spelled, symbol};
use analog_literals::{recognize, tokenize, Cuboid, Line, Literal, Rectangle, Token};

#[test]
fn area_is_width_times_height() {
    assert_eq!(Rectangle { w: 29, h: 9 }.area(), 261);
    assert_eq!(Rectangle { w: 0, h: 9 }.area(), 0);
    assert_eq!(Rectangle { w: 7, h: 0 }.area(), 0);
    assert_eq!(Rectangle { w: 1, h: usize::MAX }.area(), usize::MAX);
}

#[test]
fn volume_is_width_times_height_times_length() {
    assert_eq!(Cuboid { w: 21, h: 1, l: 16 }.volume(), 336);
    assert_eq!(Cuboid { w: 5, h: 2, l: 4 }.volume(), 40);
    assert_eq!(Cuboid { w: 0, h: 2, l: 4 }.volume(), 0);
    assert_eq!(Cuboid { w: 5, h: 0, l: 4 }.volume(), 0);
    assert_eq!(Cuboid { w: 5, h: 2, l: 0 }.volume(), 0);
    assert_eq!(Cuboid { w: usize::MAX, h: usize::MAX, l: 0 }.volume(), 0);
    assert_eq!(Cuboid { w: 1, h: usize::MAX, l: 1 }.volume(), usize::MAX);
}

#[test]
fn faces_are_projections_of_the_fields() {
    let c = Cuboid { w: 5, h: 2, l: 4 };
    assert_eq!((c.top().w, c.top().h), (5, 4));
    assert_eq!((c.side().w, c.side().h), (4, 2));
    assert_eq!((c.front().w, c.front().h), (5, 2));
    assert_eq!(c.top().area(), 20);
    assert_eq!(c.side().area(), 8);
    assert_eq!(c.front().area(), 10);
}

#[test]
fn lines_are_ordered_by_length() {
    assert!(Line(3) < Line(4));
    assert!(Line(4) > Line(3));
    assert!(Line(3) <= Line(3));
    assert_eq!(Line(3), Line(3));
    assert_eq!(Line(0).max(Line(7)), Line(7));
}

#[test]
fn no_rows_is_a_line_but_no_rows_and_a_bottom_edge_is_a_flat_box() {
    let lone = tokenize(b"+------+").unwrap();
    assert!(matches!(recognize(&lone), Ok(Literal::Line(l)) if l.0 == 3));
    let flat = tokenize(b"+------+ +------+").unwrap();
    assert!(matches!(recognize(&flat), Ok(Literal::Rectangle(r)) if r.w == 3 && r.h == 0));
    let one_row = tokenize(b"+------+ | | +------+").unwrap();
    assert!(matches!(recognize(&one_row), Ok(Literal::Rectangle(r)) if r.w == 3 && r.h == 1));
    let point = tokenize(b"++++").unwrap();
    assert!(matches!(recognize(&point), Ok(Literal::Rectangle(r)) if r.w == 0 && r.h == 0));
}

#[test]
fn cuboids_of_every_small_size_are_recognized() {
    for w in 0..4usize {
        for h in 1..5usize {
            for l in 1..5usize {
                let mut text = String::new();
                let edge = format!("+{}+", "--".repeat(w));
                text.push_str(&edge);
                text.push('\n');
                for i in 1..=(l + h + 1) {
                    if i <= l {
                        text.push_str("/ /");
                    } else if i == l + 1 {
                        text.push_str(&edge);
                    } else {
                        text.push_str("| |");
                    }
                    text.push(' ');
                    text.push(if i <= h {
                        '|'
                    } else if i == h + 1 {
                        '+'
                    } else {
                        '/'
                    });
                    text.push('\n');
                }
                text.push_str(&edge);
                let tokens = tokenize(text.as_bytes()).unwrap();
                match recognize(&tokens) {
                    Ok(Literal::Cuboid(c)) => {
                        assert_eq!((c.w, c.h, c.l), (w, h, l));
                        assert_eq!(c.volume(), w * h * l);
                    },
                    other => panic!("{} by {} by {}: {:?}", w, h, l, other),
                }
            }
        }
    }
}

#[test]
fn rectangles_of_every_small_size_are_recognized() {
    for w in 0..5usize {
        for h in 0..5usize {
            let edge = format!("+{}+", "--".repeat(w));
            let text = format!("{}{}{}", edge, "| |".repeat(h), edge);
            let tokens = tokenize(text.as_bytes()).unwrap();
            match recognize(&tokens) {
                Ok(Literal::Rectangle(r)) => {
                    assert_eq!((r.w, r.h), (w, h));
                    assert_eq!(r.area(), w * h);
                },
                other => panic!("{} by {}: {:?}", w, h, other),
            }
        }
    }
}

#[test]
fn lines_of_every_small_size_round_trip() {
    for n in 0..20usize {
        for terminator in ["I", "+"] {
            let text = format!("{}{}{}", terminator, "--".repeat(n), terminator);
            let tokens = tokenize(text.as_bytes()).unwrap();
            assert!(matches!(recognize(&tokens), Ok(Literal::Line(l)) if l.0 == n));
        }
    }
}

#[test]
fn drawing_that_closes_its_measurements_out_of_order_is_still_a_cuboid() {
    let tokens = tokenize(
        b"
          +--+
         /  /|
        +--+ |
        |  | /
        |  | +
        +--+
        ",
    )
    .unwrap();
    assert!(matches!(
        recognize(&tokens),
        Ok(Literal::Cuboid(c)) if c.w == 1 && c.h == 2 && c.l == 1
    ));
}

#[test]
fn five_symbols_are_the_tokens() {
    assert_eq!(
        tokenize(b"+-|/I"),
        Some(vec![Token::Plus, Token::Dash, Token::Pipe, Token::Slash, Token::LineMarker])
    );
    assert_eq!(symbol(b'+'), Some(Token::Plus));
    assert_eq!(symbol(b'-'), Some(Token::Dash));
    assert_eq!(symbol(b'|'), Some(Token::Pipe));
    assert_eq!(symbol(b'/'), Some(Token::Slash));
    assert_eq!(symbol(b'I'), Some(Token::LineMarker));
    assert_eq!(symbol(b'i'), None);
    assert_eq!(symbol(b'*'), None);
    assert_eq!(symbol(b' '), None);
}

#[test]
fn blanks_are_skipped() {
    assert!(blank(b' ') && blank(b'\t') && blank(b'\n') && blank(b'\r'));
    assert!(!blank(b'+') && !blank(b'_') && !blank(0));
    assert_eq!(tokenize(b""), Some(vec![]));
    assert_eq!(tokenize(b" \t\r\n"), Some(vec![]));
    assert_eq!(
        tokenize(b" I\t-\r\n- I \n"),
        Some(vec![Token::LineMarker, Token::Dash, Token::Dash, Token::LineMarker])
    );
}

#[test]
fn comments_are_skipped() {
    assert_eq!(tokenize(b"+/* a box */+"), Some(vec![Token::Plus, Token::Plus]));
    assert_eq!(tokenize(b"+/**/+"), Some(vec![Token::Plus, Token::Plus]));
    assert_eq!(tokenize(b"+/* * / */+"), Some(vec![Token::Plus, Token::Plus]));
    assert_eq!(tokenize(b"+/* /* */+"), Some(vec![Token::Plus, Token::Plus]));
    assert_eq!(
        tokenize(b"+ // the rest: +--+ x y z\n+"),
        Some(vec![Token::Plus, Token::Plus])
    );
    assert_eq!(tokenize(b"+ // to the end"), Some(vec![Token::Plus]));
    assert_eq!(tokenize(b"+ //"), Some(vec![Token::Plus]));
    assert_eq!(tokenize(b"// /* \n+"), Some(vec![Token::Plus]));
    assert_eq!(
        tokenize(b"/ / /*(o)*/ |/"),
        Some(vec![Token::Slash, Token::Slash, Token::Pipe, Token::Slash])
    );
}

#[test]
fn text_that_is_no_drawing_has_no_tokens() {
    assert_eq!(tokenize(b"+--+ x"), None);
    assert_eq!(tokenize(b"i--i"), None);
    assert_eq!(tokenize(b"+==+"), None);
    assert_eq!(tokenize(b"(+)"), None);
    assert_eq!(tokenize(b"+ */ +"), None);
    assert_eq!(tokenize(b"+ /* +"), None);
    assert_eq!(tokenize(b"+ /*/ +"), None);
    assert_eq!(tokenize(b"+ /*"), None);
    assert_eq!(tokenize(&[b'+', 0xc3, 0xa9]), None);
}

#[test]
fn two_characters_are_spelled_only_where_both_stand() {
    let text = b"a/*b";
    assert!(spelled(text, 1, b'/', b'*'));
    assert!(!spelled(text, 0, b'/', b'*'));
    assert!(!spelled(text, 2, b'*', b'/'));
    assert!(spelled(text, 2, b'*', b'b'));
    assert!(!spelled(text, 3, b'b', b'b'));
    assert!(!spelled(text, 4, b'b', b'b'));
}
