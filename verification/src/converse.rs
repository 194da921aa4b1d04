//! What a verdict says about the drawing: the recognizer reads to the end
//! only what is drawn as a line, a box or a wireframe, and returns a value
//! only for the drawings of that value.

use crate::diagram::{
    descends_from, edge, follows, is_column_symbol, marked_line, rectangle_diagram, repeat,
    rows_with, width_units, Drawing,
};
use crate::error::Fault;
use crate::machine::{begins1, begins2, begins3, closes, recognition, run, step, Move};
use crate::shapes::Shape;
use crate::state::{Phase, Tally};
use crate::theorems::{
    after_front_rows, after_top_rows, beside_top_face, counts_pairs, joined, last_of, later,
    lemma_drawing_is_read, lemma_reads_front_rows, lemma_reads_pairs, lemma_reads_top_rows,
};
use crate::token::Token;
use crate::validator::{cuboid_verdict, rectangle_verdict};
use vstd::prelude::*;

verus! {

/// How many times the pair `a`, `b` stands at the head of `rest`.
pub open spec fn leading_pairs(rest: Seq<Token>, a: Token, b: Token) -> nat
    decreases rest.len(),
{
    if begins2(rest, a, b) {
        1 + leading_pairs(rest.skip(2), a, b)
    } else {
        0
    }
}

/// What follows the leading pairs `a`, `b` of `rest`.
pub open spec fn after_pairs(rest: Seq<Token>, a: Token, b: Token) -> Seq<Token> {
    rest.skip(2 * leading_pairs(rest, a, b) as int)
}

/// Any input is its leading pairs followed by something that does not begin
/// with one more.
pub proof fn lemma_leading_pairs(rest: Seq<Token>, a: Token, b: Token)
    ensures
        2 * leading_pairs(rest, a, b) <= rest.len(),
        rest == repeat(seq![a, b], leading_pairs(rest, a, b)) + after_pairs(rest, a, b),
        !begins2(after_pairs(rest, a, b), a, b),
    decreases rest.len(),
{
    if begins2(rest, a, b) {
        let inner = rest.skip(2);
        let m = leading_pairs(inner, a, b);
        lemma_leading_pairs(inner, a, b);
        assert(inner.skip(2 * m as int) =~= rest.skip(2 * (m + 1) as int));
        assert(rest =~= seq![a, b] + inner);
        assert(rest =~= repeat(seq![a, b], m + 1) + after_pairs(rest, a, b));
    } else {
        assert(rest.skip(0) =~= rest);
        assert(repeat(seq![a, b], 0) + rest =~= rest);
    }
}

/// A phase that counts a pair reads all the leading pairs of its input.
pub proof fn lemma_reads_leading_pairs(
    f: spec_fn(nat) -> Phase,
    a: Token,
    b: Token,
    k: nat,
    rest: Seq<Token>,
)
    requires
        counts_pairs(f, a, b),
    ensures
        run(f(k), rest) == later(
            run(f(k + leading_pairs(rest, a, b)), after_pairs(rest, a, b)),
            leading_pairs(rest, a, b),
        ),
{
    lemma_leading_pairs(rest, a, b);
    lemma_reads_pairs(f, a, b, k, leading_pairs(rest, a, b), after_pairs(rest, a, b));
}

/// `rest` begins with a row `a b x` whose right-hand symbol `x` is one the
/// recognizer takes there.
pub open spec fn begins_row(rest: Seq<Token>, a: Token, b: Token, takes: spec_fn(Token) -> bool)
    -> bool {
    begins2(rest, a, b) && rest.len() >= 3 && takes(rest[2])
}

/// The right-hand column of the rows of the top face at the head of `rest`,
/// as far as it runs in order from `above`.
pub open spec fn top_column(above: Token, rest: Seq<Token>) -> Seq<Token>
    decreases rest.len(),
{
    if begins_row(rest, Token::Slash, Token::Slash, |x: Token| follows(above, x)) {
        seq![rest[2]] + top_column(rest[2], rest.skip(3))
    } else {
        Seq::empty()
    }
}

/// The right-hand column of the rows of the front face at the head of
/// `rest`.
pub open spec fn front_column(rest: Seq<Token>) -> Seq<Token>
    decreases rest.len(),
{
    if begins_row(rest, Token::Pipe, Token::Pipe, |x: Token| is_column_symbol(x)) {
        seq![rest[2]] + front_column(rest.skip(3))
    } else {
        Seq::empty()
    }
}

/// Any input is its leading rows of the top face followed by something that
/// does not begin with one more.
pub proof fn lemma_top_column(above: Token, rest: Seq<Token>)
    ensures
        3 * top_column(above, rest).len() <= rest.len(),
        descends_from(above, top_column(above, rest)),
        rest == rows_with(Token::Slash, Token::Slash, top_column(above, rest)) + rest.skip(
            3 * top_column(above, rest).len() as int,
        ),
        !begins_row(
            rest.skip(3 * top_column(above, rest).len() as int),
            Token::Slash,
            Token::Slash,
            |x: Token| follows(last_of(above, top_column(above, rest)), x),
        ),
    decreases rest.len(),
{
    let column = top_column(above, rest);
    if begins_row(rest, Token::Slash, Token::Slash, |x: Token| follows(above, x)) {
        let x = rest[2];
        let inner = rest.skip(3);
        let below = top_column(x, inner);
        lemma_top_column(x, inner);
        assert(column.skip(1) =~= below);
        assert(column[0] == x);
        assert(inner.skip(3 * below.len() as int) =~= rest.skip(3 * column.len() as int));
        assert(rest =~= seq![Token::Slash, Token::Slash, x] + inner);
        assert(rest =~= rows_with(Token::Slash, Token::Slash, column) + rest.skip(
            3 * column.len() as int,
        ));
        if below.len() > 0 {
            assert(below.last() == column.last());
        }
        assert(last_of(above, column) == last_of(x, below));
    } else {
        assert(rest.skip(0) =~= rest);
        assert(rows_with(Token::Slash, Token::Slash, column) + rest =~= rest);
    }
}

/// Any input is its leading rows of the front face followed by something
/// that does not begin with one more.
pub proof fn lemma_front_column(rest: Seq<Token>)
    ensures
        3 * front_column(rest).len() <= rest.len(),
        forall|i: int|
            0 <= i < front_column(rest).len() ==> is_column_symbol(
                #[trigger] front_column(rest)[i],
            ),
        rest == rows_with(Token::Pipe, Token::Pipe, front_column(rest)) + rest.skip(
            3 * front_column(rest).len() as int,
        ),
        !begins_row(
            rest.skip(3 * front_column(rest).len() as int),
            Token::Pipe,
            Token::Pipe,
            |x: Token| is_column_symbol(x),
        ),
    decreases rest.len(),
{
    let column = front_column(rest);
    if begins_row(rest, Token::Pipe, Token::Pipe, |x: Token| is_column_symbol(x)) {
        let x = rest[2];
        let inner = rest.skip(3);
        let below = front_column(inner);
        lemma_front_column(inner);
        assert(column.skip(1) =~= below);
        assert(column[0] == x);
        assert(inner.skip(3 * below.len() as int) =~= rest.skip(3 * column.len() as int));
        assert(rest =~= seq![Token::Pipe, Token::Pipe, x] + inner);
        assert(rest =~= rows_with(Token::Pipe, Token::Pipe, column) + rest.skip(
            3 * column.len() as int,
        ));
        assert forall|i: int| 0 <= i < column.len() implies is_column_symbol(
            #[trigger] column[i],
        ) by {
            if i > 0 {
                assert(column[i] == below[i - 1]);
            }
        }
    } else {
        assert(rest.skip(0) =~= rest);
        assert(rows_with(Token::Pipe, Token::Pipe, column) + rest =~= rest);
    }
}

/// A column that runs in order holds nothing but edge and corner symbols.
pub proof fn lemma_last_is_column_symbol(above: Token, column: Seq<Token>)
    requires
        is_column_symbol(above),
        descends_from(above, column),
    ensures
        is_column_symbol(last_of(above, column)),
    decreases column.len(),
{
    if column.len() > 0 {
        lemma_last_is_column_symbol(column[0], column.skip(1));
        if column.skip(1).len() > 0 {
            assert(column.skip(1).last() == column.last());
        }
    }
}

/// From the bottom-left corner of a box on, a run ends well only on a
/// bottom edge that is closed and followed by nothing; the widths are then
/// compared.
pub proof fn lemma_box_bottom_read(w: nat, h: nat, rest: Seq<Token>)
    ensures
        run(Phase::Bottom { w, h, bottom_w: 0 }, rest).verdict == if closes(
            after_pairs(rest, Token::Dash, Token::Dash),
            Token::Plus,
        ) {
            rectangle_verdict(w, h, leading_pairs(rest, Token::Dash, Token::Dash))
        } else {
            Err::<Shape, Fault>(Fault::UnexpectedToken)
        },
{
    lemma_reads_leading_pairs(
        |k: nat| Phase::Bottom { w, h, bottom_w: k },
        Token::Dash,
        Token::Dash,
        0,
        rest,
    );
    lemma_leading_pairs(rest, Token::Dash, Token::Dash);
}

/// From the bottom-left corner of a cuboid on, a run ends well only on a
/// bottom edge that is closed and followed by nothing; the measurements are
/// then compared.
pub proof fn lemma_cuboid_bottom_read(t: Tally, rest: Seq<Token>)
    requires
        t.bottom_w == 0,
    ensures
        run(Phase::BottomWidth(t), rest).verdict == if closes(
            after_pairs(rest, Token::Dash, Token::Dash),
            Token::Plus,
        ) {
            cuboid_verdict(Tally { bottom_w: leading_pairs(rest, Token::Dash, Token::Dash), ..t })
        } else {
            Err::<Shape, Fault>(Fault::UnexpectedToken)
        },
{
    lemma_reads_leading_pairs(
        |k: nat| Phase::BottomWidth(Tally { bottom_w: k, ..t }),
        Token::Dash,
        Token::Dash,
        0,
        rest,
    );
    lemma_leading_pairs(rest, Token::Dash, Token::Dash);
    assert(Tally { bottom_w: 0, ..t } == t);
}

/// On the front face, a run ends well only if the rows are followed by the
/// corner of the bottom edge.
pub proof fn lemma_front_rows_read(t: Tally, rest: Seq<Token>)
    ensures
        run(Phase::BottomHeight(t), rest).verdict == if begins1(
            rest.skip(3 * front_column(rest).len() as int),
            Token::Plus,
        ) {
            run(
                Phase::BottomWidth(after_front_rows(t, front_column(rest))),
                rest.skip(3 * front_column(rest).len() as int).skip(1),
            ).verdict
        } else {
            Err::<Shape, Fault>(Fault::UnexpectedToken)
        },
{
    let column = front_column(rest);
    let tail = rest.skip(3 * column.len() as int);
    lemma_front_column(rest);
    lemma_reads_front_rows(t, column, tail);
    let grown = after_front_rows(t, column);
    if begins1(tail, Token::Plus) {
        assert(step(Phase::BottomHeight(grown), tail) == (Move::Advance {
            next: Phase::BottomWidth(grown),
            consumed: 1,
        }));
    } else {
        assert(step(Phase::BottomHeight(grown), tail) == crate::machine::stuck());
    }
}

/// On the top edge of the front face, a run ends well only if the edge is
/// closed and an edge or corner symbol stands at its right.
pub proof fn lemma_front_edge_read(t: Tally, rest: Seq<Token>)
    requires
        t.mid_w == 0,
    ensures
        ({
            let mid_w = leading_pairs(rest, Token::Dash, Token::Dash);
            let tail = after_pairs(rest, Token::Dash, Token::Dash);
            run(Phase::MidWidth(t), rest).verdict == if tail.len() >= 2 && tail[0] == Token::Plus
                && is_column_symbol(tail[1]) {
                run(Phase::BottomHeight(joined(t, mid_w, tail[1])), tail.skip(2)).verdict
            } else {
                Err::<Shape, Fault>(Fault::UnexpectedToken)
            }
        }),
{
    let mid_w = leading_pairs(rest, Token::Dash, Token::Dash);
    let tail = after_pairs(rest, Token::Dash, Token::Dash);
    lemma_reads_leading_pairs(
        |k: nat| Phase::MidWidth(Tally { mid_w: k, ..t }),
        Token::Dash,
        Token::Dash,
        0,
        rest,
    );
    lemma_leading_pairs(rest, Token::Dash, Token::Dash);
    assert(Tally { mid_w: 0, ..t } == t);
    let counted = Tally { mid_w, ..t };
    if tail.len() >= 2 && tail[0] == Token::Plus && is_column_symbol(tail[1]) {
        assert(step(Phase::MidWidth(counted), tail) == (Move::Advance {
            next: Phase::BottomHeight(joined(t, mid_w, tail[1])),
            consumed: 2,
        }));
    } else {
        assert(step(Phase::MidWidth(counted), tail) == crate::machine::stuck());
    }
}

/// On the top face, a run ends well only if the rows are followed by the
/// corner of the front face.
pub proof fn lemma_top_rows_read(above: Token, t: Tally, rest: Seq<Token>)
    requires
        is_column_symbol(above),
    ensures
        ({
            let column = top_column(above, rest);
            let tail = rest.skip(3 * column.len() as int);
            run(beside_top_face(above, t), rest).verdict == if begins1(tail, Token::Plus) {
                run(Phase::MidWidth(after_top_rows(t, column)), tail.skip(1)).verdict
            } else {
                Err::<Shape, Fault>(Fault::UnexpectedToken)
            }
        }),
{
    let column = top_column(above, rest);
    let tail = rest.skip(3 * column.len() as int);
    lemma_top_column(above, rest);
    lemma_reads_top_rows(above, t, column, tail);
    lemma_last_is_column_symbol(above, column);
    let corner = last_of(above, column);
    let grown = after_top_rows(t, column);
    if begins1(tail, Token::Plus) {
        assert(step(beside_top_face(corner, grown), tail) == (Move::Advance {
            next: Phase::MidWidth(grown),
            consumed: 1,
        }));
    } else {
        assert(!begins_row(tail, Token::Slash, Token::Slash, |x: Token| follows(corner, x)));
        assert(step(beside_top_face(corner, grown), tail) == crate::machine::stuck());
    }
}

/// The symbols of a wireframe, put together piece by piece from the
/// bottom up.
pub proof fn lemma_wireframe_pieces(
    w: nat,
    lower_top: Seq<Token>,
    mid_w: nat,
    joint: Token,
    front: Seq<Token>,
    bottom_w: nat,
    from_front: Seq<Token>,
    from_corner: Seq<Token>,
    rest: Seq<Token>,
)
    requires
        from_front == rows_with(Token::Pipe, Token::Pipe, front) + (seq![Token::Plus] + (
            width_units(bottom_w) + seq![Token::Plus])),
        from_corner == seq![Token::Plus] + (width_units(mid_w) + (seq![Token::Plus, joint]
            + from_front)),
        rest == seq![Token::Slash, Token::Slash, Token::Pipe] + (rows_with(
            Token::Slash,
            Token::Slash,
            lower_top,
        ) + from_corner),
    ensures
        (Drawing::Wireframe {
            w,
            top: seq![Token::Pipe] + lower_top,
            mid_w,
            joint,
            front,
            bottom_w,
        }).tokens() == edge(w) + rest,
{
    let top = seq![Token::Pipe] + lower_top;
    assert(top.skip(1) =~= lower_top);
    let top_rows = rows_with(Token::Slash, Token::Slash, top);
    assert(top_rows =~= seq![Token::Slash, Token::Slash, Token::Pipe] + rows_with(
        Token::Slash,
        Token::Slash,
        lower_top,
    ));
    let front_rows = rows_with(Token::Pipe, Token::Pipe, front);
    assert(from_front =~= front_rows + edge(bottom_w));
    assert(from_corner =~= edge(mid_w) + seq![joint] + from_front);
    assert(rest =~= top_rows + from_corner);
    assert(edge(w) + rest =~= edge(w) + top_rows + edge(mid_w) + seq![joint] + front_rows + edge(
        bottom_w,
    ));
}

/// Beside the top face, a run ends well only on rows of the top face whose
/// right-hand column runs in order, followed by the corner of the front
/// face.
pub proof fn lemma_top_face_onward(above: Token, t: Tally, rest: Seq<Token>)
    requires
        is_column_symbol(above),
        run(beside_top_face(above, t), rest).verdict != Err::<Shape, Fault>(
            Fault::UnexpectedToken,
        ),
    ensures
        ({
            let column = top_column(above, rest);
            let from_mid = rest.skip(3 * column.len() as int).skip(1);
            &&& descends_from(above, column)
            &&& rest == rows_with(Token::Slash, Token::Slash, column) + (seq![Token::Plus]
                + from_mid)
            &&& run(Phase::MidWidth(after_top_rows(t, column)), from_mid).verdict == run(
                beside_top_face(above, t),
                rest,
            ).verdict
        }),
{
    let column = top_column(above, rest);
    let from_corner = rest.skip(3 * column.len() as int);
    lemma_top_column(above, rest);
    lemma_top_rows_read(above, t, rest);
    assert(begins1(from_corner, Token::Plus));
    assert(from_corner =~= seq![Token::Plus] + from_corner.skip(1));
}

/// On the top edge of the front face, a run ends well only on a closed
/// edge with an edge or corner symbol at its right.
pub proof fn lemma_front_edge_onward(t: Tally, rest: Seq<Token>)
    requires
        t.mid_w == 0,
        run(Phase::MidWidth(t), rest).verdict != Err::<Shape, Fault>(Fault::UnexpectedToken),
    ensures
        ({
            let mid_w = leading_pairs(rest, Token::Dash, Token::Dash);
            let from_joint = after_pairs(rest, Token::Dash, Token::Dash);
            &&& from_joint.len() >= 2
            &&& is_column_symbol(from_joint[1])
            &&& rest == width_units(mid_w) + (seq![Token::Plus, from_joint[1]] + from_joint.skip(
                2,
            ))
            &&& run(
                Phase::BottomHeight(joined(t, mid_w, from_joint[1])),
                from_joint.skip(2),
            ).verdict == run(Phase::MidWidth(t), rest).verdict
        }),
{
    let from_joint = after_pairs(rest, Token::Dash, Token::Dash);
    lemma_leading_pairs(rest, Token::Dash, Token::Dash);
    lemma_front_edge_read(t, rest);
    assert(from_joint.len() >= 2 && from_joint[0] == Token::Plus);
    assert(from_joint =~= seq![Token::Plus, from_joint[1]] + from_joint.skip(2));
}

/// The wireframe whose top edge is `w` wide and whose other symbols are
/// `rest`, if there is one: its measurements are taken off `rest` piece by
/// piece.
pub open spec fn wireframe_below(w: nat, rest: Seq<Token>) -> Drawing {
    let lower_top = top_column(Token::Pipe, rest.skip(3));
    let from_mid = rest.skip(3).skip(3 * lower_top.len() as int).skip(1);
    let from_joint = after_pairs(from_mid, Token::Dash, Token::Dash);
    let front = front_column(from_joint.skip(2));
    let from_units = from_joint.skip(2).skip(3 * front.len() as int).skip(1);
    Drawing::Wireframe {
        w,
        top: seq![Token::Pipe] + lower_top,
        mid_w: leading_pairs(from_mid, Token::Dash, Token::Dash),
        joint: from_joint[1],
        front,
        bottom_w: leading_pairs(from_units, Token::Dash, Token::Dash),
    }
}

/// Below a top edge of width `w`, a run that opens a cuboid ends well only
/// on the rest of a wireframe that holds together.
pub proof fn lemma_wireframe_read(w: nat, rest: Seq<Token>)
    requires
        begins3(rest, Token::Slash, Token::Slash, Token::Pipe),
        run(Phase::Mid { w, h: 0 }, rest).verdict != Err::<Shape, Fault>(Fault::UnexpectedToken),
    ensures
        wireframe_below(w, rest).well_drawn(),
        wireframe_below(w, rest).tokens() == edge(w) + rest,
{
    let opened = Tally { w, h: 1, l: 1, mid_w: 0, bottom_w: 0, bottom_h: 0, bottom_l: 0 };
    let after_opening = rest.skip(3);
    assert(step(Phase::Mid { w, h: 0 }, rest) == (Move::Advance {
        next: beside_top_face(Token::Pipe, opened),
        consumed: 3,
    }));
    assert(rest =~= seq![Token::Slash, Token::Slash, Token::Pipe] + after_opening);
    lemma_top_face_onward(Token::Pipe, opened, after_opening);
    let lower_top = top_column(Token::Pipe, after_opening);
    let from_mid = after_opening.skip(3 * lower_top.len() as int).skip(1);
    let faced = after_top_rows(opened, lower_top);
    lemma_front_edge_onward(faced, from_mid);
    let mid_w = leading_pairs(from_mid, Token::Dash, Token::Dash);
    let from_joint = after_pairs(from_mid, Token::Dash, Token::Dash);
    let joint = from_joint[1];
    let from_front = from_joint.skip(2);
    lemma_front_face_onward(joined(faced, mid_w, joint), from_front);
    let front = front_column(from_front);
    let bottom_w = leading_pairs(
        from_front.skip(3 * front.len() as int).skip(1),
        Token::Dash,
        Token::Dash,
    );
    lemma_wireframe_pieces(
        w,
        lower_top,
        mid_w,
        joint,
        front,
        bottom_w,
        from_front,
        seq![Token::Plus] + from_mid,
        rest,
    );
    let top = seq![Token::Pipe] + lower_top;
    assert(top.skip(1) =~= lower_top);
}

/// From the first row of the front face on, a run ends well only on rows
/// of the front face and a closed bottom edge.
pub proof fn lemma_front_face_onward(t: Tally, rest: Seq<Token>)
    requires
        t.bottom_w == 0,
        run(Phase::BottomHeight(t), rest).verdict != Err::<Shape, Fault>(Fault::UnexpectedToken),
    ensures
        ({
            let front = front_column(rest);
            let bottom_w = leading_pairs(
                rest.skip(3 * front.len() as int).skip(1),
                Token::Dash,
                Token::Dash,
            );
            &&& forall|i: int| 0 <= i < front.len() ==> is_column_symbol(#[trigger] front[i])
            &&& rest == rows_with(Token::Pipe, Token::Pipe, front) + (seq![Token::Plus] + (
                width_units(bottom_w) + seq![Token::Plus]))
        }),
{
    let front = front_column(rest);
    let from_bottom = rest.skip(3 * front.len() as int);
    lemma_front_column(rest);
    lemma_front_rows_read(t, rest);
    assert(begins1(from_bottom, Token::Plus));
    let from_units = from_bottom.skip(1);
    assert(from_bottom =~= seq![Token::Plus] + from_units);
    let end = after_pairs(from_units, Token::Dash, Token::Dash);
    lemma_leading_pairs(from_units, Token::Dash, Token::Dash);
    lemma_cuboid_bottom_read(after_front_rows(t, front), from_units);
    assert(closes(end, Token::Plus));
    assert(end =~= seq![Token::Plus]);
}

/// Below a top edge of width `w`, a run that does not open a cuboid ends
/// well only on the rows and the bottom edge of a box.
pub proof fn lemma_box_read(w: nat, rest: Seq<Token>) -> (drawing: Drawing)
    requires
        !begins3(rest, Token::Slash, Token::Slash, Token::Pipe),
        run(Phase::Mid { w, h: 0 }, rest).verdict != Err::<Shape, Fault>(Fault::UnexpectedToken),
    ensures
        drawing is Box,
        drawing->Box_w == w,
        drawing.tokens() == edge(w) + rest,
{
    let h = leading_pairs(rest, Token::Pipe, Token::Pipe);
    let from_corner = after_pairs(rest, Token::Pipe, Token::Pipe);
    lemma_leading_pairs(rest, Token::Pipe, Token::Pipe);
    lemma_reads_leading_pairs(|k: nat| Phase::Mid { w, h: k }, Token::Pipe, Token::Pipe, 0, rest);
    if h == 0 {
        assert(from_corner =~= rest);
    }
    if !begins1(from_corner, Token::Plus) {
        assert(step(Phase::Mid { w, h }, from_corner) == crate::machine::stuck());
    }
    assert(begins1(from_corner, Token::Plus));
    let from_units = from_corner.skip(1);
    let bottom_w = leading_pairs(from_units, Token::Dash, Token::Dash);
    let end = after_pairs(from_units, Token::Dash, Token::Dash);
    lemma_leading_pairs(from_units, Token::Dash, Token::Dash);
    lemma_box_bottom_read(w, h, from_units);
    assert(closes(end, Token::Plus));
    let drawing = Drawing::Box { w, h, bottom_w };
    assert(end =~= seq![Token::Plus]);
    assert(from_corner =~= edge(bottom_w)) by {
        assert(from_corner =~= seq![Token::Plus] + from_units);
    }
    assert(drawing.tokens() =~= edge(w) + rest);
    drawing
}

/// The recognizer reads to the end only what is drawn: a token stream that
/// is not refused as malformed is the symbols of a drawing that holds
/// together, and is recognized as what that drawing's measurements say.
pub proof fn lemma_read_only_if_drawn(tokens: Seq<Token>) -> (drawing: Drawing)
    requires
        recognition(tokens) != Err::<Shape, Fault>(Fault::UnexpectedToken),
    ensures
        drawing.well_drawn(),
        drawing.tokens() == tokens,
        drawing.reading() == recognition(tokens),
{
    let inner = tokens.skip(1);
    let n = leading_pairs(inner, Token::Dash, Token::Dash);
    let tail = after_pairs(inner, Token::Dash, Token::Dash);
    lemma_leading_pairs(inner, Token::Dash, Token::Dash);
    let drawing = if begins1(tokens, Token::LineMarker) {
        lemma_reads_leading_pairs(|k: nat| Phase::Line { n: k }, Token::Dash, Token::Dash, 0, inner);
        assert(closes(tail, Token::LineMarker));
        assert(tail =~= seq![Token::LineMarker]);
        assert(tokens =~= seq![Token::LineMarker] + inner);
        assert(tokens =~= marked_line(n));
        Drawing::MarkedLine { n }
    } else {
        assert(begins1(tokens, Token::Plus));
        lemma_reads_leading_pairs(|k: nat| Phase::Top { w: k }, Token::Dash, Token::Dash, 0, inner);
        assert(tokens =~= seq![Token::Plus] + inner);
        if closes(tail, Token::Plus) {
            assert(tail =~= seq![Token::Plus]);
            assert(tokens =~= edge(n));
            Drawing::LoneEdge { n }
        } else {
            if !begins1(tail, Token::Plus) {
                assert(step(Phase::Top { w: n }, tail) == crate::machine::stuck());
            }
            assert(begins1(tail, Token::Plus));
            let below = tail.skip(1);
            assert(tail =~= seq![Token::Plus] + below);
            assert(tokens =~= edge(n) + below);
            if begins3(below, Token::Slash, Token::Slash, Token::Pipe) {
                lemma_wireframe_read(n, below);
                wireframe_below(n, below)
            } else {
                lemma_box_read(n, below)
            }
        }
    };
    lemma_drawing_is_read(drawing, 0);
    drawing
}

/// A token stream is refused as malformed exactly when it is not the
/// symbols of any drawing that holds together.
pub proof fn lemma_malformed_iff_not_drawn(tokens: Seq<Token>)
    ensures
        recognition(tokens) == Err::<Shape, Fault>(Fault::UnexpectedToken) <==> forall|
            drawing: Drawing,
        |
            drawing.well_drawn() ==> #[trigger] drawing.tokens() != tokens,
{
    if recognition(tokens) == Err::<Shape, Fault>(Fault::UnexpectedToken) {
        assert forall|drawing: Drawing| drawing.well_drawn() implies #[trigger] drawing.tokens()
            != tokens by {
            lemma_drawing_is_read(drawing, 0);
        }
    } else {
        let drawing = lemma_read_only_if_drawn(tokens);
        assert(drawing.well_drawn() && drawing.tokens() == tokens);
    }
}

/// A drawing is read as a line of length `n` only if it is `n` width units
/// between two `I` markers or between two corners.
pub proof fn lemma_only_lines_are_lines(tokens: Seq<Token>, n: nat)
    requires
        recognition(tokens) == Ok::<Shape, Fault>(Shape::Line { magnitude: n }),
    ensures
        tokens == marked_line(n) || tokens == edge(n),
{
    let drawing = lemma_read_only_if_drawn(tokens);
}

/// A drawing is read as the rectangle of width `w` and height `h` only if
/// it is the box of that width and height, drawn true.
pub proof fn lemma_only_true_boxes_are_rectangles(tokens: Seq<Token>, w: nat, h: nat)
    requires
        recognition(tokens) == Ok::<Shape, Fault>(Shape::Rectangle { w, h }),
    ensures
        tokens == rectangle_diagram(w, h, w),
{
    let drawing = lemma_read_only_if_drawn(tokens);
}

/// A drawing is read as the cuboid of width `w`, height `h` and length `l`
/// only if it is a wireframe that holds together and all of whose
/// measurements agree: each of its three horizontal edges is `w` wide, its
/// right-hand column holds `h` symbols `|` and `l` symbols `/`, and it has
/// `l` rows of top face and `h` rows of front face.
pub proof fn lemma_only_true_wireframes_are_cuboids(tokens: Seq<Token>, w: nat, h: nat, l: nat)
    -> (drawing: Drawing)
    requires
        recognition(tokens) == Ok::<Shape, Fault>(Shape::Cuboid { w, h, l }),
    ensures
        drawing is Wireframe,
        drawing.well_drawn(),
        drawing.tokens() == tokens,
        drawing.measurements() == (Tally {
            w,
            h,
            l,
            mid_w: w,
            bottom_w: w,
            bottom_h: h,
            bottom_l: l,
        }),
{
    lemma_read_only_if_drawn(tokens)
}

} // verus!
