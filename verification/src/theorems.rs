//! What the recognizer does on well-drawn diagrams, proved for every size.

use crate::diagram::{
    back_column, box_rows, count, cuboid_diagram, descends_from, edge, front_face_rows,
    is_column_symbol, marked_line, rectangle_diagram, repeat, rows_with, top_face_rows,
    width_units, Drawing,
};
use crate::error::{Edge, Fault, RecognitionError};
use crate::machine::{
    begins2, begins3, recognition, recognition_depth, recognition_within, run, step, Move, Trace,
};
use crate::recognizer::verdict_of;
use crate::shapes::{Literal, Shape};
use crate::state::{Phase, Tally};
use crate::token::Token;
use crate::validator::{cuboid_verdict, rectangle_verdict};
use vstd::prelude::*;

verus! {

/// The trace that ends as `trace` does, `steps` transitions later.
pub open spec fn later(trace: Trace, steps: nat) -> Trace {
    Trace { verdict: trace.verdict, depth: trace.depth + steps }
}

/// `f` is a family of phases that count the pair `a`, `b`: in `f(k)`, that
/// pair at the head of the input leads to `f(k + 1)`.
pub open spec fn counts_pairs(f: spec_fn(nat) -> Phase, a: Token, b: Token) -> bool {
    forall|k: nat, rest: Seq<Token>|
        begins2(rest, a, b) ==> #[trigger] step(f(k), rest) == (Move::Advance {
            next: f(k + 1),
            consumed: 2,
        })
}

/// A phase that counts a pair reads `m` of them in `m` transitions,
/// whatever follows.
pub proof fn lemma_reads_pairs(
    f: spec_fn(nat) -> Phase,
    a: Token,
    b: Token,
    k: nat,
    m: nat,
    tail: Seq<Token>,
)
    requires
        counts_pairs(f, a, b),
    ensures
        run(f(k), repeat(seq![a, b], m) + tail) == later(run(f(k + m), tail), m),
    decreases m,
{
    if m == 0 {
        assert(repeat(seq![a, b], 0) + tail =~= tail);
    } else {
        let rest = repeat(seq![a, b], m) + tail;
        let shorter = repeat(seq![a, b], (m - 1) as nat) + tail;
        assert(rest =~= seq![a, b] + shorter);
        assert(rest.skip(2) =~= shorter);
        assert(begins2(rest, a, b));
        lemma_reads_pairs(f, a, b, k + 1, (m - 1) as nat, tail);
    }
}

/// Reading starts on the top edge when the first token is `+`.
pub proof fn lemma_opening_corner(tail: Seq<Token>)
    ensures
        run(Phase::Start, seq![Token::Plus] + tail) == later(run(Phase::Top { w: 0 }, tail), 1),
{
    assert((seq![Token::Plus] + tail).skip(1) =~= tail);
}

/// A top edge of width `w` with something below it is read in `w + 2`
/// transitions, after which the rows begin.
pub proof fn lemma_top_edge(w: nat, below: Seq<Token>)
    requires
        below.len() > 0,
    ensures
        run(Phase::Start, edge(w) + below) == later(run(Phase::Mid { w, h: 0 }, below), w + 2),
{
    let closing = seq![Token::Plus] + below;
    assert(edge(w) + below =~= seq![Token::Plus] + (width_units(w) + closing));
    lemma_opening_corner(width_units(w) + closing);
    lemma_reads_pairs(|k: nat| Phase::Top { w: k }, Token::Dash, Token::Dash, 0, w, closing);
    assert(closing.skip(1) =~= below);
}

/// Below `h` rows of a box, a bottom edge of width `bottom_w` closes the box
/// in `bottom_w + 2` transitions, and the widths are compared.
pub proof fn lemma_bottom_edge(w: nat, h: nat, bottom_w: nat)
    ensures
        run(Phase::Mid { w, h }, edge(bottom_w)) == (Trace {
            verdict: rectangle_verdict(w, h, bottom_w),
            depth: bottom_w + 2,
        }),
{
    let closing = seq![Token::Plus];
    assert(edge(bottom_w) =~= seq![Token::Plus] + (width_units(bottom_w) + closing));
    assert(edge(bottom_w).skip(1) =~= width_units(bottom_w) + closing);
    lemma_reads_pairs(
        |k: nat| Phase::Bottom { w, h, bottom_w: k },
        Token::Dash,
        Token::Dash,
        0,
        bottom_w,
        closing,
    );
}

/// A line of `n` width units between two `I` markers is read as the
/// magnitude `n`, in `n + 2` transitions.
pub proof fn lemma_marked_line(n: nat, max_depth: nat)
    ensures
        recognition(marked_line(n)) == Ok::<Shape, Fault>(Shape::Line { magnitude: n }),
        recognition_depth(marked_line(n)) == n + 2,
        recognition_within(marked_line(n), max_depth) == if n + 2 <= max_depth {
            Ok::<Shape, Fault>(Shape::Line { magnitude: n })
        } else {
            Err::<Shape, Fault>(Fault::RecognitionDepthExceeded)
        },
{
    let close = seq![Token::LineMarker];
    let inner = width_units(n) + close;
    assert(marked_line(n) =~= seq![Token::LineMarker] + inner);
    assert(marked_line(n).skip(1) =~= inner);
    lemma_reads_pairs(|k: nat| Phase::Line { n: k }, Token::Dash, Token::Dash, 0, n, close);
}

/// A top edge of `n` width units with nothing below it is read as the bare
/// magnitude `n`, in `n + 2` transitions: a drawing without rows is a line,
/// not a box of height zero.
pub proof fn lemma_lone_edge(n: nat, max_depth: nat)
    ensures
        recognition(edge(n)) == Ok::<Shape, Fault>(Shape::Line { magnitude: n }),
        recognition_depth(edge(n)) == n + 2,
        recognition_within(edge(n), max_depth) == if n + 2 <= max_depth {
            Ok::<Shape, Fault>(Shape::Line { magnitude: n })
        } else {
            Err::<Shape, Fault>(Fault::RecognitionDepthExceeded)
        },
{
    let close = seq![Token::Plus];
    let inner = width_units(n) + close;
    assert(edge(n) =~= seq![Token::Plus] + inner);
    assert(edge(n).skip(1) =~= inner);
    lemma_reads_pairs(|k: nat| Phase::Top { w: k }, Token::Dash, Token::Dash, 0, n, close);
}

/// A box with a top edge of width `w`, `h` rows and a bottom edge of width
/// `bottom_w` is read in `w + h + bottom_w + 4` transitions. If the two
/// edges agree it is the rectangle of width `w` and height `h`; if not, no
/// value is produced and the mismatch names the width, with both
/// measurements.
pub proof fn lemma_rectangle(w: nat, h: nat, bottom_w: nat, max_depth: nat)
    ensures
        recognition(rectangle_diagram(w, h, bottom_w)) == rectangle_verdict(w, h, bottom_w),
        recognition_depth(rectangle_diagram(w, h, bottom_w)) == w + h + bottom_w + 4,
        recognition_within(rectangle_diagram(w, h, bottom_w), max_depth) == if w + h + bottom_w + 4
            <= max_depth {
            rectangle_verdict(w, h, bottom_w)
        } else {
            Err::<Shape, Fault>(Fault::RecognitionDepthExceeded)
        },
        bottom_w == w ==> recognition(rectangle_diagram(w, h, bottom_w)) == Ok::<Shape, Fault>(
            Shape::Rectangle { w, h },
        ),
        bottom_w != w ==> recognition(rectangle_diagram(w, h, bottom_w)) == Err::<Shape, Fault>(
            Fault::DimensionMismatch { edge: Edge::Width, expected: w, actual: bottom_w },
        ),
{
    let below = box_rows(h) + edge(bottom_w);
    assert(rectangle_diagram(w, h, bottom_w) =~= edge(w) + below);
    lemma_top_edge(w, below);
    lemma_reads_pairs(
        |k: nat| Phase::Mid { w, h: k },
        Token::Pipe,
        Token::Pipe,
        0,
        h,
        edge(bottom_w),
    );
    lemma_bottom_edge(w, h, bottom_w);
}

/// The phase a well-drawn cuboid of height `h` is in after row `i` of its
/// top face, for `i >= 1`. Beside the back-right vertical edge every row
/// counts for both height and length; below its corner the rows count for
/// the length twice, on the top face and on the bottom-right edge.
pub open spec fn top_face_phase(w: nat, h: nat, i: nat) -> Phase {
    if i <= h {
        Phase::TopDepth(Tally { w, h: i, l: i, mid_w: 0, bottom_w: 0, bottom_h: 0, bottom_l: 0 })
    } else {
        Phase::TopLBottomL(
            Tally {
                w,
                h,
                l: i,
                mid_w: 0,
                bottom_w: 0,
                bottom_h: 0,
                bottom_l: (i - h - 1) as nat,
            },
        )
    }
}

/// The phase a well-drawn cuboid of width `w`, height `h` and length `l` is
/// in after row `i`, for `i >= l + 1`: the top edge of the front face is row
/// `l + 1`, and the rows of the front face follow it. By then the
/// right-hand column has shown `min(i, h)` rows of the vertical edge and
/// every row past its corner is one of the bottom-right edge.
pub open spec fn front_face_phase(w: nat, h: nat, l: nat, i: nat) -> Phase {
    Phase::BottomHeight(
        Tally {
            w,
            h: if i <= h {
                i
            } else {
                h
            },
            l,
            mid_w: w,
            bottom_w: 0,
            bottom_h: (i - l - 1) as nat,
            bottom_l: if i <= h {
                0
            } else {
                (i - h - 1) as nat
            },
        },
    )
}

/// The rows of the top face are read one transition each.
pub proof fn lemma_top_face_rows(w: nat, h: nat, i: nat, count: nat, tail: Seq<Token>)
    requires
        1 <= i,
    ensures
        run(top_face_phase(w, h, i), top_face_rows(h, i + 1, count) + tail) == later(
            run(top_face_phase(w, h, i + count), tail),
            count,
        ),
    decreases count,
{
    if count == 0 {
        assert(top_face_rows(h, i + 1, 0) + tail =~= tail);
    } else {
        let rest = top_face_rows(h, i + 1, count) + tail;
        let shorter = top_face_rows(h, i + 2, (count - 1) as nat) + tail;
        let column = back_column(h, i + 1);
        assert(rest =~= seq![Token::Slash, Token::Slash, column] + shorter);
        assert(rest.skip(3) =~= shorter);
        assert(begins3(rest, Token::Slash, Token::Slash, column));
        lemma_top_face_rows(w, h, i + 1, (count - 1) as nat, tail);
    }
}

/// Below the top edge of a cuboid, the `l` rows of its top face are read in
/// `l` transitions.
pub proof fn lemma_top_face(w: nat, h: nat, l: nat, tail: Seq<Token>)
    requires
        1 <= h,
        1 <= l,
    ensures
        run(Phase::Mid { w, h: 0 }, top_face_rows(h, 1, l) + tail) == later(
            run(top_face_phase(w, h, l), tail),
            l,
        ),
{
    let rest = top_face_rows(h, 1, l) + tail;
    let shorter = top_face_rows(h, 2, (l - 1) as nat) + tail;
    assert(rest =~= seq![Token::Slash, Token::Slash, Token::Pipe] + shorter);
    assert(rest.skip(3) =~= shorter);
    assert(begins3(rest, Token::Slash, Token::Slash, Token::Pipe));
    lemma_top_face_rows(w, h, 1, (l - 1) as nat, tail);
}

/// What the right-hand column adds to the measurements on the row of the
/// front face's top edge: `|` one unit of height, `/` one unit of bottom
/// length, the corner nothing.
pub open spec fn joined(t: Tally, mid_w: nat, joint: Token) -> Tally {
    Tally {
        mid_w,
        h: if joint == Token::Pipe {
            t.h + 1
        } else {
            t.h
        },
        bottom_l: if joint == Token::Slash {
            t.bottom_l + 1
        } else {
            t.bottom_l
        },
        ..t
    }
}

/// Below the top face, the top edge of the front face, with the right-hand
/// column of its row, is read in `mid_w + 2` transitions.
pub proof fn lemma_front_edge(phase: Phase, t: Tally, mid_w: nat, joint: Token, tail: Seq<Token>)
    requires
        phase == Phase::TopDepth(t) || phase == Phase::TopLBottomL(t),
        t.mid_w == 0,
        is_column_symbol(joint),
    ensures
        run(phase, edge(mid_w) + seq![joint] + tail) == later(
            run(Phase::BottomHeight(joined(t, mid_w, joint)), tail),
            mid_w + 2,
        ),
{
    let rest = edge(mid_w) + seq![joint] + tail;
    let closing = seq![Token::Plus, joint] + tail;
    let units = width_units(mid_w) + closing;
    assert(rest =~= seq![Token::Plus] + units);
    assert(rest.skip(1) =~= units);
    assert(step(phase, rest) == (Move::Advance { next: Phase::MidWidth(t), consumed: 1 }));
    lemma_reads_pairs(
        |k: nat| Phase::MidWidth(Tally { mid_w: k, ..t }),
        Token::Dash,
        Token::Dash,
        0,
        mid_w,
        closing,
    );
    assert(Tally { mid_w: 0, ..t } == t);
    assert(closing.skip(2) =~= tail);
    assert(begins2(closing, Token::Plus, joint));
}

/// The rows of the front face are read one transition each.
pub proof fn lemma_front_face_rows(
    w: nat,
    h: nat,
    l: nat,
    i: nat,
    count: nat,
    tail: Seq<Token>,
)
    requires
        l + 1 <= i,
    ensures
        run(front_face_phase(w, h, l, i), front_face_rows(h, i + 1, count) + tail) == later(
            run(front_face_phase(w, h, l, i + count), tail),
            count,
        ),
    decreases count,
{
    if count == 0 {
        assert(front_face_rows(h, i + 1, 0) + tail =~= tail);
    } else {
        let rest = front_face_rows(h, i + 1, count) + tail;
        let shorter = front_face_rows(h, i + 2, (count - 1) as nat) + tail;
        let column = back_column(h, i + 1);
        assert(rest =~= seq![Token::Pipe, Token::Pipe, column] + shorter);
        assert(rest.skip(3) =~= shorter);
        assert(begins3(rest, Token::Pipe, Token::Pipe, column));
        lemma_front_face_rows(w, h, l, i + 1, (count - 1) as nat, tail);
    }
}

/// Below the last row of the front face, the bottom edge closes the cuboid
/// in `bottom_w + 2` transitions, and the four pairs of measurements are
/// compared.
pub proof fn lemma_cuboid_bottom_edge(t: Tally, bottom_w: nat)
    requires
        t.bottom_w == 0,
    ensures
        run(Phase::BottomHeight(t), edge(bottom_w)) == (Trace {
            verdict: cuboid_verdict(Tally { bottom_w, ..t }),
            depth: bottom_w + 2,
        }),
{
    let closing = seq![Token::Plus];
    let units = width_units(bottom_w) + closing;
    assert(edge(bottom_w) =~= seq![Token::Plus] + units);
    assert(edge(bottom_w).skip(1) =~= units);
    lemma_reads_pairs(
        |k: nat| Phase::BottomWidth(Tally { bottom_w: k, ..t }),
        Token::Dash,
        Token::Dash,
        0,
        bottom_w,
        closing,
    );
    assert(Tally { bottom_w: 0, ..t } == t);
}

/// The wireframe of a cuboid of width `w`, height `h` and length `l` is
/// read as that cuboid, in `3 * w + h + l + 6` transitions.
pub proof fn lemma_cuboid(w: nat, h: nat, l: nat, max_depth: nat)
    requires
        1 <= h,
        1 <= l,
    ensures
        recognition(cuboid_diagram(w, h, l)) == Ok::<Shape, Fault>(Shape::Cuboid { w, h, l }),
        recognition_depth(cuboid_diagram(w, h, l)) == 3 * w + h + l + 6,
        recognition_within(cuboid_diagram(w, h, l), max_depth) == if 3 * w + h + l + 6
            <= max_depth {
            Ok::<Shape, Fault>(Shape::Cuboid { w, h, l })
        } else {
            Err::<Shape, Fault>(Fault::RecognitionDepthExceeded)
        },
{
    let bottom = edge(w);
    let front = front_face_rows(h, l + 2, h) + bottom;
    let middle = edge(w) + seq![back_column(h, l + 1)] + front;
    let below = top_face_rows(h, 1, l) + middle;
    assert(cuboid_diagram(w, h, l) =~= edge(w) + below);
    lemma_top_edge(w, below);
    lemma_top_face(w, h, l, middle);
    let t = match top_face_phase(w, h, l) {
        Phase::TopDepth(t) => t,
        Phase::TopLBottomL(t) => t,
        _ => arbitrary(),
    };
    lemma_front_edge(top_face_phase(w, h, l), t, w, back_column(h, l + 1), front);
    assert(Phase::BottomHeight(joined(t, w, back_column(h, l + 1))) == front_face_phase(
        w,
        h,
        l,
        l + 1,
    ));
    lemma_front_face_rows(w, h, l, l + 1, h, bottom);
    let closed = Tally { w, h, l, mid_w: w, bottom_w: 0, bottom_h: h, bottom_l: l };
    assert(front_face_phase(w, h, l, l + 1 + h) == Phase::BottomHeight(closed));
    lemma_cuboid_bottom_edge(closed, w);
}

/// The phase beside the top face, by the symbol last seen in the
/// right-hand column: the recognizer is beside the vertical edge until it
/// has passed the corner.
pub open spec fn beside_top_face(above: Token, t: Tally) -> Phase {
    if above == Token::Pipe {
        Phase::TopDepth(t)
    } else {
        Phase::TopLBottomL(t)
    }
}

/// The last symbol of `column`, or `above` if it is empty.
pub open spec fn last_of(above: Token, column: Seq<Token>) -> Token {
    if column.len() == 0 {
        above
    } else {
        column.last()
    }
}

/// The measurements after rows of the top face with `column` at their
/// right: every row is one unit of length, every `|` one of height, every
/// `/` one of bottom length.
pub open spec fn after_top_rows(t: Tally, column: Seq<Token>) -> Tally {
    Tally {
        h: t.h + count(column, Token::Pipe),
        l: t.l + column.len(),
        bottom_l: t.bottom_l + count(column, Token::Slash),
        ..t
    }
}

/// The measurements after rows of the front face with `column` at their
/// right: every row is one unit of front height, every `|` one of height,
/// every `/` one of bottom length.
pub open spec fn after_front_rows(t: Tally, column: Seq<Token>) -> Tally {
    Tally {
        h: t.h + count(column, Token::Pipe),
        bottom_h: t.bottom_h + column.len(),
        bottom_l: t.bottom_l + count(column, Token::Slash),
        ..t
    }
}

/// Counting in a column put together from two is counting in both.
pub proof fn lemma_count_concat(upper: Seq<Token>, lower: Seq<Token>, x: Token)
    ensures
        count(upper + lower, x) == count(upper, x) + count(lower, x),
    decreases upper.len(),
{
    if upper.len() == 0 {
        assert(upper + lower =~= lower);
    } else {
        assert((upper + lower).skip(1) =~= upper.skip(1) + lower);
        lemma_count_concat(upper.skip(1), lower, x);
    }
}

/// Rows of the top face whose right-hand column runs in order are read one
/// transition each.
pub proof fn lemma_reads_top_rows(above: Token, t: Tally, column: Seq<Token>, tail: Seq<Token>)
    requires
        is_column_symbol(above),
        descends_from(above, column),
    ensures
        run(
            beside_top_face(above, t),
            rows_with(Token::Slash, Token::Slash, column) + tail,
        ) == later(
            run(beside_top_face(last_of(above, column), after_top_rows(t, column)), tail),
            column.len(),
        ),
    decreases column.len(),
{
    let rest = rows_with(Token::Slash, Token::Slash, column) + tail;
    if column.len() == 0 {
        assert(rest =~= tail);
        assert(after_top_rows(t, column) == t);
    } else {
        let x = column[0];
        let below = column.skip(1);
        let shorter = rows_with(Token::Slash, Token::Slash, below) + tail;
        assert(rest =~= seq![Token::Slash, Token::Slash, x] + shorter);
        assert(rest.skip(3) =~= shorter);
        assert(begins3(rest, Token::Slash, Token::Slash, x));
        let grown = Tally {
            h: if x == Token::Pipe {
                t.h + 1
            } else {
                t.h
            },
            l: t.l + 1,
            bottom_l: if x == Token::Slash {
                t.bottom_l + 1
            } else {
                t.bottom_l
            },
            ..t
        };
        assert(step(beside_top_face(above, t), rest) == (Move::Advance {
            next: beside_top_face(x, grown),
            consumed: 3,
        }));
        lemma_reads_top_rows(x, grown, below, tail);
        assert(after_top_rows(grown, below) == after_top_rows(t, column));
        if below.len() > 0 {
            assert(below.last() == column.last());
        }
    }
}

/// Rows of the front face are read one transition each, whatever edge or
/// corner symbol stands at their right.
pub proof fn lemma_reads_front_rows(t: Tally, column: Seq<Token>, tail: Seq<Token>)
    requires
        forall|i: int| 0 <= i < column.len() ==> is_column_symbol(#[trigger] column[i]),
    ensures
        run(Phase::BottomHeight(t), rows_with(Token::Pipe, Token::Pipe, column) + tail) == later(
            run(Phase::BottomHeight(after_front_rows(t, column)), tail),
            column.len(),
        ),
    decreases column.len(),
{
    let rest = rows_with(Token::Pipe, Token::Pipe, column) + tail;
    if column.len() == 0 {
        assert(rest =~= tail);
        assert(after_front_rows(t, column) == t);
    } else {
        let x = column[0];
        let below = column.skip(1);
        let shorter = rows_with(Token::Pipe, Token::Pipe, below) + tail;
        assert(rest =~= seq![Token::Pipe, Token::Pipe, x] + shorter);
        assert(rest.skip(3) =~= shorter);
        assert(begins3(rest, Token::Pipe, Token::Pipe, x));
        assert(is_column_symbol(x));
        let grown = Tally {
            h: if x == Token::Pipe {
                t.h + 1
            } else {
                t.h
            },
            bottom_h: t.bottom_h + 1,
            bottom_l: if x == Token::Slash {
                t.bottom_l + 1
            } else {
                t.bottom_l
            },
            ..t
        };
        assert(step(Phase::BottomHeight(t), rest) == (Move::Advance {
            next: Phase::BottomHeight(grown),
            consumed: 3,
        }));
        assert forall|i: int| 0 <= i < below.len() implies is_column_symbol(
            #[trigger] below[i],
        ) by {
            assert(below[i] == column[i + 1]);
        }
        lemma_reads_front_rows(grown, below, tail);
        assert(after_front_rows(grown, below) == after_front_rows(t, column));
    }
}

/// A wireframe that holds together is read to the end, and what it is read
/// as is decided by its seven measurements alone.
pub proof fn lemma_wireframe(drawing: Drawing)
    requires
        drawing is Wireframe,
        drawing.well_drawn(),
    ensures
        recognition(drawing.tokens()) == drawing.reading(),
        recognition_depth(drawing.tokens()) == drawing.transitions(),
{
    let w = drawing->Wireframe_w;
    let top = drawing->top;
    let mid_w = drawing->mid_w;
    let joint = drawing->joint;
    let front = drawing->front;
    let bottom_w = drawing->Wireframe_bottom_w;
    let bottom = edge(bottom_w);
    let front_part = rows_with(Token::Pipe, Token::Pipe, front) + bottom;
    let middle = edge(mid_w) + seq![joint] + front_part;
    let lower_top = top.skip(1);
    let after_opening = rows_with(Token::Slash, Token::Slash, lower_top) + middle;
    let below = rows_with(Token::Slash, Token::Slash, top) + middle;
    assert(drawing.tokens() =~= edge(w) + below);
    assert(below =~= seq![Token::Slash, Token::Slash, Token::Pipe] + after_opening);
    assert(below.skip(3) =~= after_opening);
    lemma_top_edge(w, below);
    let opened = Tally { w, h: 1, l: 1, mid_w: 0, bottom_w: 0, bottom_h: 0, bottom_l: 0 };
    assert(step(Phase::Mid { w, h: 0 }, below) == (Move::Advance {
        next: beside_top_face(Token::Pipe, opened),
        consumed: 3,
    }));
    lemma_reads_top_rows(Token::Pipe, opened, lower_top, middle);
    let faced = after_top_rows(opened, lower_top);
    let corner = last_of(Token::Pipe, lower_top);
    lemma_front_edge(beside_top_face(corner, faced), faced, mid_w, joint, front_part);
    let fronted = joined(faced, mid_w, joint);
    lemma_reads_front_rows(fronted, front, bottom);
    let closed = after_front_rows(fronted, front);
    lemma_cuboid_bottom_edge(closed, bottom_w);
    assert(Tally { bottom_w, ..closed } == drawing.measurements()) by {
        let single = seq![joint];
        assert(single.skip(1) =~= Seq::<Token>::empty());
        assert(count(single.skip(1), Token::Pipe) == 0);
        assert(count(single.skip(1), Token::Slash) == 0);
        assert(top =~= seq![Token::Pipe] + lower_top);
        lemma_count_concat(top, single, Token::Pipe);
        lemma_count_concat(top, single, Token::Slash);
        lemma_count_concat(top + single, front, Token::Pipe);
        lemma_count_concat(top + single, front, Token::Slash);
    }
}

/// Every drawing that holds together is read to the end: it is recognized
/// as what its measurements say, in as many transitions as it has width
/// units, rows and corners.
pub proof fn lemma_drawing_is_read(drawing: Drawing, max_depth: nat)
    requires
        drawing.well_drawn(),
    ensures
        recognition(drawing.tokens()) == drawing.reading(),
        recognition_depth(drawing.tokens()) == drawing.transitions(),
        recognition_within(drawing.tokens(), max_depth) == if drawing.transitions() <= max_depth {
            drawing.reading()
        } else {
            Err::<Shape, Fault>(Fault::RecognitionDepthExceeded)
        },
        drawing.reading() != Err::<Shape, Fault>(Fault::UnexpectedToken),
        drawing.reading() != Err::<Shape, Fault>(Fault::RecognitionDepthExceeded),
{
    match drawing {
        Drawing::MarkedLine { n } => lemma_marked_line(n, max_depth),
        Drawing::LoneEdge { n } => lemma_lone_edge(n, max_depth),
        Drawing::Box { w, h, bottom_w } => lemma_rectangle(w, h, bottom_w, max_depth),
        Drawing::Wireframe { .. } => lemma_wireframe(drawing),
    }
}

/// Whatever literal the recognizer returns for a box drawn true is the
/// rectangle of that width and height, and its area is their product.
pub proof fn lemma_recognized_rectangle(w: nat, h: nat, literal: Literal)
    requires
        recognition(rectangle_diagram(w, h, w)) == Ok::<Shape, Fault>(literal@),
    ensures
        literal matches Literal::Rectangle(r) && r.w == w && r.h == h && r.spec_area() == w * h,
{
    lemma_rectangle(w, h, w, 0);
}

/// Whatever literal the recognizer returns for the wireframe of a cuboid is
/// the cuboid of that width, height and length. Its volume is their
/// product, and its faces have its dimensions: the top is `w` by `l`, the
/// side `l` by `h`, the front `w` by `h`.
pub proof fn lemma_recognized_cuboid(w: nat, h: nat, l: nat, literal: Literal)
    requires
        1 <= h,
        1 <= l,
        recognition(cuboid_diagram(w, h, l)) == Ok::<Shape, Fault>(literal@),
    ensures
        literal matches Literal::Cuboid(c) && {
            &&& c.w == w
            &&& c.h == h
            &&& c.l == l
            &&& c.spec_volume() == w * h * l
            &&& c.spec_top().w == w
            &&& c.spec_top().h == l
            &&& c.spec_side().w == l
            &&& c.spec_side().h == h
            &&& c.spec_front().w == w
            &&& c.spec_front().h == h
        },
{
    lemma_cuboid(w, h, l, 0);
}

/// Recognition has no hidden state: what it returns is a function of the
/// token stream and the depth limit alone. Any two outcomes that meet the
/// recognizer's contract on the same input are the same value or the same
/// error.
pub proof fn lemma_recognition_is_a_function(
    tokens: Seq<Token>,
    max_depth: nat,
    first: Result<Literal, RecognitionError>,
    second: Result<Literal, RecognitionError>,
)
    requires
        verdict_of(first) == recognition_within(tokens, max_depth),
        verdict_of(second) == recognition_within(tokens, max_depth),
    ensures
        first == second,
{
}

} // verus!
