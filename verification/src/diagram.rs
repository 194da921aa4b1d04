//! Well-drawn diagrams, described by what they look like on the page.
//!
//! These definitions know nothing of the recognizer. They say, symbol by
//! symbol and row by row, how a line, a box and a wireframe cuboid of given
//! dimensions are drawn; the theorems about the recognizer are stated over
//! them.

use crate::error::Fault;
use crate::shapes::Shape;
use crate::state::Tally;
use crate::token::Token;
use crate::validator::{cuboid_verdict, rectangle_verdict};
use vstd::prelude::*;

verus! {

/// `unit` written `n` times in a row.
pub open spec fn repeat(unit: Seq<Token>, n: nat) -> Seq<Token>
    decreases n,
{
    if n == 0 {
        Seq::empty()
    } else {
        unit + repeat(unit, (n - 1) as nat)
    }
}

/// `n` width units: `--` written `n` times.
pub open spec fn width_units(n: nat) -> Seq<Token> {
    repeat(seq![Token::Dash, Token::Dash], n)
}

/// A line of length `n` between two `I` markers: `I--...--I`.
pub open spec fn marked_line(n: nat) -> Seq<Token> {
    seq![Token::LineMarker] + width_units(n) + seq![Token::LineMarker]
}

/// A horizontal edge of width `n` between two corners: `+--...--+`.
pub open spec fn edge(n: nat) -> Seq<Token> {
    seq![Token::Plus] + width_units(n) + seq![Token::Plus]
}

/// `h` rows of a box: `| |` written `h` times.
pub open spec fn box_rows(h: nat) -> Seq<Token> {
    repeat(seq![Token::Pipe, Token::Pipe], h)
}

/// A box with a top edge of width `w`, `h` rows, and a bottom edge of width
/// `bottom_w`. It is drawn true when `bottom_w == w`.
///
/// ```text
/// +----+
/// |    |
/// |    |
/// +----+
/// ```
pub open spec fn rectangle_diagram(w: nat, h: nat, bottom_w: nat) -> Seq<Token> {
    edge(w) + box_rows(h) + edge(bottom_w)
}

/// The symbol in the right-hand column of row `i` of a cuboid of height `h`,
/// rows counted from 1 below the top edge. The back-right vertical edge
/// takes the first `h` rows, its lower corner the next, and the bottom-right
/// depth edge all rows below.
pub open spec fn back_column(h: nat, i: nat) -> Token {
    if i <= h {
        Token::Pipe
    } else if i == h + 1 {
        Token::Plus
    } else {
        Token::Slash
    }
}

/// `count` rows of the top face of a cuboid of height `h`, from row `from`
/// on: the two depth edges of the face, then the right-hand column.
pub open spec fn top_face_rows(h: nat, from: nat, count: nat) -> Seq<Token>
    decreases count,
{
    if count == 0 {
        Seq::empty()
    } else {
        seq![Token::Slash, Token::Slash, back_column(h, from)] + top_face_rows(
            h,
            from + 1,
            (count - 1) as nat,
        )
    }
}

/// `count` rows of the front face of a cuboid of height `h`, from row `from`
/// on: the two vertical edges of the face, then the right-hand column.
pub open spec fn front_face_rows(h: nat, from: nat, count: nat) -> Seq<Token>
    decreases count,
{
    if count == 0 {
        Seq::empty()
    } else {
        seq![Token::Pipe, Token::Pipe, back_column(h, from)] + front_face_rows(
            h,
            from + 1,
            (count - 1) as nat,
        )
    }
}

/// The wireframe of a cuboid of width `w`, height `h` and length `l`, for
/// `h >= 1` and `l >= 1`. Below the top edge come `l` rows of the top face,
/// the top edge of the front face, `h` rows of the front face, and the
/// bottom edge; every row ends in the right-hand column.
///
/// ```text
///      +----------+
///     /          /|
///    /          / |
///   /          /  +
///  /          /  /
/// +----------+  /
/// |          | /
/// |          |/
/// +----------+
/// ```
pub open spec fn cuboid_diagram(w: nat, h: nat, l: nat) -> Seq<Token> {
    edge(w) + top_face_rows(h, 1, l) + edge(w) + seq![back_column(h, l + 1)] + front_face_rows(
        h,
        l + 2,
        h,
    ) + edge(w)
}

/// The symbols that can stand in the right-hand column of a cuboid: the
/// vertical edge, its corner, and the depth edge.
pub open spec fn is_column_symbol(x: Token) -> bool {
    x == Token::Pipe || x == Token::Plus || x == Token::Slash
}

/// Beside the top face, the right-hand column runs in order: below a piece
/// of the vertical edge comes more of it or its corner, and below the
/// corner only the depth edge.
pub open spec fn follows(above: Token, below: Token) -> bool {
    ||| above == Token::Pipe && (below == Token::Pipe || below == Token::Plus)
    ||| (above == Token::Plus || above == Token::Slash) && below == Token::Slash
}

/// Every symbol of `column` follows the one above it, the first one
/// following `above`.
pub open spec fn descends_from(above: Token, column: Seq<Token>) -> bool
    decreases column.len(),
{
    column.len() == 0 || (follows(above, column[0]) && descends_from(column[0], column.skip(1)))
}

/// `column` can stand beside a top face: it starts on the vertical edge and
/// runs in order.
pub open spec fn descends(column: Seq<Token>) -> bool {
    column.len() >= 1 && column[0] == Token::Pipe && descends_from(Token::Pipe, column.skip(1))
}

/// How often `x` stands in `column`.
pub open spec fn count(column: Seq<Token>, x: Token) -> nat
    decreases column.len(),
{
    if column.len() == 0 {
        0
    } else {
        (if column[0] == x {
            1nat
        } else {
            0nat
        }) + count(column.skip(1), x)
    }
}

/// One row for each entry of `column`: the two symbols `a`, `b` of the
/// face, then the entry.
pub open spec fn rows_with(a: Token, b: Token, column: Seq<Token>) -> Seq<Token>
    decreases column.len(),
{
    if column.len() == 0 {
        Seq::empty()
    } else {
        seq![a, b, column[0]] + rows_with(a, b, column.skip(1))
    }
}

/// Everything that can be drawn so that the recognizer reads it to the end:
/// the four families of drawings, each with the measurements one can take
/// off the page.
pub enum Drawing {
    /// `I--...--I`.
    MarkedLine { n: nat },
    /// `+--...--+` with nothing below it.
    LoneEdge { n: nat },
    /// A top edge, rows, and a bottom edge.
    Box { w: nat, h: nat, bottom_w: nat },
    /// A wireframe: a top edge of width `w`; one row of the top face for
    /// each entry of `top`; the top edge of the front face, of width
    /// `mid_w`, with `joint` in the right-hand column; one row of the front
    /// face for each entry of `front`; and a bottom edge of width
    /// `bottom_w`.
    Wireframe {
        w: nat,
        top: Seq<Token>,
        mid_w: nat,
        joint: Token,
        front: Seq<Token>,
        bottom_w: nat,
    },
}

impl Drawing {
    /// The whole right-hand column of a wireframe, top to bottom.
    pub open spec fn right_column(self) -> Seq<Token> {
        match self {
            Drawing::Wireframe { top, joint, front, .. } => top + seq![joint] + front,
            _ => Seq::empty(),
        }
    }

    /// The drawing holds together: the right-hand column of a wireframe
    /// starts on the vertical edge, runs in order beside the top face, and
    /// holds nothing but edge and corner symbols. Lines and boxes always
    /// hold together.
    pub open spec fn well_drawn(self) -> bool {
        match self {
            Drawing::Wireframe { top, joint, front, .. } => {
                &&& descends(top)
                &&& is_column_symbol(joint)
                &&& forall|i: int| 0 <= i < front.len() ==> is_column_symbol(#[trigger] front[i])
            },
            _ => true,
        }
    }

    /// The symbols of the drawing, left to right, top to bottom.
    pub open spec fn tokens(self) -> Seq<Token> {
        match self {
            Drawing::MarkedLine { n } => marked_line(n),
            Drawing::LoneEdge { n } => edge(n),
            Drawing::Box { w, h, bottom_w } => rectangle_diagram(w, h, bottom_w),
            Drawing::Wireframe { w, top, mid_w, joint, front, bottom_w } => edge(w) + rows_with(
                Token::Slash,
                Token::Slash,
                top,
            ) + edge(mid_w) + seq![joint] + rows_with(Token::Pipe, Token::Pipe, front) + edge(
                bottom_w,
            ),
        }
    }

    /// The seven measurements of a wireframe. Width is measured on each of
    /// the three horizontal edges. Height is the number of `|` in the
    /// right-hand column, and again the number of rows of the front face.
    /// Length is the number of rows of the top face, and again the number of
    /// `/` in the right-hand column.
    pub open spec fn measurements(self) -> Tally {
        match self {
            Drawing::Wireframe { w, top, mid_w, joint, front, bottom_w } => Tally {
                w,
                h: count(self.right_column(), Token::Pipe),
                l: top.len(),
                mid_w,
                bottom_w,
                bottom_h: front.len(),
                bottom_l: count(self.right_column(), Token::Slash),
            },
            _ => Tally { w: 0, h: 0, l: 0, mid_w: 0, bottom_w: 0, bottom_h: 0, bottom_l: 0 },
        }
    }

    /// What the drawing stands for: its value if its measurements agree,
    /// and the first disagreement if they do not.
    pub open spec fn reading(self) -> Result<Shape, Fault> {
        match self {
            Drawing::MarkedLine { n } => Ok(Shape::Line { magnitude: n }),
            Drawing::LoneEdge { n } => Ok(Shape::Line { magnitude: n }),
            Drawing::Box { w, h, bottom_w } => rectangle_verdict(w, h, bottom_w),
            Drawing::Wireframe { .. } => cuboid_verdict(self.measurements()),
        }
    }

    /// How many transitions it takes to read the drawing: one for each
    /// width unit and each row, and one for each corner at which the
    /// recognizer changes phase.
    pub open spec fn transitions(self) -> nat {
        match self {
            Drawing::MarkedLine { n } => n + 2,
            Drawing::LoneEdge { n } => n + 2,
            Drawing::Box { w, h, bottom_w } => w + h + bottom_w + 4,
            Drawing::Wireframe { w, top, mid_w, front, bottom_w, .. } => w + top.len() + mid_w
                + front.len() + bottom_w + 6,
        }
    }
}

} // verus!
