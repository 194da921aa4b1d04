//! The recognizer as a mathematical object: a deterministic machine that
//! reads a diagram left to right, top to bottom, in a single pass.
//!
//! [`step`] is the transition table. [`run`] applies it until the diagram is
//! closed or no transition matches, and counts the transitions it took.
//! [`recognition`] and [`recognition_within`] are what the executable
//! recognizer is specified against.

use crate::error::Fault;
use crate::shapes::Shape;
use crate::state::{Phase, Tally};
use crate::token::Token;
use crate::validator::{cuboid_verdict, rectangle_verdict};
use vstd::prelude::*;

verus! {

/// `rest` begins with `a`.
pub open spec fn begins1(rest: Seq<Token>, a: Token) -> bool {
    rest.len() >= 1 && rest[0] == a
}

/// `rest` begins with `a`, `b`.
pub open spec fn begins2(rest: Seq<Token>, a: Token, b: Token) -> bool {
    rest.len() >= 2 && rest[0] == a && rest[1] == b
}

/// `rest` begins with `a`, `b`, `c`.
pub open spec fn begins3(rest: Seq<Token>, a: Token, b: Token, c: Token) -> bool {
    rest.len() >= 3 && rest[0] == a && rest[1] == b && rest[2] == c
}

/// `rest` is the single token `a`: the true end of the input.
pub open spec fn closes(rest: Seq<Token>, a: Token) -> bool {
    rest.len() == 1 && rest[0] == a
}

/// `rest` begins with one width unit, the pair `--`.
pub open spec fn begins_width_unit(rest: Seq<Token>) -> bool {
    begins2(rest, Token::Dash, Token::Dash)
}

/// What one transition does.
pub enum Move {
    /// Enter `next`, having consumed the first `consumed` tokens.
    Advance { next: Phase, consumed: nat },
    /// Stop with `verdict`. A state in which no transition matches stops
    /// with `UnexpectedToken`.
    Finish { verdict: Result<Shape, Fault> },
}

/// The transition taken when no other matches.
pub open spec fn stuck() -> Move {
    Move::Finish { verdict: Err(Fault::UnexpectedToken) }
}

/// The shape dispatcher. `I` opens a line; `+` opens the top edge that boxes
/// and cuboids share. No other first token is legal.
pub open spec fn step_start(rest: Seq<Token>) -> Move {
    if begins1(rest, Token::LineMarker) {
        Move::Advance { next: Phase::Line { n: 0 }, consumed: 1 }
    } else if begins1(rest, Token::Plus) {
        Move::Advance { next: Phase::Top { w: 0 }, consumed: 1 }
    } else {
        stuck()
    }
}

/// The line recognizer. Each `--` is one unit of length; the closing `I`
/// must be the last token of the input.
pub open spec fn step_line(n: nat, rest: Seq<Token>) -> Move {
    if begins_width_unit(rest) {
        Move::Advance { next: Phase::Line { n: n + 1 }, consumed: 2 }
    } else if closes(rest, Token::LineMarker) {
        Move::Finish { verdict: Ok(Shape::Line { magnitude: n }) }
    } else {
        stuck()
    }
}

/// The top edge. A `+` that ends the input makes the drawing a bare
/// magnitude, not a box without rows; a `+` with more to come opens the rows.
pub open spec fn step_top(w: nat, rest: Seq<Token>) -> Move {
    if begins_width_unit(rest) {
        Move::Advance { next: Phase::Top { w: w + 1 }, consumed: 2 }
    } else if closes(rest, Token::Plus) {
        Move::Finish { verdict: Ok(Shape::Line { magnitude: w }) }
    } else if begins1(rest, Token::Plus) {
        Move::Advance { next: Phase::Mid { w, h: 0 }, consumed: 1 }
    } else {
        stuck()
    }
}

/// The rows of a box. `| |` is one row; `+` opens the bottom edge. Directly
/// below the top edge, before any row, `/ / |` opens a cuboid instead, as its
/// first row of depth.
pub open spec fn step_mid(w: nat, h: nat, rest: Seq<Token>) -> Move {
    if begins2(rest, Token::Pipe, Token::Pipe) {
        Move::Advance { next: Phase::Mid { w, h: h + 1 }, consumed: 2 }
    } else if begins1(rest, Token::Plus) {
        Move::Advance { next: Phase::Bottom { w, h, bottom_w: 0 }, consumed: 1 }
    } else if h == 0 && begins3(rest, Token::Slash, Token::Slash, Token::Pipe) {
        Move::Advance {
            next: Phase::TopDepth(
                Tally { w, h: 1, l: 1, mid_w: 0, bottom_w: 0, bottom_h: 0, bottom_l: 0 },
            ),
            consumed: 3,
        }
    } else {
        stuck()
    }
}

/// The bottom edge of a box, counted afresh. The closing `+` must be the
/// last token of the input; the widths are then compared.
pub open spec fn step_bottom(w: nat, h: nat, bottom_w: nat, rest: Seq<Token>) -> Move {
    if begins_width_unit(rest) {
        Move::Advance { next: Phase::Bottom { w, h, bottom_w: bottom_w + 1 }, consumed: 2 }
    } else if closes(rest, Token::Plus) {
        Move::Finish { verdict: rectangle_verdict(w, h, bottom_w) }
    } else {
        stuck()
    }
}

/// The top face while the back-right vertical edge runs beside it. A row
/// `/ / |` is one unit of length and one of height at once; `/ / +` is the
/// row on which the vertical edge ends, one more unit of length; `+` opens
/// the front face.
pub open spec fn step_top_depth(t: Tally, rest: Seq<Token>) -> Move {
    if begins3(rest, Token::Slash, Token::Slash, Token::Pipe) {
        Move::Advance { next: Phase::TopDepth(Tally { h: t.h + 1, l: t.l + 1, ..t }), consumed: 3 }
    } else if begins3(rest, Token::Slash, Token::Slash, Token::Plus) {
        Move::Advance { next: Phase::TopLBottomL(Tally { l: t.l + 1, ..t }), consumed: 3 }
    } else if begins1(rest, Token::Plus) {
        Move::Advance { next: Phase::MidWidth(t), consumed: 1 }
    } else {
        stuck()
    }
}

/// The top face below the back-right corner. A row `/ / /` is one unit of
/// length on the top face and one on the bottom-right depth edge; `+` opens
/// the front face.
pub open spec fn step_top_l_bottom_l(t: Tally, rest: Seq<Token>) -> Move {
    if begins3(rest, Token::Slash, Token::Slash, Token::Slash) {
        Move::Advance {
            next: Phase::TopLBottomL(Tally { l: t.l + 1, bottom_l: t.bottom_l + 1, ..t }),
            consumed: 3,
        }
    } else if begins1(rest, Token::Plus) {
        Move::Advance { next: Phase::MidWidth(t), consumed: 1 }
    } else {
        stuck()
    }
}

/// The top edge of the front face, counted on its own. It closes with its
/// `+` and whatever the right-hand column holds on that row: `+` (the
/// back-right corner), `|` (one more unit of height) or `/` (one more unit
/// of length on the bottom-right edge).
pub open spec fn step_mid_width(t: Tally, rest: Seq<Token>) -> Move {
    if begins_width_unit(rest) {
        Move::Advance { next: Phase::MidWidth(Tally { mid_w: t.mid_w + 1, ..t }), consumed: 2 }
    } else if begins2(rest, Token::Plus, Token::Plus) {
        Move::Advance { next: Phase::BottomHeight(t), consumed: 2 }
    } else if begins2(rest, Token::Plus, Token::Pipe) {
        Move::Advance { next: Phase::BottomHeight(Tally { h: t.h + 1, ..t }), consumed: 2 }
    } else if begins2(rest, Token::Plus, Token::Slash) {
        Move::Advance {
            next: Phase::BottomHeight(Tally { bottom_l: t.bottom_l + 1, ..t }),
            consumed: 2,
        }
    } else {
        stuck()
    }
}

/// The rows of the front face. Every row `| |` is one unit of front height;
/// its right-hand column adds nothing (`+`), one unit of bottom length (`/`)
/// or one unit of back height (`|`). A lone `+` opens the bottom edge.
pub open spec fn step_bottom_height(t: Tally, rest: Seq<Token>) -> Move {
    if begins3(rest, Token::Pipe, Token::Pipe, Token::Plus) {
        Move::Advance {
            next: Phase::BottomHeight(Tally { bottom_h: t.bottom_h + 1, ..t }),
            consumed: 3,
        }
    } else if begins3(rest, Token::Pipe, Token::Pipe, Token::Slash) {
        Move::Advance {
            next: Phase::BottomHeight(
                Tally { bottom_h: t.bottom_h + 1, bottom_l: t.bottom_l + 1, ..t },
            ),
            consumed: 3,
        }
    } else if begins3(rest, Token::Pipe, Token::Pipe, Token::Pipe) {
        Move::Advance {
            next: Phase::BottomHeight(Tally { h: t.h + 1, bottom_h: t.bottom_h + 1, ..t }),
            consumed: 3,
        }
    } else if begins1(rest, Token::Plus) {
        Move::Advance { next: Phase::BottomWidth(t), consumed: 1 }
    } else {
        stuck()
    }
}

/// The closing bottom edge of a cuboid. The closing `+` must be the last
/// token of the input; all four pairs of measurements are then compared.
pub open spec fn step_bottom_width(t: Tally, rest: Seq<Token>) -> Move {
    if begins_width_unit(rest) {
        Move::Advance {
            next: Phase::BottomWidth(Tally { bottom_w: t.bottom_w + 1, ..t }),
            consumed: 2,
        }
    } else if closes(rest, Token::Plus) {
        Move::Finish { verdict: cuboid_verdict(t) }
    } else {
        stuck()
    }
}

/// The transition table: what the machine does in `phase` when `rest` is
/// the input not yet consumed.
pub open spec fn step(phase: Phase, rest: Seq<Token>) -> Move {
    match phase {
        Phase::Start => step_start(rest),
        Phase::Line { n } => step_line(n, rest),
        Phase::Top { w } => step_top(w, rest),
        Phase::Mid { w, h } => step_mid(w, h, rest),
        Phase::Bottom { w, h, bottom_w } => step_bottom(w, h, bottom_w, rest),
        Phase::TopDepth(t) => step_top_depth(t, rest),
        Phase::TopLBottomL(t) => step_top_l_bottom_l(t, rest),
        Phase::MidWidth(t) => step_mid_width(t, rest),
        Phase::BottomHeight(t) => step_bottom_height(t, rest),
        Phase::BottomWidth(t) => step_bottom_width(t, rest),
    }
}

/// Where a run of the machine ends and how many transitions it took to get
/// there, the last one included.
pub struct Trace {
    pub verdict: Result<Shape, Fault>,
    pub depth: nat,
}

/// Runs the machine from `phase` on `rest` to its end.
pub open spec fn run(phase: Phase, rest: Seq<Token>) -> Trace
    decreases rest.len(),
{
    match step(phase, rest) {
        Move::Advance { next, consumed } => {
            let tail = run(next, rest.skip(consumed as int));
            Trace { verdict: tail.verdict, depth: tail.depth + 1 }
        },
        Move::Finish { verdict } => Trace { verdict, depth: 1 },
    }
}

/// What a token stream is recognized as, with no limit on the depth.
pub open spec fn recognition(tokens: Seq<Token>) -> Result<Shape, Fault> {
    run(Phase::Start, tokens).verdict
}

/// How many transitions recognizing `tokens` takes.
pub open spec fn recognition_depth(tokens: Seq<Token>) -> nat {
    run(Phase::Start, tokens).depth
}

/// What a token stream is recognized as when at most `max_depth`
/// transitions may be taken: a stream that needs more is refused as a
/// whole, whatever it holds.
pub open spec fn recognition_within(tokens: Seq<Token>, max_depth: nat) -> Result<Shape, Fault> {
    if recognition_depth(tokens) > max_depth {
        Err(Fault::RecognitionDepthExceeded)
    } else {
        recognition(tokens)
    }
}

} // verus!
