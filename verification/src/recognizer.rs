//! The executable recognizer: a tagged-state machine driven over a slice of
//! tokens, one transition at a time.

use crate::error::{Fault, RecognitionError};
use crate::lexer::{tokenize, tokens_of};
use crate::machine::{
    begins1, begins2, begins3, begins_width_unit, closes, recognition_within, run, step,
    step_bottom, step_bottom_height, step_bottom_width, step_line, step_mid, step_mid_width,
    step_start, step_top, step_top_depth, step_top_l_bottom_l, Move,
};
use crate::shapes::{Line, Literal, Shape};
use crate::state::{Counters, Phase, RecognizerState};
use crate::token::Token;
use crate::validator::{validate_cuboid, validate_rectangle};
use vstd::prelude::*;

verus! {

/// The most transitions [`recognize`] takes before it gives up.
pub const DEFAULT_MAX_DEPTH: usize = 128;

/// The mathematical value of what recognition returns.
pub open spec fn verdict_of(outcome: Result<Literal, RecognitionError>) -> Result<Shape, Fault> {
    match outcome {
        Ok(literal) => Ok(literal@),
        Err(e) => Err(e@),
    }
}

/// What one transition of the executable machine does.
#[derive(Clone, Copy, Debug)]
pub enum Step {
    /// Enter `next`, having consumed `consumed` tokens.
    Advance { next: RecognizerState, consumed: usize },
    /// Stop with `outcome`.
    Finish { outcome: Result<Literal, RecognitionError> },
}

impl View for Step {
    type V = Move;

    open spec fn view(&self) -> Move {
        match *self {
            Step::Advance { next, consumed } => Move::Advance {
                next: next@,
                consumed: consumed as nat,
            },
            Step::Finish { outcome } => Move::Finish { verdict: verdict_of(outcome) },
        }
    }
}

impl Step {
    /// A step taken at `pos` stays inside an input of `len` tokens, and no
    /// counter of the state it enters exceeds the number of tokens consumed.
    pub open spec fn fits(&self, len: int, pos: int) -> bool {
        match *self {
            Step::Advance { next, consumed } => pos + consumed <= len && next.within(
                pos + consumed,
            ),
            Step::Finish { .. } => true,
        }
    }
}

/// Whether `tokens` holds `a` at `pos`.
pub fn at1(tokens: &[Token], pos: usize, a: Token) -> (b: bool)
    requires
        pos <= tokens.len(),
    ensures
        b == begins1(tokens@.skip(pos as int), a),
{
    tokens.len() - pos >= 1 && tokens[pos] == a
}

/// Whether `tokens` holds `a`, `b` from `pos` on.
pub fn at2(tokens: &[Token], pos: usize, a: Token, b: Token) -> (r: bool)
    requires
        pos <= tokens.len(),
    ensures
        r == begins2(tokens@.skip(pos as int), a, b),
{
    tokens.len() - pos >= 2 && tokens[pos] == a && tokens[pos + 1] == b
}

/// Whether `tokens` holds `a`, `b`, `c` from `pos` on.
pub fn at3(tokens: &[Token], pos: usize, a: Token, b: Token, c: Token) -> (r: bool)
    requires
        pos <= tokens.len(),
    ensures
        r == begins3(tokens@.skip(pos as int), a, b, c),
{
    tokens.len() - pos >= 3 && tokens[pos] == a && tokens[pos + 1] == b && tokens[pos + 2] == c
}

/// Whether `a` at `pos` is the last token of the input.
pub fn at_end(tokens: &[Token], pos: usize, a: Token) -> (r: bool)
    requires
        pos <= tokens.len(),
    ensures
        r == closes(tokens@.skip(pos as int), a),
{
    tokens.len() - pos == 1 && tokens[pos] == a
}

/// Whether a width unit, the pair `--`, stands at `pos`.
pub fn at_width_unit(tokens: &[Token], pos: usize) -> (r: bool)
    requires
        pos <= tokens.len(),
    ensures
        r == begins_width_unit(tokens@.skip(pos as int)),
{
    at2(tokens, pos, Token::Dash, Token::Dash)
}

/// The step taken where no transition matches.
pub fn unexpected() -> (s: Step)
    ensures
        s@ == crate::machine::stuck(),
{
    Step::Finish { outcome: Err(RecognitionError::UnexpectedToken) }
}

/// The shape dispatcher: chooses the machine by the first token.
pub fn dispatch(tokens: &[Token], pos: usize) -> (s: Step)
    requires
        pos <= tokens.len(),
    ensures
        s@ == step_start(tokens@.skip(pos as int)),
        s.fits(tokens.len() as int, pos as int),
{
    if at1(tokens, pos, Token::LineMarker) {
        Step::Advance { next: RecognizerState::Line { n: 0 }, consumed: 1 }
    } else if at1(tokens, pos, Token::Plus) {
        Step::Advance { next: RecognizerState::Top { w: 0 }, consumed: 1 }
    } else {
        unexpected()
    }
}

/// One transition of the line recognizer.
pub fn read_line(n: usize, tokens: &[Token], pos: usize) -> (s: Step)
    requires
        pos <= tokens.len(),
        n <= pos,
    ensures
        s@ == step_line(n as nat, tokens@.skip(pos as int)),
        s.fits(tokens.len() as int, pos as int),
{
    if at_width_unit(tokens, pos) {
        Step::Advance { next: RecognizerState::Line { n: n + 1 }, consumed: 2 }
    } else if at_end(tokens, pos, Token::LineMarker) {
        Step::Finish { outcome: Ok(Literal::Line(Line(n))) }
    } else {
        unexpected()
    }
}

/// One transition on the top edge of a box or cuboid.
pub fn read_top(w: usize, tokens: &[Token], pos: usize) -> (s: Step)
    requires
        pos <= tokens.len(),
        w <= pos,
    ensures
        s@ == step_top(w as nat, tokens@.skip(pos as int)),
        s.fits(tokens.len() as int, pos as int),
{
    if at_width_unit(tokens, pos) {
        Step::Advance { next: RecognizerState::Top { w: w + 1 }, consumed: 2 }
    } else if at_end(tokens, pos, Token::Plus) {
        Step::Finish { outcome: Ok(Literal::Line(Line(w))) }
    } else if at1(tokens, pos, Token::Plus) {
        Step::Advance { next: RecognizerState::Mid { w, h: 0 }, consumed: 1 }
    } else {
        unexpected()
    }
}

/// One transition below the top edge: a row of a box, the start of its
/// bottom edge, or the first row of depth of a cuboid.
pub fn read_mid(w: usize, h: usize, tokens: &[Token], pos: usize) -> (s: Step)
    requires
        pos <= tokens.len(),
        w <= pos,
        h <= pos,
    ensures
        s@ == step_mid(w as nat, h as nat, tokens@.skip(pos as int)),
        s.fits(tokens.len() as int, pos as int),
{
    if at2(tokens, pos, Token::Pipe, Token::Pipe) {
        Step::Advance { next: RecognizerState::Mid { w, h: h + 1 }, consumed: 2 }
    } else if at1(tokens, pos, Token::Plus) {
        Step::Advance { next: RecognizerState::Bottom { w, h, bottom_w: 0 }, consumed: 1 }
    } else if h == 0 && at3(tokens, pos, Token::Slash, Token::Slash, Token::Pipe) {
        Step::Advance {
            next: RecognizerState::TopDepth(
                Counters { w, h: 1, l: 1, mid_w: 0, bottom_w: 0, bottom_h: 0, bottom_l: 0 },
            ),
            consumed: 3,
        }
    } else {
        unexpected()
    }
}

/// One transition on the bottom edge of a box. Closing the box runs the
/// dimension validator.
pub fn read_bottom(w: usize, h: usize, bottom_w: usize, tokens: &[Token], pos: usize) -> (s: Step)
    requires
        pos <= tokens.len(),
        w <= pos,
        h <= pos,
        bottom_w <= pos,
    ensures
        s@ == step_bottom(w as nat, h as nat, bottom_w as nat, tokens@.skip(pos as int)),
        s.fits(tokens.len() as int, pos as int),
{
    if at_width_unit(tokens, pos) {
        Step::Advance { next: RecognizerState::Bottom { w, h, bottom_w: bottom_w + 1 }, consumed: 2 }
    } else if at_end(tokens, pos, Token::Plus) {
        match validate_rectangle(w, h, bottom_w) {
            Ok(rectangle) => Step::Finish { outcome: Ok(Literal::Rectangle(rectangle)) },
            Err(e) => Step::Finish { outcome: Err(e) },
        }
    } else {
        unexpected()
    }
}

/// One transition on the top face of a cuboid, beside the back-right edge.
pub fn read_top_depth(c: Counters, tokens: &[Token], pos: usize) -> (s: Step)
    requires
        pos <= tokens.len(),
        c.within(pos as int),
    ensures
        s@ == step_top_depth(c@, tokens@.skip(pos as int)),
        s.fits(tokens.len() as int, pos as int),
{
    if at3(tokens, pos, Token::Slash, Token::Slash, Token::Pipe) {
        Step::Advance {
            next: RecognizerState::TopDepth(Counters { h: c.h + 1, l: c.l + 1, ..c }),
            consumed: 3,
        }
    } else if at3(tokens, pos, Token::Slash, Token::Slash, Token::Plus) {
        Step::Advance {
            next: RecognizerState::TopLBottomL(Counters { l: c.l + 1, ..c }),
            consumed: 3,
        }
    } else if at1(tokens, pos, Token::Plus) {
        Step::Advance { next: RecognizerState::MidWidth(c), consumed: 1 }
    } else {
        unexpected()
    }
}

/// One transition on the top face of a cuboid, below the back-right corner.
pub fn read_top_l_bottom_l(c: Counters, tokens: &[Token], pos: usize) -> (s: Step)
    requires
        pos <= tokens.len(),
        c.within(pos as int),
    ensures
        s@ == step_top_l_bottom_l(c@, tokens@.skip(pos as int)),
        s.fits(tokens.len() as int, pos as int),
{
    if at3(tokens, pos, Token::Slash, Token::Slash, Token::Slash) {
        Step::Advance {
            next: RecognizerState::TopLBottomL(
                Counters { l: c.l + 1, bottom_l: c.bottom_l + 1, ..c },
            ),
            consumed: 3,
        }
    } else if at1(tokens, pos, Token::Plus) {
        Step::Advance { next: RecognizerState::MidWidth(c), consumed: 1 }
    } else {
        unexpected()
    }
}

/// One transition on the top edge of a cuboid's front face.
pub fn read_mid_width(c: Counters, tokens: &[Token], pos: usize) -> (s: Step)
    requires
        pos <= tokens.len(),
        c.within(pos as int),
    ensures
        s@ == step_mid_width(c@, tokens@.skip(pos as int)),
        s.fits(tokens.len() as int, pos as int),
{
    if at_width_unit(tokens, pos) {
        Step::Advance {
            next: RecognizerState::MidWidth(Counters { mid_w: c.mid_w + 1, ..c }),
            consumed: 2,
        }
    } else if at2(tokens, pos, Token::Plus, Token::Plus) {
        Step::Advance { next: RecognizerState::BottomHeight(c), consumed: 2 }
    } else if at2(tokens, pos, Token::Plus, Token::Pipe) {
        Step::Advance {
            next: RecognizerState::BottomHeight(Counters { h: c.h + 1, ..c }),
            consumed: 2,
        }
    } else if at2(tokens, pos, Token::Plus, Token::Slash) {
        Step::Advance {
            next: RecognizerState::BottomHeight(Counters { bottom_l: c.bottom_l + 1, ..c }),
            consumed: 2,
        }
    } else {
        unexpected()
    }
}

/// One transition on the rows of a cuboid's front face.
pub fn read_bottom_height(c: Counters, tokens: &[Token], pos: usize) -> (s: Step)
    requires
        pos <= tokens.len(),
        c.within(pos as int),
    ensures
        s@ == step_bottom_height(c@, tokens@.skip(pos as int)),
        s.fits(tokens.len() as int, pos as int),
{
    if at3(tokens, pos, Token::Pipe, Token::Pipe, Token::Plus) {
        Step::Advance {
            next: RecognizerState::BottomHeight(Counters { bottom_h: c.bottom_h + 1, ..c }),
            consumed: 3,
        }
    } else if at3(tokens, pos, Token::Pipe, Token::Pipe, Token::Slash) {
        Step::Advance {
            next: RecognizerState::BottomHeight(
                Counters { bottom_h: c.bottom_h + 1, bottom_l: c.bottom_l + 1, ..c },
            ),
            consumed: 3,
        }
    } else if at3(tokens, pos, Token::Pipe, Token::Pipe, Token::Pipe) {
        Step::Advance {
            next: RecognizerState::BottomHeight(
                Counters { h: c.h + 1, bottom_h: c.bottom_h + 1, ..c },
            ),
            consumed: 3,
        }
    } else if at1(tokens, pos, Token::Plus) {
        Step::Advance { next: RecognizerState::BottomWidth(c), consumed: 1 }
    } else {
        unexpected()
    }
}

/// One transition on the closing bottom edge of a cuboid. Closing the
/// cuboid runs the dimension validator.
pub fn read_bottom_width(c: Counters, tokens: &[Token], pos: usize) -> (s: Step)
    requires
        pos <= tokens.len(),
        c.within(pos as int),
    ensures
        s@ == step_bottom_width(c@, tokens@.skip(pos as int)),
        s.fits(tokens.len() as int, pos as int),
{
    if at_width_unit(tokens, pos) {
        Step::Advance {
            next: RecognizerState::BottomWidth(Counters { bottom_w: c.bottom_w + 1, ..c }),
            consumed: 2,
        }
    } else if at_end(tokens, pos, Token::Plus) {
        match validate_cuboid(&c) {
            Ok(cuboid) => Step::Finish { outcome: Ok(Literal::Cuboid(cuboid)) },
            Err(e) => Step::Finish { outcome: Err(e) },
        }
    } else {
        unexpected()
    }
}

impl RecognizerState {
    /// The transition this state takes when the tokens from `pos` on are
    /// still to be read.
    pub fn step(&self, tokens: &[Token], pos: usize) -> (s: Step)
        requires
            pos <= tokens.len(),
            self.within(pos as int),
        ensures
            s@ == step(self@, tokens@.skip(pos as int)),
            s.fits(tokens.len() as int, pos as int),
    {
        match *self {
            RecognizerState::Start => dispatch(tokens, pos),
            RecognizerState::Line { n } => read_line(n, tokens, pos),
            RecognizerState::Top { w } => read_top(w, tokens, pos),
            RecognizerState::Mid { w, h } => read_mid(w, h, tokens, pos),
            RecognizerState::Bottom { w, h, bottom_w } => read_bottom(w, h, bottom_w, tokens, pos),
            RecognizerState::TopDepth(c) => read_top_depth(c, tokens, pos),
            RecognizerState::TopLBottomL(c) => read_top_l_bottom_l(c, tokens, pos),
            RecognizerState::MidWidth(c) => read_mid_width(c, tokens, pos),
            RecognizerState::BottomHeight(c) => read_bottom_height(c, tokens, pos),
            RecognizerState::BottomWidth(c) => read_bottom_width(c, tokens, pos),
        }
    }
}

/// Recognizes `tokens`, taking at most `max_depth` transitions.
///
/// The whole stream is read in one pass. The result is the shape the diagram
/// stands for, or the reason it stands for none: the recognizer never
/// returns a value for a malformed or inconsistent drawing, and never
/// truncates one that is too large.
pub fn recognize_within(tokens: &[Token], max_depth: usize) -> (r: Result<
    Literal,
    RecognitionError,
>)
    ensures
        verdict_of(r) == recognition_within(tokens@, max_depth as nat),
{
    let mut state = RecognizerState::Start;
    let mut pos: usize = 0;
    let mut taken: usize = 0;
    assert(tokens@.skip(0) =~= tokens@);
    loop
        invariant
            pos <= tokens.len(),
            state.within(pos as int),
            taken <= max_depth,
            run(Phase::Start, tokens@).verdict == run(state@, tokens@.skip(pos as int)).verdict,
            run(Phase::Start, tokens@).depth == taken + run(
                state@,
                tokens@.skip(pos as int),
            ).depth,
        decreases tokens.len() - pos,
    {
        if taken >= max_depth {
            return Err(RecognitionError::RecognitionDepthExceeded);
        }
        match state.step(tokens, pos) {
            Step::Advance { next, consumed } => {
                assert(tokens@.skip(pos as int).skip(consumed as int) =~= tokens@.skip(
                    pos + consumed,
                ));
                state = next;
                pos = pos + consumed;
                taken = taken + 1;
            },
            Step::Finish { outcome } => {
                return outcome;
            },
        }
    }
}

/// Recognizes `tokens`, taking at most [`DEFAULT_MAX_DEPTH`] transitions.
pub fn recognize(tokens: &[Token]) -> (r: Result<Literal, RecognitionError>)
    ensures
        verdict_of(r) == recognition_within(tokens@, DEFAULT_MAX_DEPTH as nat),
{
    recognize_within(tokens, DEFAULT_MAX_DEPTH)
}

/// What the text of a drawing is recognized as when at most `max_depth`
/// transitions may be taken. Text that is no drawing at all (it holds a
/// foreign character or an unclosed comment) is malformed like any other
/// drawing whose symbols fit no transition.
pub open spec fn text_recognition_within(text: Seq<u8>, max_depth: nat) -> Result<Shape, Fault> {
    match tokens_of(text) {
        Some(tokens) => recognition_within(tokens, max_depth),
        None => Err(Fault::UnexpectedToken),
    }
}

/// Recognizes the drawing written in `text`, taking at most `max_depth`
/// transitions.
pub fn recognize_text_within(text: &[u8], max_depth: usize) -> (r: Result<
    Literal,
    RecognitionError,
>)
    ensures
        verdict_of(r) == text_recognition_within(text@, max_depth as nat),
{
    match tokenize(text) {
        Some(tokens) => recognize_within(tokens.as_slice(), max_depth),
        None => Err(RecognitionError::UnexpectedToken),
    }
}

/// Recognizes the drawing written in `text`, taking at most
/// [`DEFAULT_MAX_DEPTH`] transitions.
pub fn recognize_text(text: &[u8]) -> (r: Result<Literal, RecognitionError>)
    ensures
        verdict_of(r) == text_recognition_within(text@, DEFAULT_MAX_DEPTH as nat),
{
    recognize_text_within(text, DEFAULT_MAX_DEPTH)
}

} // verus!
