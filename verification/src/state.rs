//! The recognizer's state: which phase of which machine is active, and the
//! counters accumulated so far.

use vstd::prelude::*;

verus! {

/// The seven measurements taken while a wireframe cuboid is read.
///
/// `w`, `h` and `l` are counted from the top of the drawing; the other four
/// are counted again from edges met later in the scan. The counters are kept
/// apart until the drawing is closed and only then compared.
#[derive(Clone, Copy, Debug)]
pub struct Counters {
    /// Width of the top edge.
    pub w: usize,
    /// Height, counted along the back-right vertical edge.
    pub h: usize,
    /// Length, counted along the top face's depth edges.
    pub l: usize,
    /// Width of the front face's top edge.
    pub mid_w: usize,
    /// Width of the closing bottom edge.
    pub bottom_w: usize,
    /// Height, counted along the rows of the front face.
    pub bottom_h: usize,
    /// Length, counted along the bottom-right depth edge.
    pub bottom_l: usize,
}

/// The mathematical value of [`Counters`].
pub struct Tally {
    pub w: nat,
    pub h: nat,
    pub l: nat,
    pub mid_w: nat,
    pub bottom_w: nat,
    pub bottom_h: nat,
    pub bottom_l: nat,
}

impl View for Counters {
    type V = Tally;

    open spec fn view(&self) -> Tally {
        Tally {
            w: self.w as nat,
            h: self.h as nat,
            l: self.l as nat,
            mid_w: self.mid_w as nat,
            bottom_w: self.bottom_w as nat,
            bottom_h: self.bottom_h as nat,
            bottom_l: self.bottom_l as nat,
        }
    }
}

impl Counters {
    /// No counter exceeds `bound`.
    pub open spec fn within(&self, bound: int) -> bool {
        &&& self.w <= bound
        &&& self.h <= bound
        &&& self.l <= bound
        &&& self.mid_w <= bound
        &&& self.bottom_w <= bound
        &&& self.bottom_h <= bound
        &&& self.bottom_l <= bound
    }
}

/// Where the recognizer is in a drawing. A state is made fresh for every
/// recognition and carries every counter that is live in its phase.
#[derive(Clone, Copy, Debug)]
pub enum RecognizerState {
    /// Nothing read yet: the first token selects the machine.
    Start,
    /// Inside an `I`-delimited line, `n` width units read.
    Line { n: usize },
    /// On the top edge of a box or cuboid, `w` width units read.
    Top { w: usize },
    /// Below the top edge, `h` rows of a box read.
    Mid { w: usize, h: usize },
    /// On the bottom edge of a box.
    Bottom { w: usize, h: usize, bottom_w: usize },
    /// On the top face of a cuboid, while the back-right edge still
    /// descends beside it.
    TopDepth(Counters),
    /// On the top face of a cuboid, after the back-right edge has turned
    /// the corner.
    TopLBottomL(Counters),
    /// On the top edge of the front face.
    MidWidth(Counters),
    /// On the rows of the front face.
    BottomHeight(Counters),
    /// On the closing bottom edge of a cuboid.
    BottomWidth(Counters),
}

/// The mathematical value of a [`RecognizerState`].
pub enum Phase {
    Start,
    Line { n: nat },
    Top { w: nat },
    Mid { w: nat, h: nat },
    Bottom { w: nat, h: nat, bottom_w: nat },
    TopDepth(Tally),
    TopLBottomL(Tally),
    MidWidth(Tally),
    BottomHeight(Tally),
    BottomWidth(Tally),
}

impl View for RecognizerState {
    type V = Phase;

    open spec fn view(&self) -> Phase {
        match *self {
            RecognizerState::Start => Phase::Start,
            RecognizerState::Line { n } => Phase::Line { n: n as nat },
            RecognizerState::Top { w } => Phase::Top { w: w as nat },
            RecognizerState::Mid { w, h } => Phase::Mid { w: w as nat, h: h as nat },
            RecognizerState::Bottom { w, h, bottom_w } => Phase::Bottom {
                w: w as nat,
                h: h as nat,
                bottom_w: bottom_w as nat,
            },
            RecognizerState::TopDepth(c) => Phase::TopDepth(c@),
            RecognizerState::TopLBottomL(c) => Phase::TopLBottomL(c@),
            RecognizerState::MidWidth(c) => Phase::MidWidth(c@),
            RecognizerState::BottomHeight(c) => Phase::BottomHeight(c@),
            RecognizerState::BottomWidth(c) => Phase::BottomWidth(c@),
        }
    }
}

impl RecognizerState {
    /// No counter of the state exceeds `bound`. A state reached after
    /// `bound` tokens always satisfies this, since every increment of a
    /// counter consumes at least one token.
    pub open spec fn within(&self, bound: int) -> bool {
        match *self {
            RecognizerState::Start => true,
            RecognizerState::Line { n } => n <= bound,
            RecognizerState::Top { w } => w <= bound,
            RecognizerState::Mid { w, h } => w <= bound && h <= bound,
            RecognizerState::Bottom { w, h, bottom_w } => w <= bound && h <= bound && bottom_w
                <= bound,
            RecognizerState::TopDepth(c) => c.within(bound),
            RecognizerState::TopLBottomL(c) => c.within(bound),
            RecognizerState::MidWidth(c) => c.within(bound),
            RecognizerState::BottomHeight(c) => c.within(bound),
            RecognizerState::BottomWidth(c) => c.within(bound),
        }
    }
}

} // verus!
