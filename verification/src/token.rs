//! The drawing symbols a diagram is made of.

use vstd::prelude::*;

verus! {

/// One drawing symbol. A token carries no position: a diagram is read purely
/// by the order of its symbols.
#[derive(Clone, Copy, Debug, PartialEq, Eq, Structural)]
pub enum Token {
    /// `+`, a corner.
    Plus,
    /// `-`, half of a width unit (a width unit is the pair `--`).
    Dash,
    /// `|`, a vertical edge.
    Pipe,
    /// `/`, a depth edge.
    Slash,
    /// `I`, the alternative terminator of a one-dimensional line.
    LineMarker,
}

} // verus!
