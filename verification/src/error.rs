//! How recognition fails.

use vstd::prelude::*;

verus! {

/// The logical edge that two measurements disagree about.
#[derive(Clone, Copy, Debug, PartialEq, Eq, Structural)]
pub enum Edge {
    /// Measured in `--` units.
    Width,
    /// Measured in rows of `|`.
    Height,
    /// Measured in rows of `/`.
    Length,
}

/// Why a token stream was not recognized. Every error is detected before a
/// value is built; there is no partially valid result.
#[derive(Clone, Copy, Debug, PartialEq, Eq, Structural)]
pub enum RecognitionError {
    /// The tokens at some point match no transition of the state the
    /// recognizer is in: an edge is left open, a row boundary holds the wrong
    /// symbol, or tokens follow the closing corner.
    UnexpectedToken,
    /// The drawing is well formed, but two measurements of the same edge
    /// differ. `expected` is the measurement taken first (from the top of the
    /// drawing), `actual` the later one that disagrees with it.
    DimensionMismatch { edge: Edge, expected: usize, actual: usize },
    /// Reading the drawing takes more transitions than the caller allows.
    RecognitionDepthExceeded,
}

/// The mathematical value of a [`RecognitionError`].
pub enum Fault {
    UnexpectedToken,
    DimensionMismatch { edge: Edge, expected: nat, actual: nat },
    RecognitionDepthExceeded,
}

impl View for RecognitionError {
    type V = Fault;

    open spec fn view(&self) -> Fault {
        match *self {
            RecognitionError::UnexpectedToken => Fault::UnexpectedToken,
            RecognitionError::DimensionMismatch { edge, expected, actual } => {
                Fault::DimensionMismatch { edge, expected: expected as nat, actual: actual as nat }
            },
            RecognitionError::RecognitionDepthExceeded => Fault::RecognitionDepthExceeded,
        }
    }
}

} // verus!
