//! Analog literals: ASCII-art diagrams of lines, boxes and wireframe cuboids
//! read as validated geometric values.
//!
//! A diagram is both documentation and data. Its shape on the page must
//! match the dimensions it stands for, and a drawing whose redundant
//! measurements disagree is rejected before any value exists.
//!
//! ```text
//! I------I                      a line of length 3
//!
//! +----+
//! |    |
//! |    |                        a rectangle, 2 wide and 3 high
//! |    |
//! +----+
//!
//!      +----------+
//!     /          /|
//!    /          / |
//!   /          /  +
//!  /          /  /               a cuboid, 5 wide, 2 high and 4 long
//! +----------+  /
//! |          | /
//! |          |/
//! +----------+
//! ```
//!
//! [`lexer::tokenize`] turns text into tokens, [`recognizer::recognize`]
//! turns tokens into a [`shapes::Literal`], and
//! [`recognizer::recognize_text`] does both.
//!
//! What the recognizer computes is defined in [`machine`] as a transition
//! table. [`diagram`] says what drawings look like on the page, without
//! reference to the recognizer. [`theorems`] proves that every drawing that
//! holds together is read as what its measurements say, and [`converse`]
//! that nothing else is read to the end.

pub mod converse;
pub mod diagram;
pub mod error;
pub mod lexer;
pub mod machine;
pub mod recognizer;
pub mod shapes;
pub mod state;
pub mod theorems;
pub mod token;
pub mod validator;

pub use crate::error::{Edge, RecognitionError};
pub use crate::lexer::tokenize;
pub use crate::recognizer::{
    recognize, recognize_text, recognize_text_within, recognize_within, DEFAULT_MAX_DEPTH,
};
pub use crate::shapes::{Cuboid, Line, Literal, Rectangle};
pub use crate::state::{Counters, RecognizerState};
pub use crate::token::Token;
