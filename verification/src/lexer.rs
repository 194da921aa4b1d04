//! The textual front end: from the characters of a drawing to its tokens.
//!
//! A drawing is ASCII text. The five symbols `+ - | / I` are its tokens.
//! Blanks are skipped, and so is decoration written as a comment: from `/*`
//! to the next `*/`, or from `//` to the end of the line. Any other
//! character has no place in a drawing.

use crate::token::Token;
use vstd::prelude::*;

verus! {

/// What the characters being read belong to.
#[derive(Clone, Copy, Debug, PartialEq, Eq, Structural)]
pub enum LexMode {
    /// The drawing itself.
    Drawing,
    /// A comment opened by `/*` and not yet closed.
    BlockComment,
    /// A comment opened by `//`, which the end of the line closes.
    LineComment,
}

/// Space, tab, line feed or carriage return.
pub open spec fn is_blank(b: u8) -> bool {
    b == 0x20 || b == 0x09 || b == 0x0a || b == 0x0d
}

/// The token a character stands for, if it is one of the five symbols.
pub open spec fn symbol_of(b: u8) -> Option<Token> {
    if b == 0x2b {
        Some(Token::Plus)
    } else if b == 0x2d {
        Some(Token::Dash)
    } else if b == 0x7c {
        Some(Token::Pipe)
    } else if b == 0x2f {
        Some(Token::Slash)
    } else if b == 0x49 {
        Some(Token::LineMarker)
    } else {
        None
    }
}

/// `text` holds the two characters `a`, `b` from `from` on.
pub open spec fn spells(text: Seq<u8>, from: int, a: u8, b: u8) -> bool {
    0 <= from && from + 1 < text.len() && text[from] == a && text[from + 1] == b
}

/// The tokens of `text` from `from` on, read in `mode`; `None` if a
/// character there belongs to no drawing, or a block comment is left open.
pub open spec fn lex(text: Seq<u8>, from: int, mode: LexMode) -> Option<Seq<Token>>
    decreases text.len() - from,
{
    if from < 0 || from >= text.len() {
        if mode == LexMode::BlockComment {
            None
        } else {
            Some(Seq::empty())
        }
    } else {
        match mode {
            LexMode::BlockComment => {
                if spells(text, from, 0x2a, 0x2f) {
                    lex(text, from + 2, LexMode::Drawing)
                } else {
                    lex(text, from + 1, LexMode::BlockComment)
                }
            },
            LexMode::LineComment => {
                if text[from] == 0x0a {
                    lex(text, from + 1, LexMode::Drawing)
                } else {
                    lex(text, from + 1, LexMode::LineComment)
                }
            },
            LexMode::Drawing => {
                if is_blank(text[from]) {
                    lex(text, from + 1, LexMode::Drawing)
                } else if spells(text, from, 0x2f, 0x2a) {
                    lex(text, from + 2, LexMode::BlockComment)
                } else if spells(text, from, 0x2f, 0x2f) {
                    lex(text, from + 2, LexMode::LineComment)
                } else {
                    match symbol_of(text[from]) {
                        Some(token) => prepend(seq![token], lex(text, from + 1, LexMode::Drawing)),
                        None => None,
                    }
                }
            },
        }
    }
}

/// `read` in front of `rest`, where there is a `rest`.
pub open spec fn prepend(read: Seq<Token>, rest: Option<Seq<Token>>) -> Option<Seq<Token>> {
    match rest {
        Some(tokens) => Some(read + tokens),
        None => None,
    }
}

/// The tokens of a drawing given as text, if it is one.
pub open spec fn tokens_of(text: Seq<u8>) -> Option<Seq<Token>> {
    lex(text, 0, LexMode::Drawing)
}

/// Whether `b` is a blank.
pub fn blank(b: u8) -> (r: bool)
    ensures
        r == is_blank(b),
{
    b == 0x20 || b == 0x09 || b == 0x0a || b == 0x0d
}

/// The token that `b` stands for.
pub fn symbol(b: u8) -> (r: Option<Token>)
    ensures
        r == symbol_of(b),
{
    if b == 0x2b {
        Some(Token::Plus)
    } else if b == 0x2d {
        Some(Token::Dash)
    } else if b == 0x7c {
        Some(Token::Pipe)
    } else if b == 0x2f {
        Some(Token::Slash)
    } else if b == 0x49 {
        Some(Token::LineMarker)
    } else {
        None
    }
}

/// Whether `text` holds `a`, `b` from `from` on.
pub fn spelled(text: &[u8], from: usize, a: u8, b: u8) -> (r: bool)
    requires
        from <= text.len(),
    ensures
        r == spells(text@, from as int, a, b),
{
    text.len() - from >= 2 && text[from] == a && text[from + 1] == b
}

/// Splits the text of a drawing into its tokens.
///
/// Returns `None` exactly when the text is no drawing at all: it holds a
/// character that is neither a symbol, a blank nor part of a comment, or it
/// ends inside a block comment.
pub fn tokenize(text: &[u8]) -> (r: Option<Vec<Token>>)
    ensures
        match r {
            Some(tokens) => tokens_of(text@) == Some(tokens@),
            None => tokens_of(text@) is None,
        },
{
    let mut tokens: Vec<Token> = Vec::new();
    let mut pos: usize = 0;
    let mut mode = LexMode::Drawing;
    assert(Seq::<Token>::empty() + Seq::<Token>::empty() =~= Seq::<Token>::empty());
    while pos < text.len()
        invariant
            pos <= text.len(),
            tokens_of(text@) == prepend(tokens@, lex(text@, pos as int, mode)),
        decreases text.len() - pos,
    {
        match mode {
            LexMode::BlockComment => {
                if spelled(text, pos, 0x2a, 0x2f) {
                    pos = pos + 2;
                    mode = LexMode::Drawing;
                } else {
                    pos = pos + 1;
                }
            },
            LexMode::LineComment => {
                if text[pos] == 0x0a {
                    mode = LexMode::Drawing;
                }
                pos = pos + 1;
            },
            LexMode::Drawing => {
                if blank(text[pos]) {
                    pos = pos + 1;
                } else if spelled(text, pos, 0x2f, 0x2a) {
                    pos = pos + 2;
                    mode = LexMode::BlockComment;
                } else if spelled(text, pos, 0x2f, 0x2f) {
                    pos = pos + 2;
                    mode = LexMode::LineComment;
                } else {
                    match symbol(text[pos]) {
                        Some(token) => {
                            proof {
                                let rest = lex(text@, pos + 1, LexMode::Drawing);
                                if let Some(later) = rest {
                                    assert(tokens@ + (seq![token] + later) =~= tokens@.push(token)
                                        + later);
                                }
                            }
                            tokens.push(token);
                            pos = pos + 1;
                        },
                        None => {
                            return None;
                        },
                    }
                }
            },
        }
    }
    match mode {
        LexMode::BlockComment => None,
        _ => {
            assert(tokens@ + Seq::<Token>::empty() =~= tokens@);
            Some(tokens)
        },
    }
}

} // verus!
