use vstd::prelude::*;

use crate::file::position::Position;
use crate::file::text::{push_str, string_of};
use crate::tokenize::token::Token;

verus! {

/// The ways a compilation can fail.
#[derive(Debug)]
pub enum Error {
    /// The tokenizer found a character that starts no token.
    TokenizeUnexpectedChar { position: Position, char: char },
    /// The parser found `got` where it expected what `expect` describes.
    ParseUnexpectedToken { got: Token, expect: String },
    /// The target of an assignment, an increment or a decrement is not a variable.
    AnalyzeInvalidAssignTarget { position: Position },
    /// A broken internal invariant.
    Unexpected,
}

impl Error {
    /// The message for this error; positioned errors start with the
    /// diagnostic that points at the place.
    pub fn message(&self) -> (r: String) {
        let mut out: Vec<char> = Vec::new();
        match self {
            Error::TokenizeUnexpectedChar { position, char } => {
                if position.line >= 1 && position.column >= 1 {
                    push_str(&mut out, position.render().as_str());
                }
                push_str(&mut out, "Got unexpected char `");
                out.push(*char);
                push_str(&mut out, "`");
            },
            Error::ParseUnexpectedToken { got, expect } => {
                if got.position.line >= 1 && got.position.column >= 1 {
                    push_str(&mut out, got.position.render().as_str());
                }
                push_str(&mut out, "Got unexpected token `");
                push_str(&mut out, got.kind.describe().as_str());
                push_str(&mut out, "`. Expect `");
                push_str(&mut out, expect.as_str());
                push_str(&mut out, "`.");
            },
            Error::AnalyzeInvalidAssignTarget { position } => {
                if position.line >= 1 && position.column >= 1 {
                    push_str(&mut out, position.render().as_str());
                }
                push_str(&mut out, "Must be a modifiable value");
            },
            Error::Unexpected => push_str(&mut out, "Got unexpected error."),
        }
        string_of(&out)
    }

    pub fn new_unexpected_char(position: Position, char: char) -> (r: Error)
        ensures
            r == (Error::TokenizeUnexpectedChar { position, char }),
    {
        Error::TokenizeUnexpectedChar { position, char }
    }

    pub fn new_unexpected_token(got: Token, expect: String) -> (r: Error)
        ensures
            r == (Error::ParseUnexpectedToken { got, expect }),
    {
        Error::ParseUnexpectedToken { got, expect }
    }

    pub fn new_invalid_assign_target(position: Position) -> (r: Error)
        ensures
            r == (Error::AnalyzeInvalidAssignTarget { position }),
    {
        Error::AnalyzeInvalidAssignTarget { position }
    }

    pub fn new_unexpected() -> (r: Error)
        ensures
            r == Error::Unexpected,
    {
        Error::Unexpected
    }
}

} // verus!
