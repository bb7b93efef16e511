use vstd::prelude::*;

use super::token_kind::{PuncToken, TokenKind};
use crate::file::position::Position;

verus! {

/// A token with the place where it starts.
#[derive(Debug)]
pub struct Token {
    pub kind: TokenKind,
    pub position: Position,
}

impl Clone for Token {
    fn clone(&self) -> (r: Self)
        ensures
            r == *self,
    {
        Token { kind: self.kind.clone(), position: self.position.clone() }
    }
}

impl Token {
    pub fn new_punc_token(punc_token: PuncToken, position: Position) -> (r: Token)
        ensures
            r.kind == TokenKind::Punc(punc_token),
            r.position == position,
    {
        Token { kind: TokenKind::Punc(punc_token), position }
    }

    pub fn new_number(number: usize, position: Position) -> (r: Token)
        ensures
            r.kind == TokenKind::Number(number),
            r.position == position,
    {
        Token { kind: TokenKind::Number(number), position }
    }

    pub fn new(kind: TokenKind, position: Position) -> (r: Token)
        ensures
            r.kind == kind,
            r.position == position,
    {
        Token { kind, position }
    }

    pub fn new_eof(position: Position) -> (r: Token)
        ensures
            r.kind == TokenKind::Eof,
            r.position == position,
    {
        Token { kind: TokenKind::Eof, position }
    }
}

} // verus!
