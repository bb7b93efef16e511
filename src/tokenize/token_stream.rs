use std::rc::Rc;
use vstd::prelude::*;

use super::token::Token;
use super::token_kind::{kind_eq, punc_text, TokenKind};
use crate::error::Error;
use crate::file::position::Position;
use crate::file::text::string_of;

verus! {

/// A cursor into a shared, immutable token buffer. Cloning copies the cursor,
/// so a clone advances independently of the cursor it was made from.
pub struct TokenStream {
    tokens: Rc<Vec<Token>>,
    index: usize,
}

impl Clone for TokenStream {
    fn clone(&self) -> (r: Self)
        ensures
            r == *self,
    {
        TokenStream { tokens: self.tokens.clone(), index: self.index }
    }
}

/// `b` is `a` after reading on: same buffer, cursor not moved back, and moved
/// forward when `moved` holds.
pub open spec fn advanced(a: TokenStream, b: TokenStream, moved: bool) -> bool {
    &&& b.toks() == a.toks()
    &&& a.pos() <= b.pos() <= b.toks().len()
    &&& moved ==> a.pos() < b.pos()
}

impl TokenStream {
    /// The whole buffer.
    pub closed spec fn toks(&self) -> Seq<Token> {
        self.tokens@
    }

    /// The index of the next token.
    pub closed spec fn pos(&self) -> nat {
        self.index as nat
    }

    /// The number of tokens not yet read.
    pub open spec fn remaining(&self) -> nat {
        (self.toks().len() - self.pos()) as nat
    }

    pub open spec fn wf(&self) -> bool {
        self.pos() <= self.toks().len()
    }

    pub fn new(tokens: Vec<Token>) -> (r: TokenStream)
        ensures
            r.toks() == tokens@,
            r.pos() == 0,
    {
        TokenStream { tokens: Rc::new(tokens), index: 0 }
    }

    /// Whether the next token is `kind`; reads nothing.
    pub fn consume(&mut self, kind: TokenKind) -> (r: Result<bool, Error>)
        requires
            old(self).wf(),
        ensures
            *final(self) == *old(self),
            old(self).pos() < old(self).toks().len() ==> r == Ok::<bool, Error>(
                kind_eq(old(self).toks()[old(self).pos() as int].kind, kind),
            ),
            old(self).pos() >= old(self).toks().len() ==> r == Err::<bool, Error>(Error::Unexpected),
    {
        match self.peek() {
            Ok(token) => Ok(token.kind.same(&kind)),
            Err(e) => Err(e),
        }
    }

    /// Reads the next token, which must be `kind`.
    pub fn expect(&mut self, kind: TokenKind) -> (r: Result<Token, Error>)
        requires
            old(self).wf(),
        ensures
            advanced(*old(self), *final(self), r is Ok),
            old(self).pos() >= old(self).toks().len() ==> r == Err::<Token, Error>(Error::Unexpected),
            old(self).pos() < old(self).toks().len() ==> {
                let t = old(self).toks()[old(self).pos() as int];
                &&& final(self).pos() == old(self).pos() + 1
                &&& if kind_eq(t.kind, kind) {
                    r == Ok::<Token, Error>(t)
                } else {
                    r matches Err(Error::ParseUnexpectedToken { got, expect }) && got == t && expect@
                        == describe_text(kind)
                }
            },
    {
        let token = match self.next() {
            Ok(t) => t,
            Err(e) => {
                return Err(e);
            },
        };
        if token.kind.same(&kind) {
            return Ok(token);
        }
        let expect = kind.describe();
        Err(Error::new_unexpected_token(token, expect))
    }

    /// Whether the next token is the end of input.
    pub fn at_eof(&self) -> (r: Result<bool, Error>)
        requires
            self.wf(),
        ensures
            self.pos() < self.toks().len() ==> r == Ok::<bool, Error>(
                self.toks()[self.pos() as int].kind is Eof,
            ),
            self.pos() >= self.toks().len() ==> r == Err::<bool, Error>(Error::Unexpected),
    {
        match self.peek() {
            Ok(token) => Ok(matches!(token.kind, TokenKind::Eof)),
            Err(e) => Err(e),
        }
    }

    /// Reads the next token.
    pub fn next(&mut self) -> (r: Result<Token, Error>)
        requires
            old(self).wf(),
        ensures
            old(self).pos() < old(self).toks().len() ==> r == Ok::<Token, Error>(
                old(self).toks()[old(self).pos() as int],
            ) && final(self).pos() == old(self).pos() + 1 && final(self).toks() == old(self).toks(),
            old(self).pos() >= old(self).toks().len() ==> r == Err::<Token, Error>(Error::Unexpected)
                && *final(self) == *old(self),
    {
        if self.index < self.tokens.len() {
            let token = self.tokens[self.index].clone();
            self.index = self.index + 1;
            return Ok(token);
        }
        Err(Error::new_unexpected())
    }

    /// The next token, without reading it.
    pub fn peek(&self) -> (r: Result<Token, Error>)
        requires
            self.wf(),
        ensures
            self.pos() < self.toks().len() ==> r == Ok::<Token, Error>(self.toks()[self.pos() as int]),
            self.pos() >= self.toks().len() ==> r == Err::<Token, Error>(Error::Unexpected),
    {
        if self.index < self.tokens.len() {
            return Ok(self.tokens[self.index].clone());
        }
        Err(Error::new_unexpected())
    }

    /// The position of the next token.
    pub fn get_position(&self) -> (r: Result<Position, Error>)
        requires
            self.wf(),
        ensures
            self.pos() < self.toks().len() ==> r == Ok::<Position, Error>(
                self.toks()[self.pos() as int].position,
            ),
            self.pos() >= self.toks().len() ==> r == Err::<Position, Error>(Error::Unexpected),
    {
        match self.peek() {
            Ok(token) => Ok(token.position),
            Err(e) => Err(e),
        }
    }
}

/// How a diagnostic names a kind of token.
pub open spec fn describe_text(k: TokenKind) -> Seq<char> {
    match k {
        TokenKind::Ident(_) => "identifier"@,
        TokenKind::Number(_) => "number"@,
        TokenKind::Punc(p) => punc_text(p),
        TokenKind::Return => "return"@,
        TokenKind::If => "if"@,
        TokenKind::Else => "else"@,
        TokenKind::For => "for"@,
        TokenKind::While => "while"@,
        TokenKind::Eof => "end of input"@,
    }
}

impl TokenKind {
    /// A short description of the kind, for diagnostics.
    pub fn describe(&self) -> (r: String)
        ensures
            r@ == describe_text(*self),
    {
        let mut out: Vec<char> = Vec::new();
        let text = match self {
            TokenKind::Ident(_) => "identifier",
            TokenKind::Number(_) => "number",
            TokenKind::Punc(p) => p.text(),
            TokenKind::Return => "return",
            TokenKind::If => "if",
            TokenKind::Else => "else",
            TokenKind::For => "for",
            TokenKind::While => "while",
            TokenKind::Eof => "end of input",
        };
        crate::file::text::push_str(&mut out, text);
        string_of(&out)
    }
}

} // verus!
