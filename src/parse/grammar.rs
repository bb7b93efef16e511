//! The grammar that the parser follows, as spec functions over the token
//! sequence: each gives the tree that a construct parses to and the index
//! after it, or why the tokens do not form it.
use vstd::prelude::*;

use super::row_expr::{RowAssignOpKind, RowBinaryOpKind, RowExprView, RowExprViewKind};
use super::row_stmt::{RowStmtView, RowStmtViewKind};
use crate::error::Error;
use crate::file::position::Position;
use crate::tokenize::token::Token;
use crate::tokenize::token_kind::{kind_eq, PuncToken, TokenKind};
use crate::tokenize::token_stream::describe_text;

verus! {

/// Why the grammar rejects a token sequence: it ran out of tokens, or the
/// token at `at` is not what `expect` describes.
pub enum ParseFail {
    End,
    Token { at: nat, expect: Seq<char> },
}

pub type ExprParse = Result<(RowExprView, nat), ParseFail>;

pub type StmtParse = Result<(RowStmtView, nat), ParseFail>;

/// `r` is what the grammar gives: the same tree and `end` at the position
/// after it, or the error that stands for the grammar's failure.
pub open spec fn parsed_as<T: View>(
    r: Result<T, Error>,
    s: Result<(T::V, nat), ParseFail>,
    t: Seq<Token>,
    end: nat,
) -> bool {
    match s {
        Ok((v, p)) => r is Ok && r->Ok_0@ == v && end == p,
        Err(f) => r is Err && fail_is(r->Err_0, f, t),
    }
}

/// `e` is the error that stands for `f` over the tokens `t`.
pub open spec fn fail_is(e: Error, f: ParseFail, t: Seq<Token>) -> bool {
    match f {
        ParseFail::End => e == Error::Unexpected,
        ParseFail::Token { at, expect } => e matches Error::ParseUnexpectedToken { got, expect: x }
            && at < t.len() && got == t[at as int] && x@ == expect,
    }
}

/// The token at `pos` is the punctuator `p`.
pub open spec fn is_punc(t: Seq<Token>, pos: nat, p: PuncToken) -> bool {
    pos < t.len() && t[pos as int].kind == TokenKind::Punc(p)
}

/// Reads one token that must be `kind`.
pub open spec fn expect_at(t: Seq<Token>, pos: nat, kind: TokenKind) -> Result<nat, ParseFail> {
    if pos >= t.len() {
        Err(ParseFail::End)
    } else if kind_eq(t[pos as int].kind, kind) {
        Ok(pos + 1)
    } else {
        Err(ParseFail::Token { at: pos, expect: describe_text(kind) })
    }
}

/// `p` is a position after `pos` inside the tokens.
pub open spec fn moved(t: Seq<Token>, pos: nat, p: nat) -> bool {
    pos < p <= t.len()
}

pub open spec fn node(kind: RowExprViewKind, p: Position) -> RowExprView {
    RowExprView { kind, position: p }
}

/// The assignment operator that the token at `pos` spells, if any.
pub open spec fn assign_op_at(t: Seq<Token>, pos: nat) -> Option<RowAssignOpKind> {
    match t[pos as int].kind {
        TokenKind::Punc(p) => assign_op_of_punc(p),
        _ => None,
    }
}

/// The assignment operator that a punctuator spells, if any.
pub open spec fn assign_op_of_punc(p: PuncToken) -> Option<RowAssignOpKind> {
    match p {
        PuncToken::Equal => Some(RowAssignOpKind::Equal),
        PuncToken::AsteriskEqual => Some(RowAssignOpKind::MulEqual),
        PuncToken::SlashEqual => Some(RowAssignOpKind::DivEqual),
        PuncToken::PercentEqual => Some(RowAssignOpKind::RemEqual),
        PuncToken::PlusEqual => Some(RowAssignOpKind::AddEqual),
        PuncToken::MinusEqual => Some(RowAssignOpKind::SubEqual),
        PuncToken::LtLtEqual => Some(RowAssignOpKind::LShiftEqual),
        PuncToken::GtGtEqual => Some(RowAssignOpKind::RShiftEqual),
        PuncToken::AndEqual => Some(RowAssignOpKind::BitAndEqual),
        PuncToken::HatEqual => Some(RowAssignOpKind::BitXorEqual),
        PuncToken::VertEqual => Some(RowAssignOpKind::BitOrEqual),
        _ => None,
    }
}

/// The binary operators of each precedence level, from 9 (`||`, loosest) to
/// 0 (`*`, `/`, `%`, tightest).
pub open spec fn level_op(level: nat, k: TokenKind) -> Option<RowBinaryOpKind> {
    match k {
        TokenKind::Punc(p) => if level == 9 {
            match p {
                PuncToken::VertVert => Some(RowBinaryOpKind::LogicOr),
                _ => None,
            }
        } else if level == 8 {
            match p {
                PuncToken::AndAnd => Some(RowBinaryOpKind::LogicAnd),
                _ => None,
            }
        } else if level == 7 {
            match p {
                PuncToken::Vert => Some(RowBinaryOpKind::BitOr),
                _ => None,
            }
        } else if level == 6 {
            match p {
                PuncToken::Hat => Some(RowBinaryOpKind::BitXor),
                _ => None,
            }
        } else if level == 5 {
            match p {
                PuncToken::And => Some(RowBinaryOpKind::BitAnd),
                _ => None,
            }
        } else if level == 4 {
            match p {
                PuncToken::EqualEqual => Some(RowBinaryOpKind::Equal),
                PuncToken::ExclEqual => Some(RowBinaryOpKind::NotEqual),
                _ => None,
            }
        } else if level == 3 {
            match p {
                PuncToken::Lt => Some(RowBinaryOpKind::Lt),
                PuncToken::Gt => Some(RowBinaryOpKind::Gt),
                PuncToken::LtEqual => Some(RowBinaryOpKind::LtEqual),
                PuncToken::GtEqual => Some(RowBinaryOpKind::GtEqual),
                _ => None,
            }
        } else if level == 2 {
            match p {
                PuncToken::LtLt => Some(RowBinaryOpKind::LShift),
                PuncToken::GtGt => Some(RowBinaryOpKind::RShift),
                _ => None,
            }
        } else if level == 1 {
            match p {
                PuncToken::Plus => Some(RowBinaryOpKind::Add),
                PuncToken::Minus => Some(RowBinaryOpKind::Sub),
                _ => None,
            }
        } else if level == 0 {
            match p {
                PuncToken::Asterisk => Some(RowBinaryOpKind::Mul),
                PuncToken::Slash => Some(RowBinaryOpKind::Div),
                PuncToken::Percent => Some(RowBinaryOpKind::Rem),
                _ => None,
            }
        } else {
            None
        },
        _ => None,
    }
}

/// expression: assignment-expressions joined by `,`, grouping to the left.
pub open spec fn p_expr(t: Seq<Token>, pos: nat) -> ExprParse
    decreases t.len() - pos, 15nat,
{
    if pos >= t.len() {
        Err(ParseFail::End)
    } else {
        match p_assign(t, pos) {
            Err(f) => Err(f),
            Ok((e, p1)) => if !moved(t, pos, p1) {
                Err(ParseFail::End)
            } else {
                comma_rest(t, e, p1)
            },
        }
    }
}

/// The `, assignment-expression` parts after `lhs`; a comma node takes the
/// position of the token after the comma.
pub open spec fn comma_rest(t: Seq<Token>, lhs: RowExprView, pos: nat) -> ExprParse
    decreases t.len() - pos, 15nat,
{
    if pos >= t.len() {
        Err(ParseFail::End)
    } else if !is_punc(t, pos, PuncToken::Comma) {
        Ok((lhs, pos))
    } else {
        match p_assign(t, pos + 1) {
            Err(f) => Err(f),
            Ok((r, p2)) => if !moved(t, pos + 1, p2) {
                Err(ParseFail::End)
            } else {
                comma_rest(
                    t,
                    node(RowExprViewKind::Comma { lhs: Box::new(lhs), rhs: Box::new(r) }, t[pos + 1int].position),
                    p2,
                )
            },
        }
    }
}

/// assignment: a unary expression followed by an assignment operator and an
/// assignment expression; otherwise a conditional expression read again from
/// the same place.
pub open spec fn p_assign(t: Seq<Token>, pos: nat) -> ExprParse
    decreases t.len() - pos, 14nat,
{
    if pos >= t.len() {
        Err(ParseFail::End)
    } else {
        match p_unary(t, pos) {
            Err(f) => Err(f),
            Ok((lhs, p1)) => if !moved(t, pos, p1) || p1 >= t.len() {
                Err(ParseFail::End)
            } else {
                match assign_op_at(t, p1) {
                    None => p_cond(t, pos),
                    Some(op) => match p_assign(t, p1 + 1) {
                        Err(f) => Err(f),
                        Ok((rhs, p2)) => Ok(
                            (
                                node(
                                    RowExprViewKind::Assign { op, lhs: Box::new(lhs), rhs: Box::new(rhs) },
                                    t[p1 as int].position,
                                ),
                                p2,
                            ),
                        ),
                    },
                }
            },
        }
    }
}

/// conditional: `c ? e : a`, where `e` is an expression and `a` an assignment
/// expression; the node takes the position of `?`.
pub open spec fn p_cond(t: Seq<Token>, pos: nat) -> ExprParse
    decreases t.len() - pos, 13nat,
{
    if pos >= t.len() {
        Err(ParseFail::End)
    } else {
        match p_binary(t, 9, pos) {
            Err(f) => Err(f),
            Ok((c, p1)) => if !moved(t, pos, p1) || p1 >= t.len() {
                Err(ParseFail::End)
            } else if !is_punc(t, p1, PuncToken::Question) {
                Ok((c, p1))
            } else {
                match p_expr(t, p1 + 1) {
                    Err(f) => Err(f),
                    Ok((th, p2)) => match expect_at(t, p2, TokenKind::Punc(PuncToken::Colon)) {
                        Err(f) => Err(f),
                        Ok(p3) => if !moved(t, p1, p3) {
                            Err(ParseFail::End)
                        } else {
                            match p_assign(t, p3) {
                                Err(f) => Err(f),
                                Ok((el, p4)) => Ok(
                                    (
                                        node(
                                            RowExprViewKind::Condition {
                                                condition: Box::new(c),
                                                then_expr: Box::new(th),
                                                else_expr: Box::new(el),
                                            },
                                            t[p1 as int].position,
                                        ),
                                        p4,
                                    ),
                                ),
                            }
                        },
                    },
                }
            },
        }
    }
}

/// The operand of a level: the next tighter level, or a unary expression.
pub open spec fn p_operand(t: Seq<Token>, level: nat, pos: nat) -> ExprParse
    decreases t.len() - pos, 3 + level, 1nat,
{
    if level == 0 {
        p_unary(t, pos)
    } else {
        p_binary(t, (level - 1) as nat, pos)
    }
}

/// A binary level: operands of the next level joined by the level's
/// operators, grouping to the left; a node takes its operator's position.
pub open spec fn p_binary(t: Seq<Token>, level: nat, pos: nat) -> ExprParse
    decreases t.len() - pos, 3 + level, 2nat,
{
    if pos >= t.len() {
        Err(ParseFail::End)
    } else {
        match p_operand(t, level, pos) {
            Err(f) => Err(f),
            Ok((l, p1)) => if !moved(t, pos, p1) {
                Err(ParseFail::End)
            } else {
                binary_rest(t, level, l, p1)
            },
        }
    }
}

pub open spec fn binary_rest(t: Seq<Token>, level: nat, lhs: RowExprView, pos: nat) -> ExprParse
    decreases t.len() - pos, 3 + level, 2nat,
{
    if pos >= t.len() {
        Err(ParseFail::End)
    } else {
        match level_op(level, t[pos as int].kind) {
            None => Ok((lhs, pos)),
            Some(op) => match p_operand(t, level, pos + 1) {
                Err(f) => Err(f),
                Ok((r, p2)) => if !moved(t, pos + 1, p2) {
                    Err(ParseFail::End)
                } else {
                    binary_rest(
                        t,
                        level,
                        node(
                            RowExprViewKind::Binary { op, lhs: Box::new(lhs), rhs: Box::new(r) },
                            t[pos as int].position,
                        ),
                        p2,
                    )
                },
            },
        }
    }
}

/// unary: prefix `++` or `--` before a postfix expression.
pub open spec fn p_unary(t: Seq<Token>, pos: nat) -> ExprParse
    decreases t.len() - pos, 2nat,
{
    if pos >= t.len() {
        Err(ParseFail::End)
    } else if is_punc(t, pos, PuncToken::PlusPlus) || is_punc(t, pos, PuncToken::MinusMinus) {
        match p_postfix(t, pos + 1) {
            Err(f) => Err(f),
            Ok((e, p1)) => Ok(
                (
                    node(
                        if is_punc(t, pos, PuncToken::PlusPlus) {
                            RowExprViewKind::UnaryIncrement { expr: Box::new(e) }
                        } else {
                            RowExprViewKind::UnaryDecrement { expr: Box::new(e) }
                        },
                        t[pos as int].position,
                    ),
                    p1,
                ),
            ),
        }
    } else {
        p_postfix(t, pos)
    }
}

/// postfix: a primary expression followed by any chain of `++`, `--` and
/// argument lists.
pub open spec fn p_postfix(t: Seq<Token>, pos: nat) -> ExprParse
    decreases t.len() - pos, 1nat,
{
    if pos >= t.len() {
        Err(ParseFail::End)
    } else {
        match p_primary(t, pos) {
            Err(f) => Err(f),
            Ok((e, p1)) => if !moved(t, pos, p1) {
                Err(ParseFail::End)
            } else {
                postfix_rest(t, e, p1)
            },
        }
    }
}

pub open spec fn postfix_rest(t: Seq<Token>, e: RowExprView, pos: nat) -> ExprParse
    decreases t.len() - pos, 1nat,
{
    if pos >= t.len() {
        Err(ParseFail::End)
    } else if is_punc(t, pos, PuncToken::PlusPlus) {
        postfix_rest(t, node(RowExprViewKind::PostfixIncrement { expr: Box::new(e) }, t[pos as int].position), pos + 1)
    } else if is_punc(t, pos, PuncToken::MinusMinus) {
        postfix_rest(t, node(RowExprViewKind::PostfixDecrement { expr: Box::new(e) }, t[pos as int].position), pos + 1)
    } else if is_punc(t, pos, PuncToken::OpenRound) {
        match call_args(t, pos + 1) {
            Err(f) => Err(f),
            Ok((args, p1)) => if !moved(t, pos, p1) {
                Err(ParseFail::End)
            } else {
                postfix_rest(
                    t,
                    node(RowExprViewKind::Func { callee: Box::new(e), args }, t[pos as int].position),
                    p1,
                )
            },
        }
    } else {
        Ok((e, pos))
    }
}

/// The arguments after `(`: none, or assignment expressions separated by `,`;
/// the position returned is after the `)`.
pub open spec fn call_args(t: Seq<Token>, pos: nat) -> Result<(Seq<RowExprView>, nat), ParseFail>
    decreases t.len() - pos, 16nat,
{
    if pos >= t.len() {
        Err(ParseFail::End)
    } else if is_punc(t, pos, PuncToken::CloseRound) {
        Ok((Seq::empty(), pos + 1))
    } else {
        match p_assign(t, pos) {
            Err(f) => Err(f),
            Ok((a, p1)) => if !moved(t, pos, p1) {
                Err(ParseFail::End)
            } else {
                args_rest(t, seq![a], p1)
            },
        }
    }
}

pub open spec fn args_rest(t: Seq<Token>, args: Seq<RowExprView>, pos: nat) -> Result<
    (Seq<RowExprView>, nat),
    ParseFail,
>
    decreases t.len() - pos, 1nat,
{
    if pos >= t.len() {
        Err(ParseFail::End)
    } else if is_punc(t, pos, PuncToken::CloseRound) {
        Ok((args, pos + 1))
    } else {
        match expect_at(t, pos, TokenKind::Punc(PuncToken::Comma)) {
            Err(f) => Err(f),
            Ok(p1) => match p_assign(t, p1) {
                Err(f) => Err(f),
                Ok((a, p2)) => if !moved(t, p1, p2) {
                    Err(ParseFail::End)
                } else {
                    args_rest(t, args.push(a), p2)
                },
            },
        }
    }
}

/// primary: a number, an identifier, or a parenthesized expression.
pub open spec fn p_primary(t: Seq<Token>, pos: nat) -> ExprParse
    decreases t.len() - pos, 0nat,
{
    if pos >= t.len() {
        Err(ParseFail::End)
    } else {
        let tok = t[pos as int];
        match tok.kind {
            TokenKind::Number(n) => Ok((node(RowExprViewKind::Number { number: n }, tok.position), pos + 1)),
            TokenKind::Ident(s) => Ok((node(RowExprViewKind::Identifier { ident: s }, tok.position), pos + 1)),
            TokenKind::Punc(PuncToken::OpenRound) => match p_expr(t, pos + 1) {
                Err(f) => Err(f),
                Ok((e, p1)) => match expect_at(t, p1, TokenKind::Punc(PuncToken::CloseRound)) {
                    Err(f) => Err(f),
                    Ok(p2) => Ok((e, p2)),
                },
            },
            _ => Err(ParseFail::Token { at: pos, expect: "primary expression"@ }),
        }
    }
}

/// An optional expression that ends where the punctuator `stop` stands.
pub open spec fn opt_until(t: Seq<Token>, pos: nat, stop: PuncToken) -> Result<
    (Option<RowExprView>, nat),
    ParseFail,
> {
    if pos >= t.len() {
        Err(ParseFail::End)
    } else if is_punc(t, pos, stop) {
        Ok((None, pos))
    } else {
        match p_expr(t, pos) {
            Err(f) => Err(f),
            Ok((e, p1)) => Ok((Some(e), p1)),
        }
    }
}

pub open spec fn stmt_node(kind: RowStmtViewKind, p: Position) -> RowStmtView {
    RowStmtView { kind, position: p }
}

/// statement: chosen by its first token.
pub open spec fn s_stmt(t: Seq<Token>, pos: nat) -> StmtParse
    decreases t.len() - pos, 1nat,
{
    if pos >= t.len() {
        Err(ParseFail::End)
    } else {
        match t[pos as int].kind {
            TokenKind::Return => s_return(t, pos),
            TokenKind::If => s_if(t, pos),
            TokenKind::For => s_for(t, pos),
            TokenKind::While => s_while(t, pos),
            TokenKind::Punc(PuncToken::OpenCurly) => s_block(t, pos),
            _ => s_expr(t, pos),
        }
    }
}

/// `return ;` or `return expression ;`.
pub open spec fn s_return(t: Seq<Token>, pos: nat) -> StmtParse {
    match expect_at(t, pos, TokenKind::Return) {
        Err(f) => Err(f),
        Ok(p0) => if p0 >= t.len() {
            Err(ParseFail::End)
        } else if is_punc(t, p0, PuncToken::Semicolon) {
            Ok((stmt_node(RowStmtViewKind::Return { expr: None }, t[pos as int].position), p0 + 1))
        } else {
            match p_expr(t, p0) {
                Err(f) => Err(f),
                Ok((e, p1)) => match expect_at(t, p1, TokenKind::Punc(PuncToken::Semicolon)) {
                    Err(f) => Err(f),
                    Ok(p2) => Ok((stmt_node(RowStmtViewKind::Return { expr: Some(e) }, t[pos as int].position), p2)),
                },
            }
        },
    }
}

/// `( expression )` after a keyword at `pos`: the expression and the position
/// after `)`.
pub open spec fn head(t: Seq<Token>, pos: nat, kw: TokenKind) -> ExprParse {
    match expect_at(t, pos, kw) {
        Err(f) => Err(f),
        Ok(p0) => match expect_at(t, p0, TokenKind::Punc(PuncToken::OpenRound)) {
            Err(f) => Err(f),
            Ok(p1) => match p_expr(t, p1) {
                Err(f) => Err(f),
                Ok((c, p2)) => match expect_at(t, p2, TokenKind::Punc(PuncToken::CloseRound)) {
                    Err(f) => Err(f),
                    Ok(p3) => Ok((c, p3)),
                },
            },
        },
    }
}

/// `if ( expression ) statement`, with `else statement` when an `else`
/// follows: an `else` belongs to the nearest `if`.
pub open spec fn s_if(t: Seq<Token>, pos: nat) -> StmtParse
    decreases t.len() - pos, 0nat,
{
    match head(t, pos, TokenKind::If) {
        Err(f) => Err(f),
        Ok((c, p3)) => if !moved(t, pos, p3) {
            Err(ParseFail::End)
        } else {
            match s_stmt(t, p3) {
                Err(f) => Err(f),
                Ok((th, p4)) => if !moved(t, p3, p4) || p4 >= t.len() {
                    Err(ParseFail::End)
                } else if t[p4 as int].kind == TokenKind::Else {
                    match s_stmt(t, p4 + 1) {
                        Err(f) => Err(f),
                        Ok((el, p5)) => Ok(
                            (
                                stmt_node(
                                    RowStmtViewKind::If {
                                        condition: c,
                                        then_stmt: Box::new(th),
                                        else_stmt: Box::new(Some(el)),
                                    },
                                    t[pos as int].position,
                                ),
                                p5,
                            ),
                        ),
                    }
                } else {
                    Ok(
                        (
                            stmt_node(
                                RowStmtViewKind::If { condition: c, then_stmt: Box::new(th), else_stmt: Box::new(None) },
                                t[pos as int].position,
                            ),
                            p4,
                        ),
                    )
                },
            }
        },
    }
}

/// The three clauses of a `for` after its `(`, each optional, and the
/// position after the `)`.
pub open spec fn for_clauses(t: Seq<Token>, p1: nat) -> Result<
    (Option<RowExprView>, Option<RowExprView>, Option<RowExprView>, nat),
    ParseFail,
> {
    match opt_until(t, p1, PuncToken::Semicolon) {
        Err(f) => Err(f),
        Ok((i, q1)) => match expect_at(t, q1, TokenKind::Punc(PuncToken::Semicolon)) {
            Err(f) => Err(f),
            Ok(q2) => match opt_until(t, q2, PuncToken::Semicolon) {
                Err(f) => Err(f),
                Ok((c, q3)) => match expect_at(t, q3, TokenKind::Punc(PuncToken::Semicolon)) {
                    Err(f) => Err(f),
                    Ok(q4) => match opt_until(t, q4, PuncToken::CloseRound) {
                        Err(f) => Err(f),
                        Ok((d, q5)) => match expect_at(t, q5, TokenKind::Punc(PuncToken::CloseRound)) {
                            Err(f) => Err(f),
                            Ok(q6) => Ok((i, c, d, q6)),
                        },
                    },
                },
            },
        },
    }
}

/// `for ( init ; condition ; step ) statement`; each clause may be empty.
pub open spec fn s_for(t: Seq<Token>, pos: nat) -> StmtParse
    decreases t.len() - pos, 0nat,
{
    match expect_at(t, pos, TokenKind::For) {
        Err(f) => Err(f),
        Ok(p0) => match expect_at(t, p0, TokenKind::Punc(PuncToken::OpenRound)) {
            Err(f) => Err(f),
            Ok(p1) => match for_clauses(t, p1) {
                Err(f) => Err(f),
                Ok((i, c, d, q6)) => if !moved(t, pos, q6) {
                    Err(ParseFail::End)
                } else {
                    match s_stmt(t, q6) {
                        Err(f) => Err(f),
                        Ok((b, q7)) => Ok(
                            (
                                stmt_node(
                                    RowStmtViewKind::For { init: i, condition: c, delta: d, body: Box::new(b) },
                                    t[pos as int].position,
                                ),
                                q7,
                            ),
                        ),
                    }
                },
            },
        },
    }
}

/// `while ( expression ) statement`.
pub open spec fn s_while(t: Seq<Token>, pos: nat) -> StmtParse
    decreases t.len() - pos, 0nat,
{
    match head(t, pos, TokenKind::While) {
        Err(f) => Err(f),
        Ok((c, p3)) => if !moved(t, pos, p3) {
            Err(ParseFail::End)
        } else {
            match s_stmt(t, p3) {
                Err(f) => Err(f),
                Ok((b, p4)) => Ok(
                    (
                        stmt_node(RowStmtViewKind::While { condition: c, body: Box::new(b) }, t[pos as int].position),
                        p4,
                    ),
                ),
            }
        },
    }
}

/// `{ statement* }`.
pub open spec fn s_block(t: Seq<Token>, pos: nat) -> StmtParse
    decreases t.len() - pos, 0nat,
{
    match expect_at(t, pos, TokenKind::Punc(PuncToken::OpenCurly)) {
        Err(f) => Err(f),
        Ok(p0) => match block_rest(t, Seq::empty(), p0) {
            Err(f) => Err(f),
            Ok((ss, p1)) => Ok((stmt_node(RowStmtViewKind::Cpd { stmts: ss }, t[pos as int].position), p1)),
        },
    }
}

/// Statements up to `}`; the position returned is after it.
pub open spec fn block_rest(t: Seq<Token>, stmts: Seq<RowStmtView>, pos: nat) -> Result<
    (Seq<RowStmtView>, nat),
    ParseFail,
>
    decreases t.len() - pos, 2nat,
{
    if pos >= t.len() {
        Err(ParseFail::End)
    } else if is_punc(t, pos, PuncToken::CloseCurly) {
        Ok((stmts, pos + 1))
    } else {
        match s_stmt(t, pos) {
            Err(f) => Err(f),
            Ok((st, p1)) => if !moved(t, pos, p1) {
                Err(ParseFail::End)
            } else {
                block_rest(t, stmts.push(st), p1)
            },
        }
    }
}

/// `expression ;`, or a lone `;`, which is an empty statement.
pub open spec fn s_expr(t: Seq<Token>, pos: nat) -> StmtParse {
    if pos >= t.len() {
        Err(ParseFail::End)
    } else if is_punc(t, pos, PuncToken::Semicolon) {
        Ok((stmt_node(RowStmtViewKind::Expr { expr: None }, t[pos as int].position), pos + 1))
    } else {
        match p_expr(t, pos) {
            Err(f) => Err(f),
            Ok((e, p1)) => match expect_at(t, p1, TokenKind::Punc(PuncToken::Semicolon)) {
                Err(f) => Err(f),
                Ok(p2) => Ok((stmt_node(RowStmtViewKind::Expr { expr: Some(e) }, t[pos as int].position), p2)),
            },
        }
    }
}

/// A unit: statements up to the end-of-input token, which is not read.
pub open spec fn program_rest(t: Seq<Token>, stmts: Seq<RowStmtView>, pos: nat) -> Result<
    (Seq<RowStmtView>, nat),
    ParseFail,
>
    decreases t.len() - pos,
{
    if pos >= t.len() {
        Err(ParseFail::End)
    } else if t[pos as int].kind is Eof {
        Ok((stmts, pos))
    } else {
        match s_stmt(t, pos) {
            Err(f) => Err(f),
            Ok((st, p1)) => if !moved(t, pos, p1) {
                Err(ParseFail::End)
            } else {
                program_rest(t, stmts.push(st), p1)
            },
        }
    }
}

} // verus!
