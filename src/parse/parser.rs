use vstd::prelude::*;

use super::grammar::{
    args_rest, assign_op_of_punc, expect_at, binary_rest, level_op, p_operand, block_rest, call_args, comma_rest, fail_is,
    opt_until, p_assign, p_binary, p_cond, p_expr, p_postfix, p_primary, p_unary, parsed_as,
    postfix_rest, program_rest, s_block, s_expr, s_for, s_if, s_return, s_stmt, s_while, ParseFail,
};
use super::row_expr::{
    lemma_view_row_exprs_push, view_row_exprs, RowAssignOpKind, RowBinaryOpKind, RowExpr,
    RowExprView,
};
use super::row_program::RowProgram;
use super::row_stmt::{lemma_view_row_stmts_push, view_row_opt, view_row_stmts, RowStmt, RowStmtView};
use crate::error::Error;
use crate::file::text::string_from;
use crate::tokenize::token_kind::{PuncToken, TokenKind};
use crate::tokenize::token_stream::{advanced, TokenStream};

verus! {

fn assign_op(p: PuncToken) -> (r: Option<RowAssignOpKind>)
    ensures
        r == assign_op_of_punc(p),
{
    match p {
        PuncToken::Equal => Some(RowAssignOpKind::Equal),
        PuncToken::AsteriskEqual => Some(RowAssignOpKind::MulEqual),
        PuncToken::SlashEqual => Some(RowAssignOpKind::DivEqual),
        PuncToken::PercentEqual => Some(RowAssignOpKind::RemEqual),
        PuncToken::PlusEqual => Some(RowAssignOpKind::AddEqual),
        PuncToken::MinusEqual => Some(RowAssignOpKind::SubEqual),
        PuncToken::LtLtEqual => Some(RowAssignOpKind::LShiftEqual),
        PuncToken::GtGtEqual => Some(RowAssignOpKind::RShiftEqual),
        PuncToken::AndEqual => Some(RowAssignOpKind::BitAndEqual),
        PuncToken::HatEqual => Some(RowAssignOpKind::BitXorEqual),
        PuncToken::VertEqual => Some(RowAssignOpKind::BitOrEqual),
        _ => None,
    }
}

/// Parsing is deterministic: two programs that `Parser::parse` may return
/// for the same tokens and cursor have the same statements and end at the
/// same place.
pub proof fn lemma_parse_deterministic(
    t: Seq<crate::tokenize::token::Token>,
    pos: nat,
    first: RowProgram,
    first_end: nat,
    second: RowProgram,
    second_end: nat,
)
    requires
        program_rest(t, Seq::empty(), pos) is Ok,
        view_row_stmts(first.stmts@) == program_rest(t, Seq::empty(), pos)->Ok_0.0,
        first_end == program_rest(t, Seq::empty(), pos)->Ok_0.1,
        view_row_stmts(second.stmts@) == program_rest(t, Seq::empty(), pos)->Ok_0.0,
        second_end == program_rest(t, Seq::empty(), pos)->Ok_0.1,
    ensures
        view_row_stmts(first.stmts@) == view_row_stmts(second.stmts@),
        first_end == second_end,
{
}

/// A recursive-descent parser for the grammar in `grammar`. Each function
/// returns exactly what the matching grammar function gives for the tokens at
/// the cursor, and leaves the cursor where the grammar ends.
pub struct Parser {}

impl Parser {
    pub fn new() -> (r: Parser) {
        Parser {}
    }

    /// Parses statements up to the end of input, which it does not read.
    pub fn parse(&mut self, token_stream: &mut TokenStream) -> (r: Result<RowProgram, Error>)
        requires
            old(token_stream).wf(),
        ensures
            advanced(*old(token_stream), *final(token_stream), false),
            match program_rest(old(token_stream).toks(), Seq::empty(), old(token_stream).pos()) {
                Ok((ss, p)) => r is Ok && view_row_stmts(r->Ok_0.stmts@) == ss && final(token_stream).pos() == p,
                Err(f) => r is Err && fail_is(r->Err_0, f, old(token_stream).toks()),
            },
    {
        let ghost t = token_stream.toks();
        let ghost pos0 = token_stream.pos();
        let mut stmts: Vec<RowStmt> = Vec::new();
        assert(view_row_stmts(stmts@) =~= Seq::<RowStmtView>::empty());
        loop
            invariant
                token_stream.wf(),
                token_stream.toks() == t,
                t == old(token_stream).toks(),
                pos0 == old(token_stream).pos(),
                advanced(*old(token_stream), *token_stream, false),
                program_rest(t, Seq::empty(), pos0) == program_rest(t, view_row_stmts(stmts@), token_stream.pos()),
            ensures
                program_rest(t, Seq::empty(), pos0) == Ok::<(Seq<RowStmtView>, nat), ParseFail>(
                    (view_row_stmts(stmts@), token_stream.pos()),
                ),
            decreases token_stream.remaining(),
        {
            let at_end = match token_stream.at_eof() {
                Ok(v) => v,
                Err(e) => {
                    return Err(e);
                },
            };
            if at_end {
                break;
            }
            let stmt = match self.parse_stmt(token_stream) {
                Ok(v) => v,
                Err(e) => {
                    return Err(e);
                },
            };
            proof {
                lemma_view_row_stmts_push(stmts@, stmt);
            }
            stmts.push(stmt);
        }
        Ok(RowProgram::new(stmts))
    }

    /// A comma expression: assignment expressions separated by `,`.
    pub fn parse_expr(&mut self, token_stream: &mut TokenStream) -> (r: Result<RowExpr, Error>)
        requires
            old(token_stream).wf(),
        ensures
            advanced(*old(token_stream), *final(token_stream), r is Ok),
            parsed_as(r, p_expr(old(token_stream).toks(), old(token_stream).pos()), old(token_stream).toks(), final(token_stream).pos()),
        decreases old(token_stream).remaining(), 17nat,
    {
        let ghost t = token_stream.toks();
        let ghost pos0 = token_stream.pos();
        let mut expr = match self.parse_assignment_expr(token_stream) {
            Ok(v) => v,
            Err(e) => {
                return Err(e);
            },
        };
        loop
            invariant
                token_stream.wf(),
                token_stream.toks() == t,
                t == old(token_stream).toks(),
                pos0 == old(token_stream).pos(),
                advanced(*old(token_stream), *token_stream, true),
                p_expr(t, pos0) == comma_rest(t, expr@, token_stream.pos()),
            ensures
                p_expr(t, pos0) == Ok::<(RowExprView, nat), ParseFail>((expr@, token_stream.pos())),
            decreases token_stream.remaining(),
        {
            let is_comma = match token_stream.consume(TokenKind::Punc(PuncToken::Comma)) {
                Ok(v) => v,
                Err(e) => {
                    return Err(e);
                },
            };
            if !is_comma {
                break;
            }
            match token_stream.next() {
                Ok(v) => v,
                Err(e) => {
                    return Err(e);
                },
            };
            assert(token_stream.pos() >= t.len() ==> p_assign(t, token_stream.pos()) == Err::<
                (RowExprView, nat),
                ParseFail,
            >(ParseFail::End));
            let position = match token_stream.get_position() {
                Ok(v) => v,
                Err(e) => {
                    return Err(e);
                },
            };
            let rhs = match self.parse_assignment_expr(token_stream) {
                Ok(v) => v,
                Err(e) => {
                    return Err(e);
                },
            };
            expr = RowExpr::new_comma(expr, rhs, position);
        }
        Ok(expr)
    }

    /// An assignment when a unary expression followed by an assignment
    /// operator starts here, else a conditional expression. The unary
    /// expression is read from a copy of the cursor, which replaces the cursor
    /// only when an assignment operator follows.
    fn parse_assignment_expr(&mut self, token_stream: &mut TokenStream) -> (r: Result<RowExpr, Error>)
        requires
            old(token_stream).wf(),
        ensures
            advanced(*old(token_stream), *final(token_stream), r is Ok),
            parsed_as(r, p_assign(old(token_stream).toks(), old(token_stream).pos()), old(token_stream).toks(), final(token_stream).pos()),
        decreases old(token_stream).remaining(), 16nat,
    {
        let mut tmp_token_stream = token_stream.clone();
        let lhs = match self.parse_unary_expr(&mut tmp_token_stream) {
            Ok(v) => v,
            Err(e) => {
                return Err(e);
            },
        };
        let token = match tmp_token_stream.peek() {
            Ok(v) => v,
            Err(e) => {
                return Err(e);
            },
        };
        let op = match token.kind {
            TokenKind::Punc(p) => assign_op(p),
            _ => None,
        };
        match op {
            None => self.parse_conditional_expr(token_stream),
            Some(op_kind) => {
                match tmp_token_stream.next() {
                    Ok(v) => v,
                    Err(e) => {
                        return Err(e);
                    },
                };
                let rhs = match self.parse_assignment_expr(&mut tmp_token_stream) {
                    Ok(v) => v,
                    Err(e) => {
                        return Err(e);
                    },
                };
                *token_stream = tmp_token_stream;
                Ok(RowExpr::new_assign(op_kind, lhs, rhs, token.position))
            },
        }
    }

    /// `c ? e : a`: `e` an expression, `a` an assignment expression.
    fn parse_conditional_expr(&mut self, token_stream: &mut TokenStream) -> (r: Result<RowExpr, Error>)
        requires
            old(token_stream).wf(),
        ensures
            advanced(*old(token_stream), *final(token_stream), r is Ok),
            parsed_as(r, p_cond(old(token_stream).toks(), old(token_stream).pos()), old(token_stream).toks(), final(token_stream).pos()),
        decreases old(token_stream).remaining(), 15nat,
    {
        let condition = match self.parse_logical_or_expr(token_stream) {
            Ok(v) => v,
            Err(e) => {
                return Err(e);
            },
        };
        let is_question = match token_stream.consume(TokenKind::Punc(PuncToken::Question)) {
            Ok(v) => v,
            Err(e) => {
                return Err(e);
            },
        };
        if !is_question {
            return Ok(condition);
        }
        let token = match token_stream.next() {
            Ok(v) => v,
            Err(e) => {
                return Err(e);
            },
        };
        let then_expr = match self.parse_expr(token_stream) {
            Ok(v) => v,
            Err(e) => {
                return Err(e);
            },
        };
        match token_stream.expect(TokenKind::Punc(PuncToken::Colon)) {
            Ok(v) => v,
            Err(e) => {
                return Err(e);
            },
        };
        let else_expr = match self.parse_assignment_expr(token_stream) {
            Ok(v) => v,
            Err(e) => {
                return Err(e);
            },
        };
        Ok(RowExpr::new_condition(condition, then_expr, else_expr, token.position))
    }

    /// `||`, grouping to the left.
    fn parse_logical_or_expr(&mut self, token_stream: &mut TokenStream) -> (r: Result<RowExpr, Error>)
        requires
            old(token_stream).wf(),
        ensures
            advanced(*old(token_stream), *final(token_stream), r is Ok),
            parsed_as(r, p_binary(old(token_stream).toks(), 9, old(token_stream).pos()), old(token_stream).toks(), final(token_stream).pos()),
        decreases old(token_stream).remaining(), 14nat,
    {
        let ghost t = token_stream.toks();
        let ghost pos0 = token_stream.pos();
        let mut lhs = match self.parse_logical_and_expr(token_stream) {
            Ok(v) => v,
            Err(e) => {
                return Err(e);
            },
        };
        loop
            invariant
                token_stream.wf(),
                token_stream.toks() == t,
                t == old(token_stream).toks(),
                pos0 == old(token_stream).pos(),
                advanced(*old(token_stream), *token_stream, true),
                p_binary(t, 9, pos0) == binary_rest(t, 9, lhs@, token_stream.pos()),
            ensures
                p_binary(t, 9, pos0) == Ok::<(RowExprView, nat), ParseFail>((lhs@, token_stream.pos())),
            decreases token_stream.remaining(),
        {
            let ghost cur = token_stream.pos();
            let token = match token_stream.peek() {
                Ok(v) => v,
                Err(e) => {
                    return Err(e);
                },
            };
            let op_kind = match token.kind {
                TokenKind::Punc(PuncToken::VertVert) => RowBinaryOpKind::LogicOr,
                _ => {
                    break;
                },
            };
            assert(level_op(9, t[cur as int].kind) == Some(op_kind));
            assert(p_operand(t, 9, cur + 1) == p_binary(t, 8, cur + 1));
            match token_stream.next() {
                Ok(v) => v,
                Err(e) => {
                    return Err(e);
                },
            };
            let rhs = match self.parse_logical_and_expr(token_stream) {
                Ok(v) => v,
                Err(e) => {
                    return Err(e);
                },
            };
            lhs = RowExpr::new_binary(op_kind, lhs, rhs, token.position);
        }
        Ok(lhs)
    }

    /// `&&`, grouping to the left.
    fn parse_logical_and_expr(&mut self, token_stream: &mut TokenStream) -> (r: Result<RowExpr, Error>)
        requires
            old(token_stream).wf(),
        ensures
            advanced(*old(token_stream), *final(token_stream), r is Ok),
            parsed_as(r, p_binary(old(token_stream).toks(), 8, old(token_stream).pos()), old(token_stream).toks(), final(token_stream).pos()),
        decreases old(token_stream).remaining(), 13nat,
    {
        let ghost t = token_stream.toks();
        let ghost pos0 = token_stream.pos();
        let mut lhs = match self.parse_inclusive_or_expr(token_stream) {
            Ok(v) => v,
            Err(e) => {
                return Err(e);
            },
        };
        loop
            invariant
                token_stream.wf(),
                token_stream.toks() == t,
                t == old(token_stream).toks(),
                pos0 == old(token_stream).pos(),
                advanced(*old(token_stream), *token_stream, true),
                p_binary(t, 8, pos0) == binary_rest(t, 8, lhs@, token_stream.pos()),
            ensures
                p_binary(t, 8, pos0) == Ok::<(RowExprView, nat), ParseFail>((lhs@, token_stream.pos())),
            decreases token_stream.remaining(),
        {
            let ghost cur = token_stream.pos();
            let token = match token_stream.peek() {
                Ok(v) => v,
                Err(e) => {
                    return Err(e);
                },
            };
            let op_kind = match token.kind {
                TokenKind::Punc(PuncToken::AndAnd) => RowBinaryOpKind::LogicAnd,
                _ => {
                    break;
                },
            };
            assert(level_op(8, t[cur as int].kind) == Some(op_kind));
            assert(p_operand(t, 8, cur + 1) == p_binary(t, 7, cur + 1));
            match token_stream.next() {
                Ok(v) => v,
                Err(e) => {
                    return Err(e);
                },
            };
            let rhs = match self.parse_inclusive_or_expr(token_stream) {
                Ok(v) => v,
                Err(e) => {
                    return Err(e);
                },
            };
            lhs = RowExpr::new_binary(op_kind, lhs, rhs, token.position);
        }
        Ok(lhs)
    }

    /// `|`, grouping to the left.
    fn parse_inclusive_or_expr(&mut self, token_stream: &mut TokenStream) -> (r: Result<RowExpr, Error>)
        requires
            old(token_stream).wf(),
        ensures
            advanced(*old(token_stream), *final(token_stream), r is Ok),
            parsed_as(r, p_binary(old(token_stream).toks(), 7, old(token_stream).pos()), old(token_stream).toks(), final(token_stream).pos()),
        decreases old(token_stream).remaining(), 12nat,
    {
        let ghost t = token_stream.toks();
        let ghost pos0 = token_stream.pos();
        let mut lhs = match self.parse_exclusive_or_expr(token_stream) {
            Ok(v) => v,
            Err(e) => {
                return Err(e);
            },
        };
        loop
            invariant
                token_stream.wf(),
                token_stream.toks() == t,
                t == old(token_stream).toks(),
                pos0 == old(token_stream).pos(),
                advanced(*old(token_stream), *token_stream, true),
                p_binary(t, 7, pos0) == binary_rest(t, 7, lhs@, token_stream.pos()),
            ensures
                p_binary(t, 7, pos0) == Ok::<(RowExprView, nat), ParseFail>((lhs@, token_stream.pos())),
            decreases token_stream.remaining(),
        {
            let ghost cur = token_stream.pos();
            let token = match token_stream.peek() {
                Ok(v) => v,
                Err(e) => {
                    return Err(e);
                },
            };
            let op_kind = match token.kind {
                TokenKind::Punc(PuncToken::Vert) => RowBinaryOpKind::BitOr,
                _ => {
                    break;
                },
            };
            assert(level_op(7, t[cur as int].kind) == Some(op_kind));
            assert(p_operand(t, 7, cur + 1) == p_binary(t, 6, cur + 1));
            match token_stream.next() {
                Ok(v) => v,
                Err(e) => {
                    return Err(e);
                },
            };
            let rhs = match self.parse_exclusive_or_expr(token_stream) {
                Ok(v) => v,
                Err(e) => {
                    return Err(e);
                },
            };
            lhs = RowExpr::new_binary(op_kind, lhs, rhs, token.position);
        }
        Ok(lhs)
    }

    /// `^`, grouping to the left.
    fn parse_exclusive_or_expr(&mut self, token_stream: &mut TokenStream) -> (r: Result<RowExpr, Error>)
        requires
            old(token_stream).wf(),
        ensures
            advanced(*old(token_stream), *final(token_stream), r is Ok),
            parsed_as(r, p_binary(old(token_stream).toks(), 6, old(token_stream).pos()), old(token_stream).toks(), final(token_stream).pos()),
        decreases old(token_stream).remaining(), 11nat,
    {
        let ghost t = token_stream.toks();
        let ghost pos0 = token_stream.pos();
        let mut lhs = match self.parse_and_expr(token_stream) {
            Ok(v) => v,
            Err(e) => {
                return Err(e);
            },
        };
        loop
            invariant
                token_stream.wf(),
                token_stream.toks() == t,
                t == old(token_stream).toks(),
                pos0 == old(token_stream).pos(),
                advanced(*old(token_stream), *token_stream, true),
                p_binary(t, 6, pos0) == binary_rest(t, 6, lhs@, token_stream.pos()),
            ensures
                p_binary(t, 6, pos0) == Ok::<(RowExprView, nat), ParseFail>((lhs@, token_stream.pos())),
            decreases token_stream.remaining(),
        {
            let ghost cur = token_stream.pos();
            let token = match token_stream.peek() {
                Ok(v) => v,
                Err(e) => {
                    return Err(e);
                },
            };
            let op_kind = match token.kind {
                TokenKind::Punc(PuncToken::Hat) => RowBinaryOpKind::BitXor,
                _ => {
                    break;
                },
            };
            assert(level_op(6, t[cur as int].kind) == Some(op_kind));
            assert(p_operand(t, 6, cur + 1) == p_binary(t, 5, cur + 1));
            match token_stream.next() {
                Ok(v) => v,
                Err(e) => {
                    return Err(e);
                },
            };
            let rhs = match self.parse_and_expr(token_stream) {
                Ok(v) => v,
                Err(e) => {
                    return Err(e);
                },
            };
            lhs = RowExpr::new_binary(op_kind, lhs, rhs, token.position);
        }
        Ok(lhs)
    }

    /// `&`, grouping to the left.
    fn parse_and_expr(&mut self, token_stream: &mut TokenStream) -> (r: Result<RowExpr, Error>)
        requires
            old(token_stream).wf(),
        ensures
            advanced(*old(token_stream), *final(token_stream), r is Ok),
            parsed_as(r, p_binary(old(token_stream).toks(), 5, old(token_stream).pos()), old(token_stream).toks(), final(token_stream).pos()),
        decreases old(token_stream).remaining(), 10nat,
    {
        let ghost t = token_stream.toks();
        let ghost pos0 = token_stream.pos();
        let mut lhs = match self.parse_equality_expr(token_stream) {
            Ok(v) => v,
            Err(e) => {
                return Err(e);
            },
        };
        loop
            invariant
                token_stream.wf(),
                token_stream.toks() == t,
                t == old(token_stream).toks(),
                pos0 == old(token_stream).pos(),
                advanced(*old(token_stream), *token_stream, true),
                p_binary(t, 5, pos0) == binary_rest(t, 5, lhs@, token_stream.pos()),
            ensures
                p_binary(t, 5, pos0) == Ok::<(RowExprView, nat), ParseFail>((lhs@, token_stream.pos())),
            decreases token_stream.remaining(),
        {
            let ghost cur = token_stream.pos();
            let token = match token_stream.peek() {
                Ok(v) => v,
                Err(e) => {
                    return Err(e);
                },
            };
            let op_kind = match token.kind {
                TokenKind::Punc(PuncToken::And) => RowBinaryOpKind::BitAnd,
                _ => {
                    break;
                },
            };
            assert(level_op(5, t[cur as int].kind) == Some(op_kind));
            assert(p_operand(t, 5, cur + 1) == p_binary(t, 4, cur + 1));
            match token_stream.next() {
                Ok(v) => v,
                Err(e) => {
                    return Err(e);
                },
            };
            let rhs = match self.parse_equality_expr(token_stream) {
                Ok(v) => v,
                Err(e) => {
                    return Err(e);
                },
            };
            lhs = RowExpr::new_binary(op_kind, lhs, rhs, token.position);
        }
        Ok(lhs)
    }

    /// `==` and `!=`, grouping to the left.
    fn parse_equality_expr(&mut self, token_stream: &mut TokenStream) -> (r: Result<RowExpr, Error>)
        requires
            old(token_stream).wf(),
        ensures
            advanced(*old(token_stream), *final(token_stream), r is Ok),
            parsed_as(r, p_binary(old(token_stream).toks(), 4, old(token_stream).pos()), old(token_stream).toks(), final(token_stream).pos()),
        decreases old(token_stream).remaining(), 9nat,
    {
        let ghost t = token_stream.toks();
        let ghost pos0 = token_stream.pos();
        let mut lhs = match self.parse_relational_expr(token_stream) {
            Ok(v) => v,
            Err(e) => {
                return Err(e);
            },
        };
        loop
            invariant
                token_stream.wf(),
                token_stream.toks() == t,
                t == old(token_stream).toks(),
                pos0 == old(token_stream).pos(),
                advanced(*old(token_stream), *token_stream, true),
                p_binary(t, 4, pos0) == binary_rest(t, 4, lhs@, token_stream.pos()),
            ensures
                p_binary(t, 4, pos0) == Ok::<(RowExprView, nat), ParseFail>((lhs@, token_stream.pos())),
            decreases token_stream.remaining(),
        {
            let ghost cur = token_stream.pos();
            let token = match token_stream.peek() {
                Ok(v) => v,
                Err(e) => {
                    return Err(e);
                },
            };
            let op_kind = match token.kind {
                TokenKind::Punc(PuncToken::EqualEqual) => RowBinaryOpKind::Equal,
                TokenKind::Punc(PuncToken::ExclEqual) => RowBinaryOpKind::NotEqual,
                _ => {
                    break;
                },
            };
            assert(level_op(4, t[cur as int].kind) == Some(op_kind));
            assert(p_operand(t, 4, cur + 1) == p_binary(t, 3, cur + 1));
            match token_stream.next() {
                Ok(v) => v,
                Err(e) => {
                    return Err(e);
                },
            };
            let rhs = match self.parse_relational_expr(token_stream) {
                Ok(v) => v,
                Err(e) => {
                    return Err(e);
                },
            };
            lhs = RowExpr::new_binary(op_kind, lhs, rhs, token.position);
        }
        Ok(lhs)
    }

    /// `<`, `>`, `<=` and `>=`, grouping to the left.
    fn parse_relational_expr(&mut self, token_stream: &mut TokenStream) -> (r: Result<RowExpr, Error>)
        requires
            old(token_stream).wf(),
        ensures
            advanced(*old(token_stream), *final(token_stream), r is Ok),
            parsed_as(r, p_binary(old(token_stream).toks(), 3, old(token_stream).pos()), old(token_stream).toks(), final(token_stream).pos()),
        decreases old(token_stream).remaining(), 8nat,
    {
        let ghost t = token_stream.toks();
        let ghost pos0 = token_stream.pos();
        let mut lhs = match self.parse_shift_expr(token_stream) {
            Ok(v) => v,
            Err(e) => {
                return Err(e);
            },
        };
        loop
            invariant
                token_stream.wf(),
                token_stream.toks() == t,
                t == old(token_stream).toks(),
                pos0 == old(token_stream).pos(),
                advanced(*old(token_stream), *token_stream, true),
                p_binary(t, 3, pos0) == binary_rest(t, 3, lhs@, token_stream.pos()),
            ensures
                p_binary(t, 3, pos0) == Ok::<(RowExprView, nat), ParseFail>((lhs@, token_stream.pos())),
            decreases token_stream.remaining(),
        {
            let ghost cur = token_stream.pos();
            let token = match token_stream.peek() {
                Ok(v) => v,
                Err(e) => {
                    return Err(e);
                },
            };
            let op_kind = match token.kind {
                TokenKind::Punc(PuncToken::Lt) => RowBinaryOpKind::Lt,
                TokenKind::Punc(PuncToken::Gt) => RowBinaryOpKind::Gt,
                TokenKind::Punc(PuncToken::LtEqual) => RowBinaryOpKind::LtEqual,
                TokenKind::Punc(PuncToken::GtEqual) => RowBinaryOpKind::GtEqual,
                _ => {
                    break;
                },
            };
            assert(level_op(3, t[cur as int].kind) == Some(op_kind));
            assert(p_operand(t, 3, cur + 1) == p_binary(t, 2, cur + 1));
            match token_stream.next() {
                Ok(v) => v,
                Err(e) => {
                    return Err(e);
                },
            };
            let rhs = match self.parse_shift_expr(token_stream) {
                Ok(v) => v,
                Err(e) => {
                    return Err(e);
                },
            };
            lhs = RowExpr::new_binary(op_kind, lhs, rhs, token.position);
        }
        Ok(lhs)
    }

    /// `<<` and `>>`, grouping to the left.
    fn parse_shift_expr(&mut self, token_stream: &mut TokenStream) -> (r: Result<RowExpr, Error>)
        requires
            old(token_stream).wf(),
        ensures
            advanced(*old(token_stream), *final(token_stream), r is Ok),
            parsed_as(r, p_binary(old(token_stream).toks(), 2, old(token_stream).pos()), old(token_stream).toks(), final(token_stream).pos()),
        decreases old(token_stream).remaining(), 7nat,
    {
        let ghost t = token_stream.toks();
        let ghost pos0 = token_stream.pos();
        let mut lhs = match self.parse_additive_expr(token_stream) {
            Ok(v) => v,
            Err(e) => {
                return Err(e);
            },
        };
        loop
            invariant
                token_stream.wf(),
                token_stream.toks() == t,
                t == old(token_stream).toks(),
                pos0 == old(token_stream).pos(),
                advanced(*old(token_stream), *token_stream, true),
                p_binary(t, 2, pos0) == binary_rest(t, 2, lhs@, token_stream.pos()),
            ensures
                p_binary(t, 2, pos0) == Ok::<(RowExprView, nat), ParseFail>((lhs@, token_stream.pos())),
            decreases token_stream.remaining(),
        {
            let ghost cur = token_stream.pos();
            let token = match token_stream.peek() {
                Ok(v) => v,
                Err(e) => {
                    return Err(e);
                },
            };
            let op_kind = match token.kind {
                TokenKind::Punc(PuncToken::LtLt) => RowBinaryOpKind::LShift,
                TokenKind::Punc(PuncToken::GtGt) => RowBinaryOpKind::RShift,
                _ => {
                    break;
                },
            };
            assert(level_op(2, t[cur as int].kind) == Some(op_kind));
            assert(p_operand(t, 2, cur + 1) == p_binary(t, 1, cur + 1));
            match token_stream.next() {
                Ok(v) => v,
                Err(e) => {
                    return Err(e);
                },
            };
            let rhs = match self.parse_additive_expr(token_stream) {
                Ok(v) => v,
                Err(e) => {
                    return Err(e);
                },
            };
            lhs = RowExpr::new_binary(op_kind, lhs, rhs, token.position);
        }
        Ok(lhs)
    }

    /// `+` and `-`, grouping to the left.
    fn parse_additive_expr(&mut self, token_stream: &mut TokenStream) -> (r: Result<RowExpr, Error>)
        requires
            old(token_stream).wf(),
        ensures
            advanced(*old(token_stream), *final(token_stream), r is Ok),
            parsed_as(r, p_binary(old(token_stream).toks(), 1, old(token_stream).pos()), old(token_stream).toks(), final(token_stream).pos()),
        decreases old(token_stream).remaining(), 6nat,
    {
        let ghost t = token_stream.toks();
        let ghost pos0 = token_stream.pos();
        let mut lhs = match self.parse_multiplicative_expr(token_stream) {
            Ok(v) => v,
            Err(e) => {
                return Err(e);
            },
        };
        loop
            invariant
                token_stream.wf(),
                token_stream.toks() == t,
                t == old(token_stream).toks(),
                pos0 == old(token_stream).pos(),
                advanced(*old(token_stream), *token_stream, true),
                p_binary(t, 1, pos0) == binary_rest(t, 1, lhs@, token_stream.pos()),
            ensures
                p_binary(t, 1, pos0) == Ok::<(RowExprView, nat), ParseFail>((lhs@, token_stream.pos())),
            decreases token_stream.remaining(),
        {
            let ghost cur = token_stream.pos();
            let token = match token_stream.peek() {
                Ok(v) => v,
                Err(e) => {
                    return Err(e);
                },
            };
            let op_kind = match token.kind {
                TokenKind::Punc(PuncToken::Plus) => RowBinaryOpKind::Add,
                TokenKind::Punc(PuncToken::Minus) => RowBinaryOpKind::Sub,
                _ => {
                    break;
                },
            };
            assert(level_op(1, t[cur as int].kind) == Some(op_kind));
            assert(p_operand(t, 1, cur + 1) == p_binary(t, 0, cur + 1));
            match token_stream.next() {
                Ok(v) => v,
                Err(e) => {
                    return Err(e);
                },
            };
            let rhs = match self.parse_multiplicative_expr(token_stream) {
                Ok(v) => v,
                Err(e) => {
                    return Err(e);
                },
            };
            lhs = RowExpr::new_binary(op_kind, lhs, rhs, token.position);
        }
        Ok(lhs)
    }

    /// `*`, `/` and `%`, grouping to the left.
    fn parse_multiplicative_expr(&mut self, token_stream: &mut TokenStream) -> (r: Result<RowExpr, Error>)
        requires
            old(token_stream).wf(),
        ensures
            advanced(*old(token_stream), *final(token_stream), r is Ok),
            parsed_as(r, p_binary(old(token_stream).toks(), 0, old(token_stream).pos()), old(token_stream).toks(), final(token_stream).pos()),
        decreases old(token_stream).remaining(), 5nat,
    {
        let ghost t = token_stream.toks();
        let ghost pos0 = token_stream.pos();
        let mut lhs = match self.parse_cast_expr(token_stream) {
            Ok(v) => v,
            Err(e) => {
                return Err(e);
            },
        };
        loop
            invariant
                token_stream.wf(),
                token_stream.toks() == t,
                t == old(token_stream).toks(),
                pos0 == old(token_stream).pos(),
                advanced(*old(token_stream), *token_stream, true),
                p_binary(t, 0, pos0) == binary_rest(t, 0, lhs@, token_stream.pos()),
            ensures
                p_binary(t, 0, pos0) == Ok::<(RowExprView, nat), ParseFail>((lhs@, token_stream.pos())),
            decreases token_stream.remaining(),
        {
            let ghost cur = token_stream.pos();
            let token = match token_stream.peek() {
                Ok(v) => v,
                Err(e) => {
                    return Err(e);
                },
            };
            let op_kind = match token.kind {
                TokenKind::Punc(PuncToken::Asterisk) => RowBinaryOpKind::Mul,
                TokenKind::Punc(PuncToken::Slash) => RowBinaryOpKind::Div,
                TokenKind::Punc(PuncToken::Percent) => RowBinaryOpKind::Rem,
                _ => {
                    break;
                },
            };
            assert(level_op(0, t[cur as int].kind) == Some(op_kind));
            assert(p_operand(t, 0, cur + 1) == p_unary(t, cur + 1));
            match token_stream.next() {
                Ok(v) => v,
                Err(e) => {
                    return Err(e);
                },
            };
            let rhs = match self.parse_cast_expr(token_stream) {
                Ok(v) => v,
                Err(e) => {
                    return Err(e);
                },
            };
            lhs = RowExpr::new_binary(op_kind, lhs, rhs, token.position);
        }
        Ok(lhs)
    }

    /// A cast expression; the language has no casts.
    fn parse_cast_expr(&mut self, token_stream: &mut TokenStream) -> (r: Result<RowExpr, Error>)
        requires
            old(token_stream).wf(),
        ensures
            advanced(*old(token_stream), *final(token_stream), r is Ok),
            parsed_as(r, p_unary(old(token_stream).toks(), old(token_stream).pos()), old(token_stream).toks(), final(token_stream).pos()),
        decreases old(token_stream).remaining(), 4nat,
    {
        self.parse_unary_expr(token_stream)
    }

    /// Prefix `++` and `--` before a postfix expression.
    fn parse_unary_expr(&mut self, token_stream: &mut TokenStream) -> (r: Result<RowExpr, Error>)
        requires
            old(token_stream).wf(),
        ensures
            advanced(*old(token_stream), *final(token_stream), r is Ok),
            parsed_as(r, p_unary(old(token_stream).toks(), old(token_stream).pos()), old(token_stream).toks(), final(token_stream).pos()),
        decreases old(token_stream).remaining(), 3nat,
    {
        let token = match token_stream.peek() {
            Ok(v) => v,
            Err(e) => {
                return Err(e);
            },
        };
        match token.kind {
            TokenKind::Punc(PuncToken::PlusPlus) => {
                match token_stream.next() {
                    Ok(v) => v,
                    Err(e) => {
                        return Err(e);
                    },
                };
                let e = match self.parse_postfix_expr(token_stream) {
                    Ok(v) => v,
                    Err(e) => {
                        return Err(e);
                    },
                };
                Ok(RowExpr::new_unary_increment(e, token.position))
            },
            TokenKind::Punc(PuncToken::MinusMinus) => {
                match token_stream.next() {
                    Ok(v) => v,
                    Err(e) => {
                        return Err(e);
                    },
                };
                let e = match self.parse_postfix_expr(token_stream) {
                    Ok(v) => v,
                    Err(e) => {
                        return Err(e);
                    },
                };
                Ok(RowExpr::new_unary_decrement(e, token.position))
            },
            _ => self.parse_postfix_expr(token_stream),
        }
    }

    /// A primary expression followed by any chain of `++`, `--` and calls.
    fn parse_postfix_expr(&mut self, token_stream: &mut TokenStream) -> (r: Result<RowExpr, Error>)
        requires
            old(token_stream).wf(),
        ensures
            advanced(*old(token_stream), *final(token_stream), r is Ok),
            parsed_as(r, p_postfix(old(token_stream).toks(), old(token_stream).pos()), old(token_stream).toks(), final(token_stream).pos()),
        decreases old(token_stream).remaining(), 2nat,
    {
        let ghost t = token_stream.toks();
        let ghost pos0 = token_stream.pos();
        let mut expr = match self.parse_primary_expr(token_stream) {
            Ok(v) => v,
            Err(e) => {
                return Err(e);
            },
        };
        loop
            invariant
                token_stream.wf(),
                token_stream.toks() == t,
                t == old(token_stream).toks(),
                pos0 == old(token_stream).pos(),
                advanced(*old(token_stream), *token_stream, true),
                p_postfix(t, pos0) == postfix_rest(t, expr@, token_stream.pos()),
            ensures
                p_postfix(t, pos0) == Ok::<(RowExprView, nat), ParseFail>((expr@, token_stream.pos())),
            decreases token_stream.remaining(),
        {
            let token = match token_stream.peek() {
                Ok(v) => v,
                Err(e) => {
                    return Err(e);
                },
            };
            match token.kind {
                TokenKind::Punc(PuncToken::PlusPlus) => {
                    match token_stream.next() {
                        Ok(v) => v,
                        Err(e) => {
                            return Err(e);
                        },
                    };
                    expr = RowExpr::new_postfix_increment(expr, token.position);
                },
                TokenKind::Punc(PuncToken::MinusMinus) => {
                    match token_stream.next() {
                        Ok(v) => v,
                        Err(e) => {
                            return Err(e);
                        },
                    };
                    expr = RowExpr::new_postfix_decrement(expr, token.position);
                },
                TokenKind::Punc(PuncToken::OpenRound) => {
                    match token_stream.next() {
                        Ok(v) => v,
                        Err(e) => {
                            return Err(e);
                        },
                    };
                    let args = match self.parse_call_args(token_stream) {
                        Ok(v) => v,
                        Err(e) => {
                            return Err(e);
                        },
                    };
                    expr = RowExpr::new_func(expr, args, token.position);
                },
                _ => {
                    break;
                },
            }
        }
        Ok(expr)
    }

    /// The arguments after `(`, up to and including `)`.
    fn parse_call_args(&mut self, token_stream: &mut TokenStream) -> (r: Result<Vec<RowExpr>, Error>)
        requires
            old(token_stream).wf(),
        ensures
            advanced(*old(token_stream), *final(token_stream), r is Ok),
            match call_args(old(token_stream).toks(), old(token_stream).pos()) {
                Ok((args, p)) => r is Ok && view_row_exprs(r->Ok_0@) == args && final(token_stream).pos() == p,
                Err(f) => r is Err && fail_is(r->Err_0, f, old(token_stream).toks()),
            },
        decreases old(token_stream).remaining(), 18nat,
    {
        let ghost t = token_stream.toks();
        let ghost pos0 = token_stream.pos();
        let closed = match token_stream.consume(TokenKind::Punc(PuncToken::CloseRound)) {
            Ok(v) => v,
            Err(e) => {
                return Err(e);
            },
        };
        if closed {
            match token_stream.next() {
                Ok(v) => v,
                Err(e) => {
                    return Err(e);
                },
            };
            let none: Vec<RowExpr> = Vec::new();
            assert(view_row_exprs(none@) =~= Seq::<RowExprView>::empty());
            return Ok(none);
        }
        let first = match self.parse_assignment_expr(token_stream) {
            Ok(v) => v,
            Err(e) => {
                return Err(e);
            },
        };
        let mut args: Vec<RowExpr> = Vec::new();
        proof {
            lemma_view_row_exprs_push(args@, first);
            assert(view_row_exprs(args@) =~= Seq::<RowExprView>::empty());
        }
        args.push(first);
        loop
            invariant
                token_stream.wf(),
                token_stream.toks() == t,
                t == old(token_stream).toks(),
                pos0 == old(token_stream).pos(),
                advanced(*old(token_stream), *token_stream, true),
                call_args(t, pos0) == args_rest(t, view_row_exprs(args@), token_stream.pos()),
            ensures
                call_args(t, pos0) == args_rest(t, view_row_exprs(args@), token_stream.pos()),
                token_stream.pos() < t.len(),
                t[token_stream.pos() as int].kind == TokenKind::Punc(PuncToken::CloseRound),
            decreases token_stream.remaining(),
        {
            let closed = match token_stream.consume(TokenKind::Punc(PuncToken::CloseRound)) {
                Ok(v) => v,
                Err(e) => {
                    return Err(e);
                },
            };
            if closed {
                break;
            }
            match token_stream.expect(TokenKind::Punc(PuncToken::Comma)) {
                Ok(v) => v,
                Err(e) => {
                    return Err(e);
                },
            };
            let a = match self.parse_assignment_expr(token_stream) {
                Ok(v) => v,
                Err(e) => {
                    return Err(e);
                },
            };
            proof {
                lemma_view_row_exprs_push(args@, a);
            }
            args.push(a);
        }
        match token_stream.next() {
            Ok(v) => v,
            Err(e) => {
                return Err(e);
            },
        };
        Ok(args)
    }

    /// A number, an identifier or a parenthesized expression.
    fn parse_primary_expr(&mut self, token_stream: &mut TokenStream) -> (r: Result<RowExpr, Error>)
        requires
            old(token_stream).wf(),
        ensures
            advanced(*old(token_stream), *final(token_stream), r is Ok),
            parsed_as(r, p_primary(old(token_stream).toks(), old(token_stream).pos()), old(token_stream).toks(), final(token_stream).pos()),
        decreases old(token_stream).remaining(), 1nat,
    {
        let token = match token_stream.next() {
            Ok(v) => v,
            Err(e) => {
                return Err(e);
            },
        };
        match token.kind {
            TokenKind::Number(number) => Ok(RowExpr::new_number(number, token.position)),
            TokenKind::Ident(name) => Ok(RowExpr::new_ident(name, token.position)),
            TokenKind::Punc(PuncToken::OpenRound) => {
                let expr = match self.parse_expr(token_stream) {
                    Ok(v) => v,
                    Err(e) => {
                        return Err(e);
                    },
                };
                match token_stream.expect(TokenKind::Punc(PuncToken::CloseRound)) {
                    Ok(v) => v,
                    Err(e) => {
                        return Err(e);
                    },
                };
                Ok(expr)
            },
            _ => Err(Error::new_unexpected_token(token, string_from("primary expression"))),
        }
    }
}

impl Parser {
    /// A statement, chosen by its first token.
    pub fn parse_stmt(&mut self, token_stream: &mut TokenStream) -> (r: Result<RowStmt, Error>)
        requires
            old(token_stream).wf(),
        ensures
            advanced(*old(token_stream), *final(token_stream), r is Ok),
            parsed_as(r, s_stmt(old(token_stream).toks(), old(token_stream).pos()), old(token_stream).toks(), final(token_stream).pos()),
        decreases old(token_stream).remaining(), 2nat,
    {
        let token = match token_stream.peek() {
            Ok(v) => v,
            Err(e) => {
                return Err(e);
            },
        };
        match token.kind {
            TokenKind::Return => self.parse_return_stmt(token_stream),
            TokenKind::If => self.parse_if_stmt(token_stream),
            TokenKind::For => self.parse_for_stmt(token_stream),
            TokenKind::While => self.parse_while_stmt(token_stream),
            TokenKind::Punc(PuncToken::OpenCurly) => self.parse_cpd_stmt(token_stream),
            _ => self.parse_expr_stmt(token_stream),
        }
    }

    /// `return ;` or `return expr ;`.
    fn parse_return_stmt(&mut self, token_stream: &mut TokenStream) -> (r: Result<RowStmt, Error>)
        requires
            old(token_stream).wf(),
        ensures
            advanced(*old(token_stream), *final(token_stream), r is Ok),
            parsed_as(r, s_return(old(token_stream).toks(), old(token_stream).pos()), old(token_stream).toks(), final(token_stream).pos()),
        decreases old(token_stream).remaining(), 1nat,
    {
        let token = match token_stream.expect(TokenKind::Return) {
            Ok(v) => v,
            Err(e) => {
                return Err(e);
            },
        };
        let bare = match token_stream.consume(TokenKind::Punc(PuncToken::Semicolon)) {
            Ok(v) => v,
            Err(e) => {
                return Err(e);
            },
        };
        if bare {
            match token_stream.next() {
                Ok(v) => v,
                Err(e) => {
                    return Err(e);
                },
            };
            return Ok(RowStmt::new_return(None, token.position));
        }
        let expr = match self.parse_expr(token_stream) {
            Ok(v) => v,
            Err(e) => {
                return Err(e);
            },
        };
        match token_stream.expect(TokenKind::Punc(PuncToken::Semicolon)) {
            Ok(v) => v,
            Err(e) => {
                return Err(e);
            },
        };
        Ok(RowStmt::new_return(Some(expr), token.position))
    }

    /// `if ( expr ) stmt` with an optional `else stmt`.
    fn parse_if_stmt(&mut self, token_stream: &mut TokenStream) -> (r: Result<RowStmt, Error>)
        requires
            old(token_stream).wf(),
        ensures
            advanced(*old(token_stream), *final(token_stream), r is Ok),
            parsed_as(r, s_if(old(token_stream).toks(), old(token_stream).pos()), old(token_stream).toks(), final(token_stream).pos()),
        decreases old(token_stream).remaining(), 1nat,
    {
        let token = match token_stream.expect(TokenKind::If) {
            Ok(v) => v,
            Err(e) => {
                return Err(e);
            },
        };
        match token_stream.expect(TokenKind::Punc(PuncToken::OpenRound)) {
            Ok(v) => v,
            Err(e) => {
                return Err(e);
            },
        };
        let condition = match self.parse_expr(token_stream) {
            Ok(v) => v,
            Err(e) => {
                return Err(e);
            },
        };
        match token_stream.expect(TokenKind::Punc(PuncToken::CloseRound)) {
            Ok(v) => v,
            Err(e) => {
                return Err(e);
            },
        };
        let then_stmt = match self.parse_stmt(token_stream) {
            Ok(v) => v,
            Err(e) => {
                return Err(e);
            },
        };
        let has_else = match token_stream.consume(TokenKind::Else) {
            Ok(v) => v,
            Err(e) => {
                return Err(e);
            },
        };
        if has_else {
            match token_stream.next() {
                Ok(v) => v,
                Err(e) => {
                    return Err(e);
                },
            };
            let else_stmt = match self.parse_stmt(token_stream) {
                Ok(v) => v,
                Err(e) => {
                    return Err(e);
                },
            };
            return Ok(RowStmt::new_if(condition, then_stmt, Some(else_stmt), token.position));
        }
        Ok(RowStmt::new_if(condition, then_stmt, None, token.position))
    }

    /// An optional expression, absent when the punctuator `stop` follows.
    fn parse_opt_expr(&mut self, token_stream: &mut TokenStream, stop: PuncToken) -> (r: Result<
        Option<RowExpr>,
        Error,
    >)
        requires
            old(token_stream).wf(),
        ensures
            advanced(*old(token_stream), *final(token_stream), false),
            match opt_until(old(token_stream).toks(), old(token_stream).pos(), stop) {
                Ok((o, p)) => r is Ok && view_row_opt(r->Ok_0) == o && final(token_stream).pos() == p,
                Err(f) => r is Err && fail_is(r->Err_0, f, old(token_stream).toks()),
            },
    {
        let absent = match token_stream.consume(TokenKind::Punc(stop)) {
            Ok(v) => v,
            Err(e) => {
                return Err(e);
            },
        };
        if absent {
            return Ok(None);
        }
        let expr = match self.parse_expr(token_stream) {
            Ok(v) => v,
            Err(e) => {
                return Err(e);
            },
        };
        Ok(Some(expr))
    }

    /// `for ( init ; condition ; step ) stmt`; each clause may be empty.
    fn parse_for_stmt(&mut self, token_stream: &mut TokenStream) -> (r: Result<RowStmt, Error>)
        requires
            old(token_stream).wf(),
        ensures
            advanced(*old(token_stream), *final(token_stream), r is Ok),
            parsed_as(r, s_for(old(token_stream).toks(), old(token_stream).pos()), old(token_stream).toks(), final(token_stream).pos()),
        decreases old(token_stream).remaining(), 1nat,
    {
        let token = match token_stream.expect(TokenKind::For) {
            Ok(v) => v,
            Err(e) => {
                return Err(e);
            },
        };
        match token_stream.expect(TokenKind::Punc(PuncToken::OpenRound)) {
            Ok(v) => v,
            Err(e) => {
                return Err(e);
            },
        };
        let init = match self.parse_opt_expr(token_stream, PuncToken::Semicolon) {
            Ok(v) => v,
            Err(e) => {
                return Err(e);
            },
        };
        match token_stream.expect(TokenKind::Punc(PuncToken::Semicolon)) {
            Ok(v) => v,
            Err(e) => {
                return Err(e);
            },
        };
        let condition = match self.parse_opt_expr(token_stream, PuncToken::Semicolon) {
            Ok(v) => v,
            Err(e) => {
                return Err(e);
            },
        };
        match token_stream.expect(TokenKind::Punc(PuncToken::Semicolon)) {
            Ok(v) => v,
            Err(e) => {
                return Err(e);
            },
        };
        let delta = match self.parse_opt_expr(token_stream, PuncToken::CloseRound) {
            Ok(v) => v,
            Err(e) => {
                return Err(e);
            },
        };
        match token_stream.expect(TokenKind::Punc(PuncToken::CloseRound)) {
            Ok(v) => v,
            Err(e) => {
                return Err(e);
            },
        };
        let run_stmt = match self.parse_stmt(token_stream) {
            Ok(v) => v,
            Err(e) => {
                return Err(e);
            },
        };
        Ok(RowStmt::new_for(init, condition, delta, run_stmt, token.position))
    }

    /// `while ( expr ) stmt`.
    fn parse_while_stmt(&mut self, token_stream: &mut TokenStream) -> (r: Result<RowStmt, Error>)
        requires
            old(token_stream).wf(),
        ensures
            advanced(*old(token_stream), *final(token_stream), r is Ok),
            parsed_as(r, s_while(old(token_stream).toks(), old(token_stream).pos()), old(token_stream).toks(), final(token_stream).pos()),
        decreases old(token_stream).remaining(), 1nat,
    {
        let token = match token_stream.expect(TokenKind::While) {
            Ok(v) => v,
            Err(e) => {
                return Err(e);
            },
        };
        match token_stream.expect(TokenKind::Punc(PuncToken::OpenRound)) {
            Ok(v) => v,
            Err(e) => {
                return Err(e);
            },
        };
        let condition = match self.parse_expr(token_stream) {
            Ok(v) => v,
            Err(e) => {
                return Err(e);
            },
        };
        match token_stream.expect(TokenKind::Punc(PuncToken::CloseRound)) {
            Ok(v) => v,
            Err(e) => {
                return Err(e);
            },
        };
        let run_stmt = match self.parse_stmt(token_stream) {
            Ok(v) => v,
            Err(e) => {
                return Err(e);
            },
        };
        Ok(RowStmt::new_while(condition, run_stmt, token.position))
    }

    /// `{ stmt* }`.
    fn parse_cpd_stmt(&mut self, token_stream: &mut TokenStream) -> (r: Result<RowStmt, Error>)
        requires
            old(token_stream).wf(),
        ensures
            advanced(*old(token_stream), *final(token_stream), r is Ok),
            parsed_as(r, s_block(old(token_stream).toks(), old(token_stream).pos()), old(token_stream).toks(), final(token_stream).pos()),
        decreases old(token_stream).remaining(), 1nat,
    {
        let token = match token_stream.expect(TokenKind::Punc(PuncToken::OpenCurly)) {
            Ok(v) => v,
            Err(e) => {
                return Err(e);
            },
        };
        let ghost t = token_stream.toks();
        let ghost pos0 = token_stream.pos();
        let mut stmts: Vec<RowStmt> = Vec::new();
        assert(view_row_stmts(stmts@) =~= Seq::<RowStmtView>::empty());
        loop
            invariant
                token_stream.wf(),
                token_stream.toks() == t,
                t == old(token_stream).toks(),
                pos0 == old(token_stream).pos() + 1,
                expect_at(t, old(token_stream).pos(), TokenKind::Punc(PuncToken::OpenCurly)) == Ok::<nat, ParseFail>(pos0),
                advanced(*old(token_stream), *token_stream, true),
                block_rest(t, Seq::empty(), pos0) == block_rest(t, view_row_stmts(stmts@), token_stream.pos()),
            ensures
                block_rest(t, Seq::empty(), pos0) == block_rest(t, view_row_stmts(stmts@), token_stream.pos()),
                token_stream.pos() < t.len(),
                t[token_stream.pos() as int].kind == TokenKind::Punc(PuncToken::CloseCurly),
            decreases token_stream.remaining(),
        {
            let end = match token_stream.consume(TokenKind::Punc(PuncToken::CloseCurly)) {
                Ok(v) => v,
                Err(e) => {
                    return Err(e);
                },
            };
            if end {
                break;
            }
            let stmt = match self.parse_stmt(token_stream) {
                Ok(v) => v,
                Err(e) => {
                    return Err(e);
                },
            };
            proof {
                lemma_view_row_stmts_push(stmts@, stmt);
            }
            stmts.push(stmt);
        }
        match token_stream.next() {
            Ok(v) => v,
            Err(e) => {
                return Err(e);
            },
        };
        Ok(RowStmt::new_cpd(stmts, token.position))
    }

    /// `expr ;`, or a lone `;`, which is an empty statement.
    fn parse_expr_stmt(&mut self, token_stream: &mut TokenStream) -> (r: Result<RowStmt, Error>)
        requires
            old(token_stream).wf(),
        ensures
            advanced(*old(token_stream), *final(token_stream), r is Ok),
            parsed_as(r, s_expr(old(token_stream).toks(), old(token_stream).pos()), old(token_stream).toks(), final(token_stream).pos()),
        decreases old(token_stream).remaining(), 1nat,
    {
        let token = match token_stream.peek() {
            Ok(v) => v,
            Err(e) => {
                return Err(e);
            },
        };
        if matches!(token.kind, TokenKind::Punc(PuncToken::Semicolon)) {
            match token_stream.next() {
                Ok(v) => v,
                Err(e) => {
                    return Err(e);
                },
            };
            return Ok(RowStmt::new_expr(None, token.position));
        }
        let expr = match self.parse_expr(token_stream) {
            Ok(v) => v,
            Err(e) => {
                return Err(e);
            },
        };
        match token_stream.expect(TokenKind::Punc(PuncToken::Semicolon)) {
            Ok(v) => v,
            Err(e) => {
                return Err(e);
            },
        };
        Ok(RowStmt::new_expr(Some(expr), token.position))
    }
}

} // verus!
