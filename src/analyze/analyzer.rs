use vstd::prelude::*;

use super::expr::{
    lemma_view_exprs_push, view_callee, view_expr, view_exprs, assign_op_of, binary_op_of, BinaryOpKind, CalleeView, Expr, ExprKind, ExprView, ExprViewKind,
    FuncCallKind,
};
use super::program::Program;
use super::stmt::{lemma_view_stmts_push, view_stmts, Stmt, StmtKind, StmtView, StmtViewKind};
use super::variable::Variable;
use crate::error::Error;
use crate::file::position::Position;
use crate::generate::code::{args_ok, expr_ok, opt_ok, stmt_ok, stmts_ok};
use crate::parse::row_expr::{RowAssignOpKind, RowBinaryOpKind, RowExpr, RowExprKind};
use crate::parse::row_program::RowProgram;
use crate::parse::row_stmt::{RowStmt, RowStmtKind};

verus! {

/// The names seen so far, in order of first use: the name at index `i` lives
/// at offset `8 * (i + 1)`.
pub type Names = Seq<Seq<char>>;

/// The index of `n` in a table that holds it.
pub open spec fn index_in(names: Names, n: Seq<char>) -> int {
    choose|i: int| 0 <= i < names.len() && names[i] == n
}

/// Resolves `n`: its slot when the table holds it, else a new slot after the
/// last one. Fails only when the new offset would not fit in a `usize`.
pub open spec fn lookup(names: Names, n: Seq<char>) -> Result<(Variable, Names), Error> {
    if names.contains(n) {
        Ok((Variable { offset: (8 * (index_in(names, n) + 1)) as usize }, names))
    } else if 8 * (names.len() + 1) <= usize::MAX {
        Ok((Variable { offset: (8 * (names.len() + 1)) as usize }, names.push(n)))
    } else {
        Err(Error::Unexpected)
    }
}

pub open spec fn number(n: usize, p: Position) -> ExprView {
    ExprView { kind: ExprViewKind::Number { number: n }, position: p }
}

pub open spec fn is_identifier(e: RowExpr) -> bool {
    e.kind is Identifier
}

/// The lowered form of a binary expression from its lowered operands: `&&`
/// and `||` become conditions, `>` and `>=` swap their operands.
pub open spec fn lower_binary(op: RowBinaryOpKind, l: ExprView, r: ExprView, p: Position) -> ExprView {
    match op {
        RowBinaryOpKind::LogicAnd => ExprView {
            kind: ExprViewKind::Condition {
                condition: Box::new(l),
                then_expr: Box::new(r),
                else_expr: Box::new(number(0, p)),
            },
            position: p,
        },
        RowBinaryOpKind::LogicOr => ExprView {
            kind: ExprViewKind::Condition {
                condition: Box::new(l),
                then_expr: Box::new(number(1, p)),
                else_expr: Box::new(r),
            },
            position: p,
        },
        RowBinaryOpKind::Gt => ExprView {
            kind: ExprViewKind::Binary { op_kind: BinaryOpKind::Lt, lhs: Box::new(r), rhs: Box::new(l) },
            position: p,
        },
        RowBinaryOpKind::GtEqual => ExprView {
            kind: ExprViewKind::Binary {
                op_kind: BinaryOpKind::LtEqual,
                lhs: Box::new(r),
                rhs: Box::new(l),
            },
            position: p,
        },
        _ => ExprView {
            kind: ExprViewKind::Binary {
                op_kind: binary_op_of(op).unwrap(),
                lhs: Box::new(l),
                rhs: Box::new(r),
            },
            position: p,
        },
    }
}

/// The lowered form of an assignment from its lowered operands.
pub open spec fn lower_assign(op: RowAssignOpKind, l: ExprView, r: ExprView, p: Position) -> ExprView {
    match assign_op_of(op) {
        None => ExprView { kind: ExprViewKind::Assign { lhs: Box::new(l), rhs: Box::new(r) }, position: p },
        Some(o) => ExprView {
            kind: ExprViewKind::AssignOp { op_kind: o, lhs: Box::new(l), rhs: Box::new(r) },
            position: p,
        },
    }
}

/// Lowers an expression against the table `names`: the lowered expression and
/// the table afterwards, or the first error. Operands are lowered from left to
/// right, so names get their slots in order of first use.
pub open spec fn lower_expr(e: RowExpr, names: Names) -> Result<(ExprView, Names), Error>
    decreases e,
{
    let p = e.position;
    match e.kind {
        RowExprKind::Binary { row_binary_op_kind, row_lhs_expr, row_rhs_expr } => match lower_expr(
            *row_lhs_expr,
            names,
        ) {
            Err(err) => Err(err),
            Ok((l, n1)) => match lower_expr(*row_rhs_expr, n1) {
                Err(err) => Err(err),
                Ok((r, n2)) => Ok((lower_binary(row_binary_op_kind, l, r, p), n2)),
            },
        },
        RowExprKind::Assign { row_assign_op_kind, row_lhs_expr, row_rhs_expr } => if !is_identifier(
            *row_lhs_expr,
        ) {
            Err(Error::AnalyzeInvalidAssignTarget { position: row_lhs_expr.position })
        } else {
            match lower_expr(*row_lhs_expr, names) {
                Err(err) => Err(err),
                Ok((l, n1)) => match lower_expr(*row_rhs_expr, n1) {
                    Err(err) => Err(err),
                    Ok((r, n2)) => Ok((lower_assign(row_assign_op_kind, l, r, p), n2)),
                },
            }
        },
        RowExprKind::Comma { row_lhs_expr, row_rhs_expr } => match lower_expr(*row_lhs_expr, names) {
            Err(err) => Err(err),
            Ok((l, n1)) => match lower_expr(*row_rhs_expr, n1) {
                Err(err) => Err(err),
                Ok((r, n2)) => Ok(
                    (ExprView { kind: ExprViewKind::Comma { lhs: Box::new(l), rhs: Box::new(r) }, position: p }, n2),
                ),
            },
        },
        RowExprKind::Condition { row_condition_expr, row_then_expr, row_else_expr } => match lower_expr(
            *row_condition_expr,
            names,
        ) {
            Err(err) => Err(err),
            Ok((c, n1)) => match lower_expr(*row_then_expr, n1) {
                Err(err) => Err(err),
                Ok((t, n2)) => match lower_expr(*row_else_expr, n2) {
                    Err(err) => Err(err),
                    Ok((f, n3)) => Ok(
                        (
                            ExprView {
                                kind: ExprViewKind::Condition {
                                    condition: Box::new(c),
                                    then_expr: Box::new(t),
                                    else_expr: Box::new(f),
                                },
                                position: p,
                            },
                            n3,
                        ),
                    ),
                },
            },
        },
        RowExprKind::UnaryIncrement { row_expr } => if !is_identifier(*row_expr) {
            Err(Error::AnalyzeInvalidAssignTarget { position: row_expr.position })
        } else {
            match lower_expr(*row_expr, names) {
                Err(err) => Err(err),
                Ok((x, n1)) => Ok(
                    (
                        ExprView {
                            kind: ExprViewKind::AssignOp {
                                op_kind: BinaryOpKind::Add,
                                lhs: Box::new(x),
                                rhs: Box::new(number(1, p)),
                            },
                            position: p,
                        },
                        n1,
                    ),
                ),
            }
        },
        RowExprKind::UnaryDecrement { row_expr } => if !is_identifier(*row_expr) {
            Err(Error::AnalyzeInvalidAssignTarget { position: row_expr.position })
        } else {
            match lower_expr(*row_expr, names) {
                Err(err) => Err(err),
                Ok((x, n1)) => Ok(
                    (
                        ExprView {
                            kind: ExprViewKind::AssignOp {
                                op_kind: BinaryOpKind::Sub,
                                lhs: Box::new(x),
                                rhs: Box::new(number(1, p)),
                            },
                            position: p,
                        },
                        n1,
                    ),
                ),
            }
        },
        RowExprKind::PostfixIncrement { row_expr } => if !is_identifier(*row_expr) {
            Err(Error::AnalyzeInvalidAssignTarget { position: row_expr.position })
        } else {
            match lower_expr(*row_expr, names) {
                Err(err) => Err(err),
                Ok((x, n1)) => Ok(
                    (ExprView { kind: ExprViewKind::PostfixIncrement { expr: Box::new(x) }, position: p }, n1),
                ),
            }
        },
        RowExprKind::PostfixDecrement { row_expr } => if !is_identifier(*row_expr) {
            Err(Error::AnalyzeInvalidAssignTarget { position: row_expr.position })
        } else {
            match lower_expr(*row_expr, names) {
                Err(err) => Err(err),
                Ok((x, n1)) => Ok(
                    (ExprView { kind: ExprViewKind::PostfixDecrement { expr: Box::new(x) }, position: p }, n1),
                ),
            }
        },
        RowExprKind::Identifier { ident } => match lookup(names, ident@) {
            Err(err) => Err(err),
            Ok((var, n1)) => Ok((ExprView { kind: ExprViewKind::Variable { var }, position: p }, n1)),
        },
        RowExprKind::Number { number } => Ok(
            (ExprView { kind: ExprViewKind::Number { number }, position: p }, names),
        ),
        RowExprKind::Func { row_name_expr, row_args_expr } => match row_name_expr.kind {
            RowExprKind::Identifier { ident } => match lower_args(row_args_expr@, names) {
                Err(err) => Err(err),
                Ok((args, n1)) => Ok(
                    (
                        ExprView {
                            kind: ExprViewKind::Func { callee: CalleeView::Label { name: ident }, args },
                            position: p,
                        },
                        n1,
                    ),
                ),
            },
            _ => match lower_expr(*row_name_expr, names) {
                Err(err) => Err(err),
                Ok((callee, n1)) => match lower_args(row_args_expr@, n1) {
                    Err(err) => Err(err),
                    Ok((args, n2)) => Ok(
                        (
                            ExprView {
                                kind: ExprViewKind::Func {
                                    callee: CalleeView::Expr { expr: Box::new(callee) },
                                    args,
                                },
                                position: p,
                            },
                            n2,
                        ),
                    ),
                },
            },
        },
    }
}

/// Lowers a sequence of expressions from left to right.
pub open spec fn lower_args(args: Seq<RowExpr>, names: Names) -> Result<(Seq<ExprView>, Names), Error>
    decreases args,
{
    if args.len() == 0 {
        Ok((Seq::empty(), names))
    } else {
        match lower_expr(args[0], names) {
            Err(err) => Err(err),
            Ok((x, n1)) => match lower_args(args.drop_first(), n1) {
                Err(err) => Err(err),
                Ok((xs, n2)) => Ok((seq![x] + xs, n2)),
            },
        }
    }
}

/// Lowers an optional expression.
pub open spec fn lower_opt(e: Option<RowExpr>, names: Names) -> Result<(Option<ExprView>, Names), Error> {
    match e {
        None => Ok((None, names)),
        Some(x) => match lower_expr(x, names) {
            Err(err) => Err(err),
            Ok((v, n1)) => Ok((Some(v), n1)),
        },
    }
}

/// Lowers a statement against the table `names`: its parts in source order.
/// An omitted `for` condition becomes the literal 1.
pub open spec fn lower_stmt(s: RowStmt, names: Names) -> Result<(StmtView, Names), Error>
    decreases s,
{
    let p = s.position;
    match s.kind {
        RowStmtKind::Expr { expr } => match lower_opt(expr, names) {
            Err(err) => Err(err),
            Ok((e, n1)) => Ok((StmtView { kind: StmtViewKind::Expr { expr: e }, position: p }, n1)),
        },
        RowStmtKind::Return { expr } => match lower_opt(expr, names) {
            Err(err) => Err(err),
            Ok((e, n1)) => Ok((StmtView { kind: StmtViewKind::Return { expr: e }, position: p }, n1)),
        },
        RowStmtKind::If { condition_expr, then_stmt, else_stmt } => match lower_expr(condition_expr, names) {
            Err(err) => Err(err),
            Ok((c, n1)) => match lower_stmt(*then_stmt, n1) {
                Err(err) => Err(err),
                Ok((t, n2)) => match *else_stmt {
                    None => Ok(
                        (
                            StmtView {
                                kind: StmtViewKind::If {
                                    condition_expr: c,
                                    then_stmt: Box::new(t),
                                    else_stmt: Box::new(None),
                                },
                                position: p,
                            },
                            n2,
                        ),
                    ),
                    Some(e) => match lower_stmt(e, n2) {
                        Err(err) => Err(err),
                        Ok((f, n3)) => Ok(
                            (
                                StmtView {
                                    kind: StmtViewKind::If {
                                        condition_expr: c,
                                        then_stmt: Box::new(t),
                                        else_stmt: Box::new(Some(f)),
                                    },
                                    position: p,
                                },
                                n3,
                            ),
                        ),
                    },
                },
            },
        },
        RowStmtKind::For { init_expr, condition_expr, delta_expr, run_stmt } => match lower_opt(
            init_expr,
            names,
        ) {
            Err(err) => Err(err),
            Ok((i, n1)) => match lower_opt(condition_expr, n1) {
                Err(err) => Err(err),
                Ok((c, n2)) => match lower_opt(delta_expr, n2) {
                    Err(err) => Err(err),
                    Ok((d, n3)) => match lower_stmt(*run_stmt, n3) {
                        Err(err) => Err(err),
                        Ok((b, n4)) => Ok(
                            (
                                StmtView {
                                    kind: StmtViewKind::For {
                                        init_expr: i,
                                        condition_expr: match c {
                                            Some(c) => c,
                                            None => number(1, p),
                                        },
                                        delta_expr: d,
                                        run_stmt: Box::new(b),
                                    },
                                    position: p,
                                },
                                n4,
                            ),
                        ),
                    },
                },
            },
        },
        RowStmtKind::While { condition_expr, run_stmt } => match lower_expr(condition_expr, names) {
            Err(err) => Err(err),
            Ok((c, n1)) => match lower_stmt(*run_stmt, n1) {
                Err(err) => Err(err),
                Ok((b, n2)) => Ok(
                    (
                        StmtView {
                            kind: StmtViewKind::While { condition_expr: c, run_stmt: Box::new(b) },
                            position: p,
                        },
                        n2,
                    ),
                ),
            },
        },
        RowStmtKind::Cpd { stmts } => match lower_stmts(stmts@, names) {
            Err(err) => Err(err),
            Ok((ss, n1)) => Ok((StmtView { kind: StmtViewKind::Cpd { stmts: ss }, position: p }, n1)),
        },
    }
}

/// Lowers a sequence of statements in order.
pub open spec fn lower_stmts(s: Seq<RowStmt>, names: Names) -> Result<(Seq<StmtView>, Names), Error>
    decreases s,
{
    if s.len() == 0 {
        Ok((Seq::empty(), names))
    } else {
        match lower_stmt(s[0], names) {
            Err(err) => Err(err),
            Ok((x, n1)) => match lower_stmts(s.drop_first(), n1) {
                Err(err) => Err(err),
                Ok((xs, n2)) => Ok((seq![x] + xs, n2)),
            },
        }
    }
}

/// `done` followed by what `rest` lowered to.
pub open spec fn prepend<T>(done: Seq<T>, rest: Result<(Seq<T>, Names), Error>) -> Result<(Seq<T>, Names), Error> {
    match rest {
        Err(err) => Err(err),
        Ok((xs, n)) => Ok((done + xs, n)),
    }
}

proof fn lemma_prepend_step<T>(done: Seq<T>, x: T, rest: Result<(Seq<T>, Names), Error>)
    ensures
        prepend(done, prepend(seq![x], rest)) == prepend(done.push(x), rest),
{
    if let Ok((xs, n)) = rest {
        assert(done + (seq![x] + xs) =~= done.push(x) + xs);
    }
}

/// `r` is what lowering `s` gives, and `after` the table it leaves.
pub open spec fn lowered_as<T: View>(r: Result<T, Error>, s: Result<(T::V, Names), Error>, after: Names) -> bool {
    match s {
        Ok((v, n)) => r is Ok && r->Ok_0@ == v && after == n,
        Err(err) => r is Err && r->Err_0 == err,
    }
}

/// `a` is a prefix of `b`.
pub open spec fn extends(a: Names, b: Names) -> bool {
    a.len() <= b.len() && forall|i: int| 0 <= i < a.len() ==> b[i] == a[i]
}

/// What lowering keeps: the table only grows at its end and stays free of
/// duplicates, and the result assigns only to variables.
pub open spec fn keeps_table(names: Names, after: Names) -> bool {
    &&& extends(names, after)
    &&& names.no_duplicates() ==> after.no_duplicates()
    &&& 8 * names.len() <= usize::MAX ==> 8 * after.len() <= usize::MAX
}

proof fn lemma_args_ok_cons(x: ExprView, xs: Seq<ExprView>)
    ensures
        args_ok(seq![x] + xs) == (expr_ok(x) && args_ok(xs)),
    decreases xs.len(),
{
    let s = seq![x] + xs;
    if xs.len() == 0 {
        assert(s.drop_last() =~= Seq::<ExprView>::empty());
        assert(s.last() == x);
        assert(args_ok(Seq::<ExprView>::empty()));
        assert(xs =~= Seq::<ExprView>::empty());
        assert(args_ok(s) == (expr_ok(s.last()) && args_ok(s.drop_last())));
    } else {
        assert(s.last() == xs.last());
        assert(s.drop_last() =~= seq![x] + xs.drop_last());
        lemma_args_ok_cons(x, xs.drop_last());
        assert(args_ok(s) == (expr_ok(s.last()) && args_ok(s.drop_last())));
        assert(args_ok(xs) == (expr_ok(xs.last()) && args_ok(xs.drop_last())));
    }
}

proof fn lemma_lookup(names: Names, x: Seq<char>)
    ensures
        lookup(names, x) matches Ok((_, n)) ==> keeps_table(names, n),
{
    if let Ok((_, n)) = lookup(names, x) {
        if !names.contains(x) {
            assert(n == names.push(x));
            if names.no_duplicates() {
                assert forall|i: int, j: int| 0 <= i < j < n.len() implies n[i] != n[j] by {
                    if j == names.len() {
                        assert(names[i] == n[i]);
                    }
                }
            }
        }
    }
}

/// Lowering an expression keeps the table and assigns only to variables.
pub proof fn lemma_lower_expr(e: RowExpr, names: Names)
    ensures
        lower_expr(e, names) matches Ok((v, n)) ==> expr_ok(v) && keeps_table(names, n),
    decreases e,
{
    assert(expr_ok(number(0, e.position)) && expr_ok(number(1, e.position)));
    match e.kind {
        RowExprKind::Binary { row_lhs_expr, row_rhs_expr, .. } => {
            lemma_lower_expr(*row_lhs_expr, names);
            if let Ok((_, n1)) = lower_expr(*row_lhs_expr, names) {
                lemma_lower_expr(*row_rhs_expr, n1);
            }
        },
        RowExprKind::Assign { row_lhs_expr, row_rhs_expr, .. } => {
            lemma_lower_expr(*row_lhs_expr, names);
            if let Ok((_, n1)) = lower_expr(*row_lhs_expr, names) {
                lemma_lower_expr(*row_rhs_expr, n1);
            }
            if let RowExprKind::Identifier { ident } = row_lhs_expr.kind {
                lemma_lookup(names, ident@);
            }
        },
        RowExprKind::Comma { row_lhs_expr, row_rhs_expr } => {
            lemma_lower_expr(*row_lhs_expr, names);
            if let Ok((_, n1)) = lower_expr(*row_lhs_expr, names) {
                lemma_lower_expr(*row_rhs_expr, n1);
            }
        },
        RowExprKind::Condition { row_condition_expr, row_then_expr, row_else_expr } => {
            lemma_lower_expr(*row_condition_expr, names);
            if let Ok((_, n1)) = lower_expr(*row_condition_expr, names) {
                lemma_lower_expr(*row_then_expr, n1);
                if let Ok((_, n2)) = lower_expr(*row_then_expr, n1) {
                    lemma_lower_expr(*row_else_expr, n2);
                }
            }
        },
        RowExprKind::UnaryIncrement { row_expr } | RowExprKind::UnaryDecrement { row_expr }
        | RowExprKind::PostfixIncrement { row_expr } | RowExprKind::PostfixDecrement {
            row_expr,
        } => {
            lemma_lower_expr(*row_expr, names);
            if let RowExprKind::Identifier { ident } = row_expr.kind {
                lemma_lookup(names, ident@);
            }
        },
        RowExprKind::Identifier { ident } => {
            lemma_lookup(names, ident@);
        },
        RowExprKind::Number { .. } => {},
        RowExprKind::Func { row_name_expr, row_args_expr } => {
            match row_name_expr.kind {
                RowExprKind::Identifier { .. } => {
                    lemma_lower_args(row_args_expr@, names);
                },
                _ => {
                    lemma_lower_expr(*row_name_expr, names);
                    if let Ok((_, n1)) = lower_expr(*row_name_expr, names) {
                        lemma_lower_args(row_args_expr@, n1);
                    }
                },
            }
        },
    }
}

/// Lowering expressions in order keeps the table and assigns only to variables.
pub proof fn lemma_lower_args(s: Seq<RowExpr>, names: Names)
    ensures
        lower_args(s, names) matches Ok((v, n)) ==> args_ok(v) && keeps_table(names, n),
    decreases s,
{
    if s.len() > 0 {
        lemma_lower_expr(s[0], names);
        if let Ok((x, n1)) = lower_expr(s[0], names) {
            lemma_lower_args(s.drop_first(), n1);
            if let Ok((xs, n2)) = lower_args(s.drop_first(), n1) {
                lemma_args_ok_cons(x, xs);
            }
        }
    } else {
        assert(args_ok(Seq::<ExprView>::empty()));
    }
}

proof fn lemma_lower_opt(e: Option<RowExpr>, names: Names)
    ensures
        lower_opt(e, names) matches Ok((v, n)) ==> opt_ok(v) && keeps_table(names, n),
{
    if let Some(x) = e {
        lemma_lower_expr(x, names);
    }
}

/// Lowering a statement keeps the table and assigns only to variables.
pub proof fn lemma_lower_stmt(s: RowStmt, names: Names)
    ensures
        lower_stmt(s, names) matches Ok((v, n)) ==> stmt_ok(v) && keeps_table(names, n),
    decreases s,
{
    match s.kind {
        RowStmtKind::Expr { expr } => lemma_lower_opt(expr, names),
        RowStmtKind::Return { expr } => lemma_lower_opt(expr, names),
        RowStmtKind::If { condition_expr, then_stmt, else_stmt } => {
            lemma_lower_expr(condition_expr, names);
            if let Ok((_, n1)) = lower_expr(condition_expr, names) {
                lemma_lower_stmt(*then_stmt, n1);
                if let Ok((_, n2)) = lower_stmt(*then_stmt, n1) {
                    if let Some(f) = *else_stmt {
                        lemma_lower_stmt(f, n2);
                    }
                }
            }
        },
        RowStmtKind::For { init_expr, condition_expr, delta_expr, run_stmt } => {
            lemma_lower_opt(init_expr, names);
            if let Ok((_, n1)) = lower_opt(init_expr, names) {
                lemma_lower_opt(condition_expr, n1);
                if let Ok((_, n2)) = lower_opt(condition_expr, n1) {
                    lemma_lower_opt(delta_expr, n2);
                    if let Ok((_, n3)) = lower_opt(delta_expr, n2) {
                        lemma_lower_stmt(*run_stmt, n3);
                    }
                }
            }
        },
        RowStmtKind::While { condition_expr, run_stmt } => {
            lemma_lower_expr(condition_expr, names);
            if let Ok((_, n1)) = lower_expr(condition_expr, names) {
                lemma_lower_stmt(*run_stmt, n1);
            }
        },
        RowStmtKind::Cpd { stmts } => lemma_lower_stmts(stmts@, names),
    }
}

/// Lowering statements in order keeps the table and assigns only to variables.
pub proof fn lemma_lower_stmts(s: Seq<RowStmt>, names: Names)
    ensures
        lower_stmts(s, names) matches Ok((v, n)) ==> stmts_ok(v) && keeps_table(names, n),
    decreases s,
{
    if s.len() > 0 {
        lemma_lower_stmt(s[0], names);
        if let Ok((x, n1)) = lower_stmt(s[0], names) {
            lemma_lower_stmts(s.drop_first(), n1);
            if let Ok((xs, n2)) = lower_stmts(s.drop_first(), n1) {
                assert((seq![x] + xs)[0] == x);
                assert((seq![x] + xs).drop_first() =~= xs);
            }
        }
    }
}

/// A name keeps its slot: once the table holds `x`, every later table, which
/// extends it and holds no name twice, resolves `x` to the same offset and is
/// left unchanged by the lookup. With `lemma_lower_stmts`, which shows that
/// lowering only extends the table, two occurrences of one identifier in a
/// unit get the same offset.
pub proof fn lemma_same_name_same_slot(names: Names, later: Names, x: Seq<char>)
    requires
        names.contains(x),
        extends(names, later),
        later.no_duplicates(),
    ensures
        lookup(later, x) == Ok::<(Variable, Names), Error>((lookup(names, x)->Ok_0.0, later)),
{
    let i = index_in(names, x);
    assert(later[i] == x);
    assert(later.contains(x));
    let j = index_in(later, x);
    assert(names.no_duplicates()) by {
        assert forall|a: int, b: int| 0 <= a < b < names.len() implies names[a] != names[b] by {
            assert(later[a] == names[a] && later[b] == names[b]);
        }
    }
    assert(j == i);
}

/// Slots are dense: the frame of a lowered unit is eight bytes per distinct
/// name in the table, and every slot is a positive multiple of eight.
pub proof fn lemma_frame_is_eight_per_name(s: Seq<RowStmt>, names: Names)
    requires
        names.no_duplicates(),
        8 * names.len() <= usize::MAX,
    ensures
        lower_stmts(s, names) matches Ok((_, n)) ==> n.no_duplicates() && extends(names, n)
            && forall|x: Seq<char>|
            #![trigger n.contains(x)]
            n.contains(x) ==> (lookup(n, x) matches Ok((v, _)) && v.offset as int == 8 * (index_in(
                n,
                x,
            ) + 1) && 8 <= v.offset <= 8 * n.len()),
{
    lemma_lower_stmts(s, names);
    if let Ok((_, n)) = lower_stmts(s, names) {
        assert forall|x: Seq<char>| #![trigger n.contains(x)] n.contains(x) implies (lookup(n, x) matches Ok((v, _))
            && v.offset as int == 8 * (index_in(n, x) + 1) && 8 <= v.offset <= 8 * n.len()) by {
            let i = index_in(n, x);
            assert(0 <= i < n.len());
            assert(8 * (i + 1) <= 8 * n.len());
        }
    }
}

/// The names that an expression mentions as variables; a called name is a
/// label, not a variable.
pub open spec fn idents_expr(e: RowExpr) -> Set<Seq<char>>
    decreases e,
{
    match e.kind {
        RowExprKind::Binary { row_lhs_expr, row_rhs_expr, .. } => idents_expr(*row_lhs_expr).union(
            idents_expr(*row_rhs_expr),
        ),
        RowExprKind::Assign { row_lhs_expr, row_rhs_expr, .. } => idents_expr(*row_lhs_expr).union(
            idents_expr(*row_rhs_expr),
        ),
        RowExprKind::Comma { row_lhs_expr, row_rhs_expr } => idents_expr(*row_lhs_expr).union(
            idents_expr(*row_rhs_expr),
        ),
        RowExprKind::Condition { row_condition_expr, row_then_expr, row_else_expr } => idents_expr(
            *row_condition_expr,
        ).union(idents_expr(*row_then_expr)).union(idents_expr(*row_else_expr)),
        RowExprKind::UnaryIncrement { row_expr } => idents_expr(*row_expr),
        RowExprKind::UnaryDecrement { row_expr } => idents_expr(*row_expr),
        RowExprKind::PostfixIncrement { row_expr } => idents_expr(*row_expr),
        RowExprKind::PostfixDecrement { row_expr } => idents_expr(*row_expr),
        RowExprKind::Identifier { ident } => set![ident@],
        RowExprKind::Number { .. } => Set::empty(),
        RowExprKind::Func { row_name_expr, row_args_expr } => {
            let callee = match row_name_expr.kind {
                RowExprKind::Identifier { .. } => Set::empty(),
                _ => idents_expr(*row_name_expr),
            };
            callee.union(idents_args(row_args_expr@))
        },
    }
}

pub open spec fn idents_args(s: Seq<RowExpr>) -> Set<Seq<char>>
    decreases s,
{
    if s.len() == 0 {
        Set::empty()
    } else {
        idents_expr(s[0]).union(idents_args(s.drop_first()))
    }
}

pub open spec fn idents_opt(e: Option<RowExpr>) -> Set<Seq<char>> {
    match e {
        None => Set::empty(),
        Some(x) => idents_expr(x),
    }
}

/// The names that a statement mentions as variables.
pub open spec fn idents_stmt(s: RowStmt) -> Set<Seq<char>>
    decreases s,
{
    match s.kind {
        RowStmtKind::Expr { expr } => idents_opt(expr),
        RowStmtKind::Return { expr } => idents_opt(expr),
        RowStmtKind::If { condition_expr, then_stmt, else_stmt } => {
            let f = match *else_stmt {
                None => Set::empty(),
                Some(x) => idents_stmt(x),
            };
            idents_expr(condition_expr).union(idents_stmt(*then_stmt)).union(f)
        },
        RowStmtKind::For { init_expr, condition_expr, delta_expr, run_stmt } => idents_opt(init_expr).union(
            idents_opt(condition_expr),
        ).union(idents_opt(delta_expr)).union(idents_stmt(*run_stmt)),
        RowStmtKind::While { condition_expr, run_stmt } => idents_expr(condition_expr).union(
            idents_stmt(*run_stmt),
        ),
        RowStmtKind::Cpd { stmts } => idents_stmts(stmts@),
    }
}

pub open spec fn idents_stmts(s: Seq<RowStmt>) -> Set<Seq<char>>
    decreases s,
{
    if s.len() == 0 {
        Set::empty()
    } else {
        idents_stmt(s[0]).union(idents_stmts(s.drop_first()))
    }
}

proof fn lemma_lookup_set(names: Names, x: Seq<char>)
    ensures
        lookup(names, x) matches Ok((_, n)) ==> n.to_set() == names.to_set().insert(x),
{
    if let Ok((_, n)) = lookup(names, x) {
        if names.contains(x) {
            assert(names.to_set().insert(x) =~= names.to_set());
        } else {
            names.lemma_push_to_set_commute(x);
        }
    }
}

/// Lowering an expression adds exactly the names it mentions to the table.
pub proof fn lemma_idents_expr(e: RowExpr, names: Names)
    ensures
        lower_expr(e, names) matches Ok((_, n)) ==> n.to_set() == names.to_set().union(idents_expr(e)),
    decreases e,
{
    match e.kind {
        RowExprKind::Binary { row_lhs_expr, row_rhs_expr, .. } | RowExprKind::Assign {
            row_lhs_expr,
            row_rhs_expr,
            ..
        } | RowExprKind::Comma { row_lhs_expr, row_rhs_expr } => {
            lemma_idents_expr(*row_lhs_expr, names);
            if let Ok((_, n1)) = lower_expr(*row_lhs_expr, names) {
                lemma_idents_expr(*row_rhs_expr, n1);
                if let Ok((_, n2)) = lower_expr(*row_rhs_expr, n1) {
                    assert(n2.to_set() =~= names.to_set().union(idents_expr(e)));
                }
            }
        },
        RowExprKind::Condition { row_condition_expr, row_then_expr, row_else_expr } => {
            lemma_idents_expr(*row_condition_expr, names);
            if let Ok((_, n1)) = lower_expr(*row_condition_expr, names) {
                lemma_idents_expr(*row_then_expr, n1);
                if let Ok((_, n2)) = lower_expr(*row_then_expr, n1) {
                    lemma_idents_expr(*row_else_expr, n2);
                    if let Ok((_, n3)) = lower_expr(*row_else_expr, n2) {
                        assert(n3.to_set() =~= names.to_set().union(idents_expr(e)));
                    }
                }
            }
        },
        RowExprKind::UnaryIncrement { row_expr } | RowExprKind::UnaryDecrement { row_expr }
        | RowExprKind::PostfixIncrement { row_expr } | RowExprKind::PostfixDecrement {
            row_expr,
        } => {
            lemma_idents_expr(*row_expr, names);
        },
        RowExprKind::Identifier { ident } => {
            lemma_lookup_set(names, ident@);
            assert(names.to_set().insert(ident@) =~= names.to_set().union(set![ident@]));
        },
        RowExprKind::Number { .. } => {
            assert(names.to_set().union(Set::empty()) =~= names.to_set());
        },
        RowExprKind::Func { row_name_expr, row_args_expr } => {
            match row_name_expr.kind {
                RowExprKind::Identifier { .. } => {
                    lemma_idents_args(row_args_expr@, names);
                    assert(Set::<Seq<char>>::empty().union(idents_args(row_args_expr@)) =~= idents_args(
                        row_args_expr@,
                    ));
                },
                _ => {
                    lemma_idents_expr(*row_name_expr, names);
                    if let Ok((_, n1)) = lower_expr(*row_name_expr, names) {
                        lemma_idents_args(row_args_expr@, n1);
                        if let Ok((_, n2)) = lower_args(row_args_expr@, n1) {
                            assert(n2.to_set() =~= names.to_set().union(idents_expr(e)));
                        }
                    }
                },
            }
        },
    }
}

pub proof fn lemma_idents_args(s: Seq<RowExpr>, names: Names)
    ensures
        lower_args(s, names) matches Ok((_, n)) ==> n.to_set() == names.to_set().union(idents_args(s)),
    decreases s,
{
    if s.len() > 0 {
        lemma_idents_expr(s[0], names);
        if let Ok((_, n1)) = lower_expr(s[0], names) {
            lemma_idents_args(s.drop_first(), n1);
            if let Ok((_, n2)) = lower_args(s.drop_first(), n1) {
                assert(n2.to_set() =~= names.to_set().union(idents_args(s)));
            }
        }
    } else {
        assert(names.to_set().union(Set::empty()) =~= names.to_set());
    }
}

proof fn lemma_idents_opt(e: Option<RowExpr>, names: Names)
    ensures
        lower_opt(e, names) matches Ok((_, n)) ==> n.to_set() == names.to_set().union(idents_opt(e)),
{
    match e {
        Some(x) => lemma_idents_expr(x, names),
        None => {
            assert(names.to_set().union(Set::empty()) =~= names.to_set());
        },
    }
}

pub proof fn lemma_idents_stmt(s: RowStmt, names: Names)
    ensures
        lower_stmt(s, names) matches Ok((_, n)) ==> n.to_set() == names.to_set().union(idents_stmt(s)),
    decreases s,
{
    match s.kind {
        RowStmtKind::Expr { expr } => lemma_idents_opt(expr, names),
        RowStmtKind::Return { expr } => lemma_idents_opt(expr, names),
        RowStmtKind::If { condition_expr, then_stmt, else_stmt } => {
            lemma_idents_expr(condition_expr, names);
            if let Ok((_, n1)) = lower_expr(condition_expr, names) {
                lemma_idents_stmt(*then_stmt, n1);
                if let Ok((_, n2)) = lower_stmt(*then_stmt, n1) {
                    match *else_stmt {
                        Some(f) => {
                            lemma_idents_stmt(f, n2);
                            if let Ok((_, n3)) = lower_stmt(f, n2) {
                                assert(n3.to_set() =~= names.to_set().union(idents_stmt(s)));
                            }
                        },
                        None => {
                            assert(n2.to_set() =~= names.to_set().union(idents_stmt(s)));
                        },
                    }
                }
            }
        },
        RowStmtKind::For { init_expr, condition_expr, delta_expr, run_stmt } => {
            lemma_idents_opt(init_expr, names);
            if let Ok((_, n1)) = lower_opt(init_expr, names) {
                lemma_idents_opt(condition_expr, n1);
                if let Ok((_, n2)) = lower_opt(condition_expr, n1) {
                    lemma_idents_opt(delta_expr, n2);
                    if let Ok((_, n3)) = lower_opt(delta_expr, n2) {
                        lemma_idents_stmt(*run_stmt, n3);
                        if let Ok((_, n4)) = lower_stmt(*run_stmt, n3) {
                            assert(n4.to_set() =~= names.to_set().union(idents_stmt(s)));
                        }
                    }
                }
            }
        },
        RowStmtKind::While { condition_expr, run_stmt } => {
            lemma_idents_expr(condition_expr, names);
            if let Ok((_, n1)) = lower_expr(condition_expr, names) {
                lemma_idents_stmt(*run_stmt, n1);
                if let Ok((_, n2)) = lower_stmt(*run_stmt, n1) {
                    assert(n2.to_set() =~= names.to_set().union(idents_stmt(s)));
                }
            }
        },
        RowStmtKind::Cpd { stmts } => lemma_idents_stmts(stmts@, names),
    }
}

pub proof fn lemma_idents_stmts(s: Seq<RowStmt>, names: Names)
    ensures
        lower_stmts(s, names) matches Ok((_, n)) ==> n.to_set() == names.to_set().union(idents_stmts(s)),
    decreases s,
{
    if s.len() > 0 {
        lemma_idents_stmt(s[0], names);
        if let Ok((_, n1)) = lower_stmt(s[0], names) {
            lemma_idents_stmts(s.drop_first(), n1);
            if let Ok((_, n2)) = lower_stmts(s.drop_first(), n1) {
                assert(n2.to_set() =~= names.to_set().union(idents_stmts(s)));
            }
        }
    } else {
        assert(names.to_set().union(Set::empty()) =~= names.to_set());
    }
}

/// Frame size: a unit lowered from an empty table has eight bytes of frame for
/// each distinct name that it mentions as a variable.
pub proof fn lemma_frame_size(s: Seq<RowStmt>)
    ensures
        lower_stmts(s, Seq::empty()) matches Ok((_, n)) ==> n.to_set() == idents_stmts(s) && 8 * n.len()
            == 8 * idents_stmts(s).len(),
{
    let empty = Seq::<Seq<char>>::empty();
    lemma_idents_stmts(s, empty);
    lemma_lower_stmts(s, empty);
    if let Ok((_, n)) = lower_stmts(s, empty) {
        assert(empty.to_set() =~= Set::<Seq<char>>::empty());
        assert(Set::<Seq<char>>::empty().union(idents_stmts(s)) =~= idents_stmts(s));
        assert(empty.no_duplicates());
        n.unique_seq_to_set();
    }
}

/// Lowering is deterministic: two lowered programs that the analyzer could
/// return for the same unit and table have the same statements and frame.
pub proof fn lemma_analyze_deterministic(s: Seq<RowStmt>, names: Names, first: Program, second: Program)
    requires
        lower_stmts(s, names) is Ok,
        view_stmts(first.stmts@) == lower_stmts(s, names)->Ok_0.0,
        first.offset == 8 * lower_stmts(s, names)->Ok_0.1.len(),
        view_stmts(second.stmts@) == lower_stmts(s, names)->Ok_0.0,
        second.offset == 8 * lower_stmts(s, names)->Ok_0.1.len(),
    ensures
        view_stmts(first.stmts@) == view_stmts(second.stmts@),
        first.offset == second.offset,
{
}

/// Resolves identifiers to stack slots and desugars a parsed unit. The table
/// is flat: one name has one slot in the whole unit.
pub struct Analyzer {
    var: Vec<String>,
    offset: usize,
}

impl Analyzer {
    /// The names seen so far, in order of first use.
    pub closed spec fn names(&self) -> Names {
        self.var@.map_values(|s: String| s@)
    }

    /// Eight bytes per name, and no name twice.
    pub closed spec fn wf(&self) -> bool {
        &&& self.offset == 8 * self.var@.len()
        &&& self.names().no_duplicates()
    }

    pub fn new() -> (r: Analyzer)
        ensures
            r.wf(),
            r.names() == Seq::<Seq<char>>::empty(),
    {
        let r = Analyzer { var: Vec::new(), offset: 0 };
        assert(r.names() =~= Seq::<Seq<char>>::empty());
        r
    }

    /// The slot of `name`: the one it has, or a new one after the last.
    fn get_var(&mut self, name: String) -> (r: Result<Variable, Error>)
        requires
            old(self).wf(),
        ensures
            final(self).wf(),
            match lookup(old(self).names(), name@) {
                Ok((v, n)) => r == Ok::<Variable, Error>(v) && final(self).names() == n,
                Err(err) => r == Err::<Variable, Error>(err) && final(self).names() == old(self).names(),
            },
    {
        let ghost names = self.names();
        let mut i: usize = 0;
        while i < self.var.len()
            invariant
                self.wf(),
                names == self.names(),
                i <= self.var@.len(),
                forall|j: int| 0 <= j < i ==> names[j] != name@,
            decreases self.var@.len() - i,
        {
            if self.var[i].eq(&name) {
                assert(names[i as int] == name@);
                assert(names.contains(name@));
                let ghost k = index_in(names, name@);
                assert(names.no_duplicates());
                assert(k == i as int);
                assert(i < self.var@.len());
                return Ok(Variable::new(8 * (i + 1)));
            }
            i = i + 1;
        }
        assert(!names.contains(name@));
        if self.offset > usize::MAX - 8 {
            return Err(Error::new_unexpected());
        }
        self.var.push(name);
        self.offset = self.offset + 8;
        assert(self.names() =~= names.push(name@));
        Ok(Variable::new(self.offset))
    }

    /// Lowers a whole unit. The frame size is eight bytes per distinct name.
    pub fn analyze(&mut self, row_program: RowProgram) -> (r: Result<Program, Error>)
        requires
            old(self).wf(),
        ensures
            final(self).wf(),
            match lower_stmts(row_program.stmts@, old(self).names()) {
                Ok((ss, n)) => r is Ok && view_stmts(r->Ok_0.stmts@) == ss && final(self).names() == n
                    && r->Ok_0.offset == 8 * n.len() && stmts_ok(ss),
                Err(err) => r is Err && r->Err_0 == err,
            },
    {
        proof {
            lemma_lower_stmts(row_program.stmts@, self.names());
        }
        let stmts = self.analyze_stmts(row_program.stmts);
        match stmts {
            Ok(stmts) => Ok(Program::new(stmts, self.offset)),
            Err(err) => Err(err),
        }
    }

    /// Lowers statements in order.
    fn analyze_stmts(&mut self, stmts: Vec<RowStmt>) -> (r: Result<Vec<Stmt>, Error>)
        requires
            old(self).wf(),
        ensures
            final(self).wf(),
            match lower_stmts(stmts@, old(self).names()) {
                Ok((ss, n)) => r is Ok && view_stmts(r->Ok_0@) == ss && final(self).names() == n,
                Err(err) => r is Err && r->Err_0 == err,
            },
        decreases stmts,
    {
        let ghost all = stmts@;
        let ghost n0 = self.names();
        let mut rest = stmts;
        let mut out: Vec<Stmt> = Vec::new();
        let ghost mut k: int = 0;
        assert(view_stmts(out@) =~= Seq::<StmtView>::empty());
        assert(all.subrange(0, all.len() as int) =~= all);
        proof {
            if let Ok((xs, n)) = lower_stmts(all, n0) {
                assert(Seq::<StmtView>::empty() + xs =~= xs);
            }
        }
        while rest.len() > 0
            invariant
                self.wf(),
                0 <= k <= all.len(),
                rest@ == all.subrange(k, all.len() as int),
                all == stmts@,
                n0 == old(self).names(),
                lower_stmts(all, n0) == prepend(view_stmts(out@), lower_stmts(rest@, self.names())),
            decreases rest@.len(),
        {
            let ghost before = rest@;
            let ghost cur = self.names();
            let s = rest.remove(0);
            assert(s == all[k]);
            assert(before[0] == s);
            assert(before.drop_first() =~= rest@);
            let x = self.analyze_stmt(s);
            match x {
                Ok(x) => {
                    let ghost xv = super::stmt::view_stmt(x);
                    proof {
                        lemma_prepend_step(view_stmts(out@), xv, lower_stmts(rest@, self.names()));
                        lemma_view_stmts_push(out@, x);
                    }
                    out.push(x);
                    proof {
                        k = k + 1;
                    }
                    assert(rest@ =~= all.subrange(k, all.len() as int));
                },
                Err(err) => {
                    assert(lower_stmts(before, cur) == Err::<(Seq<StmtView>, Names), Error>(err));
                    assert(lower_stmts(all, n0) == Err::<(Seq<StmtView>, Names), Error>(err));
                    return Err(err);
                },
            }
        }
        proof {
            assert(view_stmts(out@) + Seq::<StmtView>::empty() =~= view_stmts(out@));
        }
        Ok(out)
    }

    /// Lowers an optional expression.
    fn analyze_opt(&mut self, row_expr: Option<RowExpr>) -> (r: Result<Option<Expr>, Error>)
        requires
            old(self).wf(),
        ensures
            final(self).wf(),
            match lower_opt(row_expr, old(self).names()) {
                Ok((e, n)) => r is Ok && super::stmt::view_opt_expr(r->Ok_0) == e && final(self).names() == n,
                Err(err) => r is Err && r->Err_0 == err,
            },
    {
        match row_expr {
            None => Ok(None),
            Some(x) => match self.analyze_expr(x) {
                Ok(e) => Ok(Some(e)),
                Err(err) => Err(err),
            },
        }
    }

    /// Lowers a statement.
    #[verifier::rlimit(100)]
    pub fn analyze_stmt(&mut self, row_stmt: RowStmt) -> (r: Result<Stmt, Error>)
        requires
            old(self).wf(),
        ensures
            final(self).wf(),
            lowered_as(r, lower_stmt(row_stmt, old(self).names()), final(self).names()),
        decreases row_stmt,
    {
        let position = row_stmt.position;
        match row_stmt.kind {
            RowStmtKind::Expr { expr } => match self.analyze_opt(expr) {
                Ok(e) => Ok(Stmt::new_expr(e, position)),
                Err(err) => Err(err),
            },
            RowStmtKind::Return { expr } => match self.analyze_opt(expr) {
                Ok(e) => Ok(Stmt::new_return(e, position)),
                Err(err) => Err(err),
            },
            RowStmtKind::If { condition_expr, then_stmt, else_stmt } => {
                let c = match self.analyze_expr(condition_expr) {
                    Ok(c) => c,
                    Err(err) => return Err(err),
                };
                let t = match self.analyze_stmt(*then_stmt) {
                    Ok(t) => t,
                    Err(err) => return Err(err),
                };
                let f = match *else_stmt {
                    None => None,
                    Some(e) => match self.analyze_stmt(e) {
                        Ok(f) => Some(f),
                        Err(err) => return Err(err),
                    },
                };
                Ok(Stmt::new_if(c, t, f, position))
            },
            RowStmtKind::For { init_expr, condition_expr, delta_expr, run_stmt } => {
                let i = match self.analyze_opt(init_expr) {
                    Ok(i) => i,
                    Err(err) => return Err(err),
                };
                let c = match self.analyze_opt(condition_expr) {
                    Ok(Some(c)) => c,
                    Ok(None) => {
                        let one = Expr::new_number(1, position.clone());
                        assert(one@ == number(1, position));
                        one
                    },
                    Err(err) => return Err(err),
                };
                let d = match self.analyze_opt(delta_expr) {
                    Ok(d) => d,
                    Err(err) => return Err(err),
                };
                let b = match self.analyze_stmt(*run_stmt) {
                    Ok(b) => b,
                    Err(err) => return Err(err),
                };
                Ok(Stmt::new_for(i, c, d, b, position))
            },
            RowStmtKind::While { condition_expr, run_stmt } => {
                let c = match self.analyze_expr(condition_expr) {
                    Ok(c) => c,
                    Err(err) => return Err(err),
                };
                let b = match self.analyze_stmt(*run_stmt) {
                    Ok(b) => b,
                    Err(err) => return Err(err),
                };
                Ok(Stmt::new_while(c, b, position))
            },
            RowStmtKind::Cpd { stmts } => match self.analyze_stmts(stmts) {
                Ok(ss) => Ok(Stmt::new_cpd(ss, position)),
                Err(err) => Err(err),
            },
        }
    }

    /// Lowers expressions from left to right.
    fn analyze_args(&mut self, args: Vec<RowExpr>) -> (r: Result<Vec<Expr>, Error>)
        requires
            old(self).wf(),
        ensures
            final(self).wf(),
            match lower_args(args@, old(self).names()) {
                Ok((xs, n)) => r is Ok && view_exprs(r->Ok_0@) == xs && final(self).names() == n,
                Err(err) => r is Err && r->Err_0 == err,
            },
        decreases args,
    {
        let ghost all = args@;
        let ghost n0 = self.names();
        let mut rest = args;
        let mut out: Vec<Expr> = Vec::new();
        let ghost mut k: int = 0;
        assert(view_exprs(out@) =~= Seq::<ExprView>::empty());
        assert(all.subrange(0, all.len() as int) =~= all);
        proof {
            if let Ok((xs, n)) = lower_args(all, n0) {
                assert(Seq::<ExprView>::empty() + xs =~= xs);
            }
        }
        while rest.len() > 0
            invariant
                self.wf(),
                0 <= k <= all.len(),
                rest@ == all.subrange(k, all.len() as int),
                all == args@,
                n0 == old(self).names(),
                lower_args(all, n0) == prepend(view_exprs(out@), lower_args(rest@, self.names())),
            decreases rest@.len(),
        {
            let ghost before = rest@;
            let ghost cur = self.names();
            let a = rest.remove(0);
            assert(a == all[k]);
            assert(before[0] == a);
            assert(before.drop_first() =~= rest@);
            let x = self.analyze_expr(a);
            match x {
                Ok(x) => {
                    proof {
                        lemma_prepend_step(view_exprs(out@), view_expr(x), lower_args(rest@, self.names()));
                        lemma_view_exprs_push(out@, x);
                    }
                    out.push(x);
                    proof {
                        k = k + 1;
                    }
                    assert(rest@ =~= all.subrange(k, all.len() as int));
                },
                Err(err) => {
                    assert(lower_args(before, cur) == Err::<(Seq<ExprView>, Names), Error>(err));
                    assert(lower_args(all, n0) == Err::<(Seq<ExprView>, Names), Error>(err));
                    return Err(err);
                },
            }
        }
        proof {
            assert(view_exprs(out@) + Seq::<ExprView>::empty() =~= view_exprs(out@));
        }
        Ok(out)
    }

    /// Lowers an expression.
    #[verifier::rlimit(100)]
    pub fn analyze_expr(&mut self, row_expr: RowExpr) -> (r: Result<Expr, Error>)
        requires
            old(self).wf(),
        ensures
            final(self).wf(),
            lowered_as(r, lower_expr(row_expr, old(self).names()), final(self).names()),
        decreases row_expr,
    {
        let position = row_expr.position;
        match row_expr.kind {
            RowExprKind::Binary { row_binary_op_kind, row_lhs_expr, row_rhs_expr } => {
                let l = match self.analyze_expr(*row_lhs_expr) {
                    Ok(l) => l,
                    Err(err) => return Err(err),
                };
                let r = match self.analyze_expr(*row_rhs_expr) {
                    Ok(r) => r,
                    Err(err) => return Err(err),
                };
                self.analyze_expr_binary(row_binary_op_kind, l, r, position)
            },
            RowExprKind::Assign { row_assign_op_kind, row_lhs_expr, row_rhs_expr } => {
                if !matches!(row_lhs_expr.kind, RowExprKind::Identifier { .. }) {
                    return Err(Error::new_invalid_assign_target(row_lhs_expr.position.clone()));
                }
                let l = match self.analyze_expr(*row_lhs_expr) {
                    Ok(l) => l,
                    Err(err) => return Err(err),
                };
                let r = match self.analyze_expr(*row_rhs_expr) {
                    Ok(r) => r,
                    Err(err) => return Err(err),
                };
                self.analyze_expr_assign(row_assign_op_kind, l, r, position)
            },
            RowExprKind::Comma { row_lhs_expr, row_rhs_expr } => {
                let l = match self.analyze_expr(*row_lhs_expr) {
                    Ok(l) => l,
                    Err(err) => return Err(err),
                };
                let r = match self.analyze_expr(*row_rhs_expr) {
                    Ok(r) => r,
                    Err(err) => return Err(err),
                };
                Ok(Expr::new_comma(l, r, position))
            },
            RowExprKind::Condition { row_condition_expr, row_then_expr, row_else_expr } => {
                let c = match self.analyze_expr(*row_condition_expr) {
                    Ok(c) => c,
                    Err(err) => return Err(err),
                };
                let t = match self.analyze_expr(*row_then_expr) {
                    Ok(t) => t,
                    Err(err) => return Err(err),
                };
                let f = match self.analyze_expr(*row_else_expr) {
                    Ok(f) => f,
                    Err(err) => return Err(err),
                };
                Ok(Expr::new_condition(c, t, f, position))
            },
            RowExprKind::UnaryIncrement { row_expr } => {
                if !matches!(row_expr.kind, RowExprKind::Identifier { .. }) {
                    return Err(Error::new_invalid_assign_target(row_expr.position.clone()));
                }
                let x = match self.analyze_expr(*row_expr) {
                    Ok(x) => x,
                    Err(err) => return Err(err),
                };
                let one = Expr::new_number(1, position.clone());
                assert(one@ == number(1, position));
                Ok(Expr::new_assign_op(BinaryOpKind::Add, x, one, position))
            },
            RowExprKind::UnaryDecrement { row_expr } => {
                if !matches!(row_expr.kind, RowExprKind::Identifier { .. }) {
                    return Err(Error::new_invalid_assign_target(row_expr.position.clone()));
                }
                let x = match self.analyze_expr(*row_expr) {
                    Ok(x) => x,
                    Err(err) => return Err(err),
                };
                let one = Expr::new_number(1, position.clone());
                assert(one@ == number(1, position));
                Ok(Expr::new_assign_op(BinaryOpKind::Sub, x, one, position))
            },
            RowExprKind::PostfixIncrement { row_expr } => {
                if !matches!(row_expr.kind, RowExprKind::Identifier { .. }) {
                    return Err(Error::new_invalid_assign_target(row_expr.position.clone()));
                }
                match self.analyze_expr(*row_expr) {
                    Ok(x) => Ok(Expr::new_postfix_increment(x, position)),
                    Err(err) => Err(err),
                }
            },
            RowExprKind::PostfixDecrement { row_expr } => {
                if !matches!(row_expr.kind, RowExprKind::Identifier { .. }) {
                    return Err(Error::new_invalid_assign_target(row_expr.position.clone()));
                }
                match self.analyze_expr(*row_expr) {
                    Ok(x) => Ok(Expr::new_postfix_decrement(x, position)),
                    Err(err) => Err(err),
                }
            },
            RowExprKind::Identifier { ident } => match self.get_var(ident) {
                Ok(var) => Ok(Expr::new_var(var, position)),
                Err(err) => Err(err),
            },
            RowExprKind::Number { number } => Ok(Expr::new_number(number, position)),
            RowExprKind::Func { row_name_expr, row_args_expr } => {
                let callee = *row_name_expr;
                match callee.kind {
                    RowExprKind::Identifier { ident } => match self.analyze_args(row_args_expr) {
                        Ok(args) => {
                            assert(view_callee(FuncCallKind::Label { name: ident }) == CalleeView::Label {
                                name: ident,
                            });
                            Ok(Expr::new_func_label(ident, args, position))
                        },
                        Err(err) => Err(err),
                    },
                    kind => {
                        let callee = RowExpr { kind, position: callee.position };
                        let f = match self.analyze_expr(callee) {
                            Ok(f) => f,
                            Err(err) => return Err(err),
                        };
                        assert(view_callee(FuncCallKind::Expr { expr: Box::new(f) }) == CalleeView::Expr {
                            expr: Box::new(f@),
                        });
                        match self.analyze_args(row_args_expr) {
                            Ok(args) => Ok(Expr::new_func_expr(f, args, position)),
                            Err(err) => Err(err),
                        }
                    },
                }
            },
        }
    }

    /// Builds the lowered binary expression from lowered operands.
    fn analyze_expr_binary(
        &self,
        row_binary_op_kind: RowBinaryOpKind,
        lhs: Expr,
        rhs: Expr,
        position: Position,
    ) -> (r: Result<Expr, Error>)
        ensures
            r is Ok,
            r->Ok_0@ == lower_binary(row_binary_op_kind, lhs@, rhs@, position),
    {
        match row_binary_op_kind {
            RowBinaryOpKind::LogicAnd => {
                let zero = Expr::new_number(0, position.clone());
                assert(zero@ == number(0, position));
                Ok(Expr::new_condition(lhs, rhs, zero, position))
            },
            RowBinaryOpKind::LogicOr => {
                let one = Expr::new_number(1, position.clone());
                assert(one@ == number(1, position));
                Ok(Expr::new_condition(lhs, one, rhs, position))
            },
            RowBinaryOpKind::Gt => Ok(Expr::new_binary(BinaryOpKind::Lt, rhs, lhs, position)),
            RowBinaryOpKind::GtEqual => Ok(Expr::new_binary(BinaryOpKind::LtEqual, rhs, lhs, position)),
            op => match BinaryOpKind::from_row_binary_op_kind(op) {
                Ok(o) => Ok(Expr::new_binary(o, lhs, rhs, position)),
                Err(err) => Err(err),
            },
        }
    }

    /// Builds the lowered assignment from lowered operands: plain `=` stays an
    /// assignment, the others become an assignment with an operator.
    fn analyze_expr_assign(
        &self,
        row_assign_op_kind: RowAssignOpKind,
        lhs: Expr,
        rhs: Expr,
        position: Position,
    ) -> (r: Result<Expr, Error>)
        ensures
            r is Ok,
            r->Ok_0@ == lower_assign(row_assign_op_kind, lhs@, rhs@, position),
    {
        if row_assign_op_kind == RowAssignOpKind::Equal {
            Ok(Expr::new_assign(lhs, rhs, position))
        } else {
            match BinaryOpKind::from_row_assign_op_kind(row_assign_op_kind) {
                Ok(o) => Ok(Expr::new_assign_op(o, lhs, rhs, position)),
                Err(err) => Err(err),
            }
        }
    }
}

} // verus!
