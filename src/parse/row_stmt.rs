use vstd::prelude::*;

use super::row_expr::{view_row_expr, RowExpr, RowExprView};
use crate::file::position::Position;

verus! {

/// A statement as written.
#[derive(Debug)]
pub struct RowStmt {
    pub kind: RowStmtKind,
    pub position: Position,
}

impl RowStmt {
    pub fn new_expr(expr: Option<RowExpr>, position: Position) -> (r: RowStmt)
        ensures
            r.position == position,
            r.kind == (RowStmtKind::Expr { expr }),
    {
        RowStmt { kind: RowStmtKind::Expr { expr }, position }
    }

    pub fn new_return(expr: Option<RowExpr>, position: Position) -> (r: RowStmt)
        ensures
            r.position == position,
            r.kind == (RowStmtKind::Return { expr }),
    {
        RowStmt { kind: RowStmtKind::Return { expr }, position }
    }

    pub fn new_if(
        condition_expr: RowExpr,
        then_stmt: RowStmt,
        else_stmt: Option<RowStmt>,
        position: Position,
    ) -> (r: RowStmt)
        ensures
            r.position == position,
            r.kind == (RowStmtKind::If {
                condition_expr,
                then_stmt: Box::new(then_stmt),
                else_stmt: Box::new(else_stmt),
            }),
    {
        RowStmt {
            kind: RowStmtKind::If {
                condition_expr,
                then_stmt: Box::new(then_stmt),
                else_stmt: Box::new(else_stmt),
            },
            position,
        }
    }

    pub fn new_for(
        init_expr: Option<RowExpr>,
        condition_expr: Option<RowExpr>,
        delta_expr: Option<RowExpr>,
        run_stmt: RowStmt,
        position: Position,
    ) -> (r: RowStmt)
        ensures
            r.position == position,
            r.kind == (RowStmtKind::For {
                init_expr,
                condition_expr,
                delta_expr,
                run_stmt: Box::new(run_stmt),
            }),
    {
        RowStmt {
            kind: RowStmtKind::For {
                init_expr,
                condition_expr,
                delta_expr,
                run_stmt: Box::new(run_stmt),
            },
            position,
        }
    }

    pub fn new_while(condition_expr: RowExpr, run_stmt: RowStmt, position: Position) -> (r: RowStmt)
        ensures
            r.position == position,
            r.kind == (RowStmtKind::While { condition_expr, run_stmt: Box::new(run_stmt) }),
    {
        RowStmt { kind: RowStmtKind::While { condition_expr, run_stmt: Box::new(run_stmt) }, position }
    }

    pub fn new_cpd(stmts: Vec<RowStmt>, position: Position) -> (r: RowStmt)
        ensures
            r.position == position,
            r.kind == (RowStmtKind::Cpd { stmts }),
    {
        RowStmt { kind: RowStmtKind::Cpd { stmts }, position }
    }
}

/// The mathematical form of a statement as written.
pub struct RowStmtView {
    pub kind: RowStmtViewKind,
    pub position: Position,
}

#[allow(inconsistent_fields)]
pub enum RowStmtViewKind {
    Expr { expr: Option<RowExprView> },
    Return { expr: Option<RowExprView> },
    If { condition: RowExprView, then_stmt: Box<RowStmtView>, else_stmt: Box<Option<RowStmtView>> },
    For {
        init: Option<RowExprView>,
        condition: Option<RowExprView>,
        delta: Option<RowExprView>,
        body: Box<RowStmtView>,
    },
    While { condition: RowExprView, body: Box<RowStmtView> },
    Cpd { stmts: Seq<RowStmtView> },
}

pub open spec fn view_row_opt(e: Option<RowExpr>) -> Option<RowExprView> {
    match e {
        Some(x) => Some(view_row_expr(x)),
        None => None,
    }
}

pub open spec fn view_row_stmt(s: RowStmt) -> RowStmtView
    decreases s,
{
    let kind = match s.kind {
        RowStmtKind::Expr { expr } => RowStmtViewKind::Expr { expr: view_row_opt(expr) },
        RowStmtKind::Return { expr } => RowStmtViewKind::Return { expr: view_row_opt(expr) },
        RowStmtKind::If { condition_expr, then_stmt, else_stmt } => RowStmtViewKind::If {
            condition: view_row_expr(condition_expr),
            then_stmt: Box::new(view_row_stmt(*then_stmt)),
            else_stmt: Box::new(
                match *else_stmt {
                    Some(e) => Some(view_row_stmt(e)),
                    None => None,
                },
            ),
        },
        RowStmtKind::For { init_expr, condition_expr, delta_expr, run_stmt } => RowStmtViewKind::For {
            init: view_row_opt(init_expr),
            condition: view_row_opt(condition_expr),
            delta: view_row_opt(delta_expr),
            body: Box::new(view_row_stmt(*run_stmt)),
        },
        RowStmtKind::While { condition_expr, run_stmt } => RowStmtViewKind::While {
            condition: view_row_expr(condition_expr),
            body: Box::new(view_row_stmt(*run_stmt)),
        },
        RowStmtKind::Cpd { stmts } => RowStmtViewKind::Cpd { stmts: view_row_stmts(stmts@) },
    };
    RowStmtView { kind, position: s.position }
}

pub open spec fn view_row_stmts(s: Seq<RowStmt>) -> Seq<RowStmtView>
    decreases s,
{
    if s.len() == 0 {
        Seq::empty()
    } else {
        seq![view_row_stmt(s[0])] + view_row_stmts(s.drop_first())
    }
}

/// Viewing a vector with one more statement appends that statement's view.
pub proof fn lemma_view_row_stmts_push(s: Seq<RowStmt>, x: RowStmt)
    ensures
        view_row_stmts(s.push(x)) == view_row_stmts(s).push(view_row_stmt(x)),
    decreases s.len(),
{
    if s.len() == 0 {
        assert(s.push(x).drop_first() =~= Seq::<RowStmt>::empty());
        assert(view_row_stmts(Seq::<RowStmt>::empty()) =~= Seq::<RowStmtView>::empty());
        assert(view_row_stmts(s.push(x)) =~= seq![view_row_stmt(x)]);
    } else {
        assert(s.push(x).drop_first() =~= s.drop_first().push(x));
        lemma_view_row_stmts_push(s.drop_first(), x);
        assert(view_row_stmts(s.push(x)) =~= view_row_stmts(s).push(view_row_stmt(x)));
    }
}

impl View for RowStmt {
    type V = RowStmtView;

    open spec fn view(&self) -> RowStmtView {
        view_row_stmt(*self)
    }
}

/// The forms of a statement as written.
#[allow(inconsistent_fields)]
#[derive(Debug)]
pub enum RowStmtKind {
    Expr { expr: Option<RowExpr> },
    Return { expr: Option<RowExpr> },
    If { condition_expr: RowExpr, then_stmt: Box<RowStmt>, else_stmt: Box<Option<RowStmt>> },
    For {
        init_expr: Option<RowExpr>,
        condition_expr: Option<RowExpr>,
        delta_expr: Option<RowExpr>,
        run_stmt: Box<RowStmt>,
    },
    While { condition_expr: RowExpr, run_stmt: Box<RowStmt> },
    Cpd { stmts: Vec<RowStmt> },
}

} // verus!
