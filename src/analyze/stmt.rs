use vstd::prelude::*;

use super::expr::{view_expr, Expr, ExprView};
use crate::file::position::Position;

verus! {

/// A lowered statement.
#[derive(Debug)]
pub struct Stmt {
    pub kind: StmtKind,
    pub position: Position,
}

impl Stmt {
    pub fn new_expr(expr: Option<Expr>, position: Position) -> (r: Stmt)
        ensures
            r.position == position,
            r.kind == (StmtKind::Expr { expr }),
    {
        Stmt { kind: StmtKind::Expr { expr }, position }
    }

    pub fn new_return(expr: Option<Expr>, position: Position) -> (r: Stmt)
        ensures
            r.position == position,
            r.kind == (StmtKind::Return { expr }),
    {
        Stmt { kind: StmtKind::Return { expr }, position }
    }

    pub fn new_if(condition_expr: Expr, then_stmt: Stmt, else_stmt: Option<Stmt>, position: Position) -> (r:
        Stmt)
        ensures
            r.position == position,
            r.kind == (StmtKind::If {
                condition_expr,
                then_stmt: Box::new(then_stmt),
                else_stmt: Box::new(else_stmt),
            }),
    {
        Stmt {
            kind: StmtKind::If {
                condition_expr,
                then_stmt: Box::new(then_stmt),
                else_stmt: Box::new(else_stmt),
            },
            position,
        }
    }

    pub fn new_for(
        init_expr: Option<Expr>,
        condition_expr: Expr,
        delta_expr: Option<Expr>,
        run_stmt: Stmt,
        position: Position,
    ) -> (r: Stmt)
        ensures
            r.position == position,
            r.kind == (StmtKind::For {
                init_expr,
                condition_expr,
                delta_expr,
                run_stmt: Box::new(run_stmt),
            }),
    {
        Stmt {
            kind: StmtKind::For { init_expr, condition_expr, delta_expr, run_stmt: Box::new(run_stmt) },
            position,
        }
    }

    pub fn new_while(condition_expr: Expr, run_stmt: Stmt, position: Position) -> (r: Stmt)
        ensures
            r.position == position,
            r.kind == (StmtKind::While { condition_expr, run_stmt: Box::new(run_stmt) }),
    {
        Stmt { kind: StmtKind::While { condition_expr, run_stmt: Box::new(run_stmt) }, position }
    }

    pub fn new_cpd(stmts: Vec<Stmt>, position: Position) -> (r: Stmt)
        ensures
            r.position == position,
            r.kind == (StmtKind::Cpd { stmts }),
    {
        Stmt { kind: StmtKind::Cpd { stmts }, position }
    }
}

/// The mathematical form of a lowered statement.
pub struct StmtView {
    pub kind: StmtViewKind,
    pub position: Position,
}

pub enum StmtViewKind {
    Expr { expr: Option<ExprView> },
    Return { expr: Option<ExprView> },
    If { condition_expr: ExprView, then_stmt: Box<StmtView>, else_stmt: Box<Option<StmtView>> },
    For {
        init_expr: Option<ExprView>,
        condition_expr: ExprView,
        delta_expr: Option<ExprView>,
        run_stmt: Box<StmtView>,
    },
    While { condition_expr: ExprView, run_stmt: Box<StmtView> },
    Cpd { stmts: Seq<StmtView> },
}

pub open spec fn view_opt_expr(e: Option<Expr>) -> Option<ExprView> {
    match e {
        Some(x) => Some(view_expr(x)),
        None => None,
    }
}

pub open spec fn view_stmt(s: Stmt) -> StmtView
    decreases s,
{
    let kind = match s.kind {
        StmtKind::Expr { expr } => StmtViewKind::Expr { expr: view_opt_expr(expr) },
        StmtKind::Return { expr } => StmtViewKind::Return { expr: view_opt_expr(expr) },
        StmtKind::If { condition_expr, then_stmt, else_stmt } => StmtViewKind::If {
            condition_expr: view_expr(condition_expr),
            then_stmt: Box::new(view_stmt(*then_stmt)),
            else_stmt: Box::new(
                match *else_stmt {
                    Some(e) => Some(view_stmt(e)),
                    None => None,
                },
            ),
        },
        StmtKind::For { init_expr, condition_expr, delta_expr, run_stmt } => StmtViewKind::For {
            init_expr: view_opt_expr(init_expr),
            condition_expr: view_expr(condition_expr),
            delta_expr: view_opt_expr(delta_expr),
            run_stmt: Box::new(view_stmt(*run_stmt)),
        },
        StmtKind::While { condition_expr, run_stmt } => StmtViewKind::While {
            condition_expr: view_expr(condition_expr),
            run_stmt: Box::new(view_stmt(*run_stmt)),
        },
        StmtKind::Cpd { stmts } => StmtViewKind::Cpd { stmts: view_stmts(stmts@) },
    };
    StmtView { kind, position: s.position }
}

pub open spec fn view_stmts(s: Seq<Stmt>) -> Seq<StmtView>
    decreases s,
{
    if s.len() == 0 {
        Seq::empty()
    } else {
        seq![view_stmt(s[0])] + view_stmts(s.drop_first())
    }
}

impl View for Stmt {
    type V = StmtView;

    open spec fn view(&self) -> StmtView {
        view_stmt(*self)
    }
}

/// Viewing a vector with one more statement appends that statement's view.
pub proof fn lemma_view_stmts_push(s: Seq<Stmt>, x: Stmt)
    ensures
        view_stmts(s.push(x)) == view_stmts(s).push(view_stmt(x)),
    decreases s.len(),
{
    if s.len() == 0 {
        assert(s.push(x).drop_first() =~= Seq::<Stmt>::empty());
        assert(view_stmts(Seq::<Stmt>::empty()) =~= Seq::<StmtView>::empty());
        assert(view_stmts(s.push(x)) =~= seq![view_stmt(x)]);
    } else {
        assert(s.push(x).drop_first() =~= s.drop_first().push(x));
        lemma_view_stmts_push(s.drop_first(), x);
        assert(view_stmts(s.push(x)) =~= view_stmts(s).push(view_stmt(x)));
    }
}

/// The view of a sequence of statements has one view per statement.
pub proof fn lemma_view_stmts_len(s: Seq<Stmt>)
    ensures
        view_stmts(s).len() == s.len(),
    decreases s.len(),
{
    if s.len() > 0 {
        lemma_view_stmts_len(s.drop_first());
    }
}

/// The forms of a lowered statement. A `for` always has a condition: an
/// omitted one lowers to the literal 1.
#[derive(Debug)]
pub enum StmtKind {
    Expr { expr: Option<Expr> },
    Return { expr: Option<Expr> },
    If { condition_expr: Expr, then_stmt: Box<Stmt>, else_stmt: Box<Option<Stmt>> },
    For {
        init_expr: Option<Expr>,
        condition_expr: Expr,
        delta_expr: Option<Expr>,
        run_stmt: Box<Stmt>,
    },
    While { condition_expr: Expr, run_stmt: Box<Stmt> },
    Cpd { stmts: Vec<Stmt> },
}

} // verus!
