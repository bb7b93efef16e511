use vstd::prelude::*;

use super::variable::Variable;
use crate::error::Error;
use crate::file::position::Position;
use crate::parse::row_expr::{RowAssignOpKind, RowBinaryOpKind};

verus! {

/// A lowered expression.
#[derive(Debug)]
pub struct Expr {
    pub kind: ExprKind,
    pub position: Position,
}

impl Expr {
    pub fn new_binary(op_kind: BinaryOpKind, lhs: Expr, rhs: Expr, position: Position) -> (r: Expr)
        ensures
            r.position == position,
            r.kind == (ExprKind::Binary { op_kind, lhs: Box::new(lhs), rhs: Box::new(rhs) }),
    {
        Expr { kind: ExprKind::Binary { op_kind, lhs: Box::new(lhs), rhs: Box::new(rhs) }, position }
    }

    pub fn new_assign(lhs: Expr, rhs: Expr, position: Position) -> (r: Expr)
        ensures
            r.position == position,
            r.kind == (ExprKind::Assign { lhs: Box::new(lhs), rhs: Box::new(rhs) }),
    {
        Expr { kind: ExprKind::Assign { lhs: Box::new(lhs), rhs: Box::new(rhs) }, position }
    }

    pub fn new_assign_op(op_kind: BinaryOpKind, lhs: Expr, rhs: Expr, position: Position) -> (r:
        Expr)
        ensures
            r.position == position,
            r.kind == (ExprKind::AssignOp { op_kind, lhs: Box::new(lhs), rhs: Box::new(rhs) }),
    {
        Expr {
            kind: ExprKind::AssignOp { op_kind, lhs: Box::new(lhs), rhs: Box::new(rhs) },
            position,
        }
    }

    pub fn new_postfix_increment(expr: Expr, position: Position) -> (r: Expr)
        ensures
            r.position == position,
            r.kind == (ExprKind::PostfixIncrement { expr: Box::new(expr) }),
    {
        Expr { kind: ExprKind::PostfixIncrement { expr: Box::new(expr) }, position }
    }

    pub fn new_postfix_decrement(expr: Expr, position: Position) -> (r: Expr)
        ensures
            r.position == position,
            r.kind == (ExprKind::PostfixDecrement { expr: Box::new(expr) }),
    {
        Expr { kind: ExprKind::PostfixDecrement { expr: Box::new(expr) }, position }
    }

    pub fn new_comma(lhs: Expr, rhs: Expr, position: Position) -> (r: Expr)
        ensures
            r.position == position,
            r.kind == (ExprKind::Comma { lhs: Box::new(lhs), rhs: Box::new(rhs) }),
    {
        Expr { kind: ExprKind::Comma { lhs: Box::new(lhs), rhs: Box::new(rhs) }, position }
    }

    pub fn new_condition(condition: Expr, then_expr: Expr, else_expr: Expr, position: Position) -> (r:
        Expr)
        ensures
            r.position == position,
            r.kind == (ExprKind::Condition {
                condition: Box::new(condition),
                then_expr: Box::new(then_expr),
                else_expr: Box::new(else_expr),
            }),
    {
        Expr {
            kind: ExprKind::Condition {
                condition: Box::new(condition),
                then_expr: Box::new(then_expr),
                else_expr: Box::new(else_expr),
            },
            position,
        }
    }

    pub fn new_var(var: Variable, position: Position) -> (r: Expr)
        ensures
            r.position == position,
            r.kind == (ExprKind::Variable { var }),
    {
        Expr { kind: ExprKind::Variable { var }, position }
    }

    pub fn new_number(number: usize, position: Position) -> (r: Expr)
        ensures
            r.position == position,
            r.kind == (ExprKind::Number { number }),
    {
        Expr { kind: ExprKind::Number { number }, position }
    }

    pub fn new_func_expr(expr: Expr, args: Vec<Expr>, position: Position) -> (r: Expr)
        ensures
            r.position == position,
            r.kind == (ExprKind::Func { name: FuncCallKind::Expr { expr: Box::new(expr) }, args }),
    {
        Expr { kind: ExprKind::Func { name: FuncCallKind::Expr { expr: Box::new(expr) }, args }, position }
    }

    pub fn new_func_label(name: String, args: Vec<Expr>, position: Position) -> (r: Expr)
        ensures
            r.position == position,
            r.kind == (ExprKind::Func { name: FuncCallKind::Label { name }, args }),
    {
        Expr { kind: ExprKind::Func { name: FuncCallKind::Label { name }, args }, position }
    }
}

/// The mathematical form of a lowered expression: children by value, call
/// arguments as a sequence, names as character sequences.
pub struct ExprView {
    pub kind: ExprViewKind,
    pub position: Position,
}

pub enum ExprViewKind {
    Binary { op_kind: BinaryOpKind, lhs: Box<ExprView>, rhs: Box<ExprView> },
    Assign { lhs: Box<ExprView>, rhs: Box<ExprView> },
    AssignOp { op_kind: BinaryOpKind, lhs: Box<ExprView>, rhs: Box<ExprView> },
    Comma { lhs: Box<ExprView>, rhs: Box<ExprView> },
    Condition { condition: Box<ExprView>, then_expr: Box<ExprView>, else_expr: Box<ExprView> },
    PostfixIncrement { expr: Box<ExprView> },
    PostfixDecrement { expr: Box<ExprView> },
    Variable { var: Variable },
    Number { number: usize },
    Func { callee: CalleeView, args: Seq<ExprView> },
}

pub enum CalleeView {
    Label { name: String },
    Expr { expr: Box<ExprView> },
}

pub open spec fn view_expr(e: Expr) -> ExprView
    decreases e,
{
    let kind = match e.kind {
        ExprKind::Binary { op_kind, lhs, rhs } => ExprViewKind::Binary {
            op_kind,
            lhs: Box::new(view_expr(*lhs)),
            rhs: Box::new(view_expr(*rhs)),
        },
        ExprKind::Assign { lhs, rhs } => ExprViewKind::Assign {
            lhs: Box::new(view_expr(*lhs)),
            rhs: Box::new(view_expr(*rhs)),
        },
        ExprKind::AssignOp { op_kind, lhs, rhs } => ExprViewKind::AssignOp {
            op_kind,
            lhs: Box::new(view_expr(*lhs)),
            rhs: Box::new(view_expr(*rhs)),
        },
        ExprKind::Comma { lhs, rhs } => ExprViewKind::Comma {
            lhs: Box::new(view_expr(*lhs)),
            rhs: Box::new(view_expr(*rhs)),
        },
        ExprKind::Condition { condition, then_expr, else_expr } => ExprViewKind::Condition {
            condition: Box::new(view_expr(*condition)),
            then_expr: Box::new(view_expr(*then_expr)),
            else_expr: Box::new(view_expr(*else_expr)),
        },
        ExprKind::PostfixIncrement { expr } => ExprViewKind::PostfixIncrement {
            expr: Box::new(view_expr(*expr)),
        },
        ExprKind::PostfixDecrement { expr } => ExprViewKind::PostfixDecrement {
            expr: Box::new(view_expr(*expr)),
        },
        ExprKind::Variable { var } => ExprViewKind::Variable { var },
        ExprKind::Number { number } => ExprViewKind::Number { number },
        ExprKind::Func { name, args } => ExprViewKind::Func {
            callee: view_callee(name),
            args: view_exprs(args@),
        },
    };
    ExprView { kind, position: e.position }
}

pub open spec fn view_callee(f: FuncCallKind) -> CalleeView
    decreases f,
{
    match f {
        FuncCallKind::Label { name } => CalleeView::Label { name },
        FuncCallKind::Expr { expr } => CalleeView::Expr { expr: Box::new(view_expr(*expr)) },
    }
}

pub open spec fn view_exprs(s: Seq<Expr>) -> Seq<ExprView>
    decreases s,
{
    if s.len() == 0 {
        Seq::empty()
    } else {
        seq![view_expr(s[0])] + view_exprs(s.drop_first())
    }
}

impl View for Expr {
    type V = ExprView;

    open spec fn view(&self) -> ExprView {
        view_expr(*self)
    }
}

/// Viewing a vector with one more element appends that element's view.
pub proof fn lemma_view_exprs_push(s: Seq<Expr>, x: Expr)
    ensures
        view_exprs(s.push(x)) == view_exprs(s).push(view_expr(x)),
    decreases s.len(),
{
    if s.len() == 0 {
        assert(s.push(x).drop_first() =~= Seq::<Expr>::empty());
        assert(view_exprs(Seq::<Expr>::empty()) =~= Seq::<ExprView>::empty());
        assert(view_exprs(s.push(x)) =~= seq![view_expr(x)]);
    } else {
        assert(s.push(x).drop_first() =~= s.drop_first().push(x));
        lemma_view_exprs_push(s.drop_first(), x);
        assert(view_exprs(s.push(x)) =~= view_exprs(s).push(view_expr(x)));
    }
}

/// The view of a sequence of expressions has one view per expression.
pub proof fn lemma_view_exprs_len(s: Seq<Expr>)
    ensures
        view_exprs(s).len() == s.len(),
    decreases s.len(),
{
    if s.len() > 0 {
        lemma_view_exprs_len(s.drop_first());
    }
}

/// The forms of a lowered expression.
#[derive(Debug)]
pub enum ExprKind {
    Binary { op_kind: BinaryOpKind, lhs: Box<Expr>, rhs: Box<Expr> },
    /// Plain assignment: stores `rhs` into the variable `lhs`.
    Assign { lhs: Box<Expr>, rhs: Box<Expr> },
    /// Compound assignment: stores `lhs op rhs` into the variable `lhs`.
    AssignOp { op_kind: BinaryOpKind, lhs: Box<Expr>, rhs: Box<Expr> },
    Comma { lhs: Box<Expr>, rhs: Box<Expr> },
    Condition { condition: Box<Expr>, then_expr: Box<Expr>, else_expr: Box<Expr> },
    PostfixIncrement { expr: Box<Expr> },
    PostfixDecrement { expr: Box<Expr> },
    Variable { var: Variable },
    Number { number: usize },
    Func { name: FuncCallKind, args: Vec<Expr> },
}

/// The binary operators left after lowering.
#[derive(Debug, Clone, Copy, PartialEq, Eq, Structural)]
pub enum BinaryOpKind {
    /// addition operator ('+')
    Add,
    /// subtraction operator ('-')
    Sub,
    /// multiplication operator ('*')
    Mul,
    /// division operator ('/')
    Div,
    /// remainder operator ('%')
    Rem,
    /// bitwise AND operator ('&')
    BitAnd,
    /// bitwise inclusive OR operator ('|')
    BitOr,
    /// bitwise exclusive OR operator ('^')
    BitXor,
    /// left-shift operator ('<<')
    LShift,
    /// right-shift operator ('>>')
    RShift,
    /// less-than operator ('<')
    Lt,
    /// less-than-or-equal-to operator ('<=')
    LtEqual,
    /// equality operator ('==')
    Eq,
    /// inequality operator ('!=')
    Ne,
}

/// The lowered operator of a binary operator as written; logical operators
/// have none, since they lower to conditions.
pub open spec fn binary_op_of(row: RowBinaryOpKind) -> Option<BinaryOpKind> {
    match row {
        RowBinaryOpKind::Add => Some(BinaryOpKind::Add),
        RowBinaryOpKind::Sub => Some(BinaryOpKind::Sub),
        RowBinaryOpKind::Mul => Some(BinaryOpKind::Mul),
        RowBinaryOpKind::Div => Some(BinaryOpKind::Div),
        RowBinaryOpKind::Rem => Some(BinaryOpKind::Rem),
        RowBinaryOpKind::BitAnd => Some(BinaryOpKind::BitAnd),
        RowBinaryOpKind::BitOr => Some(BinaryOpKind::BitOr),
        RowBinaryOpKind::BitXor => Some(BinaryOpKind::BitXor),
        RowBinaryOpKind::LogicAnd => None,
        RowBinaryOpKind::LogicOr => None,
        RowBinaryOpKind::LShift => Some(BinaryOpKind::LShift),
        RowBinaryOpKind::RShift => Some(BinaryOpKind::RShift),
        RowBinaryOpKind::Lt => Some(BinaryOpKind::Lt),
        RowBinaryOpKind::Gt => Some(BinaryOpKind::Lt),
        RowBinaryOpKind::LtEqual => Some(BinaryOpKind::LtEqual),
        RowBinaryOpKind::GtEqual => Some(BinaryOpKind::LtEqual),
        RowBinaryOpKind::Equal => Some(BinaryOpKind::Eq),
        RowBinaryOpKind::NotEqual => Some(BinaryOpKind::Ne),
    }
}

/// The operator that a compound assignment applies; plain `=` applies none.
pub open spec fn assign_op_of(row: RowAssignOpKind) -> Option<BinaryOpKind> {
    match row {
        RowAssignOpKind::Equal => None,
        RowAssignOpKind::MulEqual => Some(BinaryOpKind::Mul),
        RowAssignOpKind::DivEqual => Some(BinaryOpKind::Div),
        RowAssignOpKind::RemEqual => Some(BinaryOpKind::Rem),
        RowAssignOpKind::AddEqual => Some(BinaryOpKind::Add),
        RowAssignOpKind::SubEqual => Some(BinaryOpKind::Sub),
        RowAssignOpKind::LShiftEqual => Some(BinaryOpKind::LShift),
        RowAssignOpKind::RShiftEqual => Some(BinaryOpKind::RShift),
        RowAssignOpKind::BitAndEqual => Some(BinaryOpKind::BitAnd),
        RowAssignOpKind::BitXorEqual => Some(BinaryOpKind::BitXor),
        RowAssignOpKind::BitOrEqual => Some(BinaryOpKind::BitOr),
    }
}

impl BinaryOpKind {
    /// Maps an operator as written to its lowered operator. `>` and `>=` map to
    /// `<` and `<=`: the caller swaps the operands. The logical operators have
    /// no lowered operator and are refused.
    pub fn from_row_binary_op_kind(row: RowBinaryOpKind) -> (r: Result<BinaryOpKind, Error>)
        ensures
            binary_op_of(row) matches Some(op) ==> r == Ok::<BinaryOpKind, Error>(op),
            binary_op_of(row) is None ==> r == Err::<BinaryOpKind, Error>(Error::Unexpected),
    {
        match row {
            RowBinaryOpKind::Add => Ok(BinaryOpKind::Add),
            RowBinaryOpKind::Sub => Ok(BinaryOpKind::Sub),
            RowBinaryOpKind::Mul => Ok(BinaryOpKind::Mul),
            RowBinaryOpKind::Div => Ok(BinaryOpKind::Div),
            RowBinaryOpKind::Rem => Ok(BinaryOpKind::Rem),
            RowBinaryOpKind::BitAnd => Ok(BinaryOpKind::BitAnd),
            RowBinaryOpKind::BitOr => Ok(BinaryOpKind::BitOr),
            RowBinaryOpKind::BitXor => Ok(BinaryOpKind::BitXor),
            RowBinaryOpKind::LogicAnd => Err(Error::new_unexpected()),
            RowBinaryOpKind::LogicOr => Err(Error::new_unexpected()),
            RowBinaryOpKind::LShift => Ok(BinaryOpKind::LShift),
            RowBinaryOpKind::RShift => Ok(BinaryOpKind::RShift),
            RowBinaryOpKind::Lt => Ok(BinaryOpKind::Lt),
            RowBinaryOpKind::Gt => Ok(BinaryOpKind::Lt),
            RowBinaryOpKind::LtEqual => Ok(BinaryOpKind::LtEqual),
            RowBinaryOpKind::GtEqual => Ok(BinaryOpKind::LtEqual),
            RowBinaryOpKind::Equal => Ok(BinaryOpKind::Eq),
            RowBinaryOpKind::NotEqual => Ok(BinaryOpKind::Ne),
        }
    }

    /// Maps a compound assignment operator to the operator it applies. Plain
    /// `=` applies none: asking for it is a broken invariant.
    pub fn from_row_assign_op_kind(row: RowAssignOpKind) -> (r: Result<BinaryOpKind, Error>)
        ensures
            assign_op_of(row) matches Some(op) ==> r == Ok::<BinaryOpKind, Error>(op),
            assign_op_of(row) is None ==> r == Err::<BinaryOpKind, Error>(Error::Unexpected),
    {
        match row {
            RowAssignOpKind::Equal => Err(Error::new_unexpected()),
            RowAssignOpKind::MulEqual => Ok(BinaryOpKind::Mul),
            RowAssignOpKind::DivEqual => Ok(BinaryOpKind::Div),
            RowAssignOpKind::RemEqual => Ok(BinaryOpKind::Rem),
            RowAssignOpKind::AddEqual => Ok(BinaryOpKind::Add),
            RowAssignOpKind::SubEqual => Ok(BinaryOpKind::Sub),
            RowAssignOpKind::LShiftEqual => Ok(BinaryOpKind::LShift),
            RowAssignOpKind::RShiftEqual => Ok(BinaryOpKind::RShift),
            RowAssignOpKind::BitAndEqual => Ok(BinaryOpKind::BitAnd),
            RowAssignOpKind::BitXorEqual => Ok(BinaryOpKind::BitXor),
            RowAssignOpKind::BitOrEqual => Ok(BinaryOpKind::BitOr),
        }
    }
}

/// How a call names its target.
#[derive(Debug)]
pub enum FuncCallKind {
    /// A direct call of the assembler symbol `name`.
    Label { name: String },
    /// A call through the address that `expr` computes.
    Expr { expr: Box<Expr> },
}

} // verus!
