use vstd::prelude::*;

use crate::file::position::Position;

verus! {

/// An expression as written, before lowering.
#[derive(Debug)]
pub struct RowExpr {
    pub kind: RowExprKind,
    pub position: Position,
}

impl RowExpr {
    pub fn new_binary(
        row_binary_op_kind: RowBinaryOpKind,
        row_lhs_expr: RowExpr,
        row_rhs_expr: RowExpr,
        position: Position,
    ) -> (r: RowExpr)
        ensures
            r.position == position,
            r.kind == (RowExprKind::Binary {
                row_binary_op_kind,
                row_lhs_expr: Box::new(row_lhs_expr),
                row_rhs_expr: Box::new(row_rhs_expr),
            }),
    {
        RowExpr {
            kind: RowExprKind::Binary {
                row_binary_op_kind,
                row_lhs_expr: Box::new(row_lhs_expr),
                row_rhs_expr: Box::new(row_rhs_expr),
            },
            position,
        }
    }

    pub fn new_assign(
        row_assign_op_kind: RowAssignOpKind,
        row_lhs_expr: RowExpr,
        row_rhs_expr: RowExpr,
        position: Position,
    ) -> (r: RowExpr)
        ensures
            r.position == position,
            r.kind == (RowExprKind::Assign {
                row_assign_op_kind,
                row_lhs_expr: Box::new(row_lhs_expr),
                row_rhs_expr: Box::new(row_rhs_expr),
            }),
    {
        RowExpr {
            kind: RowExprKind::Assign {
                row_assign_op_kind,
                row_lhs_expr: Box::new(row_lhs_expr),
                row_rhs_expr: Box::new(row_rhs_expr),
            },
            position,
        }
    }

    pub fn new_unary_increment(row_expr: RowExpr, position: Position) -> (r: RowExpr)
        ensures
            r.position == position,
            r.kind == (RowExprKind::UnaryIncrement { row_expr: Box::new(row_expr) }),
    {
        RowExpr { kind: RowExprKind::UnaryIncrement { row_expr: Box::new(row_expr) }, position }
    }

    pub fn new_unary_decrement(row_expr: RowExpr, position: Position) -> (r: RowExpr)
        ensures
            r.position == position,
            r.kind == (RowExprKind::UnaryDecrement { row_expr: Box::new(row_expr) }),
    {
        RowExpr { kind: RowExprKind::UnaryDecrement { row_expr: Box::new(row_expr) }, position }
    }

    pub fn new_postfix_increment(row_expr: RowExpr, position: Position) -> (r: RowExpr)
        ensures
            r.position == position,
            r.kind == (RowExprKind::PostfixIncrement { row_expr: Box::new(row_expr) }),
    {
        RowExpr { kind: RowExprKind::PostfixIncrement { row_expr: Box::new(row_expr) }, position }
    }

    pub fn new_postfix_decrement(row_expr: RowExpr, position: Position) -> (r: RowExpr)
        ensures
            r.position == position,
            r.kind == (RowExprKind::PostfixDecrement { row_expr: Box::new(row_expr) }),
    {
        RowExpr { kind: RowExprKind::PostfixDecrement { row_expr: Box::new(row_expr) }, position }
    }

    pub fn new_comma(row_lhs_expr: RowExpr, row_rhs_expr: RowExpr, position: Position) -> (r:
        RowExpr)
        ensures
            r.position == position,
            r.kind == (RowExprKind::Comma {
                row_lhs_expr: Box::new(row_lhs_expr),
                row_rhs_expr: Box::new(row_rhs_expr),
            }),
    {
        RowExpr {
            kind: RowExprKind::Comma {
                row_lhs_expr: Box::new(row_lhs_expr),
                row_rhs_expr: Box::new(row_rhs_expr),
            },
            position,
        }
    }

    pub fn new_condition(
        row_condition_expr: RowExpr,
        row_then_expr: RowExpr,
        row_else_expr: RowExpr,
        position: Position,
    ) -> (r: RowExpr)
        ensures
            r.position == position,
            r.kind == (RowExprKind::Condition {
                row_condition_expr: Box::new(row_condition_expr),
                row_then_expr: Box::new(row_then_expr),
                row_else_expr: Box::new(row_else_expr),
            }),
    {
        RowExpr {
            kind: RowExprKind::Condition {
                row_condition_expr: Box::new(row_condition_expr),
                row_then_expr: Box::new(row_then_expr),
                row_else_expr: Box::new(row_else_expr),
            },
            position,
        }
    }

    pub fn new_ident(ident: String, position: Position) -> (r: RowExpr)
        ensures
            r.position == position,
            r.kind == (RowExprKind::Identifier { ident }),
    {
        RowExpr { kind: RowExprKind::Identifier { ident }, position }
    }

    pub fn new_number(number: usize, position: Position) -> (r: RowExpr)
        ensures
            r.position == position,
            r.kind == (RowExprKind::Number { number }),
    {
        RowExpr { kind: RowExprKind::Number { number }, position }
    }

    pub fn new_func(row_name_expr: RowExpr, row_args_expr: Vec<RowExpr>, position: Position) -> (r:
        RowExpr)
        ensures
            r.position == position,
            r.kind == (RowExprKind::Func { row_name_expr: Box::new(row_name_expr), row_args_expr }),
    {
        RowExpr {
            kind: RowExprKind::Func { row_name_expr: Box::new(row_name_expr), row_args_expr },
            position,
        }
    }
}

/// The mathematical form of an expression as written: call arguments as a
/// sequence.
pub struct RowExprView {
    pub kind: RowExprViewKind,
    pub position: Position,
}

#[allow(inconsistent_fields)]
pub enum RowExprViewKind {
    Binary { op: RowBinaryOpKind, lhs: Box<RowExprView>, rhs: Box<RowExprView> },
    Assign { op: RowAssignOpKind, lhs: Box<RowExprView>, rhs: Box<RowExprView> },
    Comma { lhs: Box<RowExprView>, rhs: Box<RowExprView> },
    Condition { condition: Box<RowExprView>, then_expr: Box<RowExprView>, else_expr: Box<RowExprView> },
    UnaryIncrement { expr: Box<RowExprView> },
    UnaryDecrement { expr: Box<RowExprView> },
    PostfixIncrement { expr: Box<RowExprView> },
    PostfixDecrement { expr: Box<RowExprView> },
    Identifier { ident: String },
    Number { number: usize },
    Func { callee: Box<RowExprView>, args: Seq<RowExprView> },
}

pub open spec fn view_row_expr(e: RowExpr) -> RowExprView
    decreases e,
{
    let kind = match e.kind {
        RowExprKind::Binary { row_binary_op_kind, row_lhs_expr, row_rhs_expr } => RowExprViewKind::Binary {
            op: row_binary_op_kind,
            lhs: Box::new(view_row_expr(*row_lhs_expr)),
            rhs: Box::new(view_row_expr(*row_rhs_expr)),
        },
        RowExprKind::Assign { row_assign_op_kind, row_lhs_expr, row_rhs_expr } => RowExprViewKind::Assign {
            op: row_assign_op_kind,
            lhs: Box::new(view_row_expr(*row_lhs_expr)),
            rhs: Box::new(view_row_expr(*row_rhs_expr)),
        },
        RowExprKind::Comma { row_lhs_expr, row_rhs_expr } => RowExprViewKind::Comma {
            lhs: Box::new(view_row_expr(*row_lhs_expr)),
            rhs: Box::new(view_row_expr(*row_rhs_expr)),
        },
        RowExprKind::Condition { row_condition_expr, row_then_expr, row_else_expr } => RowExprViewKind::Condition {
            condition: Box::new(view_row_expr(*row_condition_expr)),
            then_expr: Box::new(view_row_expr(*row_then_expr)),
            else_expr: Box::new(view_row_expr(*row_else_expr)),
        },
        RowExprKind::UnaryIncrement { row_expr } => RowExprViewKind::UnaryIncrement {
            expr: Box::new(view_row_expr(*row_expr)),
        },
        RowExprKind::UnaryDecrement { row_expr } => RowExprViewKind::UnaryDecrement {
            expr: Box::new(view_row_expr(*row_expr)),
        },
        RowExprKind::PostfixIncrement { row_expr } => RowExprViewKind::PostfixIncrement {
            expr: Box::new(view_row_expr(*row_expr)),
        },
        RowExprKind::PostfixDecrement { row_expr } => RowExprViewKind::PostfixDecrement {
            expr: Box::new(view_row_expr(*row_expr)),
        },
        RowExprKind::Identifier { ident } => RowExprViewKind::Identifier { ident },
        RowExprKind::Number { number } => RowExprViewKind::Number { number },
        RowExprKind::Func { row_name_expr, row_args_expr } => RowExprViewKind::Func {
            callee: Box::new(view_row_expr(*row_name_expr)),
            args: view_row_exprs(row_args_expr@),
        },
    };
    RowExprView { kind, position: e.position }
}

pub open spec fn view_row_exprs(s: Seq<RowExpr>) -> Seq<RowExprView>
    decreases s,
{
    if s.len() == 0 {
        Seq::empty()
    } else {
        seq![view_row_expr(s[0])] + view_row_exprs(s.drop_first())
    }
}

/// Viewing a vector with one more expression appends that expression's view.
pub proof fn lemma_view_row_exprs_push(s: Seq<RowExpr>, x: RowExpr)
    ensures
        view_row_exprs(s.push(x)) == view_row_exprs(s).push(view_row_expr(x)),
    decreases s.len(),
{
    if s.len() == 0 {
        assert(s.push(x).drop_first() =~= Seq::<RowExpr>::empty());
        assert(view_row_exprs(Seq::<RowExpr>::empty()) =~= Seq::<RowExprView>::empty());
        assert(view_row_exprs(s.push(x)) =~= seq![view_row_expr(x)]);
    } else {
        assert(s.push(x).drop_first() =~= s.drop_first().push(x));
        lemma_view_row_exprs_push(s.drop_first(), x);
        assert(view_row_exprs(s.push(x)) =~= view_row_exprs(s).push(view_row_expr(x)));
    }
}

impl View for RowExpr {
    type V = RowExprView;

    open spec fn view(&self) -> RowExprView {
        view_row_expr(*self)
    }
}

/// The forms of an expression as written.
#[derive(Debug)]
pub enum RowExprKind {
    Binary { row_binary_op_kind: RowBinaryOpKind, row_lhs_expr: Box<RowExpr>, row_rhs_expr: Box<RowExpr> },
    Assign { row_assign_op_kind: RowAssignOpKind, row_lhs_expr: Box<RowExpr>, row_rhs_expr: Box<RowExpr> },
    Comma { row_lhs_expr: Box<RowExpr>, row_rhs_expr: Box<RowExpr> },
    Condition {
        row_condition_expr: Box<RowExpr>,
        row_then_expr: Box<RowExpr>,
        row_else_expr: Box<RowExpr>,
    },
    UnaryIncrement { row_expr: Box<RowExpr> },
    UnaryDecrement { row_expr: Box<RowExpr> },
    PostfixIncrement { row_expr: Box<RowExpr> },
    PostfixDecrement { row_expr: Box<RowExpr> },
    Identifier { ident: String },
    Number { number: usize },
    Func { row_name_expr: Box<RowExpr>, row_args_expr: Vec<RowExpr> },
}

/// Binary operators as written.
#[derive(Debug, Clone, Copy, PartialEq, Eq, Structural)]
pub enum RowBinaryOpKind {
    /// addition operator ('+')
    Add,
    /// subtraction operator ('-')
    Sub,
    /// multiplication operator ('*')
    Mul,
    /// division operator ('/')
    Div,
    /// remainder operator ('%')
    Rem,
    /// bitwise AND operator ('&')
    BitAnd,
    /// bitwise inclusive OR operator ('|')
    BitOr,
    /// bitwise exclusive OR operator ('^')
    BitXor,
    /// logical AND operator ('&&')
    LogicAnd,
    /// logical OR operator ('||')
    LogicOr,
    /// left-shift operator ('<<')
    LShift,
    /// right-shift operator ('>>')
    RShift,
    /// less-than operator ('<')
    Lt,
    /// greater-than operator ('>')
    Gt,
    /// less-than-or-equal-to operator ('<=')
    LtEqual,
    /// greater-than-or-equal-to operator ('>=')
    GtEqual,
    /// equality operator ('==')
    Equal,
    /// inequality operator ('!=')
    NotEqual,
}

/// Assignment operators as written.
#[derive(Debug, Clone, Copy, PartialEq, Eq, Structural)]
pub enum RowAssignOpKind {
    /// simple assignment operator ('=')
    Equal,
    /// multiplication assignment operator ('*=')
    MulEqual,
    /// division assignment operator ('/=')
    DivEqual,
    /// remainder assignment operator ('%=')
    RemEqual,
    /// addition assignment operator ('+=')
    AddEqual,
    /// subtraction assignment operator ('-=')
    SubEqual,
    /// left-shift assignment operator ('<<=')
    LShiftEqual,
    /// right-shift assignment operator ('>>=')
    RShiftEqual,
    /// bitwise AND assignment operator ('&=')
    BitAndEqual,
    /// bitwise exclusive OR assignment operator ('^=')
    BitXorEqual,
    /// bitwise inclusive OR assignment operator ('|=')
    BitOrEqual,
}

} // verus!
