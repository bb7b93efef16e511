use vstd::prelude::*;

use super::instr::{ArithOp, Cond, Instr, Label, ShiftOp};
use super::register::Register;
use crate::analyze::expr::{BinaryOpKind, CalleeView, ExprView, ExprViewKind};
use crate::analyze::stmt::{StmtView, StmtViewKind};

verus! {

/// The registers that carry the first six call arguments, in order.
pub open spec fn arg_regs() -> Seq<Register> {
    seq![Register::Rdi, Register::Rsi, Register::Rdx, Register::Rcx, Register::R8, Register::R9]
}

/// How many arguments of `n` go in registers.
pub open spec fn reg_args(n: nat) -> nat {
    if n < 6 {
        n
    } else {
        6
    }
}

/// How many arguments of `n` stay on the stack.
pub open spec fn stack_args(n: nat) -> nat {
    if n > 6 {
        (n - 6) as nat
    } else {
        0
    }
}

/// Pops the first arguments into their registers.
pub open spec fn set_args_code(n: nat) -> Seq<Instr> {
    Seq::new(reg_args(n), |i: int| Instr::Pop(arg_regs()[i]))
}

/// A comparison of `rax` with `rdi`, as 0 or 1 in `rax`.
pub open spec fn compare_code(c: Cond) -> Seq<Instr> {
    seq![
        Instr::Arith(ArithOp::Cmp, Register::Rax, Register::Rdi),
        Instr::SetCc(c, Register::Rax),
        Instr::Movzb(Register::Rax, Register::Rax),
    ]
}

/// Applies `op` to `rax` and `rdi`, leaving the result in `rax`.
pub open spec fn binop_code(op: BinaryOpKind) -> Seq<Instr> {
    match op {
        BinaryOpKind::Add => seq![Instr::Arith(ArithOp::Add, Register::Rax, Register::Rdi)],
        BinaryOpKind::Sub => seq![Instr::Arith(ArithOp::Sub, Register::Rax, Register::Rdi)],
        BinaryOpKind::Mul => seq![Instr::Arith(ArithOp::Imul, Register::Rax, Register::Rdi)],
        BinaryOpKind::Div => seq![Instr::Cqo, Instr::Idiv(Register::Rdi)],
        BinaryOpKind::Rem => seq![
            Instr::Cqo,
            Instr::Idiv(Register::Rdi),
            Instr::Mov(Register::Rax, Register::Rdx),
        ],
        BinaryOpKind::BitAnd => seq![Instr::Arith(ArithOp::And, Register::Rax, Register::Rdi)],
        BinaryOpKind::BitOr => seq![Instr::Arith(ArithOp::Or, Register::Rax, Register::Rdi)],
        BinaryOpKind::BitXor => seq![Instr::Arith(ArithOp::Xor, Register::Rax, Register::Rdi)],
        BinaryOpKind::LShift => seq![
            Instr::Mov(Register::Rcx, Register::Rdi),
            Instr::Shift(ShiftOp::Shl, Register::Rax, Register::Rcx),
        ],
        BinaryOpKind::RShift => seq![
            Instr::Mov(Register::Rcx, Register::Rdi),
            Instr::Shift(ShiftOp::Shr, Register::Rax, Register::Rcx),
        ],
        BinaryOpKind::Lt => compare_code(Cond::L),
        BinaryOpKind::LtEqual => compare_code(Cond::Le),
        BinaryOpKind::Eq => compare_code(Cond::E),
        BinaryOpKind::Ne => compare_code(Cond::Ne),
    }
}

/// Moves the operands into `rax` and `rdi`, applies `op` and pushes the result.
pub open spec fn binop_with_reg_code(op: BinaryOpKind, lhs: Register, rhs: Register) -> Seq<Instr> {
    (if lhs != Register::Rax {
        seq![Instr::Mov(Register::Rax, lhs)]
    } else {
        Seq::empty()
    }) + (if rhs != Register::Rdi {
        seq![Instr::Mov(Register::Rdi, rhs)]
    } else {
        Seq::empty()
    }) + binop_code(op) + seq![Instr::Push(Register::Rax)]
}

/// Pushes the address of a variable: the frame pointer minus its offset.
pub open spec fn left_code(e: ExprView) -> Seq<Instr> {
    match e.kind {
        ExprViewKind::Variable { var } => seq![
            Instr::Mov(Register::Rax, Register::Rbp),
            Instr::SubImm(Register::Rax, var.offset),
            Instr::Push(Register::Rax),
        ],
        _ => Seq::empty(),
    }
}

/// Pops, tests against zero and jumps to `l` when zero.
pub open spec fn branch_code(l: Label) -> Seq<Instr> {
    seq![Instr::Pop(Register::Rax), Instr::CmpZero(Register::Rax), Instr::Je(l)]
}

/// Number of nodes of an expression.
pub open spec fn expr_size(e: ExprView) -> nat
    decreases e,
{
    match e.kind {
        ExprViewKind::Binary { lhs, rhs, .. } => 1 + expr_size(*lhs) + expr_size(*rhs),
        ExprViewKind::Assign { lhs, rhs } => 1 + expr_size(*lhs) + expr_size(*rhs),
        ExprViewKind::AssignOp { lhs, rhs, .. } => 1 + expr_size(*lhs) + expr_size(*rhs),
        ExprViewKind::Comma { lhs, rhs } => 1 + expr_size(*lhs) + expr_size(*rhs),
        ExprViewKind::Condition { condition, then_expr, else_expr } => 1 + expr_size(*condition)
            + expr_size(*then_expr) + expr_size(*else_expr),
        ExprViewKind::PostfixIncrement { expr } => 1 + expr_size(*expr),
        ExprViewKind::PostfixDecrement { expr } => 1 + expr_size(*expr),
        ExprViewKind::Variable { .. } => 1,
        ExprViewKind::Number { .. } => 1,
        ExprViewKind::Func { callee, args } => {
            let c = match callee {
                CalleeView::Label { .. } => 0,
                CalleeView::Expr { expr } => expr_size(*expr),
            };
            1 + c + args_size(args)
        },
    }
}

/// Number of nodes of a sequence of expressions.
pub open spec fn args_size(s: Seq<ExprView>) -> nat
    decreases s,
{
    if s.len() == 0 {
        0
    } else {
        expr_size(s.last()) + args_size(s.drop_last())
    }
}

pub open spec fn is_variable(e: ExprView) -> bool {
    e.kind is Variable
}

/// Every place that is assigned to, incremented or decremented is a variable.
pub open spec fn expr_ok(e: ExprView) -> bool
    decreases e,
{
    match e.kind {
        ExprViewKind::Binary { lhs, rhs, .. } => expr_ok(*lhs) && expr_ok(*rhs),
        ExprViewKind::Assign { lhs, rhs } => is_variable(*lhs) && expr_ok(*rhs),
        ExprViewKind::AssignOp { lhs, rhs, .. } => is_variable(*lhs) && expr_ok(*rhs),
        ExprViewKind::Comma { lhs, rhs } => expr_ok(*lhs) && expr_ok(*rhs),
        ExprViewKind::Condition { condition, then_expr, else_expr } => expr_ok(*condition) && expr_ok(
            *then_expr,
        ) && expr_ok(*else_expr),
        ExprViewKind::PostfixIncrement { expr } => is_variable(*expr),
        ExprViewKind::PostfixDecrement { expr } => is_variable(*expr),
        ExprViewKind::Variable { .. } => true,
        ExprViewKind::Number { .. } => true,
        ExprViewKind::Func { callee, args } => {
            let c = match callee {
                CalleeView::Label { .. } => true,
                CalleeView::Expr { expr } => expr_ok(*expr),
            };
            c && args_ok(args)
        },
    }
}

pub open spec fn args_ok(s: Seq<ExprView>) -> bool
    decreases s,
{
    if s.len() == 0 {
        true
    } else {
        expr_ok(s.last()) && args_ok(s.drop_last())
    }
}

/// The code of an expression, and the next free label number. `label` is the
/// first free label number and `depth` the number of values on the operand
/// stack before it. The code leaves exactly one more value on the stack.
pub open spec fn expr_code(e: ExprView, label: nat, depth: nat) -> (Seq<Instr>, nat)
    decreases e,
{
    match e.kind {
        ExprViewKind::Binary { op_kind, lhs, rhs } => {
            let (lc, l1) = expr_code(*lhs, label, depth);
            let (rc, l2) = expr_code(*rhs, l1, depth + 1);
            (
                lc + rc + seq![Instr::Pop(Register::Rdi), Instr::Pop(Register::Rax)]
                    + binop_with_reg_code(op_kind, Register::Rax, Register::Rdi),
                l2,
            )
        },
        ExprViewKind::Assign { lhs, rhs } => {
            let (rc, l1) = expr_code(*rhs, label, depth + 1);
            (left_code(*lhs) + rc + store_code(), l1)
        },
        ExprViewKind::AssignOp { op_kind, lhs, rhs } => {
            let (rc, l1) = expr_code(*rhs, label, depth + 1);
            (
                left_code(*lhs) + rc + seq![
                    Instr::Pop(Register::Rdi),
                    Instr::Pop(Register::Rax),
                    Instr::Load(Register::R8, Register::Rax),
                    Instr::Push(Register::Rax),
                ] + binop_with_reg_code(op_kind, Register::R8, Register::Rdi) + store_code(),
                l1,
            )
        },
        ExprViewKind::Comma { lhs, rhs } => {
            let (lc, l1) = expr_code(*lhs, label, depth);
            let (rc, l2) = expr_code(*rhs, l1, depth);
            (lc + seq![Instr::Pop(Register::Rax)] + rc, l2)
        },
        ExprViewKind::Condition { condition, then_expr, else_expr } => {
            let n = label as usize;
            let (cc, l1) = expr_code(*condition, label + 1, depth);
            let (tc, l2) = expr_code(*then_expr, l1, depth);
            let (fc, l3) = expr_code(*else_expr, l2, depth);
            (
                cc + branch_code(Label::Else(n)) + tc + seq![
                    Instr::Jmp(Label::End(n)),
                    Instr::Label(Label::Else(n)),
                ] + fc + seq![Instr::Label(Label::End(n))],
                l3,
            )
        },
        ExprViewKind::PostfixIncrement { expr } => (
            left_code(*expr) + seq![
                Instr::Pop(Register::Rdi),
                Instr::Load(Register::Rax, Register::Rdi),
                Instr::Push(Register::Rax),
                Instr::AddImm(Register::Rax, 1),
                Instr::Store(Register::Rdi, Register::Rax),
            ],
            label,
        ),
        ExprViewKind::PostfixDecrement { expr } => (
            left_code(*expr) + seq![
                Instr::Pop(Register::Rdi),
                Instr::Load(Register::Rax, Register::Rdi),
                Instr::Push(Register::Rax),
                Instr::SubImm(Register::Rax, 1),
                Instr::Store(Register::Rdi, Register::Rax),
            ],
            label,
        ),
        ExprViewKind::Variable { .. } => (
            left_code(e) + seq![
                Instr::Pop(Register::Rax),
                Instr::Load(Register::Rax, Register::Rax),
                Instr::Push(Register::Rax),
            ],
            label,
        ),
        ExprViewKind::Number { number } => (seq![Instr::PushImm(number as i32)], label),
        ExprViewKind::Func { callee, args } => {
            let n = args.len();
            let pad: nat = if (depth + stack_args(n)) % 2 == 1 {
                1
            } else {
                0
            };
            let (ac, l1) = args_code(args, label, depth + pad);
            let (cc, l2) = match callee {
                CalleeView::Label { name } => (set_args_code(n) + seq![Instr::Call(name)], l1),
                CalleeView::Expr { expr } => {
                    let (fc, l2) = expr_code(*expr, l1, depth + pad + n);
                    (
                        fc + seq![Instr::Pop(Register::R10)] + set_args_code(n) + seq![
                            Instr::CallReg(Register::R10),
                        ],
                        l2,
                    )
                },
            };
            (
                (if pad == 1 {
                    seq![Instr::SubImm(Register::Rsp, 8)]
                } else {
                    Seq::empty()
                }) + ac + cc + seq![
                    Instr::AddImm(Register::Rsp, ((stack_args(n) + pad) * 8) as usize),
                    Instr::Push(Register::Rax),
                ],
                l2,
            )
        },
    }
}

/// The code of call arguments, evaluated from the last to the first, so that
/// the first ends on top of the stack.
pub open spec fn args_code(args: Seq<ExprView>, label: nat, depth: nat) -> (Seq<Instr>, nat)
    decreases args,
{
    if args.len() == 0 {
        (Seq::empty(), label)
    } else {
        let (c, l1) = expr_code(args.last(), label, depth);
        let (rest, l2) = args_code(args.drop_last(), l1, depth + 1);
        (c + rest, l2)
    }
}

/// Pops a value and an address, stores the value and pushes it again.
pub open spec fn store_code() -> Seq<Instr> {
    seq![
        Instr::Pop(Register::Rdi),
        Instr::Pop(Register::Rax),
        Instr::Store(Register::Rax, Register::Rdi),
        Instr::Push(Register::Rdi),
    ]
}

/// Evaluates an optional expression and drops its value.
pub open spec fn discard_code(e: Option<ExprView>, label: nat, depth: nat) -> (Seq<Instr>, nat) {
    match e {
        None => (Seq::empty(), label),
        Some(x) => {
            let (c, l1) = expr_code(x, label, depth);
            (c + seq![Instr::Pop(Register::Rax)], l1)
        },
    }
}

pub open spec fn opt_size(e: Option<ExprView>) -> nat {
    match e {
        None => 0,
        Some(x) => expr_size(x),
    }
}

pub open spec fn opt_ok(e: Option<ExprView>) -> bool {
    match e {
        None => true,
        Some(x) => expr_ok(x),
    }
}

/// Number of nodes of a statement, its expressions included.
pub open spec fn stmt_size(s: StmtView) -> nat
    decreases s,
{
    match s.kind {
        StmtViewKind::Expr { expr } => 1 + opt_size(expr),
        StmtViewKind::Return { expr } => 1 + opt_size(expr),
        StmtViewKind::If { condition_expr, then_stmt, else_stmt } => {
            let f = match *else_stmt {
                None => 0,
                Some(x) => stmt_size(x),
            };
            1 + expr_size(condition_expr) + stmt_size(*then_stmt) + f
        },
        StmtViewKind::For { init_expr, condition_expr, delta_expr, run_stmt } => 1 + opt_size(init_expr)
            + expr_size(condition_expr) + opt_size(delta_expr) + stmt_size(*run_stmt),
        StmtViewKind::While { condition_expr, run_stmt } => 1 + expr_size(condition_expr) + stmt_size(
            *run_stmt,
        ),
        StmtViewKind::Cpd { stmts } => 1 + stmts_size(stmts),
    }
}

pub open spec fn stmts_size(s: Seq<StmtView>) -> nat
    decreases s,
{
    if s.len() == 0 {
        0
    } else {
        stmt_size(s[0]) + stmts_size(s.drop_first())
    }
}

/// Every expression of the statement assigns only to variables.
pub open spec fn stmt_ok(s: StmtView) -> bool
    decreases s,
{
    match s.kind {
        StmtViewKind::Expr { expr } => opt_ok(expr),
        StmtViewKind::Return { expr } => opt_ok(expr),
        StmtViewKind::If { condition_expr, then_stmt, else_stmt } => {
            let f = match *else_stmt {
                None => true,
                Some(x) => stmt_ok(x),
            };
            expr_ok(condition_expr) && stmt_ok(*then_stmt) && f
        },
        StmtViewKind::For { init_expr, condition_expr, delta_expr, run_stmt } => opt_ok(init_expr)
            && expr_ok(condition_expr) && opt_ok(delta_expr) && stmt_ok(*run_stmt),
        StmtViewKind::While { condition_expr, run_stmt } => expr_ok(condition_expr) && stmt_ok(
            *run_stmt,
        ),
        StmtViewKind::Cpd { stmts } => stmts_ok(stmts),
    }
}

pub open spec fn stmts_ok(s: Seq<StmtView>) -> bool
    decreases s,
{
    if s.len() == 0 {
        true
    } else {
        stmt_ok(s[0]) && stmts_ok(s.drop_first())
    }
}

/// The code of a statement, and the next free label number. Statements leave
/// the operand stack as they found it.
pub open spec fn stmt_code(s: StmtView, label: nat, depth: nat) -> (Seq<Instr>, nat)
    decreases s,
{
    match s.kind {
        StmtViewKind::Expr { expr } => discard_code(expr, label, depth),
        StmtViewKind::Return { expr } => {
            let (c, l1) = discard_code(expr, label, depth);
            (c + seq![Instr::Jmp(Label::MainRet)], l1)
        },
        StmtViewKind::If { condition_expr, then_stmt, else_stmt } => {
            let n = label as usize;
            let (cc, l1) = expr_code(condition_expr, label + 1, depth);
            let (tc, l2) = stmt_code(*then_stmt, l1, depth);
            let (fc, l3) = match *else_stmt {
                None => (Seq::empty(), l2),
                Some(x) => stmt_code(x, l2, depth),
            };
            (
                cc + branch_code(Label::Else(n)) + tc + seq![
                    Instr::Jmp(Label::End(n)),
                    Instr::Label(Label::Else(n)),
                ] + fc + seq![Instr::Label(Label::End(n))],
                l3,
            )
        },
        StmtViewKind::For { init_expr, condition_expr, delta_expr, run_stmt } => {
            let n = label as usize;
            let (ic, l1) = discard_code(init_expr, label + 1, depth);
            let (cc, l2) = expr_code(condition_expr, l1, depth);
            let (bc, l3) = stmt_code(*run_stmt, l2, depth);
            let (dc, l4) = discard_code(delta_expr, l3, depth);
            (
                ic + seq![Instr::Label(Label::Begin(n))] + cc + branch_code(Label::End(n)) + bc + dc
                    + seq![Instr::Jmp(Label::Begin(n)), Instr::Label(Label::End(n))],
                l4,
            )
        },
        StmtViewKind::While { condition_expr, run_stmt } => {
            let n = label as usize;
            let (cc, l1) = expr_code(condition_expr, label + 1, depth);
            let (bc, l2) = stmt_code(*run_stmt, l1, depth);
            (
                seq![Instr::Label(Label::Begin(n))] + cc + branch_code(Label::End(n)) + bc + seq![
                    Instr::Jmp(Label::Begin(n)),
                    Instr::Label(Label::End(n)),
                ],
                l2,
            )
        },
        StmtViewKind::Cpd { stmts } => stmts_code(stmts, label, depth),
    }
}

/// The code of statements in order.
pub open spec fn stmts_code(s: Seq<StmtView>, label: nat, depth: nat) -> (Seq<Instr>, nat)
    decreases s,
{
    if s.len() == 0 {
        (Seq::empty(), label)
    } else {
        let (c, l1) = stmt_code(s[0], label, depth);
        let (rest, l2) = stmts_code(s.drop_first(), l1, depth);
        (c + rest, l2)
    }
}

/// `offset` rounded up to a multiple of 16.
pub open spec fn frame_bytes(offset: nat) -> nat {
    if offset % 16 == 0 {
        offset
    } else {
        (offset + (16 - offset % 16)) as nat
    }
}

/// The code of a whole unit: the `main` prologue, the statements, and the
/// shared epilogue.
pub open spec fn program_code(stmts: Seq<StmtView>, offset: nat, label: nat) -> Seq<Instr> {
    seq![
        Instr::IntelSyntax,
        Instr::GlobalMain,
        Instr::MainLabel,
        Instr::Push(Register::Rbp),
        Instr::Mov(Register::Rbp, Register::Rsp),
        Instr::SubImm(Register::Rsp, frame_bytes(offset) as usize),
    ] + stmts_code(stmts, label, 0).0 + seq![
        Instr::Label(Label::MainRet),
        Instr::Mov(Register::Rsp, Register::Rbp),
        Instr::Pop(Register::Rbp),
        Instr::Ret,
    ]
}

} // verus!
