use vstd::prelude::*;

use super::code::{
    discard_code, frame_bytes, opt_ok, opt_size, program_code, stmt_code, stmt_ok, stmt_size,
    stmts_code, stmts_ok, stmts_size, branch_code,
    arg_regs, args_code, args_ok, args_size, binop_code, binop_with_reg_code, expr_code, expr_ok,
    expr_size, is_variable, left_code, reg_args, set_args_code, stack_args, store_code,
};
use super::instr::{code_text, render_code, ArithOp, Cond, Instr, Label, ShiftOp};
use super::register::Register;
use crate::analyze::expr::{
    lemma_view_exprs_len, lemma_view_exprs_push,
    view_callee, view_expr, view_exprs, BinaryOpKind, CalleeView, Expr, ExprKind, ExprView,
    ExprViewKind, FuncCallKind,
};
use crate::analyze::analyzer::{lower_binary, number};
use crate::analyze::program::Program;
use crate::parse::row_expr::RowBinaryOpKind;
use crate::analyze::stmt::{
    lemma_view_stmts_len, lemma_view_stmts_push, view_opt_expr, view_stmt, view_stmts, Stmt,
    StmtKind, StmtView, StmtViewKind,
};
use crate::file::position::Position;
use crate::file::text::string_of;

verus! {

/// Whether counters at `label` and `stack` leave room to emit the code of
/// `size` nodes without overflowing.
pub open spec fn has_room(label: nat, stack: nat, size: nat) -> bool {
    stack + 8 * size + 8 <= usize::MAX && label + size <= usize::MAX
}

pub open spec fn binary_node(op: BinaryOpKind, l: ExprView, r: ExprView, p: Position) -> ExprView {
    ExprView { kind: ExprViewKind::Binary { op_kind: op, lhs: Box::new(l), rhs: Box::new(r) }, position: p }
}

pub open spec fn assign_node(l: ExprView, r: ExprView, p: Position) -> ExprView {
    ExprView { kind: ExprViewKind::Assign { lhs: Box::new(l), rhs: Box::new(r) }, position: p }
}

pub open spec fn assign_op_node(op: BinaryOpKind, l: ExprView, r: ExprView, p: Position) -> ExprView {
    ExprView { kind: ExprViewKind::AssignOp { op_kind: op, lhs: Box::new(l), rhs: Box::new(r) }, position: p }
}

pub open spec fn condition_node(c: ExprView, t: ExprView, f: ExprView, p: Position) -> ExprView {
    ExprView {
        kind: ExprViewKind::Condition {
            condition: Box::new(c),
            then_expr: Box::new(t),
            else_expr: Box::new(f),
        },
        position: p,
    }
}

pub open spec fn postfix_node(increment: bool, x: ExprView, p: Position) -> ExprView {
    if increment {
        ExprView { kind: ExprViewKind::PostfixIncrement { expr: Box::new(x) }, position: p }
    } else {
        ExprView { kind: ExprViewKind::PostfixDecrement { expr: Box::new(x) }, position: p }
    }
}

pub open spec fn func_node(callee: CalleeView, args: Seq<ExprView>, p: Position) -> ExprView {
    ExprView { kind: ExprViewKind::Func { callee, args }, position: p }
}

pub open spec fn view_opt_stmt(s: Option<Stmt>) -> Option<StmtView> {
    match s {
        Some(x) => Some(view_stmt(x)),
        None => None,
    }
}

pub open spec fn if_node(c: ExprView, t: StmtView, f: Option<StmtView>, p: Position) -> StmtView {
    StmtView {
        kind: StmtViewKind::If { condition_expr: c, then_stmt: Box::new(t), else_stmt: Box::new(f) },
        position: p,
    }
}

pub open spec fn for_node(
    i: Option<ExprView>,
    c: ExprView,
    d: Option<ExprView>,
    b: StmtView,
    p: Position,
) -> StmtView {
    StmtView {
        kind: StmtViewKind::For { init_expr: i, condition_expr: c, delta_expr: d, run_stmt: Box::new(b) },
        position: p,
    }
}

pub open spec fn while_node(c: ExprView, b: StmtView, p: Position) -> StmtView {
    StmtView { kind: StmtViewKind::While { condition_expr: c, run_stmt: Box::new(b) }, position: p }
}

/// Emits assembly for a lowered unit. It keeps the next free label number and
/// the number of values on the operand stack; both start at zero.
pub struct Generator {
    label: usize,
    stack: usize,
    code: Vec<Instr>,
}

/// `g1` is `g0` after emitting the code of `e`.
pub closed spec fn emits_expr(g0: Generator, g1: Generator, e: ExprView) -> bool {
    &&& g1.code@ == g0.code@ + expr_code(e, g0.label as nat, g0.stack as nat).0
    &&& g1.label == expr_code(e, g0.label as nat, g0.stack as nat).1
    &&& g1.label <= g0.label + expr_size(e)
    &&& g1.stack == g0.stack + 1
}

/// `g1` is `g0` after emitting the code of `s`.
pub closed spec fn emits_stmt(g0: Generator, g1: Generator, s: StmtView) -> bool {
    &&& g1.code@ == g0.code@ + stmt_code(s, g0.label as nat, g0.stack as nat).0
    &&& g1.label == stmt_code(s, g0.label as nat, g0.stack as nat).1
    &&& g1.label <= g0.label + stmt_size(s)
    &&& g1.stack == g0.stack
}

/// `g` can emit the code of `s`.
pub closed spec fn can_emit_stmt(g: Generator, s: StmtView) -> bool {
    stmt_ok(s) && has_room(g.label as nat, g.stack as nat, stmt_size(s))
}

/// `g` can emit the code of `e`.
pub closed spec fn can_emit(g: Generator, e: ExprView) -> bool {
    expr_ok(e) && has_room(g.label as nat, g.stack as nat, expr_size(e))
}

impl Generator {
    /// The next free label number.
    pub closed spec fn next_label(&self) -> nat {
        self.label as nat
    }

    /// The number of values on the operand stack.
    pub closed spec fn depth(&self) -> nat {
        self.stack as nat
    }

    /// The instructions emitted so far.
    pub closed spec fn emitted(&self) -> Seq<Instr> {
        self.code@
    }

    pub fn new() -> (r: Generator)
        ensures
            r.next_label() == 0,
            r.depth() == 0,
            r.emitted() == Seq::<Instr>::empty(),
    {
        Generator { label: 0, stack: 0, code: Vec::new() }
    }

    /// Whether a fresh generator can emit the code of `program`: its counters
    /// cannot overflow and its frame can be rounded up.
    pub fn can_generate(program: &Program) -> (r: bool)
        ensures
            r ==> has_room(0, 0, stmts_size(view_stmts(program.stmts@))) && program.offset <= usize::MAX - 15,
    {
        if program.offset > usize::MAX - 15 {
            return false;
        }
        match stmts_size_of(&program.stmts, (usize::MAX - 8) / 8) {
            Some(_) => true,
            None => false,
        }
    }

    /// Emits the code of a whole unit and returns its text.
    pub fn generate(&mut self, program: Program) -> (r: String)
        requires
            old(self).depth() == 0,
            stmts_ok(view_stmts(program.stmts@)),
            has_room(old(self).next_label(), 0, stmts_size(view_stmts(program.stmts@))),
            program.offset <= usize::MAX - 15,
        ensures
            final(self).emitted() == program_code(
                view_stmts(program.stmts@),
                program.offset as nat,
                old(self).next_label(),
            ),
            r@ == code_text(final(self).emitted()),
    {
        let ghost l0 = self.label as nat;
        self.code = Vec::new();
        self.emit(Instr::IntelSyntax);
        self.emit(Instr::GlobalMain);
        self.emit(Instr::MainLabel);
        // The saved frame pointer is not an operand.
        self.emit(Instr::Push(Register::Rbp));
        self.emit(Instr::Mov(Register::Rbp, Register::Rsp));
        let offset = if program.offset % 16 == 0 {
            program.offset
        } else {
            program.offset + (16 - program.offset % 16)
        };
        self.emit(Instr::SubImm(Register::Rsp, offset));
        self.generate_stmt_cpd(program.stmts);
        self.emit(Instr::Label(Label::MainRet));
        self.emit(Instr::Mov(Register::Rsp, Register::Rbp));
        self.emit(Instr::Pop(Register::Rbp));
        self.emit(Instr::Ret);
        assert(self.code@ =~= program_code(view_stmts(program.stmts@), program.offset as nat, l0));
        string_of(&render_code(&self.code))
    }

    /// Emits the code of a statement; the operand stack is as before.
    #[verifier::rlimit(100)]
    pub fn generate_stmt(&mut self, stmt: Stmt)
        requires
            can_emit_stmt(*old(self), stmt@),
        ensures
            emits_stmt(*old(self), *final(self), stmt@),
        decreases 3 * stmt_size(stmt@),
    {
        match stmt.kind {
            StmtKind::Expr { expr } => {
                self.generate_stmt_expr(expr);
            },
            StmtKind::Return { expr } => {
                let ghost g0 = *self;
                self.generate_stmt_return(expr);
                assert(self.code@ =~= g0.code@ + stmt_code(stmt@, g0.label as nat, g0.stack as nat).0);
            },
            StmtKind::If { condition_expr, then_stmt, else_stmt } => {
                self.generate_stmt_if(condition_expr, *then_stmt, *else_stmt, stmt.position);
            },
            StmtKind::For { init_expr, condition_expr, delta_expr, run_stmt } => {
                self.generate_stmt_for(init_expr, condition_expr, delta_expr, *run_stmt, stmt.position);
            },
            StmtKind::While { condition_expr, run_stmt } => {
                self.generate_stmt_while(condition_expr, *run_stmt, stmt.position);
            },
            StmtKind::Cpd { stmts } => {
                self.generate_stmt_cpd(stmts);
            },
        }
    }

    /// Evaluates an optional expression and drops its value.
    fn generate_stmt_expr(&mut self, expr: Option<Expr>)
        requires
            opt_ok(view_opt_expr(expr)),
            has_room(old(self).label as nat, old(self).stack as nat, opt_size(view_opt_expr(expr))),
        ensures
            final(self).code@ == old(self).code@ + discard_code(
                view_opt_expr(expr),
                old(self).label as nat,
                old(self).stack as nat,
            ).0,
            final(self).label == discard_code(view_opt_expr(expr), old(self).label as nat, old(self).stack as nat).1,
            final(self).label <= old(self).label + opt_size(view_opt_expr(expr)),
            final(self).stack == old(self).stack,
    {
        if let Some(expr) = expr {
            let ghost c0 = self.code@;
            let ghost l0 = self.label as nat;
            let ghost s0 = self.stack as nat;
            let ghost ev = expr@;
            self.generate_expr(expr);
            self.generate_pop(Register::Rax);
            assert(self.code@ =~= c0 + (expr_code(ev, l0, s0).0 + seq![Instr::Pop(Register::Rax)]));
        } else {
            assert(old(self).code@ + Seq::<Instr>::empty() =~= old(self).code@);
        }
    }

    /// Evaluates the optional value into `rax` and jumps to the epilogue.
    fn generate_stmt_return(&mut self, expr: Option<Expr>)
        requires
            opt_ok(view_opt_expr(expr)),
            has_room(old(self).label as nat, old(self).stack as nat, opt_size(view_opt_expr(expr))),
        ensures
            final(self).code@ == old(self).code@ + discard_code(
                view_opt_expr(expr),
                old(self).label as nat,
                old(self).stack as nat,
            ).0 + seq![Instr::Jmp(Label::MainRet)],
            final(self).label == discard_code(view_opt_expr(expr), old(self).label as nat, old(self).stack as nat).1,
            final(self).label <= old(self).label + opt_size(view_opt_expr(expr)),
            final(self).stack == old(self).stack,
    {
        self.generate_stmt_expr(expr);
        self.emit(Instr::Jmp(Label::MainRet));
    }

    #[verifier::rlimit(100)]
    fn generate_stmt_if(
        &mut self,
        condition_expr: Expr,
        then_stmt: Stmt,
        else_stmt: Option<Stmt>,
        position: Position,
    )
        requires
            can_emit_stmt(*old(self), if_node(condition_expr@, then_stmt@, view_opt_stmt(else_stmt), position)),
        ensures
            emits_stmt(*old(self), *final(self), if_node(condition_expr@, then_stmt@, view_opt_stmt(else_stmt), position)),
        decreases 3 * stmt_size(if_node(condition_expr@, then_stmt@, view_opt_stmt(else_stmt), position)) - 1,
    {
        let ghost s = if_node(condition_expr@, then_stmt@, view_opt_stmt(else_stmt), position);
        let ghost g0 = *self;
        let label_num = self.label_num();
        self.generate_expr(condition_expr);
        self.generate_pop(Register::Rax);
        self.emit(Instr::CmpZero(Register::Rax));
        self.emit(Instr::Je(Label::Else(label_num)));
        self.generate_stmt(then_stmt);
        self.emit(Instr::Jmp(Label::End(label_num)));
        self.emit(Instr::Label(Label::Else(label_num)));
        if let Some(else_stmt) = else_stmt {
            self.generate_stmt(else_stmt);
        }
        self.emit(Instr::Label(Label::End(label_num)));
        assert(self.code@ =~= g0.code@ + stmt_code(s, g0.label as nat, g0.stack as nat).0);
    }

    #[verifier::rlimit(100)]
    fn generate_stmt_for(
        &mut self,
        init_expr: Option<Expr>,
        condition_expr: Expr,
        delta_expr: Option<Expr>,
        run_stmt: Stmt,
        position: Position,
    )
        requires
            can_emit_stmt(
                *old(self),
                for_node(view_opt_expr(init_expr), condition_expr@, view_opt_expr(delta_expr), run_stmt@, position),
            ),
        ensures
            emits_stmt(
                *old(self),
                *final(self),
                for_node(view_opt_expr(init_expr), condition_expr@, view_opt_expr(delta_expr), run_stmt@, position),
            ),
        decreases 3 * stmt_size(
            for_node(view_opt_expr(init_expr), condition_expr@, view_opt_expr(delta_expr), run_stmt@, position),
        ) - 1,
    {
        let ghost s = for_node(
            view_opt_expr(init_expr),
            condition_expr@,
            view_opt_expr(delta_expr),
            run_stmt@,
            position,
        );
        let ghost g0 = *self;
        let label_num = self.label_num();
        self.generate_stmt_expr(init_expr);
        self.emit(Instr::Label(Label::Begin(label_num)));
        self.generate_expr(condition_expr);
        self.generate_pop(Register::Rax);
        self.emit(Instr::CmpZero(Register::Rax));
        self.emit(Instr::Je(Label::End(label_num)));
        self.generate_stmt(run_stmt);
        self.generate_stmt_expr(delta_expr);
        self.emit(Instr::Jmp(Label::Begin(label_num)));
        self.emit(Instr::Label(Label::End(label_num)));
        assert(self.code@ =~= g0.code@ + stmt_code(s, g0.label as nat, g0.stack as nat).0);
    }

    #[verifier::rlimit(100)]
    fn generate_stmt_while(&mut self, condition_expr: Expr, run_stmt: Stmt, position: Position)
        requires
            can_emit_stmt(*old(self), while_node(condition_expr@, run_stmt@, position)),
        ensures
            emits_stmt(*old(self), *final(self), while_node(condition_expr@, run_stmt@, position)),
        decreases 3 * stmt_size(while_node(condition_expr@, run_stmt@, position)) - 1,
    {
        let ghost s = while_node(condition_expr@, run_stmt@, position);
        let ghost g0 = *self;
        let label_num = self.label_num();
        self.emit(Instr::Label(Label::Begin(label_num)));
        self.generate_expr(condition_expr);
        self.generate_pop(Register::Rax);
        self.emit(Instr::CmpZero(Register::Rax));
        self.emit(Instr::Je(Label::End(label_num)));
        self.generate_stmt(run_stmt);
        self.emit(Instr::Jmp(Label::Begin(label_num)));
        self.emit(Instr::Label(Label::End(label_num)));
        assert(self.code@ =~= g0.code@ + stmt_code(s, g0.label as nat, g0.stack as nat).0);
    }

    /// Emits statements in order.
    #[verifier::rlimit(100)]
    fn generate_stmt_cpd(&mut self, stmts: Vec<Stmt>)
        requires
            stmts_ok(view_stmts(stmts@)),
            has_room(old(self).label as nat, old(self).stack as nat, stmts_size(view_stmts(stmts@))),
        ensures
            final(self).code@ == old(self).code@ + stmts_code(
                view_stmts(stmts@),
                old(self).label as nat,
                old(self).stack as nat,
            ).0,
            final(self).label == stmts_code(view_stmts(stmts@), old(self).label as nat, old(self).stack as nat).1,
            final(self).label <= old(self).label + stmts_size(view_stmts(stmts@)),
            final(self).stack == old(self).stack,
        decreases 3 * stmts_size(view_stmts(stmts@)) + 1,
    {
        let ghost all = view_stmts(stmts@);
        let ghost l0 = self.label as nat;
        let ghost s0 = self.stack as nat;
        let mut rest = stmts;
        assert(old(self).code@ + stmts_code(all, l0, s0).0 =~= self.code@ + stmts_code(all, l0, s0).0);
        while rest.len() > 0
            invariant
                old(self).code@ + stmts_code(all, l0, s0).0 == self.code@ + stmts_code(
                    view_stmts(rest@),
                    self.label as nat,
                    self.stack as nat,
                ).0,
                stmts_code(all, l0, s0).1 == stmts_code(view_stmts(rest@), self.label as nat, self.stack as nat).1,
                stmts_ok(view_stmts(rest@)),
                self.stack == s0,
                s0 + 8 * stmts_size(all) + 8 <= usize::MAX,
                self.label + stmts_size(view_stmts(rest@)) <= l0 + stmts_size(all),
                l0 + stmts_size(all) <= usize::MAX,
                stmts_size(view_stmts(rest@)) <= stmts_size(all),
                all == view_stmts(stmts@),
            decreases rest@.len(),
        {
            let ghost rv = view_stmts(rest@);
            let ghost before = rest@;
            let s = rest.remove(0);
            proof {
                assert(before =~= seq![s] + rest@);
                assert(before.drop_first() =~= rest@);
                assert(before[0] == s);
                assert(rv[0] == s@);
                assert(rv.drop_first() == view_stmts(rest@));
                assert(stmts_size(rv) == stmt_size(s@) + stmts_size(view_stmts(rest@)));
            }
            let ghost c0 = self.code@;
            let ghost l = self.label as nat;
            let ghost st = self.stack as nat;
            self.generate_stmt(s);
            assert(c0 + stmts_code(rv, l, st).0 =~= self.code@ + stmts_code(
                view_stmts(rest@),
                self.label as nat,
                self.stack as nat,
            ).0);
        }
        assert(self.code@ + stmts_code(view_stmts(rest@), self.label as nat, self.stack as nat).0 =~= self.code@);
    }

    fn emit(&mut self, i: Instr)
        ensures
            final(self).code@ == old(self).code@.push(i),
            final(self).label == old(self).label,
            final(self).stack == old(self).stack,
    {
        self.code.push(i);
    }

    fn generate_push_with_reg(&mut self, reg: Register)
        requires
            old(self).stack < usize::MAX,
        ensures
            final(self).code@ == old(self).code@.push(Instr::Push(reg)),
            final(self).label == old(self).label,
            final(self).stack == old(self).stack + 1,
    {
        self.code.push(Instr::Push(reg));
        self.stack = self.stack + 1;
    }

    fn generate_push_with_num(&mut self, num: i32)
        requires
            old(self).stack < usize::MAX,
        ensures
            final(self).code@ == old(self).code@.push(Instr::PushImm(num)),
            final(self).label == old(self).label,
            final(self).stack == old(self).stack + 1,
    {
        self.code.push(Instr::PushImm(num));
        self.stack = self.stack + 1;
    }

    fn generate_pop(&mut self, reg: Register)
        requires
            old(self).stack > 0,
        ensures
            final(self).code@ == old(self).code@.push(Instr::Pop(reg)),
            final(self).label == old(self).label,
            final(self).stack == old(self).stack - 1,
    {
        self.code.push(Instr::Pop(reg));
        self.stack = self.stack - 1;
    }

    fn label_num(&mut self) -> (r: usize)
        requires
            old(self).label < usize::MAX,
        ensures
            r == old(self).label,
            final(self).label == old(self).label + 1,
            final(self).code@ == old(self).code@,
            final(self).stack == old(self).stack,
    {
        let label = self.label;
        self.label = self.label + 1;
        label
    }

    /// Emits the code of an expression: it leaves exactly one value on the
    /// operand stack.
    fn generate_expr(&mut self, expr: Expr)
        requires
            can_emit(*old(self), expr@),
        ensures
            emits_expr(*old(self), *final(self), expr@),
        decreases 3 * expr_size(expr@),
    {
        match expr.kind {
            ExprKind::Binary { op_kind, lhs, rhs } => {
                self.generate_expr_binary(op_kind, *lhs, *rhs, expr.position);
            },
            ExprKind::Assign { lhs, rhs } => {
                self.generate_expr_assign(*lhs, *rhs, expr.position);
            },
            ExprKind::AssignOp { op_kind, lhs, rhs } => {
                self.generate_expr_assign_op(op_kind, *lhs, *rhs, expr.position);
            },
            ExprKind::Comma { lhs, rhs } => {
                let ghost g0 = *self;
                self.generate_expr(*lhs);
                self.generate_pop(Register::Rax);
                self.generate_expr(*rhs);
                assert(self.code@ =~= g0.code@ + expr_code(expr@, g0.label as nat, g0.stack as nat).0);
            },
            ExprKind::Condition { condition, then_expr, else_expr } => {
                self.generate_expr_condition(*condition, *then_expr, *else_expr, expr.position);
            },
            ExprKind::PostfixIncrement { expr: x } => {
                self.generate_expr_postfix(true, *x, expr.position);
            },
            ExprKind::PostfixDecrement { expr: x } => {
                self.generate_expr_postfix(false, *x, expr.position);
            },
            ExprKind::Variable { var } => {
                let ghost g0 = *self;
                self.generate_expr_left_var(&expr);
                self.generate_pop(Register::Rax);
                self.emit(Instr::Load(Register::Rax, Register::Rax));
                self.generate_push_with_reg(Register::Rax);
                assert(self.code@ =~= g0.code@ + expr_code(expr@, g0.label as nat, g0.stack as nat).0);
            },
            ExprKind::Number { number } => {
                self.generate_expr_number(number);
                assert(self.code@ =~= old(self).code@ + seq![Instr::PushImm(number as i32)]);
            },
            ExprKind::Func { name, args } => {
                self.generate_expr_func(name, args, expr.position);
            },
        }
    }

    fn generate_expr_binary(&mut self, op_kind: BinaryOpKind, lhs: Expr, rhs: Expr, position: Position)
        requires
            can_emit(*old(self), binary_node(op_kind, lhs@, rhs@, position)),
        ensures
            emits_expr(*old(self), *final(self), binary_node(op_kind, lhs@, rhs@, position)),
        decreases 3 * expr_size(binary_node(op_kind, lhs@, rhs@, position)) - 1,
    {
        let ghost e = binary_node(op_kind, lhs@, rhs@, position);
        let ghost g0 = *self;
        self.generate_expr(lhs);
        self.generate_expr(rhs);
        self.generate_pop(Register::Rdi);
        self.generate_pop(Register::Rax);
        self.generate_expr_binary_with_reg(op_kind, Register::Rax, Register::Rdi);
        assert(self.code@ =~= g0.code@ + expr_code(e, g0.label as nat, g0.stack as nat).0);
    }

    /// Applies `op_kind` to the values in `lhs` and `rhs` and pushes the result.
    fn generate_expr_binary_with_reg(&mut self, op_kind: BinaryOpKind, lhs: Register, rhs: Register)
        requires
            old(self).stack < usize::MAX,
        ensures
            final(self).code@ == old(self).code@ + binop_with_reg_code(op_kind, lhs, rhs),
            final(self).label == old(self).label,
            final(self).stack == old(self).stack + 1,
    {
        let ghost c0 = self.code@;
        if lhs != Register::Rax {
            self.emit(Instr::Mov(Register::Rax, lhs));
        }
        if rhs != Register::Rdi {
            self.emit(Instr::Mov(Register::Rdi, rhs));
        }
        let ghost c1 = self.code@;
        match op_kind {
            BinaryOpKind::Add => self.emit(Instr::Arith(ArithOp::Add, Register::Rax, Register::Rdi)),
            BinaryOpKind::Sub => self.emit(Instr::Arith(ArithOp::Sub, Register::Rax, Register::Rdi)),
            BinaryOpKind::Mul => self.emit(Instr::Arith(ArithOp::Imul, Register::Rax, Register::Rdi)),
            BinaryOpKind::Div => {
                self.emit(Instr::Cqo);
                self.emit(Instr::Idiv(Register::Rdi));
            },
            BinaryOpKind::Rem => {
                self.emit(Instr::Cqo);
                self.emit(Instr::Idiv(Register::Rdi));
                self.emit(Instr::Mov(Register::Rax, Register::Rdx));
            },
            BinaryOpKind::BitAnd => self.emit(Instr::Arith(ArithOp::And, Register::Rax, Register::Rdi)),
            BinaryOpKind::BitOr => self.emit(Instr::Arith(ArithOp::Or, Register::Rax, Register::Rdi)),
            BinaryOpKind::BitXor => self.emit(Instr::Arith(ArithOp::Xor, Register::Rax, Register::Rdi)),
            BinaryOpKind::LShift => {
                self.emit(Instr::Mov(Register::Rcx, Register::Rdi));
                self.emit(Instr::Shift(ShiftOp::Shl, Register::Rax, Register::Rcx));
            },
            BinaryOpKind::RShift => {
                self.emit(Instr::Mov(Register::Rcx, Register::Rdi));
                self.emit(Instr::Shift(ShiftOp::Shr, Register::Rax, Register::Rcx));
            },
            BinaryOpKind::Lt => self.generate_compare(Cond::L),
            BinaryOpKind::LtEqual => self.generate_compare(Cond::Le),
            BinaryOpKind::Eq => self.generate_compare(Cond::E),
            BinaryOpKind::Ne => self.generate_compare(Cond::Ne),
        }
        assert(self.code@ =~= c1 + binop_code(op_kind));
        self.generate_push_with_reg(Register::Rax);
        assert(self.code@ =~= c0 + binop_with_reg_code(op_kind, lhs, rhs));
    }

    fn generate_compare(&mut self, c: Cond)
        ensures
            final(self).code@ == old(self).code@ + super::code::compare_code(c),
            final(self).label == old(self).label,
            final(self).stack == old(self).stack,
    {
        self.emit(Instr::Arith(ArithOp::Cmp, Register::Rax, Register::Rdi));
        self.emit(Instr::SetCc(c, Register::Rax));
        self.emit(Instr::Movzb(Register::Rax, Register::Rax));
        assert(self.code@ =~= old(self).code@ + super::code::compare_code(c));
    }

    /// Pops a value and an address, stores the value there and pushes it.
    fn generate_store(&mut self)
        requires
            old(self).stack >= 2,
        ensures
            final(self).code@ == old(self).code@ + store_code(),
            final(self).label == old(self).label,
            final(self).stack == old(self).stack - 1,
    {
        self.generate_pop(Register::Rdi);
        self.generate_pop(Register::Rax);
        self.emit(Instr::Store(Register::Rax, Register::Rdi));
        self.generate_push_with_reg(Register::Rdi);
        assert(self.code@ =~= old(self).code@ + store_code());
    }

    /// Plain assignment: the address, then the value; stores and pushes the value.
    fn generate_expr_assign(&mut self, lhs: Expr, rhs: Expr, position: Position)
        requires
            can_emit(*old(self), assign_node(lhs@, rhs@, position)),
        ensures
            emits_expr(*old(self), *final(self), assign_node(lhs@, rhs@, position)),
        decreases 3 * expr_size(assign_node(lhs@, rhs@, position)) - 1,
    {
        let ghost e = assign_node(lhs@, rhs@, position);
        let ghost g0 = *self;
        self.generate_expr_left_var(&lhs);
        self.generate_expr(rhs);
        self.generate_store();
        assert(self.code@ =~= g0.code@ + expr_code(e, g0.label as nat, g0.stack as nat).0);
    }

    /// Compound assignment: loads the old value, applies the operator, stores
    /// and pushes the new value.
    #[verifier::rlimit(100)]
    fn generate_expr_assign_op(&mut self, op_kind: BinaryOpKind, lhs: Expr, rhs: Expr, position: Position)
        requires
            can_emit(*old(self), assign_op_node(op_kind, lhs@, rhs@, position)),
        ensures
            emits_expr(*old(self), *final(self), assign_op_node(op_kind, lhs@, rhs@, position)),
        decreases 3 * expr_size(assign_op_node(op_kind, lhs@, rhs@, position)) - 1,
    {
        let ghost e = assign_op_node(op_kind, lhs@, rhs@, position);
        let ghost g0 = *self;
        self.generate_expr_left_var(&lhs);
        self.generate_expr(rhs);
        self.generate_pop(Register::Rdi);
        self.generate_pop(Register::Rax);
        self.emit(Instr::Load(Register::R8, Register::Rax));
        self.generate_push_with_reg(Register::Rax);
        self.generate_expr_binary_with_reg(op_kind, Register::R8, Register::Rdi);
        self.generate_store();
        assert(self.code@ =~= g0.code@ + expr_code(e, g0.label as nat, g0.stack as nat).0);
    }

    /// A conditional expression: each branch pushes one value.
    #[verifier::rlimit(100)]
    fn generate_expr_condition(&mut self, condition: Expr, then_expr: Expr, else_expr: Expr, position: Position)
        requires
            can_emit(*old(self), condition_node(condition@, then_expr@, else_expr@, position)),
        ensures
            emits_expr(*old(self), *final(self), condition_node(condition@, then_expr@, else_expr@, position)),
        decreases 3 * expr_size(condition_node(condition@, then_expr@, else_expr@, position)) - 1,
    {
        let ghost e = condition_node(condition@, then_expr@, else_expr@, position);
        let ghost g0 = *self;
        let label_num = self.label_num();
        self.generate_expr(condition);
        self.generate_pop(Register::Rax);
        self.emit(Instr::CmpZero(Register::Rax));
        self.emit(Instr::Je(Label::Else(label_num)));
        self.generate_expr(then_expr);
        self.emit(Instr::Jmp(Label::End(label_num)));
        self.emit(Instr::Label(Label::Else(label_num)));
        // The value of the first branch is not on the stack in the second.
        self.stack = self.stack - 1;
        self.generate_expr(else_expr);
        self.emit(Instr::Label(Label::End(label_num)));
        assert(self.code@ =~= g0.code@ + expr_code(e, g0.label as nat, g0.stack as nat).0);
    }

    /// Postfix increment or decrement: pushes the old value, then stores the new.
    fn generate_expr_postfix(&mut self, increment: bool, expr: Expr, position: Position)
        requires
            can_emit(*old(self), postfix_node(increment, expr@, position)),
        ensures
            emits_expr(*old(self), *final(self), postfix_node(increment, expr@, position)),
    {
        let ghost e = postfix_node(increment, expr@, position);
        let ghost g0 = *self;
        self.generate_expr_left_var(&expr);
        self.generate_pop(Register::Rdi);
        self.emit(Instr::Load(Register::Rax, Register::Rdi));
        self.generate_push_with_reg(Register::Rax);
        if increment {
            self.emit(Instr::AddImm(Register::Rax, 1));
        } else {
            self.emit(Instr::SubImm(Register::Rax, 1));
        }
        self.emit(Instr::Store(Register::Rdi, Register::Rax));
        assert(self.code@ =~= g0.code@ + expr_code(e, g0.label as nat, g0.stack as nat).0);
    }

    /// Pushes the address of a variable.
    fn generate_expr_left_var(&mut self, expr: &Expr)
        requires
            is_variable(expr@),
            old(self).stack < usize::MAX,
        ensures
            final(self).code@ == old(self).code@ + left_code(expr@),
            final(self).label == old(self).label,
            final(self).stack == old(self).stack + 1,
    {
        match &expr.kind {
            ExprKind::Variable { var } => {
                self.emit(Instr::Mov(Register::Rax, Register::Rbp));
                self.emit(Instr::SubImm(Register::Rax, var.offset));
                self.generate_push_with_reg(Register::Rax);
                assert(self.code@ =~= old(self).code@ + left_code(expr@));
            },
            _ => {},
        }
    }

    fn generate_expr_number(&mut self, number: usize)
        requires
            old(self).stack < usize::MAX,
        ensures
            final(self).code@ == old(self).code@.push(Instr::PushImm(number as i32)),
            final(self).label == old(self).label,
            final(self).stack == old(self).stack + 1,
    {
        let number = number as i32;
        self.generate_push_with_num(number);
    }

    /// A call: pads the stack to an even number of values when needed, pushes
    /// the arguments from the last to the first, moves the first six into
    /// registers, calls, drops what stayed on the stack and pushes the result.
    #[verifier::rlimit(100)]
    fn generate_expr_func(&mut self, name: FuncCallKind, args: Vec<Expr>, position: Position)
        requires
            can_emit(*old(self), func_node(view_callee(name), view_exprs(args@), position)),
        ensures
            emits_expr(*old(self), *final(self), func_node(view_callee(name), view_exprs(args@), position)),
        decreases 3 * expr_size(func_node(view_callee(name), view_exprs(args@), position)) - 1,
    {
        let ghost e = func_node(view_callee(name), view_exprs(args@), position);
        let ghost g0 = *self;
        proof {
            lemma_view_exprs_len(args@);
            lemma_args_size_len(view_exprs(args@));
        }
        let arg_len = args.len();
        let stack: usize = if 6 < arg_len {
            arg_len - 6
        } else {
            0
        };
        let stack_adjust = (self.stack + stack) % 2 == 1;
        if stack_adjust {
            self.emit(Instr::SubImm(Register::Rsp, 8));
            self.stack = self.stack + 1;
        }
        self.generate_expr_func_args(args);
        match name {
            FuncCallKind::Label { name } => {
                self.generate_set_func_args(arg_len);
                self.emit(Instr::Call(name));
            },
            FuncCallKind::Expr { expr } => {
                self.generate_expr(*expr);
                self.generate_pop(Register::R10);
                self.generate_set_func_args(arg_len);
                self.emit(Instr::CallReg(Register::R10));
            },
        }
        if stack_adjust {
            self.emit(Instr::AddImm(Register::Rsp, (stack + 1) * 8));
            self.stack = self.stack - (stack + 1);
        } else {
            self.emit(Instr::AddImm(Register::Rsp, stack * 8));
            self.stack = self.stack - stack;
        }
        self.generate_push_with_reg(Register::Rax);
        assert(self.code@ =~= g0.code@ + expr_code(e, g0.label as nat, g0.stack as nat).0);
    }

    /// Pushes the arguments from the last to the first.
    #[verifier::rlimit(100)]
    fn generate_expr_func_args(&mut self, args: Vec<Expr>)
        requires
            args_ok(view_exprs(args@)),
            old(self).stack + 8 * args_size(view_exprs(args@)) + 8 <= usize::MAX,
            old(self).label + args_size(view_exprs(args@)) <= usize::MAX,
        ensures
            final(self).code@ == old(self).code@ + args_code(
                view_exprs(args@),
                old(self).label as nat,
                old(self).stack as nat,
            ).0,
            final(self).label == args_code(view_exprs(args@), old(self).label as nat, old(self).stack as nat).1,
            final(self).label <= old(self).label + args_size(view_exprs(args@)),
            final(self).stack == old(self).stack + args@.len(),
        decreases 3 * args_size(view_exprs(args@)) + 1,
    {
        let ghost all = view_exprs(args@);
        let ghost l0 = self.label as nat;
        let ghost s0 = self.stack as nat;
        proof {
            lemma_view_exprs_len(args@);
        }
        let mut rest = args;
        assert(old(self).code@ + args_code(all, l0, s0).0 =~= self.code@ + args_code(all, l0, s0).0);
        while rest.len() > 0
            invariant
                old(self).code@ + args_code(all, l0, s0).0 == self.code@ + args_code(
                    view_exprs(rest@),
                    self.label as nat,
                    self.stack as nat,
                ).0,
                args_code(all, l0, s0).1 == args_code(view_exprs(rest@), self.label as nat, self.stack as nat).1,
                args_ok(view_exprs(rest@)),
                self.stack + 8 * args_size(view_exprs(rest@)) + 8 <= usize::MAX,
                self.label + args_size(view_exprs(rest@)) <= l0 + args_size(all),
                l0 + args_size(all) <= usize::MAX,
                args_size(view_exprs(rest@)) <= args_size(all),
                self.stack + rest@.len() == s0 + all.len(),
                all.len() == args@.len(),
                all == view_exprs(args@),
            decreases rest@.len(),
        {
            let ghost rv = view_exprs(rest@);
            let ghost before = rest@;
            let a = match rest.pop() {
                Some(a) => a,
                None => {
                    return;
                },
            };
            proof {
                assert(before =~= rest@.push(a));
                lemma_view_exprs_push(rest@, a);
                assert(rv.last() == a@);
                assert(rv.drop_last() =~= view_exprs(rest@));
                lemma_expr_size_pos(a@);
                assert(args_size(rv) == expr_size(a@) + args_size(view_exprs(rest@)));
                assert(all == view_exprs(args@));
            }
            let ghost c0 = self.code@;
            let ghost l = self.label as nat;
            let ghost st = self.stack as nat;
            self.generate_expr(a);
            assert(c0 + args_code(rv, l, st).0 =~= self.code@ + args_code(
                view_exprs(rest@),
                self.label as nat,
                self.stack as nat,
            ).0);
        }
        assert(self.code@ + args_code(view_exprs(rest@), self.label as nat, self.stack as nat).0 =~= self.code@);
    }

    /// Pops the first arguments into their registers.
    fn generate_set_func_args(&mut self, length: usize)
        requires
            old(self).stack >= reg_args(length as nat),
        ensures
            final(self).code@ == old(self).code@ + set_args_code(length as nat),
            final(self).label == old(self).label,
            final(self).stack == old(self).stack - reg_args(length as nat),
    {
        let n: usize = if length < 6 {
            length
        } else {
            6
        };
        let mut i: usize = 0;
        while i < n
            invariant
                n == reg_args(length as nat),
                old(self).stack >= n,
                i <= n,
                self.code@ == old(self).code@ + Seq::new(i as nat, |j: int| Instr::Pop(arg_regs()[j])),
                self.label == old(self).label,
                self.stack == old(self).stack - i,
            decreases n - i,
        {
            let ghost c0 = self.code@;
            self.generate_pop(arg_reg(i));
            i = i + 1;
            assert(Seq::new(i as nat, |j: int| Instr::Pop(arg_regs()[j])) =~= Seq::new((i - 1) as nat, |j: int| Instr::Pop(arg_regs()[j])).push(Instr::Pop(arg_regs()[i - 1])));
        }
        assert(Seq::new(n as nat, |j: int| Instr::Pop(arg_regs()[j])) =~= set_args_code(length as nat));
    }
}

/// The register of the `i`-th call argument, for `i < 6`.
fn arg_reg(i: usize) -> (r: Register)
    requires
        i < 6,
    ensures
        r == arg_regs()[i as int],
{
    if i == 0 {
        Register::Rdi
    } else if i == 1 {
        Register::Rsi
    } else if i == 2 {
        Register::Rdx
    } else if i == 3 {
        Register::Rcx
    } else if i == 4 {
        Register::R8
    } else {
        Register::R9
    }
}

/// Short-circuit evaluation. The code of a lowered `a && b` evaluates `a`,
/// jumps to the else label when it is zero, and only on the other path runs
/// the code of `b`; the else path pushes 0. The code of a lowered `a || b`
/// pushes 1 when `a` is non-zero and runs the code of `b` only after the jump
/// taken when `a` is zero.
pub proof fn lemma_short_circuit(a: ExprView, b: ExprView, p: Position, label: nat, depth: nat)
    requires
        label <= usize::MAX,
    ensures
        ({
            let n = label as usize;
            let (ac, l1) = expr_code(a, label + 1, depth);
            let (bc, l2) = expr_code(b, l1, depth);
            expr_code(lower_binary(RowBinaryOpKind::LogicAnd, a, b, p), label, depth) == (
                ac + branch_code(Label::Else(n)) + bc + seq![
                    Instr::Jmp(Label::End(n)),
                    Instr::Label(Label::Else(n)),
                    Instr::PushImm(0),
                    Instr::Label(Label::End(n)),
                ],
                l2,
            )
        }),
        ({
            let n = label as usize;
            let (ac, l1) = expr_code(a, label + 1, depth);
            let (bc, l2) = expr_code(b, l1, depth);
            expr_code(lower_binary(RowBinaryOpKind::LogicOr, a, b, p), label, depth) == (
                ac + branch_code(Label::Else(n)) + seq![
                    Instr::PushImm(1),
                    Instr::Jmp(Label::End(n)),
                    Instr::Label(Label::Else(n)),
                ] + bc + seq![Instr::Label(Label::End(n))],
                l2,
            )
        }),
{
    let n = label as usize;
    let (ac, l1) = expr_code(a, label + 1, depth);
    let (bc, l2) = expr_code(b, l1, depth);
    let zero = number(0, p);
    let one = number(1, p);
    assert(expr_code(zero, l2, depth) == (seq![Instr::PushImm(0)], l2));
    assert(expr_code(one, l1, depth) == (seq![Instr::PushImm(1)], l1));
    assert(expr_code(lower_binary(RowBinaryOpKind::LogicAnd, a, b, p), label, depth).0 =~= ac
        + branch_code(Label::Else(n)) + bc + seq![
        Instr::Jmp(Label::End(n)),
        Instr::Label(Label::Else(n)),
        Instr::PushImm(0),
        Instr::Label(Label::End(n)),
    ]);
    assert(expr_code(lower_binary(RowBinaryOpKind::LogicOr, a, b, p), label, depth).0 =~= ac
        + branch_code(Label::Else(n)) + seq![
        Instr::PushImm(1),
        Instr::Jmp(Label::End(n)),
        Instr::Label(Label::Else(n)),
    ] + bc + seq![Instr::Label(Label::End(n))]);
}

/// The `i`-th view of a sequence is the view of its `i`-th element.
pub proof fn lemma_view_exprs_index(s: Seq<Expr>, i: int)
    requires
        0 <= i < s.len(),
    ensures
        view_exprs(s).len() == s.len(),
        view_exprs(s)[i] == view_expr(s[i]),
    decreases s.len(),
{
    lemma_view_exprs_len(s);
    if i > 0 {
        lemma_view_exprs_index(s.drop_first(), i - 1);
    }
}

pub proof fn lemma_view_stmts_index(s: Seq<Stmt>, i: int)
    requires
        0 <= i < s.len(),
    ensures
        view_stmts(s).len() == s.len(),
        view_stmts(s)[i] == view_stmt(s[i]),
    decreases s.len(),
{
    lemma_view_stmts_len(s);
    if i > 0 {
        lemma_view_stmts_index(s.drop_first(), i - 1);
    }
}

/// The number of nodes of an expression, when it is at most `limit`.
fn expr_size_of(e: &Expr, limit: usize) -> (r: Option<usize>)
    ensures
        r matches Some(n) ==> n == expr_size(e@) && n <= limit,
    decreases e,
{
    let c = match &e.kind {
        ExprKind::Binary { lhs, rhs, .. } | ExprKind::Assign { lhs, rhs } | ExprKind::AssignOp {
            lhs,
            rhs,
            ..
        } | ExprKind::Comma { lhs, rhs } => {
            let a = match expr_size_of(lhs, limit) {
                Some(a) => a,
                None => {
                    return None;
                },
            };
            let b = match expr_size_of(rhs, limit) {
                Some(b) => b,
                None => {
                    return None;
                },
            };
            if a > limit - b {
                return None;
            }
            a + b
        },
        ExprKind::Condition { condition, then_expr, else_expr } => {
            let a = match expr_size_of(condition, limit) {
                Some(a) => a,
                None => {
                    return None;
                },
            };
            let b = match expr_size_of(then_expr, limit) {
                Some(b) => b,
                None => {
                    return None;
                },
            };
            let d = match expr_size_of(else_expr, limit) {
                Some(d) => d,
                None => {
                    return None;
                },
            };
            if a > limit - b || a + b > limit - d {
                return None;
            }
            a + b + d
        },
        ExprKind::PostfixIncrement { expr } | ExprKind::PostfixDecrement { expr } => {
            match expr_size_of(expr, limit) {
                Some(a) => a,
                None => {
                    return None;
                },
            }
        },
        ExprKind::Variable { .. } | ExprKind::Number { .. } => 0,
        ExprKind::Func { name, args } => {
            let a = match name {
                FuncCallKind::Label { .. } => 0,
                FuncCallKind::Expr { expr } => match expr_size_of(expr, limit) {
                    Some(a) => {
                        assert(view_callee(*name) == CalleeView::Expr { expr: Box::new(view_expr(**expr)) });
                        a
                    },
                    None => {
                        return None;
                    },
                },
            };
            let total = match args_size_of(args, limit) {
                Some(t) => t,
                None => {
                    return None;
                },
            };
            if a > limit - total {
                return None;
            }
            a + total
        },
    };
    if c >= limit {
        return None;
    }
    Some(c + 1)
}

/// The number of nodes of call arguments, when it is at most `limit`.
fn args_size_of(args: &Vec<Expr>, limit: usize) -> (r: Option<usize>)
    ensures
        r matches Some(n) ==> n == args_size(view_exprs(args@)) && n <= limit,
    decreases args,
{
    let ghost vs = view_exprs(args@);
    proof {
        lemma_view_exprs_len(args@);
        assert(vs.subrange(0, 0) =~= Seq::<ExprView>::empty());
    }
    let mut total: usize = 0;
    let mut i: usize = 0;
    while i < args.len()
        invariant
            vs == view_exprs(args@),
            vs.len() == args@.len(),
            i <= args@.len(),
            total == args_size(vs.subrange(0, i as int)),
            total <= limit,
        decreases args@.len() - i,
    {
        proof {
            lemma_view_exprs_index(args@, i as int);
            assert(decreases_to!(args => args@[i as int]));
        }
        let b = match expr_size_of(&args[i], limit) {
            Some(b) => b,
            None => {
                return None;
            },
        };
        if total > limit - b {
            return None;
        }
        total = total + b;
        i = i + 1;
        proof {
            let sub = vs.subrange(0, i as int);
            assert(sub.last() == vs[i - 1]);
            assert(sub.drop_last() =~= vs.subrange(0, i - 1));
        }
    }
    proof {
        assert(vs.subrange(0, vs.len() as int) =~= vs);
    }
    Some(total)
}

/// The number of nodes of a statement, when it is at most `limit`.
fn stmt_size_of(s: &Stmt, limit: usize) -> (r: Option<usize>)
    ensures
        r matches Some(n) ==> n == stmt_size(s@) && n <= limit,
    decreases s,
{
    let c = match &s.kind {
        StmtKind::Expr { expr } | StmtKind::Return { expr } => match expr {
            None => 0,
            Some(x) => match expr_size_of(x, limit) {
                Some(a) => a,
                None => {
                    return None;
                },
            },
        },
        StmtKind::If { condition_expr, then_stmt, else_stmt } => {
            let a = match expr_size_of(condition_expr, limit) {
                Some(a) => a,
                None => {
                    return None;
                },
            };
            let b = match stmt_size_of(then_stmt, limit) {
                Some(b) => b,
                None => {
                    return None;
                },
            };
            let d = match &**else_stmt {
                None => 0,
                Some(x) => match stmt_size_of(x, limit) {
                    Some(d) => d,
                    None => {
                        return None;
                    },
                },
            };
            if a > limit - b || a + b > limit - d {
                return None;
            }
            a + b + d
        },
        StmtKind::For { init_expr, condition_expr, delta_expr, run_stmt } => {
            let a = match init_expr {
                None => 0,
                Some(x) => match expr_size_of(x, limit) {
                    Some(a) => a,
                    None => {
                        return None;
                    },
                },
            };
            let b = match expr_size_of(condition_expr, limit) {
                Some(b) => b,
                None => {
                    return None;
                },
            };
            let d = match delta_expr {
                None => 0,
                Some(x) => match expr_size_of(x, limit) {
                    Some(d) => d,
                    None => {
                        return None;
                    },
                },
            };
            let f = match stmt_size_of(run_stmt, limit) {
                Some(f) => f,
                None => {
                    return None;
                },
            };
            if a > limit - b || a + b > limit - d || a + b + d > limit - f {
                return None;
            }
            a + b + d + f
        },
        StmtKind::While { condition_expr, run_stmt } => {
            let a = match expr_size_of(condition_expr, limit) {
                Some(a) => a,
                None => {
                    return None;
                },
            };
            let b = match stmt_size_of(run_stmt, limit) {
                Some(b) => b,
                None => {
                    return None;
                },
            };
            if a > limit - b {
                return None;
            }
            a + b
        },
        StmtKind::Cpd { stmts } => match stmts_size_of(stmts, limit) {
            Some(a) => a,
            None => {
                return None;
            },
        },
    };
    if c >= limit {
        return None;
    }
    Some(c + 1)
}

/// The number of nodes of statements, when it is at most `limit`.
fn stmts_size_of(stmts: &Vec<Stmt>, limit: usize) -> (r: Option<usize>)
    ensures
        r matches Some(n) ==> n == stmts_size(view_stmts(stmts@)) && n <= limit,
    decreases stmts,
{
    let ghost vs = view_stmts(stmts@);
    proof {
        lemma_view_stmts_len(stmts@);
        assert(vs.subrange(0, vs.len() as int) =~= vs);
    }
    let mut total: usize = 0;
    let mut i: usize = 0;
    while i < stmts.len()
        invariant
            vs == view_stmts(stmts@),
            vs.len() == stmts@.len(),
            i <= stmts@.len(),
            stmts_size(vs) == total + stmts_size(vs.subrange(i as int, vs.len() as int)),
            total <= limit,
        decreases stmts@.len() - i,
    {
        proof {
            lemma_view_stmts_index(stmts@, i as int);
            assert(decreases_to!(stmts => stmts@[i as int]));
            let sub = vs.subrange(i as int, vs.len() as int);
            assert(sub[0] == vs[i as int]);
            assert(sub.drop_first() =~= vs.subrange(i + 1, vs.len() as int));
        }
        let b = match stmt_size_of(&stmts[i], limit) {
            Some(b) => b,
            None => {
                return None;
            },
        };
        if total > limit - b {
            return None;
        }
        total = total + b;
        i = i + 1;
    }
    proof {
        assert(vs.subrange(vs.len() as int, vs.len() as int) =~= Seq::<StmtView>::empty());
    }
    Some(total)
}

/// Every expression has at least one node.
pub proof fn lemma_expr_size_pos(e: ExprView)
    ensures
        expr_size(e) >= 1,
{
}

/// A sequence of expressions has at least as many nodes as elements.
pub proof fn lemma_args_size_len(s: Seq<ExprView>)
    ensures
        args_size(s) >= s.len(),
    decreases s.len(),
{
    if s.len() > 0 {
        lemma_expr_size_pos(s.last());
        lemma_args_size_len(s.drop_last());
    }
}

} // verus!
