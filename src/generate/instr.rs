use vstd::prelude::*;

use super::register::{byte_name, qword_name, Register};
use crate::file::text::{decimal, push_decimal, push_signed_decimal, push_str, signed_decimal};

verus! {

/// A local jump target; the number tells blocks apart.
#[derive(Debug, Clone, Copy, PartialEq, Eq, Structural)]
pub enum Label {
    Begin(usize),
    Else(usize),
    End(usize),
    /// The shared epilogue.
    MainRet,
}

/// Two-operand instructions that combine two registers into the first.
#[derive(Debug, Clone, Copy, PartialEq, Eq, Structural)]
pub enum ArithOp {
    Add,
    Sub,
    Imul,
    And,
    Or,
    Xor,
    Cmp,
}

/// Shifts by the low byte of a register.
#[derive(Debug, Clone, Copy, PartialEq, Eq, Structural)]
pub enum ShiftOp {
    Shl,
    Shr,
}

/// Conditions that a comparison result is read by.
#[derive(Debug, Clone, Copy, PartialEq, Eq, Structural)]
pub enum Cond {
    L,
    Le,
    E,
    Ne,
}

/// One line of the emitted assembly.
#[derive(Debug)]
pub enum Instr {
    /// `.intel_syntax noprefix`
    IntelSyntax,
    /// `.globl main`
    GlobalMain,
    /// `main:`
    MainLabel,
    Push(Register),
    PushImm(i32),
    Pop(Register),
    /// `mov dst, src`
    Mov(Register, Register),
    /// `mov dst, [src]`
    Load(Register, Register),
    /// `mov [dst], src`
    Store(Register, Register),
    AddImm(Register, usize),
    SubImm(Register, usize),
    Arith(ArithOp, Register, Register),
    Shift(ShiftOp, Register, Register),
    Cqo,
    Idiv(Register),
    /// `setcc reg8`
    SetCc(Cond, Register),
    /// `movzb dst, src8`
    Movzb(Register, Register),
    /// `cmp reg, 0`
    CmpZero(Register),
    Je(Label),
    Jmp(Label),
    Label(Label),
    Call(String),
    CallReg(Register),
    Ret,
}

pub open spec fn label_text(l: Label) -> Seq<char> {
    match l {
        Label::Begin(n) => ".Lbegin"@ + decimal(n as nat),
        Label::Else(n) => ".Lelse"@ + decimal(n as nat),
        Label::End(n) => ".Lend"@ + decimal(n as nat),
        Label::MainRet => ".Lmain_ret"@,
    }
}

pub open spec fn arith_text(op: ArithOp) -> Seq<char> {
    match op {
        ArithOp::Add => "\tadd "@,
        ArithOp::Sub => "\tsub "@,
        ArithOp::Imul => "\timul "@,
        ArithOp::And => "\tand "@,
        ArithOp::Or => "\tor "@,
        ArithOp::Xor => "\txor "@,
        ArithOp::Cmp => "\tcmp "@,
    }
}

pub open spec fn shift_text(op: ShiftOp) -> Seq<char> {
    match op {
        ShiftOp::Shl => "\tshl "@,
        ShiftOp::Shr => "\tshr "@,
    }
}

pub open spec fn cond_text(c: Cond) -> Seq<char> {
    match c {
        Cond::L => "\tsetl "@,
        Cond::Le => "\tsetle "@,
        Cond::E => "\tsete "@,
        Cond::Ne => "\tsetne "@,
    }
}

/// The text of one instruction, without its line break.
pub open spec fn body_text(i: Instr) -> Seq<char> {
    let comma = ", "@;
    match i {
        Instr::IntelSyntax => ".intel_syntax noprefix"@,
        Instr::GlobalMain => ".globl main"@,
        Instr::MainLabel => "main:"@,
        Instr::Push(r) => "\tpush "@ + qword_name(r),
        Instr::PushImm(n) => "\tpush "@ + signed_decimal(n as int),
        Instr::Pop(r) => "\tpop "@ + qword_name(r),
        Instr::Mov(d, s) => "\tmov "@ + qword_name(d) + comma + qword_name(s),
        Instr::Load(d, s) => "\tmov "@ + qword_name(d) + ", ["@ + qword_name(s) + "]"@,
        Instr::Store(d, s) => "\tmov ["@ + qword_name(d) + "], "@ + qword_name(s),
        Instr::AddImm(r, n) => "\tadd "@ + qword_name(r) + comma + decimal(n as nat),
        Instr::SubImm(r, n) => "\tsub "@ + qword_name(r) + comma + decimal(n as nat),
        Instr::Arith(op, d, s) => arith_text(op) + qword_name(d) + comma + qword_name(s),
        Instr::Shift(op, d, s) => shift_text(op) + qword_name(d) + comma + byte_name(s),
        Instr::Cqo => "\tcqo"@,
        Instr::Idiv(r) => "\tidiv "@ + qword_name(r),
        Instr::SetCc(c, r) => cond_text(c) + byte_name(r),
        Instr::Movzb(d, s) => "\tmovzb "@ + qword_name(d) + comma + byte_name(s),
        Instr::CmpZero(r) => "\tcmp "@ + qword_name(r) + ", 0"@,
        Instr::Je(l) => "\tje "@ + label_text(l),
        Instr::Jmp(l) => "\tjmp "@ + label_text(l),
        Instr::Label(l) => label_text(l) + ":"@,
        Instr::Call(name) => "\tcall "@ + name@,
        Instr::CallReg(r) => "\tcall "@ + qword_name(r),
        Instr::Ret => "\tret"@,
    }
}

/// The text of one instruction, with its line break.
pub open spec fn instr_text(i: Instr) -> Seq<char> {
    body_text(i) + "\n"@
}

/// The text of a sequence of instructions.
pub open spec fn code_text(s: Seq<Instr>) -> Seq<char>
    decreases s.len(),
{
    if s.len() == 0 {
        Seq::empty()
    } else {
        code_text(s.drop_last()) + instr_text(s.last())
    }
}

fn push_label(out: &mut Vec<char>, l: Label)
    ensures
        final(out)@ == old(out)@ + label_text(l),
{
    match l {
        Label::Begin(n) => {
            push_str(out, ".Lbegin");
            push_decimal(out, n as u64);
        },
        Label::Else(n) => {
            push_str(out, ".Lelse");
            push_decimal(out, n as u64);
        },
        Label::End(n) => {
            push_str(out, ".Lend");
            push_decimal(out, n as u64);
        },
        Label::MainRet => push_str(out, ".Lmain_ret"),
    }
}

impl Instr {
    /// Appends the text of this instruction to `out`.
    pub fn render(&self, out: &mut Vec<char>)
        ensures
            final(out)@ == old(out)@ + instr_text(*self),
    {
        self.render_body(out);
        push_str(out, "\n");
        assert(old(out)@ + body_text(*self) + "\n"@ =~= old(out)@ + instr_text(*self));
    }

    #[verifier::rlimit(100)]
    fn render_body(&self, out: &mut Vec<char>)
        ensures
            final(out)@ =~= old(out)@ + body_text(*self),
    {
        match self {
            Instr::IntelSyntax => push_str(out, ".intel_syntax noprefix"),
            Instr::GlobalMain => push_str(out, ".globl main"),
            Instr::MainLabel => push_str(out, "main:"),
            Instr::Push(r) => {
                push_str(out, "\tpush ");
                push_str(out, r.qword());
            },
            Instr::PushImm(n) => {
                push_str(out, "\tpush ");
                push_signed_decimal(out, *n as i64);
            },
            Instr::Pop(r) => {
                push_str(out, "\tpop ");
                push_str(out, r.qword());
            },
            Instr::Mov(d, s) => {
                push_str(out, "\tmov ");
                push_str(out, d.qword());
                push_str(out, ", ");
                push_str(out, s.qword());
            },
            Instr::Load(d, s) => {
                push_str(out, "\tmov ");
                push_str(out, d.qword());
                push_str(out, ", [");
                push_str(out, s.qword());
                push_str(out, "]");
            },
            Instr::Store(d, s) => {
                push_str(out, "\tmov [");
                push_str(out, d.qword());
                push_str(out, "], ");
                push_str(out, s.qword());
            },
            Instr::AddImm(r, n) => {
                push_str(out, "\tadd ");
                push_str(out, r.qword());
                push_str(out, ", ");
                push_decimal(out, *n as u64);
            },
            Instr::SubImm(r, n) => {
                push_str(out, "\tsub ");
                push_str(out, r.qword());
                push_str(out, ", ");
                push_decimal(out, *n as u64);
            },
            Instr::Arith(op, d, s) => {
                let t = match op {
                    ArithOp::Add => "\tadd ",
                    ArithOp::Sub => "\tsub ",
                    ArithOp::Imul => "\timul ",
                    ArithOp::And => "\tand ",
                    ArithOp::Or => "\tor ",
                    ArithOp::Xor => "\txor ",
                    ArithOp::Cmp => "\tcmp ",
                };
                push_str(out, t);
                push_str(out, d.qword());
                push_str(out, ", ");
                push_str(out, s.qword());
            },
            Instr::Shift(op, d, s) => {
                let t = match op {
                    ShiftOp::Shl => "\tshl ",
                    ShiftOp::Shr => "\tshr ",
                };
                push_str(out, t);
                push_str(out, d.qword());
                push_str(out, ", ");
                push_str(out, s.byte());
            },
            Instr::Cqo => push_str(out, "\tcqo"),
            Instr::Idiv(r) => {
                push_str(out, "\tidiv ");
                push_str(out, r.qword());
            },
            Instr::SetCc(c, r) => {
                let t = match c {
                    Cond::L => "\tsetl ",
                    Cond::Le => "\tsetle ",
                    Cond::E => "\tsete ",
                    Cond::Ne => "\tsetne ",
                };
                push_str(out, t);
                push_str(out, r.byte());
            },
            Instr::Movzb(d, s) => {
                push_str(out, "\tmovzb ");
                push_str(out, d.qword());
                push_str(out, ", ");
                push_str(out, s.byte());
            },
            Instr::CmpZero(r) => {
                push_str(out, "\tcmp ");
                push_str(out, r.qword());
                push_str(out, ", 0");
            },
            Instr::Je(l) => {
                push_str(out, "\tje ");
                push_label(out, *l);
            },
            Instr::Jmp(l) => {
                push_str(out, "\tjmp ");
                push_label(out, *l);
            },
            Instr::Label(l) => {
                push_label(out, *l);
                push_str(out, ":");
            },
            Instr::Call(name) => {
                push_str(out, "\tcall ");
                push_str(out, name.as_str());
            },
            Instr::CallReg(r) => {
                push_str(out, "\tcall ");
                push_str(out, r.qword());
            },
            Instr::Ret => push_str(out, "\tret"),
        }
    }
}

/// The text of a sequence of instructions, one per line.
pub fn render_code(code: &Vec<Instr>) -> (r: Vec<char>)
    ensures
        r@ == code_text(code@),
{
    let mut out: Vec<char> = Vec::new();
    let mut i: usize = 0;
    while i < code.len()
        invariant
            i <= code@.len(),
            out@ == code_text(code@.subrange(0, i as int)),
        decreases code@.len() - i,
    {
        code[i].render(&mut out);
        i = i + 1;
        assert(code@.subrange(0, i as int).drop_last() =~= code@.subrange(0, i - 1));
    }
    assert(code@.subrange(0, code@.len() as int) =~= code@);
    out
}

} // verus!
