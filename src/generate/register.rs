use vstd::prelude::*;

verus! {

/// The general-purpose registers of x86-64.
#[derive(Debug, Clone, Copy, PartialEq, Eq, Structural)]
pub enum Register {
    Rax,
    Rbx,
    Rcx,
    Rdx,
    Rsi,
    Rdi,
    Rbp,
    Rsp,
    R8,
    R9,
    R10,
    R11,
    R12,
    R13,
    R14,
    R15,
}

/// The 64-bit name of a register.
pub open spec fn qword_name(r: Register) -> Seq<char> {
    match r {
        Register::Rax => "rax"@,
        Register::Rbx => "rbx"@,
        Register::Rcx => "rcx"@,
        Register::Rdx => "rdx"@,
        Register::Rsi => "rsi"@,
        Register::Rdi => "rdi"@,
        Register::Rbp => "rbp"@,
        Register::Rsp => "rsp"@,
        Register::R8 => "r8"@,
        Register::R9 => "r9"@,
        Register::R10 => "r10"@,
        Register::R11 => "r11"@,
        Register::R12 => "r12"@,
        Register::R13 => "r13"@,
        Register::R14 => "r14"@,
        Register::R15 => "r15"@,
    }
}

/// The 32-bit name of a register.
pub open spec fn dword_name(r: Register) -> Seq<char> {
    match r {
        Register::Rax => "eax"@,
        Register::Rbx => "ebx"@,
        Register::Rcx => "ecx"@,
        Register::Rdx => "edx"@,
        Register::Rsi => "esi"@,
        Register::Rdi => "edi"@,
        Register::Rbp => "ebp"@,
        Register::Rsp => "esp"@,
        Register::R8 => "r8d"@,
        Register::R9 => "r9d"@,
        Register::R10 => "r10d"@,
        Register::R11 => "r11d"@,
        Register::R12 => "r12d"@,
        Register::R13 => "r13d"@,
        Register::R14 => "r14d"@,
        Register::R15 => "r15d"@,
    }
}

/// The 16-bit name of a register.
pub open spec fn word_name(r: Register) -> Seq<char> {
    match r {
        Register::Rax => "ax"@,
        Register::Rbx => "bx"@,
        Register::Rcx => "cx"@,
        Register::Rdx => "dx"@,
        Register::Rsi => "si"@,
        Register::Rdi => "di"@,
        Register::Rbp => "bp"@,
        Register::Rsp => "sp"@,
        Register::R8 => "r8w"@,
        Register::R9 => "r9w"@,
        Register::R10 => "r10w"@,
        Register::R11 => "r11w"@,
        Register::R12 => "r12w"@,
        Register::R13 => "r13w"@,
        Register::R14 => "r14w"@,
        Register::R15 => "r15w"@,
    }
}

/// The low 8-bit name of a register.
pub open spec fn byte_name(r: Register) -> Seq<char> {
    match r {
        Register::Rax => "al"@,
        Register::Rbx => "bl"@,
        Register::Rcx => "cl"@,
        Register::Rdx => "dl"@,
        Register::Rsi => "sil"@,
        Register::Rdi => "dil"@,
        Register::Rbp => "bpl"@,
        Register::Rsp => "spl"@,
        Register::R8 => "r8b"@,
        Register::R9 => "r9b"@,
        Register::R10 => "r10b"@,
        Register::R11 => "r11b"@,
        Register::R12 => "r12b"@,
        Register::R13 => "r13b"@,
        Register::R14 => "r14b"@,
        Register::R15 => "r15b"@,
    }
}

impl Register {
    /// The 64-bit name.
    pub fn qword(&self) -> (r: &'static str)
        ensures
            r@ == qword_name(*self),
    {
        match self {
            Register::Rax => "rax",
            Register::Rbx => "rbx",
            Register::Rcx => "rcx",
            Register::Rdx => "rdx",
            Register::Rsi => "rsi",
            Register::Rdi => "rdi",
            Register::Rbp => "rbp",
            Register::Rsp => "rsp",
            Register::R8 => "r8",
            Register::R9 => "r9",
            Register::R10 => "r10",
            Register::R11 => "r11",
            Register::R12 => "r12",
            Register::R13 => "r13",
            Register::R14 => "r14",
            Register::R15 => "r15",
        }
    }

    /// The 32-bit name.
    pub fn dword(&self) -> (r: &'static str)
        ensures
            r@ == dword_name(*self),
    {
        match self {
            Register::Rax => "eax",
            Register::Rbx => "ebx",
            Register::Rcx => "ecx",
            Register::Rdx => "edx",
            Register::Rsi => "esi",
            Register::Rdi => "edi",
            Register::Rbp => "ebp",
            Register::Rsp => "esp",
            Register::R8 => "r8d",
            Register::R9 => "r9d",
            Register::R10 => "r10d",
            Register::R11 => "r11d",
            Register::R12 => "r12d",
            Register::R13 => "r13d",
            Register::R14 => "r14d",
            Register::R15 => "r15d",
        }
    }

    /// The 16-bit name.
    pub fn word(&self) -> (r: &'static str)
        ensures
            r@ == word_name(*self),
    {
        match self {
            Register::Rax => "ax",
            Register::Rbx => "bx",
            Register::Rcx => "cx",
            Register::Rdx => "dx",
            Register::Rsi => "si",
            Register::Rdi => "di",
            Register::Rbp => "bp",
            Register::Rsp => "sp",
            Register::R8 => "r8w",
            Register::R9 => "r9w",
            Register::R10 => "r10w",
            Register::R11 => "r11w",
            Register::R12 => "r12w",
            Register::R13 => "r13w",
            Register::R14 => "r14w",
            Register::R15 => "r15w",
        }
    }

    /// The low 8-bit name.
    pub fn byte(&self) -> (r: &'static str)
        ensures
            r@ == byte_name(*self),
    {
        match self {
            Register::Rax => "al",
            Register::Rbx => "bl",
            Register::Rcx => "cl",
            Register::Rdx => "dl",
            Register::Rsi => "sil",
            Register::Rdi => "dil",
            Register::Rbp => "bpl",
            Register::Rsp => "spl",
            Register::R8 => "r8b",
            Register::R9 => "r9b",
            Register::R10 => "r10b",
            Register::R11 => "r11b",
            Register::R12 => "r12b",
            Register::R13 => "r13b",
            Register::R14 => "r14b",
            Register::R15 => "r15b",
        }
    }
}

} // verus!
