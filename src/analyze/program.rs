use vstd::prelude::*;

use super::stmt::Stmt;

verus! {

/// A lowered unit: its statements and the bytes of stack its variables need.
#[derive(Debug)]
pub struct Program {
    pub stmts: Vec<Stmt>,
    pub offset: usize,
}

impl Program {
    pub fn new(stmts: Vec<Stmt>, offset: usize) -> (r: Program)
        ensures
            r.stmts == stmts,
            r.offset == offset,
    {
        Program { stmts, offset }
    }
}

} // verus!
