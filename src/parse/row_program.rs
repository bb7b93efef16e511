use vstd::prelude::*;

use super::row_stmt::RowStmt;

verus! {

/// A parsed unit: its statements in order.
#[derive(Debug)]
pub struct RowProgram {
    pub stmts: Vec<RowStmt>,
}

impl RowProgram {
    pub fn new(stmts: Vec<RowStmt>) -> (r: RowProgram)
        ensures
            r.stmts == stmts,
    {
        RowProgram { stmts }
    }
}

} // verus!
