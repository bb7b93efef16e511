use vstd::prelude::*;

verus! {

/// A stack slot: the variable lives at the frame pointer minus `offset`.
#[derive(Debug, Clone, Copy, PartialEq, Eq, Structural)]
pub struct Variable {
    pub offset: usize,
}

impl Variable {
    pub fn new(offset: usize) -> (r: Variable)
        ensures
            r.offset == offset,
    {
        Variable { offset }
    }
}

} // verus!
