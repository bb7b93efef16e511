pub mod analyzer;
pub mod expr;
pub mod program;
pub mod stmt;
pub mod variable;
