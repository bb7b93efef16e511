pub mod grammar;
pub mod parser;
pub mod row_expr;
pub mod row_program;
pub mod row_stmt;
