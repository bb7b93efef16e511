pub mod code;
pub mod generator;
pub mod instr;
pub mod register;
