//! A small ahead-of-time compiler from a C-like subset to x86-64 assembly text.
//!
//! The pipeline runs in four stages, each consuming only the previous stage's
//! output: the tokenizer, the parser, the analyzer and the generator.

pub mod analyze;
pub mod error;
pub mod file;
pub mod generate;
pub mod parse;
pub mod tokenize;
