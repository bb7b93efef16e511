pub mod token;
pub mod token_kind;
pub mod token_stream;
pub mod tokenizer;
