pub mod file_info;
pub mod file_stream;
pub mod position;
pub mod text;
