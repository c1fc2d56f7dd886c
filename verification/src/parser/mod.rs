pub mod ast;
pub mod cursor;
pub mod error;
pub mod ops;
pub mod parser;
pub mod forms;
