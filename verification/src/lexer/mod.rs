pub mod chars;
pub mod error;
pub mod token;
pub mod token_kind;
pub mod keywords;
pub mod grammar;
pub mod lexer;
pub mod display;
