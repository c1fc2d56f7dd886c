pub mod ast;
pub mod defs;
pub mod hir;
pub mod span;
pub mod token;
pub mod ty;
