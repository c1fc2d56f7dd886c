pub mod ast_lowerer;
pub mod hir;
pub mod lowerable;
pub mod lowering;
