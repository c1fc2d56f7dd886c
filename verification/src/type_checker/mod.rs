pub mod checker;
pub mod ty;
pub mod model;
pub mod error;
pub mod pretty;
pub mod infer;
pub mod type_collector;
pub mod lower;
