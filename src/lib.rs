//! Expression core of a small tree-walking interpreter: tokens, literals,
//! the expression tree, a printer and an evaluator, each with its contract.

pub mod token;
pub mod number;
pub mod error;
pub mod expr;
pub mod ast_printer;
pub mod value;
pub mod environment;
pub mod interpreter;
