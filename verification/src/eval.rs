//! The evaluator and what it works with: values, environments and the
//! built-in functions.

pub mod builtins;
pub mod evaluator;
pub mod exprs;
pub mod floats;
pub mod native_func;
pub mod registry;
pub mod run;
pub mod semantics;
pub mod stmts;
pub mod types;
pub mod utils;
