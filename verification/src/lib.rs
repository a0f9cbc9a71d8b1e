//! A tree-walking interpreter for MiniPy, a small indentation-sensitive
//! scripting language: bytes are cut into tokens, tokens are parsed into
//! a syntax tree, and the tree is evaluated against a global and a local
//! environment.
//!
//! The crate performs no input or output. A caller hands in the bytes of a
//! program and receives tokens, a tree, or the text the program printed.

pub mod ascii;
pub mod ast;
pub mod errors;
pub mod token;
pub mod char_stream;
pub mod lexing;
pub mod tokenizer;
pub mod grammar;
pub mod parser;
pub mod progress;
pub mod expressions;
pub mod statements;
pub mod eval;
pub mod laws;
