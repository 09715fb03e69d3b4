//! A build driver for a small native toolchain: a manifest lexer and parser,
//! the build model they produce, and the decisions of the build orchestrator.

pub mod text;
pub mod arguments;
pub mod error;
pub mod language;
pub mod lexer;
pub mod object;
pub mod brewfile;
pub mod parser;
pub mod paths;
pub mod orchestrate;
