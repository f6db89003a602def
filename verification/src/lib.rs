//! Compile-time transformation pipeline for contract modules.
//!
//! A contract module declares one public data type together with behavior
//! blocks of methods. The pipeline parses the module, synthesizes a singleton
//! state declaration from the constructor (rewriting the self-reference
//! placeholder into the concrete type name), and generates one exported
//! wrapper function per public, non-constructor method.

pub mod ast;
pub mod functions;
pub mod parser;
pub mod pipeline;
pub mod state;
pub mod transformation;
