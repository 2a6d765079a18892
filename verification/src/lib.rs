//! Translator core for a block-based visual programming format.
//!
//! The library resolves a graph of opcode-tagged blocks (addressed by string
//! identifiers, with optional chain links and named input slots) into an owned
//! abstract syntax tree, and lowers that tree into target-language source text.
//! Every resolution and generation step is specified by a matching `spec`
//! function over the mathematical view of the data, and the executable code is
//! proved to compute exactly that function.

pub mod assemble;
pub mod ast;
pub mod codegen;
pub mod error;
pub mod laws;
pub mod model;
pub mod mutation;
pub mod resolve;
pub mod strutil;
