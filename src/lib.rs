//! Cedar policy compiler: lowers a policy's condition to a stack IR,
//! optimizes it, and emits a WebAssembly module that returns a decision code.
pub mod ast;
pub mod compiler;
pub mod optimization;
pub mod wasm;

pub use compiler::{Compiler, CompilerError, CompilerResult};
