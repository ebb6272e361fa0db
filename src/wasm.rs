//! WebAssembly code generation.
pub mod codegen;
pub mod encoder;
pub mod runtime;
pub mod types;

pub use codegen::WasmCodeGen;
