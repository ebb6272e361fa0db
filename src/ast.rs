//! Policy syntax, the stack IR, its meaning, and the lowering between them.
pub mod expr;
pub mod lowering;
pub mod semantics;
