//! Decision codes and memory layout shared with the runtime.
use vstd::prelude::*;

verus! {

/// Outcome of evaluating one compiled policy.
///
/// At the module boundary each decision is the `i32` given by `code`:
/// -1 for `NoDecision`, 0 for `Deny`, 1 for `Permit`, 2 for `Error`.
#[derive(Debug, Clone, Copy, PartialEq, Eq, Structural)]
pub enum Decision {
    /// The policy does not apply (its condition is false).
    NoDecision,
    /// Explicit deny.
    Deny,
    /// Explicit permit.
    Permit,
    /// Evaluation error.
    Error,
}

pub open spec fn decision_code(d: Decision) -> i32 {
    match d {
        Decision::NoDecision => -1i32,
        Decision::Deny => 0,
        Decision::Permit => 1,
        Decision::Error => 2,
    }
}

impl Decision {
    /// The integer the generated code returns for this decision.
    pub fn code(self) -> (r: i32)
        ensures
            r == decision_code(self),
    {
        match self {
            Decision::NoDecision => -1i32,
            Decision::Deny => 0,
            Decision::Permit => 1,
            Decision::Error => 2,
        }
    }
}

/// Indices of the runtime helper functions the generated code will import.
pub const STRING_EQ: u32 = 0;
pub const GET_ATTRIBUTE: u32 = 1;
pub const HAS_ATTRIBUTE: u32 = 2;
pub const ENTITY_IN: u32 = 3;

/// Initial linear memory size in pages of 64 KiB.
pub const INITIAL_PAGES: u32 = 1;

/// Maximum linear memory size in pages.
pub const MAX_PAGES: u32 = 16;

/// Offset where the string pool starts in linear memory.
pub const STRING_POOL_START: u32 = 0x1000;

} // verus!
