//! Mapping of policy values to WebAssembly value types.
use vstd::prelude::*;

verus! {

/// How a policy value is represented in WebAssembly.
#[derive(Debug, Clone, Copy, PartialEq, Eq, Structural)]
pub enum WasmType {
    /// Boolean (i32: 0 = false, 1 = true).
    Bool,
    /// Integer (i64).
    Int,
    /// String (i32 pointer into linear memory).
    String,
    /// Entity reference (i32 index into the entity table).
    Entity,
}

/// The WebAssembly value types the generated code uses.
#[derive(Debug, Clone, Copy, PartialEq, Eq, Structural)]
pub enum ValType {
    I32,
    I64,
}

pub open spec fn val_type_of(t: WasmType) -> ValType {
    match t {
        WasmType::Int => ValType::I64,
        _ => ValType::I32,
    }
}

impl WasmType {
    /// The WebAssembly value type of this representation.
    pub fn to_val_type(self) -> (r: ValType)
        ensures
            r == val_type_of(self),
    {
        match self {
            WasmType::Bool => ValType::I32,
            WasmType::Int => ValType::I64,
            WasmType::String => ValType::I32,
            WasmType::Entity => ValType::I32,
        }
    }
}

/// Function signature in WebAssembly.
#[derive(Debug, Clone)]
pub struct FunctionSignature {
    pub params: Vec<WasmType>,
    pub results: Vec<WasmType>,
}

impl FunctionSignature {
    pub fn new(params: Vec<WasmType>, results: Vec<WasmType>) -> (r: Self)
        ensures
            r.params@ == params@,
            r.results@ == results@,
    {
        Self { params, results }
    }

    /// Signature of the policy entry point: no parameters, one i32 result
    /// holding the decision code.
    pub fn policy_entry() -> (r: Self)
        ensures
            r.params@ == Seq::<WasmType>::empty(),
            r.results@ == seq![WasmType::Bool],
    {
        let mut results: Vec<WasmType> = Vec::new();
        results.push(WasmType::Bool);
        proof {
            assert(results@ =~= seq![WasmType::Bool]);
        }
        Self { params: Vec::new(), results }
    }
}

} // verus!
