//! WebAssembly code generation from the lowered IR.
use vstd::prelude::*;
use vstd::string::*;
use vstd::utf8::{encode_utf8, is_ascii_chars, is_ascii_chars_encode_utf8};
use wasm_encoder::{CodeSection, ExportSection, Function, FunctionSection, MemorySection, Module, TypeSection};
use crate::ast::lowering::{module_code, Instruction, LoweredFunction, LoweredModule};
use crate::optimization::passes::return_free;
use crate::wasm::encoder::{
    add_code, add_export, add_function, add_function_type, add_memory, body_bytes, emit_compare,
    emit_i32_const, emit_i64_const, emit_plain, export_bytes, func_type_bytes, memory_type_bytes,
    module_bytes, new_function_body, push_code_section, push_export_section,
    push_function_section, push_memory_section, push_type_section, section_bytes, sleb128,
    uleb128, wasm_header, ExportTarget,
};
use crate::wasm::runtime::{decision_code, Decision, INITIAL_PAGES, MAX_PAGES};
use crate::wasm::types::{val_type_of, FunctionSignature, ValType, WasmType};

verus! {

/// Comparison opcodes, by operand width.
#[derive(Debug, Clone, Copy, PartialEq, Eq, Structural)]
pub enum Compare {
    I32Eq,
    I32Ne,
    I32LtS,
    I32LeS,
    I32GtS,
    I32GeS,
    I64Eq,
    I64Ne,
    I64LtS,
    I64LeS,
    I64GtS,
    I64GeS,
}

/// Other operators without immediates.
#[derive(Debug, Clone, Copy, PartialEq, Eq, Structural)]
pub enum PlainOp {
    I32And,
    I32Or,
    I32Eqz,
    I32WrapI64,
    Select,
    Return,
    End,
}

/// The WebAssembly instructions the generator emits.
#[derive(Debug, Clone, Copy, PartialEq, Eq, Structural)]
pub enum WasmOp {
    I32Const(i32),
    I64Const(i64),
    Compare(Compare),
    Plain(PlainOp),
}

pub open spec fn compare_opcode(c: Compare) -> u8 {
    match c {
        Compare::I32Eq => 0x46,
        Compare::I32Ne => 0x47,
        Compare::I32LtS => 0x48,
        Compare::I32GtS => 0x4A,
        Compare::I32LeS => 0x4C,
        Compare::I32GeS => 0x4E,
        Compare::I64Eq => 0x51,
        Compare::I64Ne => 0x52,
        Compare::I64LtS => 0x53,
        Compare::I64GtS => 0x55,
        Compare::I64LeS => 0x57,
        Compare::I64GeS => 0x59,
    }
}

pub open spec fn plain_opcode(o: PlainOp) -> u8 {
    match o {
        PlainOp::I32And => 0x71,
        PlainOp::I32Or => 0x72,
        PlainOp::I32Eqz => 0x45,
        PlainOp::I32WrapI64 => 0xA7,
        PlainOp::Select => 0x1B,
        PlainOp::Return => 0x0F,
        PlainOp::End => 0x0B,
    }
}

/// The binary encoding of one instruction.
pub open spec fn op_bytes(op: WasmOp) -> Seq<u8> {
    match op {
        WasmOp::I32Const(v) => seq![0x41u8] + sleb128(v as int),
        WasmOp::I64Const(v) => seq![0x42u8] + sleb128(v as int),
        WasmOp::Compare(c) => seq![compare_opcode(c)],
        WasmOp::Plain(o) => seq![plain_opcode(o)],
    }
}

pub open spec fn ops_bytes(ops: Seq<WasmOp>) -> Seq<u8>
    decreases ops.len(),
{
    if ops.len() == 0 {
        Seq::empty()
    } else {
        ops_bytes(ops.drop_last()) + op_bytes(ops.last())
    }
}

pub open spec fn pop_types(ts: Seq<ValType>, k: int) -> Seq<ValType> {
    if ts.len() >= k {
        ts.subrange(0, ts.len() - k)
    } else {
        Seq::empty()
    }
}

/// The value types on the operand stack after one more instruction.
pub open spec fn type_step(ts: Seq<ValType>, i: Instruction) -> Seq<ValType> {
    match i {
        Instruction::PushInt(_) => ts.push(ValType::I64),
        Instruction::PushBool(_) | Instruction::PushString(_) | Instruction::Permit
        | Instruction::Forbid | Instruction::NoDecision => ts.push(ValType::I32),
        Instruction::Not | Instruction::HasAttribute(_) => pop_types(ts, 1).push(ValType::I32),
        Instruction::GetAttribute(_) => pop_types(ts, 1).push(ValType::I64),
        Instruction::IfThenElse => pop_types(ts, 3).push(
            if ts.len() >= 3 {
                ts[ts.len() - 3]
            } else {
                ValType::I32
            },
        ),
        Instruction::Return => pop_types(ts, 1),
        _ => pop_types(ts, 2).push(ValType::I32),
    }
}

pub open spec fn types_after(s: Seq<Instruction>) -> Seq<ValType>
    decreases s.len(),
{
    if s.len() == 0 {
        Seq::empty()
    } else {
        type_step(types_after(s.drop_last()), s.last())
    }
}

/// The type on top of the stack (`I32` when it is empty).
pub open spec fn top_type(ts: Seq<ValType>) -> ValType {
    if ts.len() > 0 {
        ts.last()
    } else {
        ValType::I32
    }
}

pub open spec fn cmp_op(narrow: Compare, wide: Compare, top: ValType) -> Seq<WasmOp> {
    seq![WasmOp::Compare(if top == ValType::I64 { wide } else { narrow })]
}

/// The operands `i` needs are not on top of the stack of types `ts`:
/// comparisons need two values of one width, `And`/`Or` two i32, `Not` one
/// i32, `IfThenElse` two values of one width under its condition, and
/// `Return` the function's i32 result.
pub open spec fn operands_mismatch(i: Instruction, ts: Seq<ValType>) -> bool {
    let n = ts.len();
    match i {
        Instruction::Equal | Instruction::NotEqual | Instruction::LessThan
        | Instruction::LessThanOrEqual | Instruction::GreaterThan
        | Instruction::GreaterThanOrEqual => n < 2 || ts[n - 2] != ts[n - 1],
        Instruction::And | Instruction::Or => n < 2 || ts[n - 2] != ValType::I32 || ts[n - 1]
            != ValType::I32,
        Instruction::Not => n < 1 || ts[n - 1] != ValType::I32,
        Instruction::IfThenElse => n < 3 || ts[n - 3] != ts[n - 2],
        Instruction::Return => n < 1 || ts[n - 1] != ValType::I32,
        _ => false,
    }
}

pub open spec fn instruction_name(i: Instruction) -> Seq<char> {
    match i {
        Instruction::PushBool(_) => "PushBool"@,
        Instruction::PushInt(_) => "PushInt"@,
        Instruction::PushString(_) => "PushString"@,
        Instruction::Equal => "Equal"@,
        Instruction::NotEqual => "NotEqual"@,
        Instruction::LessThan => "LessThan"@,
        Instruction::LessThanOrEqual => "LessThanOrEqual"@,
        Instruction::GreaterThan => "GreaterThan"@,
        Instruction::GreaterThanOrEqual => "GreaterThanOrEqual"@,
        Instruction::And => "And"@,
        Instruction::Or => "Or"@,
        Instruction::Not => "Not"@,
        Instruction::GetAttribute(_) => "GetAttribute"@,
        Instruction::HasAttribute(_) => "HasAttribute"@,
        Instruction::In => "In"@,
        Instruction::IfThenElse => "IfThenElse"@,
        Instruction::Return => "Return"@,
        Instruction::Permit => "Permit"@,
        Instruction::Forbid => "Forbid"@,
        Instruction::NoDecision => "NoDecision"@,
    }
}

/// What one IR instruction becomes on the stack of types `ts`, or the
/// message for an instruction this backend cannot lower.
pub open spec fn instruction_ops(i: Instruction, ts: Seq<ValType>) -> Result<Seq<WasmOp>, Seq<char>> {
    if operands_mismatch(i, ts) {
        Err("Operands do not fit "@ + instruction_name(i))
    } else {
        lower_instruction(i, top_type(ts))
    }
}

/// What one IR instruction becomes, given the type on top of the stack.
///
/// Comparisons take the width of their operands; `IfThenElse` narrows an
/// `i64` condition before `select`.
pub open spec fn lower_instruction(i: Instruction, top: ValType) -> Result<Seq<WasmOp>, Seq<char>> {
    match i {
        Instruction::PushBool(b) => Ok(seq![WasmOp::I32Const(if b { 1 } else { 0 })]),
        Instruction::PushInt(v) => Ok(seq![WasmOp::I64Const(v)]),
        Instruction::PushString(_) => Ok(seq![WasmOp::I32Const(0)]),
        Instruction::Equal => Ok(cmp_op(Compare::I32Eq, Compare::I64Eq, top)),
        Instruction::NotEqual => Ok(cmp_op(Compare::I32Ne, Compare::I64Ne, top)),
        Instruction::LessThan => Ok(cmp_op(Compare::I32LtS, Compare::I64LtS, top)),
        Instruction::LessThanOrEqual => Ok(cmp_op(Compare::I32LeS, Compare::I64LeS, top)),
        Instruction::GreaterThan => Ok(cmp_op(Compare::I32GtS, Compare::I64GtS, top)),
        Instruction::GreaterThanOrEqual => Ok(cmp_op(Compare::I32GeS, Compare::I64GeS, top)),
        Instruction::And => Ok(seq![WasmOp::Plain(PlainOp::I32And)]),
        Instruction::Or => Ok(seq![WasmOp::Plain(PlainOp::I32Or)]),
        Instruction::Not => Ok(seq![WasmOp::Plain(PlainOp::I32Eqz)]),
        Instruction::IfThenElse => if top == ValType::I64 {
            Ok(seq![WasmOp::Plain(PlainOp::I32WrapI64), WasmOp::Plain(PlainOp::Select)])
        } else {
            Ok(seq![WasmOp::Plain(PlainOp::Select)])
        },
        Instruction::Return => Ok(seq![WasmOp::Plain(PlainOp::Return)]),
        Instruction::Permit => Ok(seq![WasmOp::I32Const(decision_code(Decision::Permit))]),
        Instruction::Forbid => Ok(seq![WasmOp::I32Const(decision_code(Decision::Deny))]),
        Instruction::NoDecision => Ok(seq![WasmOp::I32Const(decision_code(Decision::NoDecision))]),
        Instruction::GetAttribute(_) => Err("GetAttribute not yet implemented"@),
        Instruction::HasAttribute(_) => Err("HasAttribute not yet implemented"@),
        Instruction::In => Err("In operator not yet implemented"@),
    }
}

/// The code of a whole instruction sequence, or the message for the first
/// instruction that cannot be lowered; nothing may follow a `Return`.
pub open spec fn code_ops(s: Seq<Instruction>) -> Result<Seq<WasmOp>, Seq<char>>
    decreases s.len(),
{
    if s.len() == 0 {
        Ok(Seq::empty())
    } else {
        match code_ops(s.drop_last()) {
            Err(m) => Err(m),
            Ok(o) => if !return_free(s.drop_last()) {
                Err("Instruction after Return"@)
            } else {
                match instruction_ops(s.last(), types_after(s.drop_last())) {
                    Err(m) => Err(m),
                    Ok(x) => Ok(o + x),
                }
            },
        }
    }
}

proof fn lemma_ops_bytes_concat(a: Seq<WasmOp>, b: Seq<WasmOp>)
    ensures
        ops_bytes(a + b) == ops_bytes(a) + ops_bytes(b),
    decreases b.len(),
{
    if b.len() == 0 {
        assert(a + b =~= a);
        assert(ops_bytes(a) + ops_bytes(b) =~= ops_bytes(a));
    } else {
        assert((a + b).drop_last() =~= a + b.drop_last());
        lemma_ops_bytes_concat(a, b.drop_last());
        assert(ops_bytes(a) + ops_bytes(b.drop_last()) + op_bytes(b.last()) =~= ops_bytes(a) + (
        ops_bytes(b.drop_last()) + op_bytes(b.last())));
    }
}

proof fn lemma_ops_bytes_one(a: WasmOp)
    ensures
        ops_bytes(seq![a]) == op_bytes(a),
{
    assert(seq![a].drop_last() =~= Seq::<WasmOp>::empty());
    assert(ops_bytes(Seq::<WasmOp>::empty()) == Seq::<u8>::empty());
    assert(Seq::<u8>::empty() + op_bytes(a) =~= op_bytes(a));
}

proof fn lemma_ops_bytes_two(a: WasmOp, b: WasmOp)
    ensures
        ops_bytes(seq![a, b]) == op_bytes(a) + op_bytes(b),
{
    assert(seq![a, b].drop_last() =~= seq![a]);
    lemma_ops_bytes_one(a);
}

/// Once a prefix fails to lower, the whole sequence fails with its message.
proof fn lemma_code_ops_err(s: Seq<Instruction>, k: int)
    requires
        0 <= k <= s.len(),
        code_ops(s.subrange(0, k)) is Err,
    ensures
        code_ops(s) == code_ops(s.subrange(0, k)),
    decreases s.len() - k,
{
    if k < s.len() {
        let p = s.subrange(0, k + 1);
        assert(p.drop_last() =~= s.subrange(0, k));
        lemma_code_ops_err(s, k + 1);
    } else {
        assert(s.subrange(0, k) =~= s);
    }
}

/// Emit one instruction.
fn emit_op(f: &mut Function, op: WasmOp)
    ensures
        body_bytes(*final(f)) == body_bytes(*old(f)) + op_bytes(op),
{
    match op {
        WasmOp::I32Const(v) => {
            emit_i32_const(f, v);
            assert(body_bytes(*f) =~= body_bytes(*old(f)) + op_bytes(op));
        },
        WasmOp::I64Const(v) => {
            emit_i64_const(f, v);
            assert(body_bytes(*f) =~= body_bytes(*old(f)) + op_bytes(op));
        },
        WasmOp::Compare(c) => {
            emit_compare(f, c);
            assert(body_bytes(*f) =~= body_bytes(*old(f)) + op_bytes(op));
        },
        WasmOp::Plain(o) => {
            emit_plain(f, o);
            assert(body_bytes(*f) =~= body_bytes(*old(f)) + op_bytes(op));
        },
    }
}

fn pick(narrow: Compare, wide: Compare, top: ValType) -> (r: WasmOp)
    ensures
        seq![r] == cmp_op(narrow, wide, top),
{
    if let ValType::I64 = top {
        WasmOp::Compare(wide)
    } else {
        WasmOp::Compare(narrow)
    }
}

/// Track the operand stack's value types across one instruction.
fn track_types(ts: &mut Vec<ValType>, i: &Instruction)
    ensures
        final(ts)@ == type_step(old(ts)@, *i),
{
    let n = ts.len();
    match i {
        Instruction::PushInt(_) => ts.push(ValType::I64),
        Instruction::PushBool(_) | Instruction::PushString(_) | Instruction::Permit
        | Instruction::Forbid | Instruction::NoDecision => ts.push(ValType::I32),
        Instruction::Not | Instruction::HasAttribute(_) => {
            pop_n(ts, 1);
            ts.push(ValType::I32);
        },
        Instruction::GetAttribute(_) => {
            pop_n(ts, 1);
            ts.push(ValType::I64);
        },
        Instruction::IfThenElse => {
            let t = if n >= 3 {
                ts[n - 3]
            } else {
                ValType::I32
            };
            pop_n(ts, 3);
            ts.push(t);
        },
        Instruction::Return => pop_n(ts, 1),
        _ => {
            pop_n(ts, 2);
            ts.push(ValType::I32);
        },
    }
}

fn pop_n(ts: &mut Vec<ValType>, k: usize)
    ensures
        final(ts)@ == pop_types(old(ts)@, k as int),
{
    if ts.len() >= k {
        ts.truncate(ts.len() - k);
    } else {
        ts.clear();
    }
}

/// The value types of a list of representations.
fn val_types(ts: &Vec<WasmType>) -> (r: Vec<ValType>)
    ensures
        r@ == ts@.map_values(|t: WasmType| val_type_of(t)),
{
    let mut r: Vec<ValType> = Vec::new();
    let mut k: usize = 0;
    while k < ts.len()
        invariant
            k <= ts@.len(),
            r@ == ts@.subrange(0, k as int).map_values(|t: WasmType| val_type_of(t)),
        decreases ts@.len() - k,
    {
        r.push(ts[k].to_val_type());
        k = k + 1;
        assert(r@ =~= ts@.subrange(0, k as int).map_values(|t: WasmType| val_type_of(t)));
    }
    assert(ts@.subrange(0, k as int) =~= ts@);
    r
}

pub open spec fn pow128(k: nat) -> nat
    decreases k,
{
    if k == 0 {
        1
    } else {
        128 * pow128((k - 1) as nat)
    }
}

proof fn lemma_uleb128_len(n: nat, k: nat)
    requires
        k >= 1,
        n < pow128(k),
    ensures
        uleb128(n).len() <= k,
    decreases k,
{
    if n >= 128 {
        let b = pow128((k - 1) as nat);
        assert(n / 128 < b) by (nonlinear_arith)
            requires
                n < 128 * b,
                n >= 128,
        ;
        if k == 1 {
            assert(false);
        }
        lemma_uleb128_len(n / 128, (k - 1) as nat);
    }
}

/// Largest function body the generator emits: its size, and the code
/// section's, must fit a `u32`.
pub const MAX_BODY_LEN: usize = 0xFFFF_0000;

/// The module generated around a function body: one type `[] -> [i32]`, one
/// function of that type, one 32-bit unshared memory of 1 to 16 pages,
/// exports `evaluate` (function 0) and `memory` (memory 0), and the body.
pub open spec fn module_image(body: Seq<u8>) -> Seq<u8> {
    wasm_header() + section_bytes(1, (1u32, func_type_bytes(Seq::empty(), seq![ValType::I32])))
        + section_bytes(3, (1u32, uleb128(0))) + section_bytes(
        5,
        (1u32, memory_type_bytes(INITIAL_PAGES as u64, MAX_PAGES as u64, false, false, None)),
    ) + section_bytes(
        7,
        (
            2u32,
            export_bytes("evaluate"@, ExportTarget::Func, 0) + export_bytes(
                "memory"@,
                ExportTarget::Memory,
                0,
            ),
        ),
    ) + section_bytes(10, (1u32, uleb128(body.len()) + body))
}

/// The body of the entry function for some code: no locals, the code, `end`.
pub open spec fn function_body(ops: Seq<WasmOp>) -> Seq<u8> {
    seq![0x00u8] + ops_bytes(ops.push(WasmOp::Plain(PlainOp::End)))
}

/// The function returns, or falls off its end with exactly its i32 result
/// on the stack.
pub open spec fn end_ok(code: Seq<Instruction>) -> bool {
    !return_free(code) || types_after(code) == seq![ValType::I32]
}

/// The code type-checks as the body of a `[] -> [i32]` function: no
/// instruction follows a `Return`, each finds the operands it needs, and
/// the end is reached by returning or with one i32 left.
pub open spec fn well_typed(code: Seq<Instruction>) -> bool {
    &&& forall|k: int|
        0 <= k < code.len() ==> return_free(code.subrange(0, k)) && !operands_mismatch(
            #[trigger] code[k],
            types_after(code.subrange(0, k)),
        )
    &&& end_ok(code)
}

/// Code that lowers has every instruction's operands in place and nothing
/// after a `Return`.
proof fn lemma_code_ops_typed(s: Seq<Instruction>)
    requires
        code_ops(s) is Ok,
    ensures
        forall|k: int|
            0 <= k < s.len() ==> return_free(s.subrange(0, k)) && !operands_mismatch(
                #[trigger] s[k],
                types_after(s.subrange(0, k)),
            ),
    decreases s.len(),
{
    if s.len() > 0 {
        let p = s.drop_last();
        lemma_code_ops_typed(p);
        assert forall|k: int| 0 <= k < s.len() implies return_free(s.subrange(0, k))
            && !operands_mismatch(#[trigger] s[k], types_after(s.subrange(0, k))) by {
            assert(s.subrange(0, k) =~= p.subrange(0, k) || k == p.len());
            if k < p.len() {
                assert(s.subrange(0, k) =~= p.subrange(0, k));
                assert(s[k] == p[k]);
            } else {
                assert(s.subrange(0, k) =~= p);
            }
        }
    }
}

/// The module `generate` produces for some IR code, or its error.
pub open spec fn generated(code: Seq<Instruction>) -> Result<Seq<u8>, Seq<char>> {
    match code_ops(code) {
        Err(m) => Err(m),
        Ok(ops) => if !end_ok(code) {
            Err("Function does not end with one i32 value"@)
        } else if function_body(ops).len() <= MAX_BODY_LEN {
            Ok(module_image(function_body(ops)))
        } else {
            Err("Function body too large"@)
        },
    }
}

/// A result of `generate` against what `generated` says.
pub open spec fn generated_as(r: Result<Vec<u8>, String>, g: Result<Seq<u8>, Seq<char>>) -> bool {
    match g {
        Ok(bytes) => r matches Ok(b) && b@ == bytes,
        Err(msg) => r matches Err(e) && e@ == msg,
    }
}

proof fn lemma_ascii_len(s: Seq<char>)
    requires
        is_ascii_chars(s),
    ensures
        encode_utf8(s).len() == s.len(),
{
    is_ascii_chars_encode_utf8(s);
}

/// Code generation is a function of the IR alone: any two results that meet
/// `generate`'s contract for the same code are equal.
pub proof fn lemma_generate_deterministic(
    r1: Result<Vec<u8>, String>,
    r2: Result<Vec<u8>, String>,
    code: Seq<Instruction>,
)
    requires
        generated_as(r1, generated(code)),
        generated_as(r2, generated(code)),
    ensures
        r1 is Ok <==> r2 is Ok,
        r1 is Ok ==> r1->Ok_0@ == r2->Ok_0@,
        r1 is Err ==> r1->Err_0@ == r2->Err_0@,
{
}

/// WebAssembly code generator.
pub struct WasmCodeGen {}

impl WasmCodeGen {
    pub fn new() -> Self {
        WasmCodeGen {  }
    }

    /// Generate a complete module from the lowered IR: the header, then the
    /// type, function, memory, export and code sections (see `module_image`).
    pub fn generate(&mut self, lowered: &LoweredModule) -> (r: Result<Vec<u8>, String>)
        ensures
            generated_as(r, generated(module_code(*lowered))),
            r is Ok ==> well_typed(module_code(*lowered)),
            generated(module_code(*lowered)) is Ok ==> generated(module_code(*lowered))->Ok_0.subrange(
                0,
                8,
            ) == wasm_header(),
    {
        proof {
            if let Ok(b) = generated(module_code(*lowered)) {
                assert(b.subrange(0, 8) =~= wasm_header());
                lemma_code_ops_typed(module_code(*lowered));
            }
        }
        // The entry point's body.
        let body = match self.compile_function(&lowered.entry) {
            Ok(f) => f,
            Err(e) => {
                return Err(e);
            },
        };
        if body.byte_len() > MAX_BODY_LEN {
            proof {
                reveal_strlit("Function body too large");
            }
            return Err(String::from_str("Function body too large"));
        }
        let ghost body_seq = body_bytes(body);

        // 1. Type section: the entry point's signature.
        let mut types = TypeSection::new();
        let sig = FunctionSignature::policy_entry();
        let params = val_types(&sig.params);
        let results = val_types(&sig.results);
        assert(params@ =~= Seq::<ValType>::empty());
        assert(results@ =~= seq![ValType::I32]);
        add_function_type(&mut types, &params, &results);

        // 2. Function section: the entry point uses type 0.
        let mut functions = FunctionSection::new();
        add_function(&mut functions, 0);

        // 3. Memory section: linear memory for the string pool.
        let mut memories = MemorySection::new();
        add_memory(&mut memories, INITIAL_PAGES as u64, MAX_PAGES as u64, false, false, None);

        // 4. Export section: the entry point and the memory.
        proof {
            reveal_strlit("evaluate");
            reveal_strlit("memory");
            lemma_ascii_len("evaluate"@);
            lemma_ascii_len("memory"@);
        }
        let mut exports = ExportSection::new();
        add_export(&mut exports, "evaluate", ExportTarget::Func, 0);
        add_export(&mut exports, "memory", ExportTarget::Memory, 0);

        // 5. Code section: the entry point's body.
        let mut codes = CodeSection::new();
        add_code(&mut codes, &body);

        proof {
            reveal_with_fuel(pow128, 6);
            lemma_uleb128_len(body_seq.len(), 5);
            assert(Seq::<u8>::empty() + export_bytes("evaluate"@, ExportTarget::Func, 0)
                =~= export_bytes("evaluate"@, ExportTarget::Func, 0));
            assert(Seq::<u8>::empty() + func_type_bytes(params@, results@) =~= func_type_bytes(
                params@,
                results@,
            ));
            assert(Seq::<u8>::empty() + uleb128(0) =~= uleb128(0));
            assert(Seq::<u8>::empty() + memory_type_bytes(
                INITIAL_PAGES as u64,
                MAX_PAGES as u64,
                false,
                false,
                None,
            ) =~= memory_type_bytes(INITIAL_PAGES as u64, MAX_PAGES as u64, false, false, None));
            assert(Seq::<u8>::empty() + uleb128(body_seq.len()) + body_seq =~= uleb128(
                body_seq.len(),
            ) + body_seq);
        }
        let mut module = Module::new();
        push_type_section(&mut module, &types);
        push_function_section(&mut module, &functions);
        push_memory_section(&mut module, &memories);
        push_export_section(&mut module, &exports);
        push_code_section(&mut module, &codes);
        let bytes = module.finish();
        proof {
            assert(bytes@ =~= module_image(body_seq));
        }
        Ok(bytes)
    }

    /// Compile the entry function: its instructions, then `end`.
    fn compile_function(&self, func: &LoweredFunction) -> (r: Result<Function, String>)
        ensures
            match code_ops(func.instructions@) {
                Ok(ops) => if end_ok(func.instructions@) {
                    r matches Ok(f) && body_bytes(f) == function_body(ops)
                } else {
                    r matches Err(e) && e@ == "Function does not end with one i32 value"@
                },
                Err(msg) => r matches Err(e) && e@ == msg,
            },
    {
        let ghost s = func.instructions@;
        let mut f = new_function_body();
        let mut ts: Vec<ValType> = Vec::new();
        let n = func.instructions.len();
        let mut k: usize = 0;
        let mut returned = false;
        while k < n
            invariant
                n == s.len(),
                s == func.instructions@,
                k <= n,
                returned == !return_free(s.subrange(0, k as int)),
                ts@ == types_after(s.subrange(0, k as int)),
                code_ops(s.subrange(0, k as int)) is Ok,
                body_bytes(f) == seq![0x00u8] + ops_bytes(code_ops(s.subrange(0, k as int))->Ok_0),
            decreases n - k,
        {
            let inst = &func.instructions[k];
            let ghost p = s.subrange(0, k as int);
            let ghost p1 = s.subrange(0, k + 1);
            assert(p1.drop_last() =~= p);
            if returned {
                proof {
                    lemma_code_ops_err(s, k + 1);
                    reveal_strlit("Instruction after Return");
                }
                return Err(String::from_str("Instruction after Return"));
            }
            match self.compile_instruction(inst, &ts, &mut f) {
                Err(e) => {
                    proof {
                        lemma_code_ops_err(s, k + 1);
                    }
                    return Err(e);
                },
                Ok(()) => {},
            }
            proof {
                let o = code_ops(p)->Ok_0;
                let x = instruction_ops(s[k as int], ts@)->Ok_0;
                lemma_ops_bytes_concat(o, x);
                assert(body_bytes(f) =~= seq![0x00u8] + ops_bytes(o + x));
            }
            track_types(&mut ts, inst);
            proof {
                if s[k as int] is Return {
                    assert(p1[k as int] is Return);
                } else {
                    assert forall|j: int| 0 <= j < p1.len() implies !(#[trigger] p1[j] is Return)
                        <== return_free(p) by {
                        if j < k {
                            assert(p1[j] == p[j]);
                        }
                    }
                    assert forall|j: int| 0 <= j < p.len() implies !(#[trigger] p[j] is Return)
                        <== return_free(p1) by {
                        assert(p1[j] == p[j]);
                    }
                }
            }
            if let Instruction::Return = inst {
                returned = true;
            }
            k = k + 1;
        }
        proof {
            assert(s.subrange(0, k as int) =~= s);
        }
        if !returned {
            let ends_with_result = ts.len() == 1 && ts[0] == ValType::I32;
            proof {
                if ends_with_result {
                    assert(ts@ =~= seq![ValType::I32]);
                }
            }
            if !ends_with_result {
                proof {
                    reveal_strlit("Function does not end with one i32 value");
                }
                return Err(String::from_str("Function does not end with one i32 value"));
            }
        }
        emit_op(&mut f, WasmOp::Plain(PlainOp::End));
        proof {
            let o = code_ops(s)->Ok_0;
            let e = WasmOp::Plain(PlainOp::End);
            assert(o.push(e).drop_last() =~= o);
            assert(body_bytes(f) =~= seq![0x00u8] + ops_bytes(o.push(e)));
        }
        Ok(f)
    }

    /// Compile one IR instruction on the stack of types `ts`; on error,
    /// nothing is emitted.
    fn compile_instruction(&self, inst: &Instruction, ts: &Vec<ValType>, f: &mut Function) -> (r:
        Result<(), String>)
        ensures
            match instruction_ops(*inst, ts@) {
                Ok(ops) => r is Ok && body_bytes(*final(f)) == body_bytes(*old(f)) + ops_bytes(ops),
                Err(msg) => r matches Err(e) && e@ == msg && body_bytes(*final(f)) == body_bytes(
                    *old(f),
                ),
            },
    {
        let n = ts.len();
        let mismatch = match inst {
            Instruction::Equal | Instruction::NotEqual | Instruction::LessThan
            | Instruction::LessThanOrEqual | Instruction::GreaterThan
            | Instruction::GreaterThanOrEqual => n < 2 || ts[n - 2] != ts[n - 1],
            Instruction::And | Instruction::Or => n < 2 || ts[n - 2] != ValType::I32 || ts[n - 1]
                != ValType::I32,
            Instruction::Not => n < 1 || ts[n - 1] != ValType::I32,
            Instruction::IfThenElse => n < 3 || ts[n - 3] != ts[n - 2],
            Instruction::Return => n < 1 || ts[n - 1] != ValType::I32,
            _ => false,
        };
        if mismatch {
            proof {
                reveal_strlit("Operands do not fit ");
            }
            return Err(String::from_str("Operands do not fit ").concat(instruction_name_exec(inst)));
        }
        let top = if n > 0 {
            ts[n - 1]
        } else {
            ValType::I32
        };
        let op = match inst {
            Instruction::PushBool(b) => WasmOp::I32Const(if *b { 1 } else { 0 }),
            Instruction::PushInt(i) => WasmOp::I64Const(*i),
            // Strings are not pooled yet: a placeholder pointer.
            Instruction::PushString(_) => WasmOp::I32Const(0),
            Instruction::Equal => pick(Compare::I32Eq, Compare::I64Eq, top),
            Instruction::NotEqual => pick(Compare::I32Ne, Compare::I64Ne, top),
            Instruction::LessThan => pick(Compare::I32LtS, Compare::I64LtS, top),
            Instruction::LessThanOrEqual => pick(Compare::I32LeS, Compare::I64LeS, top),
            Instruction::GreaterThan => pick(Compare::I32GtS, Compare::I64GtS, top),
            Instruction::GreaterThanOrEqual => pick(Compare::I32GeS, Compare::I64GeS, top),
            Instruction::And => WasmOp::Plain(PlainOp::I32And),
            Instruction::Or => WasmOp::Plain(PlainOp::I32Or),
            Instruction::Not => WasmOp::Plain(PlainOp::I32Eqz),
            Instruction::IfThenElse => {
                // `select` needs an i32 condition.
                if let ValType::I64 = top {
                    let ghost b0 = body_bytes(*f);
                    emit_op(f, WasmOp::Plain(PlainOp::I32WrapI64));
                    emit_op(f, WasmOp::Plain(PlainOp::Select));
                    proof {
                        lemma_ops_bytes_two(
                            WasmOp::Plain(PlainOp::I32WrapI64),
                            WasmOp::Plain(PlainOp::Select),
                        );
                        assert(body_bytes(*f) =~= b0 + ops_bytes(
                            seq![WasmOp::Plain(PlainOp::I32WrapI64), WasmOp::Plain(PlainOp::Select)],
                        ));
                    }
                    return Ok(());
                }
                WasmOp::Plain(PlainOp::Select)
            },
            Instruction::Return => WasmOp::Plain(PlainOp::Return),
            Instruction::Permit => WasmOp::I32Const(Decision::Permit.code()),
            Instruction::Forbid => WasmOp::I32Const(Decision::Deny.code()),
            Instruction::NoDecision => WasmOp::I32Const(Decision::NoDecision.code()),
            // These need runtime imports; emitting anything else would be wrong.
            Instruction::GetAttribute(_) => {
                return Err(String::from_str("GetAttribute not yet implemented"));
            },
            Instruction::HasAttribute(_) => {
                return Err(String::from_str("HasAttribute not yet implemented"));
            },
            Instruction::In => {
                return Err(String::from_str("In operator not yet implemented"));
            },
        };
        assert(instruction_ops(*inst, ts@) == Ok::<Seq<WasmOp>, Seq<char>>(seq![op]));
        emit_op(f, op);
        proof {
            lemma_ops_bytes_one(op);
        }
        Ok(())
    }
}

fn instruction_name_exec(i: &Instruction) -> (r: &'static str)
    ensures
        r@ == instruction_name(*i),
{
    match i {
        Instruction::PushBool(_) => "PushBool",
        Instruction::PushInt(_) => "PushInt",
        Instruction::PushString(_) => "PushString",
        Instruction::Equal => "Equal",
        Instruction::NotEqual => "NotEqual",
        Instruction::LessThan => "LessThan",
        Instruction::LessThanOrEqual => "LessThanOrEqual",
        Instruction::GreaterThan => "GreaterThan",
        Instruction::GreaterThanOrEqual => "GreaterThanOrEqual",
        Instruction::And => "And",
        Instruction::Or => "Or",
        Instruction::Not => "Not",
        Instruction::GetAttribute(_) => "GetAttribute",
        Instruction::HasAttribute(_) => "HasAttribute",
        Instruction::In => "In",
        Instruction::IfThenElse => "IfThenElse",
        Instruction::Return => "Return",
        Instruction::Permit => "Permit",
        Instruction::Forbid => "Forbid",
        Instruction::NoDecision => "NoDecision",
    }
}

impl Default for WasmCodeGen {
    fn default() -> Self {
        Self::new()
    }
}

} // verus!
