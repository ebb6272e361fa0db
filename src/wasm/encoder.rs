//! The calls into `wasm_encoder` that code generation makes, with what each
//! is relied on to do.
use vstd::prelude::*;
use vstd::utf8::encode_utf8;
use wasm_encoder::{
    CodeSection, ExportSection, Function, FunctionSection, Instruction, MemorySection, MemoryType,
    Module, TypeSection,
};
use crate::wasm::codegen::{compare_opcode, plain_opcode, Compare, PlainOp};
use crate::wasm::types::ValType;

verus! {

#[verifier::external_type_specification]
#[verifier::external_body]
pub struct ExModule(Module);

#[verifier::external_type_specification]
#[verifier::external_body]
pub struct ExFunction(Function);

#[verifier::external_type_specification]
#[verifier::external_body]
pub struct ExTypeSection(TypeSection);

#[verifier::external_type_specification]
#[verifier::external_body]
pub struct ExFunctionSection(FunctionSection);

#[verifier::external_type_specification]
#[verifier::external_body]
pub struct ExMemorySection(MemorySection);

#[verifier::external_type_specification]
#[verifier::external_body]
pub struct ExExportSection(ExportSection);

#[verifier::external_type_specification]
#[verifier::external_body]
pub struct ExCodeSection(CodeSection);

/// The bytes a module under construction holds.
pub uninterp spec fn module_bytes(m: Module) -> Seq<u8>;

/// The bytes of a function body under construction (locals, then code).
pub uninterp spec fn body_bytes(f: Function) -> Seq<u8>;

/// What a type section holds: its entry count and its entries' bytes.
pub uninterp spec fn type_section_held(s: TypeSection) -> (u32, Seq<u8>);

/// What a function section holds: its entry count and its entries' bytes.
pub uninterp spec fn function_section_held(s: FunctionSection) -> (u32, Seq<u8>);

/// What a memory section holds: its entry count and its entries' bytes.
pub uninterp spec fn memory_section_held(s: MemorySection) -> (u32, Seq<u8>);

/// What an export section holds: its entry count and its entries' bytes.
pub uninterp spec fn export_section_held(s: ExportSection) -> (u32, Seq<u8>);

/// What a code section holds: its entry count and its entries' bytes.
pub uninterp spec fn code_section_held(s: CodeSection) -> (u32, Seq<u8>);

/// Unsigned LEB128: seven bits per byte, low bits first, the high bit set
/// on every byte but the last.
pub open spec fn uleb128(n: nat) -> Seq<u8>
    decreases n,
{
    if n < 128 {
        seq![n as u8]
    } else {
        seq![(n % 128 + 128) as u8] + uleb128(n / 128)
    }
}

/// Signed LEB128: as unsigned, but it stops once the rest is all sign bits
/// and bit 6 of the last byte carries the sign.
pub open spec fn sleb128(v: int) -> Seq<u8>
    decreases (if v < 0 {
        -v
    } else {
        v
    }),
{
    if -64 <= v < 64 {
        seq![(v % 128) as u8]
    } else {
        seq![(v % 128 + 128) as u8] + sleb128(v / 128)
    }
}

/// The 8-byte header of every core module: magic `\0asm`, version 1.
pub open spec fn wasm_header() -> Seq<u8> {
    seq![0x00u8, 0x61u8, 0x73u8, 0x6Du8, 0x01u8, 0x00u8, 0x00u8, 0x00u8]
}

/// A section as a module holds it: id, byte size, entry count, entries.
pub open spec fn section_bytes(id: u8, held: (u32, Seq<u8>)) -> Seq<u8> {
    seq![id] + uleb128((uleb128(held.0 as nat).len() + held.1.len()) as nat) + uleb128(
        held.0 as nat,
    ) + held.1
}

/// The section's size fits the `u32` it is written as.
pub open spec fn section_fits(held: (u32, Seq<u8>)) -> bool {
    uleb128(held.0 as nat).len() + held.1.len() <= u32::MAX
}

pub open spec fn val_type_byte(t: ValType) -> u8 {
    match t {
        ValType::I32 => 0x7F,
        ValType::I64 => 0x7E,
    }
}

pub open spec fn val_types_bytes(ts: Seq<ValType>) -> Seq<u8> {
    ts.map_values(|t: ValType| val_type_byte(t))
}

/// A function type entry.
pub open spec fn func_type_bytes(params: Seq<ValType>, results: Seq<ValType>) -> Seq<u8> {
    seq![0x60u8] + uleb128(params.len()) + val_types_bytes(params) + uleb128(results.len())
        + val_types_bytes(results)
}

/// A memory entry: flags (maximum present, shared, 64-bit, page size
/// given), minimum, maximum, page size.
pub open spec fn memory_type_bytes(
    minimum: u64,
    maximum: u64,
    memory64: bool,
    shared: bool,
    page_size_log2: Option<u32>,
) -> Seq<u8> {
    let flags: u8 = (1 + (if shared {
        2int
    } else {
        0
    }) + (if memory64 {
        4int
    } else {
        0
    }) + (if page_size_log2 is Some {
        8int
    } else {
        0
    })) as u8;
    seq![flags] + uleb128(minimum as nat) + uleb128(maximum as nat) + match page_size_log2 {
        Some(p) => uleb128(p as nat),
        None => Seq::empty(),
    }
}

/// What an export names.
#[derive(Debug, Clone, Copy, PartialEq, Eq, Structural)]
pub enum ExportTarget {
    Func,
    Memory,
}

pub open spec fn export_kind_byte(t: ExportTarget) -> u8 {
    match t {
        ExportTarget::Func => 0x00,
        ExportTarget::Memory => 0x02,
    }
}

/// An export entry: name (length, UTF-8), kind, index.
pub open spec fn export_bytes(name: Seq<char>, target: ExportTarget, index: u32) -> Seq<u8> {
    uleb128(encode_utf8(name).len()) + encode_utf8(name) + seq![export_kind_byte(target)]
        + uleb128(index as nat)
}

/// Relies on `Module::new`: a new module holds just the header.
pub assume_specification[ Module::new ]() -> (r: Module)
    ensures
        module_bytes(r) == wasm_header(),
;

/// Relies on `Module::finish`: it hands back the bytes written so far.
pub assume_specification[ Module::finish ](m: Module) -> (r: Vec<u8>)
    ensures
        r@ == module_bytes(m),
;

/// Relies on `TypeSection::new`: empty.
pub assume_specification[ TypeSection::new ]() -> (r: TypeSection)
    ensures
        type_section_held(r) == (0u32, Seq::<u8>::empty()),
;

/// Relies on `FunctionSection::new`: empty.
pub assume_specification[ FunctionSection::new ]() -> (r: FunctionSection)
    ensures
        function_section_held(r) == (0u32, Seq::<u8>::empty()),
;

/// Relies on `MemorySection::new`: empty.
pub assume_specification[ MemorySection::new ]() -> (r: MemorySection)
    ensures
        memory_section_held(r) == (0u32, Seq::<u8>::empty()),
;

/// Relies on `ExportSection::new`: empty.
pub assume_specification[ ExportSection::new ]() -> (r: ExportSection)
    ensures
        export_section_held(r) == (0u32, Seq::<u8>::empty()),
;

/// Relies on `CodeSection::new`: empty.
pub assume_specification[ CodeSection::new ]() -> (r: CodeSection)
    ensures
        code_section_held(r) == (0u32, Seq::<u8>::empty()),
;

/// Relies on `Function::byte_len`: the length of the body written so far.
pub assume_specification[ Function::byte_len ](f: &Function) -> (r: usize)
    ensures
        r == body_bytes(*f).len(),
;

/// Relies on `Module::section` for a type section: id 1, then the section.
#[verifier::external_body]
pub(crate) fn push_type_section(m: &mut Module, s: &TypeSection)
    requires
        section_fits(type_section_held(*s)),
    ensures
        module_bytes(*final(m)) == module_bytes(*old(m)) + section_bytes(1, type_section_held(*s)),
{
    m.section(s);
}

/// Relies on `Module::section` for a function section: id 3, then the
/// section.
#[verifier::external_body]
pub(crate) fn push_function_section(m: &mut Module, s: &FunctionSection)
    requires
        section_fits(function_section_held(*s)),
    ensures
        module_bytes(*final(m)) == module_bytes(*old(m)) + section_bytes(
            3,
            function_section_held(*s),
        ),
{
    m.section(s);
}

/// Relies on `Module::section` for a memory section: id 5, then the section.
#[verifier::external_body]
pub(crate) fn push_memory_section(m: &mut Module, s: &MemorySection)
    requires
        section_fits(memory_section_held(*s)),
    ensures
        module_bytes(*final(m)) == module_bytes(*old(m)) + section_bytes(
            5,
            memory_section_held(*s),
        ),
{
    m.section(s);
}

/// Relies on `Module::section` for an export section: id 7, then the
/// section.
#[verifier::external_body]
pub(crate) fn push_export_section(m: &mut Module, s: &ExportSection)
    requires
        section_fits(export_section_held(*s)),
    ensures
        module_bytes(*final(m)) == module_bytes(*old(m)) + section_bytes(
            7,
            export_section_held(*s),
        ),
{
    m.section(s);
}

/// Relies on `Module::section` for a code section: id 10, then the section.
#[verifier::external_body]
pub(crate) fn push_code_section(m: &mut Module, s: &CodeSection)
    requires
        section_fits(code_section_held(*s)),
    ensures
        module_bytes(*final(m)) == module_bytes(*old(m)) + section_bytes(10, code_section_held(*s)),
{
    m.section(s);
}

/// Relies on `TypeSection::ty().function`: adds one function type entry.
#[verifier::external_body]
pub(crate) fn add_function_type(s: &mut TypeSection, params: &Vec<ValType>, results: &Vec<ValType>)
    requires
        type_section_held(*old(s)).0 < u32::MAX,
        params@.len() <= u32::MAX,
        results@.len() <= u32::MAX,
    ensures
        type_section_held(*final(s)) == (
            (type_section_held(*old(s)).0 + 1) as u32,
            type_section_held(*old(s)).1 + func_type_bytes(params@, results@),
        ),
{
    let conv = |v: &ValType| match v {
        ValType::I32 => wasm_encoder::ValType::I32,
        ValType::I64 => wasm_encoder::ValType::I64,
    };
    s.ty().function(params.iter().map(conv), results.iter().map(conv));
}

/// Relies on `FunctionSection::function`: adds the function's type index.
#[verifier::external_body]
pub(crate) fn add_function(s: &mut FunctionSection, type_index: u32)
    requires
        function_section_held(*old(s)).0 < u32::MAX,
    ensures
        function_section_held(*final(s)) == (
            (function_section_held(*old(s)).0 + 1) as u32,
            function_section_held(*old(s)).1 + uleb128(type_index as nat),
        ),
{
    s.function(type_index);
}

/// Relies on `MemorySection::memory`: adds one memory entry.
#[verifier::external_body]
pub(crate) fn add_memory(
    s: &mut MemorySection,
    minimum: u64,
    maximum: u64,
    memory64: bool,
    shared: bool,
    page_size_log2: Option<u32>,
)
    requires
        memory_section_held(*old(s)).0 < u32::MAX,
    ensures
        memory_section_held(*final(s)) == (
            (memory_section_held(*old(s)).0 + 1) as u32,
            memory_section_held(*old(s)).1 + memory_type_bytes(
                minimum,
                maximum,
                memory64,
                shared,
                page_size_log2,
            ),
        ),
{
    s.memory(MemoryType { minimum, maximum: Some(maximum), memory64, shared, page_size_log2 });
}

/// Relies on `ExportSection::export`: adds one export entry.
#[verifier::external_body]
pub(crate) fn add_export(s: &mut ExportSection, name: &str, target: ExportTarget, index: u32)
    requires
        export_section_held(*old(s)).0 < u32::MAX,
        encode_utf8(name@).len() <= u32::MAX,
    ensures
        export_section_held(*final(s)) == (
            (export_section_held(*old(s)).0 + 1) as u32,
            export_section_held(*old(s)).1 + export_bytes(name@, target, index),
        ),
{
    let kind = match target {
        ExportTarget::Func => wasm_encoder::ExportKind::Func,
        ExportTarget::Memory => wasm_encoder::ExportKind::Memory,
    };
    s.export(name, kind, index);
}

/// Relies on `CodeSection::function`: adds the body, prefixed by its size.
#[verifier::external_body]
pub(crate) fn add_code(s: &mut CodeSection, f: &Function)
    requires
        code_section_held(*old(s)).0 < u32::MAX,
        body_bytes(*f).len() <= u32::MAX,
    ensures
        code_section_held(*final(s)) == (
            (code_section_held(*old(s)).0 + 1) as u32,
            code_section_held(*old(s)).1 + uleb128(body_bytes(*f).len()) + body_bytes(*f),
        ),
{
    s.function(f);
}

/// Relies on `Function::new` with no locals: the body starts with a zero
/// count of local declarations.
#[verifier::external_body]
pub(crate) fn new_function_body() -> (r: Function)
    ensures
        body_bytes(r) == seq![0x00u8],
{
    Function::new(Vec::<(u32, wasm_encoder::ValType)>::new())
}

/// Relies on `Function::instruction` with `I32Const`: opcode 0x41, then the
/// value in signed LEB128 (written as an `i64`).
#[verifier::external_body]
pub(crate) fn emit_i32_const(f: &mut Function, v: i32)
    ensures
        body_bytes(*final(f)) == body_bytes(*old(f)) + seq![0x41u8] + sleb128(v as int),
{
    f.instruction(&Instruction::I32Const(v));
}

/// Relies on `Function::instruction` with `I64Const`: opcode 0x42, then the
/// value in signed LEB128.
#[verifier::external_body]
pub(crate) fn emit_i64_const(f: &mut Function, v: i64)
    ensures
        body_bytes(*final(f)) == body_bytes(*old(f)) + seq![0x42u8] + sleb128(v as int),
{
    f.instruction(&Instruction::I64Const(v));
}

/// Relies on `Function::instruction` with a comparison: one opcode byte.
#[verifier::external_body]
pub(crate) fn emit_compare(f: &mut Function, c: Compare)
    ensures
        body_bytes(*final(f)) == body_bytes(*old(f)).push(compare_opcode(c)),
{
    f.instruction(&match c {
        Compare::I32Eq => Instruction::I32Eq,
        Compare::I32Ne => Instruction::I32Ne,
        Compare::I32LtS => Instruction::I32LtS,
        Compare::I32LeS => Instruction::I32LeS,
        Compare::I32GtS => Instruction::I32GtS,
        Compare::I32GeS => Instruction::I32GeS,
        Compare::I64Eq => Instruction::I64Eq,
        Compare::I64Ne => Instruction::I64Ne,
        Compare::I64LtS => Instruction::I64LtS,
        Compare::I64LeS => Instruction::I64LeS,
        Compare::I64GtS => Instruction::I64GtS,
        Compare::I64GeS => Instruction::I64GeS,
    });
}

/// Relies on `Function::instruction` with an operator without immediates:
/// one opcode byte.
#[verifier::external_body]
pub(crate) fn emit_plain(f: &mut Function, o: PlainOp)
    ensures
        body_bytes(*final(f)) == body_bytes(*old(f)).push(plain_opcode(o)),
{
    f.instruction(&match o {
        PlainOp::I32And => Instruction::I32And,
        PlainOp::I32Or => Instruction::I32Or,
        PlainOp::I32Eqz => Instruction::I32Eqz,
        PlainOp::I32WrapI64 => Instruction::I32WrapI64,
        PlainOp::Select => Instruction::Select,
        PlainOp::Return => Instruction::Return,
        PlainOp::End => Instruction::End,
    });
}

} // verus!
