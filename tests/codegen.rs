use cedar_policy_compiler::ast::lowering::{Instruction, LoweredFunction, LoweredModule};
use cedar_policy_compiler::wasm::codegen::WasmCodeGen;
use cedar_policy_compiler::wasm::runtime::Decision;
use cedar_policy_compiler::wasm::types::{FunctionSignature, ValType, WasmType};
use wasmparser::{ExternalKind, Parser, Payload};

fn generate(instructions: Vec<Instruction>) -> Result<Vec<u8>, String> {
    let mut codegen = WasmCodeGen::new();
    codegen.generate(&LoweredModule { entry: LoweredFunction { instructions } })
}

/// The body of the one function in the code section, after its locals.
fn code_body(bytes: &[u8]) -> Vec<u8> {
    for payload in Parser::new(0).parse_all(bytes) {
        if let Payload::CodeSectionEntry(body) = payload.unwrap() {
            let mut ops = body.get_operators_reader().unwrap();
            let start = ops.original_position();
            while !ops.eof() {
                ops.read().unwrap();
            }
            let end = ops.original_position();
            return bytes[start..end].to_vec();
        }
    }
    panic!("no code section");
}

#[test]
fn test_simple_permit_codegen() {
    let module = LoweredModule {
        entry: LoweredFunction { instructions: vec![Instruction::Permit, Instruction::Return] },
    };
    let mut codegen = WasmCodeGen::new();
    let result = codegen.generate(&module);
    assert!(result.is_ok());
    let wasm_bytes = result.unwrap();
    assert!(!wasm_bytes.is_empty());
    assert_eq!(&wasm_bytes[0..4], b"\0asm");
}

#[test]
fn test_boolean_logic_codegen() {
    let module = LoweredModule {
        entry: LoweredFunction {
            instructions: vec![
                Instruction::PushBool(true),
                Instruction::PushBool(false),
                Instruction::And,
                Instruction::Return,
            ],
        },
    };
    let mut codegen = WasmCodeGen::new();
    let result = codegen.generate(&module);
    assert!(result.is_ok());
}

#[test]
fn generated_module_is_well_formed() {
    let bytes = generate(vec![
        Instruction::Permit,
        Instruction::NoDecision,
        Instruction::PushBool(true),
        Instruction::IfThenElse,
        Instruction::Return,
    ])
    .unwrap();
    assert_eq!(&bytes[0..8], &[0x00, 0x61, 0x73, 0x6D, 0x01, 0x00, 0x00, 0x00]);
    // One type: no parameters, one i32 result.
    assert_eq!(&bytes[8..15], &[0x01, 0x05, 0x01, 0x60, 0x00, 0x01, 0x7F]);
    wasmparser::validate(&bytes).unwrap();
    let mut exports = Vec::new();
    let mut memories = Vec::new();
    for payload in Parser::new(0).parse_all(&bytes) {
        match payload.unwrap() {
            Payload::ExportSection(reader) => {
                for e in reader {
                    let e = e.unwrap();
                    exports.push((e.name.to_string(), e.kind, e.index));
                }
            }
            Payload::MemorySection(reader) => {
                for m in reader {
                    let m = m.unwrap();
                    memories.push((m.initial, m.maximum, m.memory64, m.shared));
                }
            }
            _ => {}
        }
    }
    assert_eq!(
        exports,
        vec![
            ("evaluate".to_string(), ExternalKind::Func, 0),
            ("memory".to_string(), ExternalKind::Memory, 0)
        ]
    );
    assert_eq!(memories, vec![(1, Some(16), false, false)]);
    assert_eq!(
        code_body(&bytes),
        vec![0x41, 0x01, 0x41, 0x7F, 0x41, 0x01, 0x1B, 0x0F, 0x0B]
    );
}

#[test]
fn codegen_rejects_get_attribute() {
    let r = generate(vec![
        Instruction::PushInt(1),
        Instruction::GetAttribute("role".to_string()),
        Instruction::Return,
    ]);
    assert_eq!(r, Err("GetAttribute not yet implemented".to_string()));
}

#[test]
fn codegen_rejects_has_attribute() {
    let r = generate(vec![Instruction::PushInt(1), Instruction::HasAttribute("role".to_string())]);
    assert_eq!(r, Err("HasAttribute not yet implemented".to_string()));
}

#[test]
fn codegen_rejects_membership() {
    let r = generate(vec![Instruction::PushInt(1), Instruction::PushInt(2), Instruction::In]);
    assert_eq!(r, Err("In operator not yet implemented".to_string()));
}

#[test]
fn codegen_reports_first_unsupported_instruction() {
    let r = generate(vec![
        Instruction::PushInt(1),
        Instruction::In,
        Instruction::GetAttribute("a".to_string()),
    ]);
    assert_eq!(r, Err("In operator not yet implemented".to_string()));
}

#[test]
fn codegen_compares_booleans_as_i32() {
    let bytes = generate(vec![
        Instruction::PushBool(true),
        Instruction::PushBool(false),
        Instruction::Equal,
        Instruction::Return,
    ])
    .unwrap();
    wasmparser::validate(&bytes).unwrap();
    assert_eq!(code_body(&bytes), vec![0x41, 0x01, 0x41, 0x00, 0x46, 0x0F, 0x0B]);
}

#[test]
fn codegen_compares_integers_as_i64() {
    let bytes = generate(vec![
        Instruction::PushInt(300),
        Instruction::PushInt(-2),
        Instruction::GreaterThanOrEqual,
        Instruction::Return,
    ])
    .unwrap();
    wasmparser::validate(&bytes).unwrap();
    assert_eq!(
        code_body(&bytes),
        vec![0x42, 0xAC, 0x02, 0x42, 0x7E, 0x59, 0x0F, 0x0B]
    );
}

#[test]
fn codegen_narrows_integer_condition() {
    let bytes = generate(vec![
        Instruction::Forbid,
        Instruction::NoDecision,
        Instruction::PushInt(1),
        Instruction::IfThenElse,
        Instruction::Return,
    ])
    .unwrap();
    wasmparser::validate(&bytes).unwrap();
    assert_eq!(
        code_body(&bytes),
        vec![0x41, 0x00, 0x41, 0x7F, 0x42, 0x01, 0xA7, 0x1B, 0x0F, 0x0B]
    );
}

#[test]
fn codegen_generates_again_from_same_generator() {
    let mut codegen = WasmCodeGen::new();
    let m = LoweredModule { entry: LoweredFunction { instructions: vec![Instruction::Permit, Instruction::Return] } };
    let first = codegen.generate(&m).unwrap();
    let second = codegen.generate(&m).unwrap();
    assert_eq!(first, second);
    wasmparser::validate(&second).unwrap();
}

#[test]
fn decision_codes() {
    assert_eq!(Decision::NoDecision.code(), -1);
    assert_eq!(Decision::Deny.code(), 0);
    assert_eq!(Decision::Permit.code(), 1);
    assert_eq!(Decision::Error.code(), 2);
}

#[test]
fn value_type_mapping() {
    assert_eq!(WasmType::Bool.to_val_type(), ValType::I32);
    assert_eq!(WasmType::Int.to_val_type(), ValType::I64);
    assert_eq!(WasmType::String.to_val_type(), ValType::I32);
    assert_eq!(WasmType::Entity.to_val_type(), ValType::I32);
}

#[test]
fn policy_entry_signature() {
    let sig = FunctionSignature::policy_entry();
    assert!(sig.params.is_empty());
    assert_eq!(sig.results, vec![WasmType::Bool]);
    let sig = FunctionSignature::new(vec![WasmType::Int], vec![WasmType::String, WasmType::Entity]);
    assert_eq!(sig.params, vec![WasmType::Int]);
    assert_eq!(sig.results, vec![WasmType::String, WasmType::Entity]);
}

#[test]
fn codegen_rejects_select_between_widths() {
    let r = generate(vec![
        Instruction::PushInt(1),
        Instruction::PushBool(false),
        Instruction::PushBool(true),
        Instruction::IfThenElse,
        Instruction::Return,
    ]);
    assert_eq!(r, Err("Operands do not fit IfThenElse".to_string()));
}

#[test]
fn codegen_rejects_comparison_between_widths() {
    let r = generate(vec![
        Instruction::PushInt(1),
        Instruction::PushString("x".to_string()),
        Instruction::Equal,
        Instruction::Return,
    ]);
    assert_eq!(r, Err("Operands do not fit Equal".to_string()));
    let r = generate(vec![Instruction::PushInt(1), Instruction::PushBool(true), Instruction::And]);
    assert_eq!(r, Err("Operands do not fit And".to_string()));
    let r = generate(vec![Instruction::PushInt(1), Instruction::Not]);
    assert_eq!(r, Err("Operands do not fit Not".to_string()));
}

#[test]
fn codegen_same_module_from_fresh_generators() {
    let m = LoweredModule {
        entry: LoweredFunction {
            instructions: vec![
                Instruction::PushInt(5),
                Instruction::PushInt(6),
                Instruction::LessThan,
                Instruction::Return,
            ],
        },
    };
    let a = WasmCodeGen::new().generate(&m).unwrap();
    let b = WasmCodeGen::default().generate(&m).unwrap();
    assert_eq!(a, b);
    let mut expected = vec![0x00, 0x61, 0x73, 0x6D, 0x01, 0x00, 0x00, 0x00];
    expected.extend([0x01, 0x05, 0x01, 0x60, 0x00, 0x01, 0x7F]);
    expected.extend([0x03, 0x02, 0x01, 0x00]);
    expected.extend([0x05, 0x04, 0x01, 0x01, 0x01, 0x10]);
    expected.extend([0x07, 0x15, 0x02, 0x08]);
    expected.extend(b"evaluate");
    expected.extend([0x00, 0x00, 0x06]);
    expected.extend(b"memory");
    expected.extend([0x02, 0x00]);
    expected.extend([0x0A, 0x0A, 0x01, 0x08, 0x00, 0x42, 0x05, 0x42, 0x06, 0x53, 0x0F, 0x0B]);
    assert_eq!(a, expected);
}

#[test]
fn codegen_rejects_return_of_an_integer() {
    assert_eq!(
        generate(vec![Instruction::PushInt(1), Instruction::Return]),
        Err("Operands do not fit Return".to_string())
    );
    let r = generate(vec![
        Instruction::PushInt(1),
        Instruction::PushInt(2),
        Instruction::PushBool(true),
        Instruction::IfThenElse,
        Instruction::Return,
    ]);
    assert_eq!(r, Err("Operands do not fit Return".to_string()));
}

#[test]
fn codegen_rejects_missing_operands() {
    assert_eq!(
        generate(vec![Instruction::Equal, Instruction::Return]),
        Err("Operands do not fit Equal".to_string())
    );
    assert_eq!(
        generate(vec![Instruction::PushBool(true), Instruction::IfThenElse]),
        Err("Operands do not fit IfThenElse".to_string())
    );
    assert_eq!(generate(vec![Instruction::Return]), Err("Operands do not fit Return".to_string()));
}

#[test]
fn codegen_rejects_wrong_final_stack() {
    let msg = Err("Function does not end with one i32 value".to_string());
    assert_eq!(generate(vec![Instruction::Permit, Instruction::Permit]), msg);
    assert_eq!(generate(vec![]), msg);
    assert_eq!(generate(vec![Instruction::PushInt(4)]), msg);
    let bytes = generate(vec![Instruction::Permit]).unwrap();
    wasmparser::validate(&bytes).unwrap();
}

#[test]
fn codegen_rejects_code_after_return() {
    let r = generate(vec![Instruction::Permit, Instruction::Return, Instruction::Permit]);
    assert_eq!(r, Err("Instruction after Return".to_string()));
}
