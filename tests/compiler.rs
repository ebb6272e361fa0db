use cedar_policy_compiler::ast::expr::{BinaryOp, Effect, Expr, Literal, Policy, Template, UnaryOp, Var};
use cedar_policy_compiler::ast::lowering::LoweredModule;
use cedar_policy_compiler::wasm::codegen::WasmCodeGen;
use cedar_policy_compiler::{Compiler, CompilerError};
use wasmparser::{Operator, Parser, Payload};

/// Run the generated `evaluate` function; its code is straight-line.
fn evaluate(bytes: &[u8]) -> i64 {
    wasmparser::validate(bytes).unwrap();
    for payload in Parser::new(0).parse_all(bytes) {
        if let Payload::CodeSectionEntry(body) = payload.unwrap() {
            let mut ops = body.get_operators_reader().unwrap();
            let mut stack: Vec<i64> = Vec::new();
            while !ops.eof() {
                let op = ops.read().unwrap();
                let b = |v: bool| if v { 1 } else { 0 };
                match op {
                    Operator::I32Const { value } => stack.push(value as i64),
                    Operator::I64Const { value } => stack.push(value),
                    Operator::I32Eqz => {
                        let a = stack.pop().unwrap();
                        stack.push(b(a == 0));
                    }
                    Operator::I32WrapI64 => {
                        let a = stack.pop().unwrap();
                        stack.push(a as i32 as i64);
                    }
                    Operator::Select => {
                        let c = stack.pop().unwrap();
                        let y = stack.pop().unwrap();
                        let x = stack.pop().unwrap();
                        stack.push(if c != 0 { x } else { y });
                    }
                    Operator::Return | Operator::End => return stack.pop().unwrap(),
                    other => {
                        let y = stack.pop().unwrap();
                        let x = stack.pop().unwrap();
                        stack.push(match other {
                            Operator::I32And => x & y,
                            Operator::I32Or => x | y,
                            Operator::I32Eq | Operator::I64Eq => b(x == y),
                            Operator::I32Ne | Operator::I64Ne => b(x != y),
                            Operator::I32LtS | Operator::I64LtS => b(x < y),
                            Operator::I32LeS | Operator::I64LeS => b(x <= y),
                            Operator::I32GtS | Operator::I64GtS => b(x > y),
                            Operator::I32GeS | Operator::I64GeS => b(x >= y),
                            _ => panic!("unexpected operator"),
                        });
                    }
                }
            }
        }
    }
    panic!("no code");
}

fn policy(effect: Effect, condition: Expr) -> Policy {
    Policy { effect, condition }
}

fn lit_bool(b: bool) -> Expr {
    Expr::Lit(Literal::Bool(b))
}

fn lit_long(v: i64) -> Box<Expr> {
    Box::new(Expr::Lit(Literal::Long(v)))
}

#[test]
fn test_compiler_creation() {
    let compiler = Compiler::new();
    assert_eq!(compiler.opt_level(), 1);

    let compiler = Compiler::new().with_opt_level(2);
    assert_eq!(compiler.opt_level(), 2);

    let compiler = Compiler::new().with_opt_level(10);
    assert_eq!(compiler.opt_level(), 2); // Clamped to max
}

#[test]
fn test_basic_compilation() {
    let compiler = Compiler::new();
    let policy = r#"
            permit(principal, action, resource);
        "#;
    assert_eq!(compiler.opt_level(), 1);
    assert!(policy.contains("permit"));
}

#[test]
fn default_compiler_uses_level_one() {
    assert_eq!(Compiler::default().opt_level(), 1);
    assert_eq!(Compiler::new().with_opt_level(0).opt_level(), 0);
    assert_eq!(Compiler::new().with_opt_level(1).opt_level(), 1);
}

#[test]
fn permit_when_true_evaluates_to_permit() {
    for level in 0..=2 {
        let c = Compiler::new().with_opt_level(level);
        let bytes = c.compile_policy(&policy(Effect::Permit, lit_bool(true))).unwrap();
        assert_eq!(evaluate(&bytes), 1);
    }
}

#[test]
fn permit_when_false_evaluates_to_no_decision() {
    for level in 0..=2 {
        let c = Compiler::new().with_opt_level(level);
        let bytes = c.compile_policy(&policy(Effect::Permit, lit_bool(false))).unwrap();
        assert_eq!(evaluate(&bytes), -1);
    }
}

#[test]
fn forbid_when_true_evaluates_to_deny() {
    let c = Compiler::new();
    let bytes = c.compile_policy(&policy(Effect::Forbid, lit_bool(true))).unwrap();
    assert_eq!(evaluate(&bytes), 0);
}

#[test]
fn forbid_when_false_evaluates_to_no_decision() {
    let c = Compiler::new();
    let t = Template { effect: Effect::Forbid, condition: lit_bool(false) };
    let bytes = c.compile_template(&t).unwrap();
    assert_eq!(evaluate(&bytes), -1);
}

fn sample_condition(flip: bool) -> Expr {
    // !(!("a" == "a")) && (if 3 <= 2 then false else flip) || (principal == principal && !true)
    Expr::Or {
        left: Box::new(Expr::And {
            left: Box::new(Expr::UnaryApp {
                op: UnaryOp::Not,
                arg: Box::new(Expr::UnaryApp {
                    op: UnaryOp::Not,
                    arg: Box::new(Expr::BinaryApp {
                        op: BinaryOp::Eq,
                        arg1: Box::new(Expr::Lit(Literal::String("a".to_string()))),
                        arg2: Box::new(Expr::Lit(Literal::String("a".to_string()))),
                    }),
                }),
            }),
            right: Box::new(Expr::If {
                test_expr: Box::new(Expr::BinaryApp { op: BinaryOp::LessEq, arg1: lit_long(3), arg2: lit_long(2) }),
                then_expr: Box::new(lit_bool(false)),
                else_expr: Box::new(lit_bool(flip)),
            }),
        }),
        right: Box::new(Expr::And {
            left: Box::new(Expr::BinaryApp {
                op: BinaryOp::Eq,
                arg1: Box::new(Expr::Var(Var::Principal)),
                arg2: Box::new(Expr::Var(Var::Principal)),
            }),
            right: Box::new(Expr::UnaryApp { op: UnaryOp::Not, arg: Box::new(lit_bool(true)) }),
        }),
    }
}

#[test]
fn every_level_gives_the_same_decision() {
    for (flip, effect, expected) in [
        (true, Effect::Permit, 1),
        (false, Effect::Permit, -1),
        (true, Effect::Forbid, 0),
        (false, Effect::Forbid, -1),
    ] {
        let mut sizes = Vec::new();
        for level in 0..=2 {
            let c = Compiler::new().with_opt_level(level);
            let bytes = c.compile_policy(&policy(effect, sample_condition(flip))).unwrap();
            assert_eq!(evaluate(&bytes), expected);
            sizes.push(bytes.len());
        }
        assert!(sizes[1] < sizes[0]);
        assert!(sizes[2] < sizes[1]);
    }
}

#[test]
fn compile_reports_unsupported_operator() {
    let cond = Expr::BinaryApp { op: BinaryOp::Add, arg1: lit_long(1), arg2: lit_long(2) };
    let err = Compiler::new().compile_policy(&policy(Effect::Permit, cond)).unwrap_err();
    assert!(matches!(&err, CompilerError::CompilationError(m) if m == "Unsupported binary operator: Add"));
    assert_eq!(err.message(), "Compilation error: Unsupported binary operator: Add");
}

#[test]
fn compile_reports_attribute_access_as_wasm_error() {
    let cond = Expr::BinaryApp {
        op: BinaryOp::Eq,
        arg1: Box::new(Expr::GetAttr { expr: Box::new(Expr::Var(Var::Principal)), attr: "role".to_string() }),
        arg2: Box::new(Expr::Lit(Literal::String("admin".to_string()))),
    };
    let err = Compiler::new().compile_policy(&policy(Effect::Permit, cond)).unwrap_err();
    assert!(matches!(&err, CompilerError::WasmError(m) if m == "GetAttribute not yet implemented"));
    assert_eq!(err.message(), "WASM encoding error: GetAttribute not yet implemented");
}

#[test]
fn error_messages_name_their_stage() {
    assert_eq!(CompilerError::ParseError("x".to_string()).message(), "Parse error: x");
    assert_eq!(CompilerError::IoError("y".to_string()).message(), "IO error: y");
}

#[test]
fn compile_reports_mismatched_widths_as_wasm_error() {
    let cond = Expr::If {
        test_expr: Box::new(lit_bool(true)),
        then_expr: lit_long(1),
        else_expr: Box::new(lit_bool(false)),
    };
    let err = Compiler::new().compile_policy(&policy(Effect::Permit, cond)).unwrap_err();
    assert!(matches!(&err, CompilerError::WasmError(m) if m == "Operands do not fit IfThenElse"));
}

#[test]
fn compile_at_level_zero_matches_generate() {
    let p = policy(Effect::Forbid, sample_condition(true));
    let ir = LoweredModule::from_policy(&p).unwrap();
    let expected = WasmCodeGen::new().generate(&ir).unwrap();
    let bytes = Compiler::new().with_opt_level(0).compile_policy(&p).unwrap();
    assert_eq!(bytes, expected);
}
