use cedar_policy_compiler::ast::expr::{BinaryOp, Effect, Expr, Literal, Policy, Template, UnaryOp, Var};
use cedar_policy_compiler::ast::lowering::{Instruction, LoweredModule};

fn lit_bool(b: bool) -> Box<Expr> {
    Box::new(Expr::Lit(Literal::Bool(b)))
}

fn lit_long(v: i64) -> Box<Expr> {
    Box::new(Expr::Lit(Literal::Long(v)))
}

fn lower(effect: Effect, condition: Expr) -> Result<Vec<Instruction>, String> {
    LoweredModule::from_policy(&Policy { effect, condition }).map(|m| m.entry.instructions)
}

#[test]
fn test_lowering_simple_permit() {
    let instructions = vec![
        Instruction::PushBool(true),
        Instruction::Permit,
        Instruction::Return,
    ];
    assert_eq!(instructions.len(), 3);
}

#[test]
fn lowering_permit_when_true() {
    let code = lower(Effect::Permit, Expr::Lit(Literal::Bool(true))).unwrap();
    assert_eq!(
        code,
        vec![
            Instruction::Permit,
            Instruction::NoDecision,
            Instruction::PushBool(true),
            Instruction::IfThenElse,
            Instruction::Return,
        ]
    );
}

#[test]
fn lowering_forbid_when_false() {
    let code = lower(Effect::Forbid, Expr::Lit(Literal::Bool(false))).unwrap();
    assert_eq!(
        code,
        vec![
            Instruction::Forbid,
            Instruction::NoDecision,
            Instruction::PushBool(false),
            Instruction::IfThenElse,
            Instruction::Return,
        ]
    );
}

#[test]
fn lowering_template_matches_policy() {
    let t = Template {
        effect: Effect::Permit,
        condition: Expr::And { left: lit_bool(true), right: lit_bool(false) },
    };
    let code = LoweredModule::from_template(&t).unwrap().entry.instructions;
    assert_eq!(
        code,
        vec![
            Instruction::Permit,
            Instruction::NoDecision,
            Instruction::PushBool(true),
            Instruction::PushBool(false),
            Instruction::And,
            Instruction::IfThenElse,
            Instruction::Return,
        ]
    );
}

#[test]
fn lowering_rejects_addition() {
    let cond = Expr::BinaryApp { op: BinaryOp::Add, arg1: lit_long(1), arg2: lit_long(2) };
    assert_eq!(lower(Effect::Permit, cond), Err("Unsupported binary operator: Add".to_string()));
}

#[test]
fn lowering_rejects_every_unsupported_binary_operator() {
    let ops = [
        (BinaryOp::Sub, "Sub"),
        (BinaryOp::Mul, "Mul"),
        (BinaryOp::Contains, "Contains"),
        (BinaryOp::ContainsAll, "ContainsAll"),
        (BinaryOp::ContainsAny, "ContainsAny"),
        (BinaryOp::GetTag, "GetTag"),
        (BinaryOp::HasTag, "HasTag"),
    ];
    for (op, name) in ops {
        let cond = Expr::BinaryApp { op, arg1: lit_long(1), arg2: lit_long(2) };
        assert_eq!(
            lower(Effect::Forbid, cond),
            Err(format!("Unsupported binary operator: {}", name))
        );
    }
}

#[test]
fn lowering_rejects_negation() {
    let cond = Expr::UnaryApp { op: UnaryOp::Neg, arg: lit_long(1) };
    assert_eq!(lower(Effect::Permit, cond), Err("Unsupported unary operator: Neg".to_string()));
    let cond = Expr::UnaryApp { op: UnaryOp::IsEmpty, arg: lit_long(1) };
    assert_eq!(lower(Effect::Permit, cond), Err("Unsupported unary operator: IsEmpty".to_string()));
}

#[test]
fn lowering_rejects_other_forms() {
    let cond = Expr::Or { left: lit_bool(true), right: Box::new(Expr::Other("Set".to_string())) };
    assert_eq!(
        lower(Effect::Permit, cond),
        Err("Expression type not yet supported in compiler: Set".to_string())
    );
}

#[test]
fn lowering_reports_first_unsupported_construct() {
    let cond = Expr::BinaryApp {
        op: BinaryOp::Mul,
        arg1: Box::new(Expr::Other("Like".to_string())),
        arg2: lit_long(2),
    };
    assert_eq!(
        lower(Effect::Permit, cond),
        Err("Expression type not yet supported in compiler: Like".to_string())
    );
}

#[test]
fn lowering_supported_operators() {
    let cond = Expr::And {
        left: Box::new(Expr::BinaryApp { op: BinaryOp::Less, arg1: lit_long(1), arg2: lit_long(2) }),
        right: Box::new(Expr::UnaryApp {
            op: UnaryOp::Not,
            arg: Box::new(Expr::BinaryApp {
                op: BinaryOp::LessEq,
                arg1: lit_long(3),
                arg2: lit_long(4),
            }),
        }),
    };
    let code = lower(Effect::Permit, cond).unwrap();
    assert_eq!(
        code[2..9].to_vec(),
        vec![
            Instruction::PushInt(1),
            Instruction::PushInt(2),
            Instruction::LessThan,
            Instruction::PushInt(3),
            Instruction::PushInt(4),
            Instruction::LessThanOrEqual,
            Instruction::Not,
        ]
    );
    assert_eq!(code[9], Instruction::And);
}

#[test]
fn lowering_if_pushes_branches_then_test() {
    let cond = Expr::If { test_expr: lit_bool(true), then_expr: lit_bool(false), else_expr: lit_bool(true) };
    let code = lower(Effect::Permit, cond).unwrap();
    assert_eq!(
        code,
        vec![
            Instruction::Permit,
            Instruction::NoDecision,
            Instruction::PushBool(false),
            Instruction::PushBool(true),
            Instruction::PushBool(true),
            Instruction::IfThenElse,
            Instruction::IfThenElse,
            Instruction::Return,
        ]
    );
}

#[test]
fn lowering_variables_and_attributes() {
    let cond = Expr::Or {
        left: Box::new(Expr::BinaryApp {
            op: BinaryOp::Eq,
            arg1: Box::new(Expr::GetAttr { expr: Box::new(Expr::Var(Var::Principal)), attr: "role".to_string() }),
            arg2: Box::new(Expr::Lit(Literal::String("admin".to_string()))),
        }),
        right: Box::new(Expr::BinaryApp {
            op: BinaryOp::In,
            arg1: Box::new(Expr::Var(Var::Action)),
            arg2: Box::new(Expr::HasAttr { expr: Box::new(Expr::Var(Var::Resource)), attr: "owner".to_string() }),
        }),
    };
    let code = lower(Effect::Permit, Expr::And { left: Box::new(cond), right: Box::new(Expr::Var(Var::Context)) }).unwrap();
    assert_eq!(
        code[2..14].to_vec(),
        vec![
            Instruction::PushInt(1),
            Instruction::GetAttribute("role".to_string()),
            Instruction::PushString("admin".to_string()),
            Instruction::Equal,
            Instruction::PushInt(2),
            Instruction::PushInt(3),
            Instruction::HasAttribute("owner".to_string()),
            Instruction::In,
            Instruction::Or,
            Instruction::PushInt(0),
            Instruction::And,
            Instruction::IfThenElse,
        ]
    );
}

#[test]
fn lowering_entity_uids_hash_by_text() {
    let uid = |s: &str| Expr::Lit(Literal::EntityUID(s.to_string()));
    let push = |e: Expr| lower(Effect::Permit, e).unwrap()[2].clone();
    let alice = push(uid("User::\"alice\""));
    let alice_again = push(uid("User::\"alice\""));
    let bob = push(uid("User::\"bob\""));
    assert_eq!(alice, alice_again);
    assert_ne!(alice, bob);
    assert!(matches!(alice, Instruction::PushInt(_)));
}

#[test]
fn lowering_if_reports_the_test_first() {
    let cond = Expr::If {
        test_expr: Box::new(Expr::BinaryApp { op: BinaryOp::Sub, arg1: lit_long(1), arg2: lit_long(2) }),
        then_expr: Box::new(Expr::BinaryApp { op: BinaryOp::Mul, arg1: lit_long(1), arg2: lit_long(2) }),
        else_expr: lit_bool(true),
    };
    assert_eq!(lower(Effect::Permit, cond), Err("Unsupported binary operator: Sub".to_string()));
    let cond = Expr::If {
        test_expr: lit_bool(true),
        then_expr: Box::new(Expr::Other("Is".to_string())),
        else_expr: Box::new(Expr::UnaryApp { op: UnaryOp::Neg, arg: lit_long(1) }),
    };
    assert_eq!(
        lower(Effect::Permit, cond),
        Err("Expression type not yet supported in compiler: Is".to_string())
    );
}
