//! Lowering of a policy's condition to the stack IR.
use vstd::prelude::*;
use vstd::string::*;
use std::hash::{Hash, Hasher};
use crate::ast::expr::{
    binary_op_name, unary_op_name, BinaryOp, Effect, Expr, Literal, Policy, Template, UnaryOp, Var,
};
use crate::ast::semantics::{exec, run, step, lemma_exec_concat, Env, Outcome, Value};
use crate::wasm::runtime::Decision;

verus! {

/// A compiled policy: one entry function.
#[derive(Debug, Clone)]
pub struct LoweredModule {
    /// Entry point function that evaluates the policy.
    pub entry: LoweredFunction,
}

#[derive(Debug, Clone)]
pub struct LoweredFunction {
    /// Function body as a sequence of instructions.
    pub instructions: Vec<Instruction>,
}

/// Stack IR instructions.
#[derive(Debug, Clone, PartialEq, Eq)]
pub enum Instruction {
    // Literals
    PushBool(bool),
    PushInt(i64),
    PushString(String),
    // Comparison operations
    Equal,
    NotEqual,
    LessThan,
    LessThanOrEqual,
    GreaterThan,
    GreaterThanOrEqual,
    // Logical operations
    And,
    Or,
    Not,
    // Entity/attribute operations
    GetAttribute(String),
    HasAttribute(String),
    In,
    // Control flow
    IfThenElse,
    Return,
    // Policy decision
    Permit,
    Forbid,
    NoDecision,
}

/// Stand-in integer for an entity identifier, from its canonical text.
pub uninterp spec fn entity_uid_hash(s: Seq<char>) -> i64;

/// Relies on std's `DefaultHasher`: `DefaultHasher::new` gives the same
/// hasher every time, so the result depends on the text alone.
#[verifier::external_body]
fn hash_entity_uid(s: &String) -> (r: i64)
    ensures
        r == entity_uid_hash(s@),
{
    let mut hasher = std::collections::hash_map::DefaultHasher::new();
    s.hash(&mut hasher);
    hasher.finish() as i64
}

/// Placeholder integer pushed for a request variable.
pub open spec fn var_placeholder(v: Var) -> i64 {
    match v {
        Var::Principal => 1,
        Var::Action => 2,
        Var::Resource => 3,
        Var::Context => 0,
    }
}

pub open spec fn literal_instruction(l: Literal) -> Instruction {
    match l {
        Literal::Bool(b) => Instruction::PushBool(b),
        Literal::Long(i) => Instruction::PushInt(i),
        Literal::String(s) => Instruction::PushString(s),
        Literal::EntityUID(s) => Instruction::PushInt(entity_uid_hash(s@)),
    }
}

/// The instruction for a binary operator, or the error naming it.
pub open spec fn binary_instruction(op: BinaryOp) -> Result<Instruction, Seq<char>> {
    match op {
        BinaryOp::Eq => Ok(Instruction::Equal),
        BinaryOp::In => Ok(Instruction::In),
        BinaryOp::Less => Ok(Instruction::LessThan),
        BinaryOp::LessEq => Ok(Instruction::LessThanOrEqual),
        _ => Err("Unsupported binary operator: "@ + binary_op_name(op)),
    }
}

pub open spec fn unary_instruction(op: UnaryOp) -> Result<Instruction, Seq<char>> {
    match op {
        UnaryOp::Not => Ok(Instruction::Not),
        _ => Err("Unsupported unary operator: "@ + unary_op_name(op)),
    }
}

/// Two pieces of code one after the other; the first error wins.
pub open spec fn join(
    a: Result<Seq<Instruction>, Seq<char>>,
    b: Result<Seq<Instruction>, Seq<char>>,
) -> Result<Seq<Instruction>, Seq<char>> {
    match a {
        Err(m) => Err(m),
        Ok(ca) => match b {
            Err(m) => Err(m),
            Ok(cb) => Ok(ca + cb),
        },
    }
}

/// Operand code followed by an operator; the first error wins.
pub open spec fn then_op(
    a: Result<Seq<Instruction>, Seq<char>>,
    op: Result<Instruction, Seq<char>>,
) -> Result<Seq<Instruction>, Seq<char>> {
    match a {
        Err(m) => Err(m),
        Ok(ca) => match op {
            Err(m) => Err(m),
            Ok(i) => Ok(ca.push(i)),
        },
    }
}

/// The IR code of an expression, or the message naming the first
/// unsupported construct in evaluation order.
///
/// Every operand is lowered and left on the stack; `and`, `or` and `if` do
/// not short-circuit. For `if`, the test is lowered first (its errors come
/// first), but its code is placed after the then- and else-branches, which is
/// the order in which `IfThenElse` pops them.
pub open spec fn lower_expr(e: Expr) -> Result<Seq<Instruction>, Seq<char>>
    decreases e,
{
    match e {
        Expr::Lit(l) => Ok(seq![literal_instruction(l)]),
        Expr::BinaryApp { op, arg1, arg2 } => then_op(
            join(lower_expr(*arg1), lower_expr(*arg2)),
            binary_instruction(op),
        ),
        Expr::UnaryApp { op, arg } => then_op(lower_expr(*arg), unary_instruction(op)),
        Expr::And { left, right } => then_op(
            join(lower_expr(*left), lower_expr(*right)),
            Ok(Instruction::And),
        ),
        Expr::Or { left, right } => then_op(
            join(lower_expr(*left), lower_expr(*right)),
            Ok(Instruction::Or),
        ),
        Expr::GetAttr { expr, attr } => then_op(
            lower_expr(*expr),
            Ok(Instruction::GetAttribute(attr)),
        ),
        Expr::HasAttr { expr, attr } => then_op(
            lower_expr(*expr),
            Ok(Instruction::HasAttribute(attr)),
        ),
        Expr::If { test_expr, then_expr, else_expr } => match lower_expr(*test_expr) {
            Err(m) => Err(m),
            Ok(ct) => then_op(
                join(join(lower_expr(*then_expr), lower_expr(*else_expr)), Ok(ct)),
                Ok(Instruction::IfThenElse),
            ),
        },
        Expr::Var(v) => Ok(seq![Instruction::PushInt(var_placeholder(v))]),
        Expr::Other(desc) => Err("Expression type not yet supported in compiler: "@ + desc@),
    }
}

pub open spec fn effect_instruction(effect: Effect) -> Instruction {
    match effect {
        Effect::Permit => Instruction::Permit,
        Effect::Forbid => Instruction::Forbid,
    }
}

pub open spec fn effect_decision(effect: Effect) -> Decision {
    match effect {
        Effect::Permit => Decision::Permit,
        Effect::Forbid => Decision::Deny,
    }
}

/// The whole entry function of a policy: push the effect, push the
/// `NoDecision` fallback, evaluate the condition, select, return.
pub open spec fn lower_policy(effect: Effect, condition: Expr) -> Result<
    Seq<Instruction>,
    Seq<char>,
> {
    match lower_expr(condition) {
        Ok(c) => Ok(
            seq![effect_instruction(effect), Instruction::NoDecision] + c + seq![
                Instruction::IfThenElse,
                Instruction::Return,
            ],
        ),
        Err(m) => Err(m),
    }
}

pub open spec fn module_code(m: LoweredModule) -> Seq<Instruction> {
    m.entry.instructions@
}

/// What a lowering result says, against what the spec says it must be.
pub open spec fn lowered_as(r: Result<LoweredModule, String>, s: Result<Seq<Instruction>, Seq<char>>) -> bool {
    match s {
        Ok(c) => r matches Ok(m) && module_code(m) == c,
        Err(msg) => r matches Err(e) && e@ == msg,
    }
}

impl LoweredModule {
    /// Convert a policy to the IR.
    pub fn from_policy(policy: &Policy) -> (r: Result<Self, String>)
        ensures
            lowered_as(r, lower_policy(policy.effect, policy.condition)),
    {
        lower_policy_parts(policy.effect, &policy.condition)
    }

    /// Convert a template to the IR.
    pub fn from_template(template: &Template) -> (r: Result<Self, String>)
        ensures
            lowered_as(r, lower_policy(template.effect, template.condition)),
    {
        lower_policy_parts(template.effect, &template.condition)
    }
}

fn lower_policy_parts(effect: Effect, condition: &Expr) -> (r: Result<LoweredModule, String>)
    ensures
        lowered_as(r, lower_policy(effect, *condition)),
{
    let mut instructions: Vec<Instruction> = Vec::new();
    // The effect is the value selected when the condition holds, NoDecision
    // the one selected otherwise; both sit below the condition.
    match effect {
        Effect::Permit => instructions.push(Instruction::Permit),
        Effect::Forbid => instructions.push(Instruction::Forbid),
    }
    instructions.push(Instruction::NoDecision);
    match compile_expr(condition, &mut instructions) {
        Err(e) => {
            return Err(e);
        },
        Ok(()) => {},
    }
    instructions.push(Instruction::IfThenElse);
    instructions.push(Instruction::Return);
    proof {
        let c = lower_expr(*condition)->Ok_0;
        assert(instructions@ =~= seq![effect_instruction(effect), Instruction::NoDecision] + c
            + seq![Instruction::IfThenElse, Instruction::Return]);
    }
    Ok(LoweredModule { entry: LoweredFunction { instructions } })
}

/// What `compile_expr` did to the buffer, against what `lower_expr` says.
pub open spec fn appended_as(
    r: Result<(), String>,
    before: Seq<Instruction>,
    after: Seq<Instruction>,
    s: Result<Seq<Instruction>, Seq<char>>,
) -> bool {
    match s {
        Ok(c) => r is Ok && after == before + c,
        Err(msg) => r matches Err(e) && e@ == msg && after == before,
    }
}

/// Compile an expression, appending its code to `instructions`.
fn compile_expr(expr: &Expr, instructions: &mut Vec<Instruction>) -> (r: Result<(), String>)
    ensures
        appended_as(r, old(instructions)@, final(instructions)@, lower_expr(*expr)),
    decreases expr,
{
    let ghost before = instructions@;
    let start = instructions.len();
    match expr {
        Expr::Lit(lit) => {
            compile_literal(lit, instructions);
            assert(instructions@ =~= before + seq![literal_instruction(*lit)]);
            Ok(())
        },
        Expr::BinaryApp { op, arg1, arg2 } => {
            if let Err(e) = compile_expr(arg1, instructions) {
                instructions.truncate(start);
                assert(instructions@ =~= before);
                return Err(e);
            }
            if let Err(e) = compile_expr(arg2, instructions) {
                instructions.truncate(start);
                assert(instructions@ =~= before);
                return Err(e);
            }
            match op {
                BinaryOp::Eq => instructions.push(Instruction::Equal),
                BinaryOp::In => instructions.push(Instruction::In),
                BinaryOp::Less => instructions.push(Instruction::LessThan),
                BinaryOp::LessEq => instructions.push(Instruction::LessThanOrEqual),
                _ => {
                    proof {
                        reveal_strlit("Unsupported binary operator: ");
                    }
                    instructions.truncate(start);
                    assert(instructions@ =~= before);
                    return Err(
                        String::from_str("Unsupported binary operator: ").concat(op.name()),
                    );
                },
            }
            proof {
                let ca = lower_expr(**arg1)->Ok_0;
                let cb = lower_expr(**arg2)->Ok_0;
                assert(instructions@ =~= before + (ca + cb).push(instructions@.last()));
            }
            Ok(())
        },
        Expr::UnaryApp { op, arg } => {
            if let Err(e) = compile_expr(arg, instructions) {
                instructions.truncate(start);
                assert(instructions@ =~= before);
                return Err(e);
            }
            match op {
                UnaryOp::Not => instructions.push(Instruction::Not),
                _ => {
                    proof {
                        reveal_strlit("Unsupported unary operator: ");
                    }
                    instructions.truncate(start);
                    assert(instructions@ =~= before);
                    return Err(
                        String::from_str("Unsupported unary operator: ").concat(op.name()),
                    );
                },
            }
            Ok(())
        },
        Expr::And { left, right } => {
            if let Err(e) = compile_expr(left, instructions) {
                instructions.truncate(start);
                assert(instructions@ =~= before);
                return Err(e);
            }
            if let Err(e) = compile_expr(right, instructions) {
                instructions.truncate(start);
                assert(instructions@ =~= before);
                return Err(e);
            }
            instructions.push(Instruction::And);
            proof {
                let ca = lower_expr(**left)->Ok_0;
                let cb = lower_expr(**right)->Ok_0;
                assert(instructions@ =~= before + (ca + cb).push(instructions@.last()));
            }
            Ok(())
        },
        Expr::Or { left, right } => {
            if let Err(e) = compile_expr(left, instructions) {
                instructions.truncate(start);
                assert(instructions@ =~= before);
                return Err(e);
            }
            if let Err(e) = compile_expr(right, instructions) {
                instructions.truncate(start);
                assert(instructions@ =~= before);
                return Err(e);
            }
            instructions.push(Instruction::Or);
            proof {
                let ca = lower_expr(**left)->Ok_0;
                let cb = lower_expr(**right)->Ok_0;
                assert(instructions@ =~= before + (ca + cb).push(instructions@.last()));
            }
            Ok(())
        },
        Expr::GetAttr { expr: entity, attr } => {
            if let Err(e) = compile_expr(entity, instructions) {
                instructions.truncate(start);
                assert(instructions@ =~= before);
                return Err(e);
            }
            instructions.push(Instruction::GetAttribute(attr.clone()));
            Ok(())
        },
        Expr::HasAttr { expr: entity, attr } => {
            if let Err(e) = compile_expr(entity, instructions) {
                instructions.truncate(start);
                assert(instructions@ =~= before);
                return Err(e);
            }
            instructions.push(Instruction::HasAttribute(attr.clone()));
            Ok(())
        },
        Expr::If { test_expr, then_expr, else_expr } => {
            // The test is compiled first, so that its errors come first; its
            // code goes after both branches.
            let mut test_code: Vec<Instruction> = Vec::new();
            if let Err(e) = compile_expr(test_expr, &mut test_code) {
                return Err(e);
            }
            if let Err(e) = compile_expr(then_expr, instructions) {
                instructions.truncate(start);
                assert(instructions@ =~= before);
                return Err(e);
            }
            if let Err(e) = compile_expr(else_expr, instructions) {
                instructions.truncate(start);
                assert(instructions@ =~= before);
                return Err(e);
            }
            assert(test_code@ =~= Seq::<Instruction>::empty() + lower_expr(**test_expr)->Ok_0);
            instructions.append(&mut test_code);
            instructions.push(Instruction::IfThenElse);
            proof {
                let c = join(lower_expr(**then_expr), lower_expr(**else_expr))->Ok_0;
                let ct = lower_expr(**test_expr)->Ok_0;
                assert(instructions@ =~= before + (c + ct).push(Instruction::IfThenElse));
            }
            Ok(())
        },
        Expr::Var(var) => {
            // Placeholders until the runtime exposes the request.
            match var {
                Var::Principal => instructions.push(Instruction::PushInt(1)),
                Var::Action => instructions.push(Instruction::PushInt(2)),
                Var::Resource => instructions.push(Instruction::PushInt(3)),
                Var::Context => instructions.push(Instruction::PushInt(0)),
            }
            assert(instructions@ =~= before + seq![Instruction::PushInt(var_placeholder(*var))]);
            Ok(())
        },
        Expr::Other(desc) => {
            proof {
                reveal_strlit("Expression type not yet supported in compiler: ");
            }
            Err(
                String::from_str("Expression type not yet supported in compiler: ").concat(
                    desc.as_str(),
                ),
            )
        },
    }
}

/// Append the push of a literal.
fn compile_literal(lit: &Literal, instructions: &mut Vec<Instruction>)
    ensures
        final(instructions)@ == old(instructions)@.push(literal_instruction(*lit)),
{
    match lit {
        Literal::Bool(b) => instructions.push(Instruction::PushBool(*b)),
        Literal::Long(i) => instructions.push(Instruction::PushInt(*i)),
        Literal::String(s) => instructions.push(Instruction::PushString(s.clone())),
        Literal::EntityUID(uid) => {
            let h = hash_entity_uid(uid);
            instructions.push(Instruction::PushInt(h));
        },
    }
}

/// The value of a literal as the IR sees it.
pub open spec fn literal_value(l: Literal) -> Value {
    match l {
        Literal::Bool(b) => Value::Bool(b),
        Literal::Long(i) => Value::Int(i),
        Literal::String(s) => Value::Str(s@),
        Literal::EntityUID(s) => Value::Int(entity_uid_hash(s@)),
    }
}

/// The value of an expression in `env`, evaluating every operand (no
/// short-circuit); `None` where the expression is unsupported or ill-typed.
pub open spec fn eval_expr(e: Expr, env: Env) -> Option<Value>
    decreases e,
{
    match e {
        Expr::Lit(l) => Some(literal_value(l)),
        Expr::BinaryApp { op, arg1, arg2 } => match (eval_expr(*arg1, env), eval_expr(*arg2, env)) {
            (Some(a), Some(b)) => match op {
                BinaryOp::Eq => Some(Value::Bool(a == b)),
                BinaryOp::In => Some(Value::Bool((env.is_in)(a, b))),
                BinaryOp::Less => match (a, b) {
                    (Value::Int(x), Value::Int(y)) => Some(Value::Bool(x < y)),
                    _ => None,
                },
                BinaryOp::LessEq => match (a, b) {
                    (Value::Int(x), Value::Int(y)) => Some(Value::Bool(x <= y)),
                    _ => None,
                },
                _ => None,
            },
            _ => None,
        },
        Expr::UnaryApp { op, arg } => match (op, eval_expr(*arg, env)) {
            (UnaryOp::Not, Some(Value::Bool(b))) => Some(Value::Bool(!b)),
            _ => None,
        },
        Expr::And { left, right } => match (eval_expr(*left, env), eval_expr(*right, env)) {
            (Some(Value::Bool(a)), Some(Value::Bool(b))) => Some(Value::Bool(a && b)),
            _ => None,
        },
        Expr::Or { left, right } => match (eval_expr(*left, env), eval_expr(*right, env)) {
            (Some(Value::Bool(a)), Some(Value::Bool(b))) => Some(Value::Bool(a || b)),
            _ => None,
        },
        Expr::GetAttr { expr, attr } => match eval_expr(*expr, env) {
            Some(v) => Some((env.get_attr)(v, attr@)),
            None => None,
        },
        Expr::HasAttr { expr, attr } => match eval_expr(*expr, env) {
            Some(v) => Some(Value::Bool((env.has_attr)(v, attr@))),
            None => None,
        },
        Expr::If { test_expr, then_expr, else_expr } => match (
            eval_expr(*test_expr, env),
            eval_expr(*then_expr, env),
            eval_expr(*else_expr, env),
        ) {
            (Some(Value::Bool(c)), Some(a), Some(b)) => Some(if c { a } else { b }),
            _ => None,
        },
        Expr::Var(v) => Some(Value::Int(var_placeholder(v))),
        Expr::Other(_) => None,
    }
}

/// Whether an expression uses only the supported constructs: literals,
/// variables, `==`, `in`, `<`, `<=`, `!`, `&&`, `||`, attribute access and
/// test, and `if`.
pub open spec fn supported(e: Expr) -> bool
    decreases e,
{
    match e {
        Expr::Lit(_) => true,
        Expr::BinaryApp { op, arg1, arg2 } => supported(*arg1) && supported(*arg2) && (op
            == BinaryOp::Eq || op == BinaryOp::In || op == BinaryOp::Less || op
            == BinaryOp::LessEq),
        Expr::UnaryApp { op, arg } => supported(*arg) && op == UnaryOp::Not,
        Expr::And { left, right } => supported(*left) && supported(*right),
        Expr::Or { left, right } => supported(*left) && supported(*right),
        Expr::GetAttr { expr, attr } => supported(*expr),
        Expr::HasAttr { expr, attr } => supported(*expr),
        Expr::If { test_expr, then_expr, else_expr } => supported(*test_expr) && supported(
            *then_expr,
        ) && supported(*else_expr),
        Expr::Var(_) => true,
        Expr::Other(_) => false,
    }
}

/// Lowering fails exactly on expressions that use an unsupported construct,
/// and then produces no code.
pub proof fn lemma_lowering_rejects_exactly_unsupported(e: Expr)
    ensures
        lower_expr(e) is Ok <==> supported(e),
    decreases e,
{
    match e {
        Expr::BinaryApp { op, arg1, arg2 } => {
            lemma_lowering_rejects_exactly_unsupported(*arg1);
            lemma_lowering_rejects_exactly_unsupported(*arg2);
        },
        Expr::UnaryApp { op, arg } => {
            lemma_lowering_rejects_exactly_unsupported(*arg);
        },
        Expr::And { left, right } => {
            lemma_lowering_rejects_exactly_unsupported(*left);
            lemma_lowering_rejects_exactly_unsupported(*right);
        },
        Expr::Or { left, right } => {
            lemma_lowering_rejects_exactly_unsupported(*left);
            lemma_lowering_rejects_exactly_unsupported(*right);
        },
        Expr::GetAttr { expr, attr } => {
            lemma_lowering_rejects_exactly_unsupported(*expr);
        },
        Expr::HasAttr { expr, attr } => {
            lemma_lowering_rejects_exactly_unsupported(*expr);
        },
        Expr::If { test_expr, then_expr, else_expr } => {
            lemma_lowering_rejects_exactly_unsupported(*test_expr);
            lemma_lowering_rejects_exactly_unsupported(*then_expr);
            lemma_lowering_rejects_exactly_unsupported(*else_expr);
        },
        _ => {},
    }
}

/// `m` is the message for one of `e`'s own unsupported constructs: an
/// operator outside the supported set, or an unsupported expression form.
pub open spec fn names_construct_of(e: Expr, m: Seq<char>) -> bool
    decreases e,
{
    match e {
        Expr::BinaryApp { op, arg1, arg2 } => (binary_instruction(op) is Err && m
            == binary_instruction(op)->Err_0) || names_construct_of(*arg1, m) || names_construct_of(
            *arg2,
            m,
        ),
        Expr::UnaryApp { op, arg } => (unary_instruction(op) is Err && m == unary_instruction(
            op,
        )->Err_0) || names_construct_of(*arg, m),
        Expr::And { left, right } => names_construct_of(*left, m) || names_construct_of(*right, m),
        Expr::Or { left, right } => names_construct_of(*left, m) || names_construct_of(*right, m),
        Expr::GetAttr { expr, attr } => names_construct_of(*expr, m),
        Expr::HasAttr { expr, attr } => names_construct_of(*expr, m),
        Expr::If { test_expr, then_expr, else_expr } => names_construct_of(*test_expr, m)
            || names_construct_of(*then_expr, m) || names_construct_of(*else_expr, m),
        Expr::Other(desc) => m == "Expression type not yet supported in compiler: "@ + desc@,
        _ => false,
    }
}

/// When lowering rejects an expression, its message names an unsupported
/// construct that occurs in the expression.
pub proof fn lemma_rejection_names_construct(e: Expr)
    requires
        lower_expr(e) is Err,
    ensures
        names_construct_of(e, lower_expr(e)->Err_0),
    decreases e,
{
    let m = lower_expr(e)->Err_0;
    match e {
        Expr::BinaryApp { op, arg1, arg2 } => {
            if lower_expr(*arg1) is Err {
                lemma_rejection_names_construct(*arg1);
            } else if lower_expr(*arg2) is Err {
                lemma_rejection_names_construct(*arg2);
            }
        },
        Expr::UnaryApp { op, arg } => {
            if lower_expr(*arg) is Err {
                lemma_rejection_names_construct(*arg);
            }
        },
        Expr::And { left, right } => {
            if lower_expr(*left) is Err {
                lemma_rejection_names_construct(*left);
            } else {
                lemma_rejection_names_construct(*right);
            }
        },
        Expr::Or { left, right } => {
            if lower_expr(*left) is Err {
                lemma_rejection_names_construct(*left);
            } else {
                lemma_rejection_names_construct(*right);
            }
        },
        Expr::GetAttr { expr, attr } => {
            lemma_rejection_names_construct(*expr);
        },
        Expr::HasAttr { expr, attr } => {
            lemma_rejection_names_construct(*expr);
        },
        Expr::If { test_expr, then_expr, else_expr } => {
            if lower_expr(*test_expr) is Err {
                lemma_rejection_names_construct(*test_expr);
            } else if lower_expr(*then_expr) is Err {
                lemma_rejection_names_construct(*then_expr);
            } else {
                lemma_rejection_names_construct(*else_expr);
            }
        },
        _ => {},
    }
}

/// Converting a policy or template fails exactly when its condition uses an
/// unsupported construct.
pub proof fn lemma_policy_rejected_exactly_when_unsupported(effect: Effect, condition: Expr)
    ensures
        lower_policy(effect, condition) is Err <==> !supported(condition),
{
    lemma_lowering_rejects_exactly_unsupported(condition);
}

proof fn lemma_exec_one(i: Instruction, st: Seq<Value>, env: Env)
    ensures
        exec(seq![i], st, env) == step(i, st, env),
{
    assert(seq![i].drop_last() =~= Seq::<Instruction>::empty());
    assert(exec(seq![i].drop_last(), st, env) == Outcome::Running(st));
}

/// Code `a` then `b` then one instruction, run from `st`.
proof fn lemma_exec_pair_then(
    a: Seq<Instruction>,
    b: Seq<Instruction>,
    i: Instruction,
    st: Seq<Value>,
    env: Env,
)
    ensures
        exec((a + b).push(i), st, env) == match exec(a, st, env) {
            Outcome::Running(s1) => match exec(b, s1, env) {
                Outcome::Running(s2) => step(i, s2, env),
                o => o,
            },
            o => o,
        },
{
    lemma_exec_concat(a, b, st, env);
    assert((a + b).push(i).drop_last() =~= a + b);
}

/// Lowered code leaves the expression's value on top of whatever stack it
/// starts from.
pub proof fn lemma_lowering_correct(e: Expr, env: Env, st: Seq<Value>)
    requires
        lower_expr(e) is Ok,
        eval_expr(e, env) is Some,
    ensures
        exec(lower_expr(e)->Ok_0, st, env) == Outcome::Running(
            st.push(eval_expr(e, env)->Some_0),
        ),
    decreases e,
{
    let code = lower_expr(e)->Ok_0;
    let v = eval_expr(e, env)->Some_0;
    match e {
        Expr::Lit(l) => {
            lemma_exec_one(literal_instruction(l), st, env);
        },
        Expr::Var(x) => {
            lemma_exec_one(Instruction::PushInt(var_placeholder(x)), st, env);
        },
        Expr::BinaryApp { op, arg1, arg2 } => {
            let a = eval_expr(*arg1, env)->Some_0;
            let b = eval_expr(*arg2, env)->Some_0;
            lemma_lowering_correct(*arg1, env, st);
            lemma_lowering_correct(*arg2, env, st.push(a));
            lemma_exec_pair_then(
                lower_expr(*arg1)->Ok_0,
                lower_expr(*arg2)->Ok_0,
                binary_instruction(op)->Ok_0,
                st,
                env,
            );
            let s2 = st.push(a).push(b);
            assert(s2.subrange(0, s2.len() - 2) =~= st);
        },
        Expr::And { left, right } => {
            let a = eval_expr(*left, env)->Some_0;
            let b = eval_expr(*right, env)->Some_0;
            lemma_lowering_correct(*left, env, st);
            lemma_lowering_correct(*right, env, st.push(a));
            lemma_exec_pair_then(
                lower_expr(*left)->Ok_0,
                lower_expr(*right)->Ok_0,
                Instruction::And,
                st,
                env,
            );
            let s2 = st.push(a).push(b);
            assert(s2.subrange(0, s2.len() - 2) =~= st);
        },
        Expr::Or { left, right } => {
            let a = eval_expr(*left, env)->Some_0;
            let b = eval_expr(*right, env)->Some_0;
            lemma_lowering_correct(*left, env, st);
            lemma_lowering_correct(*right, env, st.push(a));
            lemma_exec_pair_then(
                lower_expr(*left)->Ok_0,
                lower_expr(*right)->Ok_0,
                Instruction::Or,
                st,
                env,
            );
            let s2 = st.push(a).push(b);
            assert(s2.subrange(0, s2.len() - 2) =~= st);
        },
        Expr::UnaryApp { op, arg } => {
            let a = eval_expr(*arg, env)->Some_0;
            lemma_lowering_correct(*arg, env, st);
            lemma_exec_pair_then(
                Seq::empty(),
                lower_expr(*arg)->Ok_0,
                Instruction::Not,
                st,
                env,
            );
            assert(Seq::<Instruction>::empty() + lower_expr(*arg)->Ok_0 =~= lower_expr(*arg)->Ok_0);
            let s1 = st.push(a);
            assert(s1.subrange(0, s1.len() - 1) =~= st);
        },
        Expr::GetAttr { expr, attr } => {
            let a = eval_expr(*expr, env)->Some_0;
            lemma_lowering_correct(*expr, env, st);
            lemma_exec_pair_then(
                Seq::empty(),
                lower_expr(*expr)->Ok_0,
                Instruction::GetAttribute(attr),
                st,
                env,
            );
            assert(Seq::<Instruction>::empty() + lower_expr(*expr)->Ok_0 =~= lower_expr(*expr)->Ok_0);
            let s1 = st.push(a);
            assert(s1.subrange(0, s1.len() - 1) =~= st);
        },
        Expr::HasAttr { expr, attr } => {
            let a = eval_expr(*expr, env)->Some_0;
            lemma_lowering_correct(*expr, env, st);
            lemma_exec_pair_then(
                Seq::empty(),
                lower_expr(*expr)->Ok_0,
                Instruction::HasAttribute(attr),
                st,
                env,
            );
            assert(Seq::<Instruction>::empty() + lower_expr(*expr)->Ok_0 =~= lower_expr(*expr)->Ok_0);
            let s1 = st.push(a);
            assert(s1.subrange(0, s1.len() - 1) =~= st);
        },
        Expr::If { test_expr, then_expr, else_expr } => {
            let a = eval_expr(*then_expr, env)->Some_0;
            let b = eval_expr(*else_expr, env)->Some_0;
            let c = eval_expr(*test_expr, env)->Some_0;
            let ca = lower_expr(*then_expr)->Ok_0;
            let cb = lower_expr(*else_expr)->Ok_0;
            let cc = lower_expr(*test_expr)->Ok_0;
            lemma_lowering_correct(*then_expr, env, st);
            lemma_lowering_correct(*else_expr, env, st.push(a));
            lemma_lowering_correct(*test_expr, env, st.push(a).push(b));
            lemma_exec_concat(ca, cb, st, env);
            lemma_exec_pair_then(ca + cb, cc, Instruction::IfThenElse, st, env);
            let s3 = st.push(a).push(b).push(c);
            assert(s3.subrange(0, s3.len() - 3) =~= st);
        },
        Expr::Other(_) => {},
    }
}

/// A compiled policy yields its effect's decision when its condition is
/// true and `NoDecision` when it is false; the two are never swapped.
pub proof fn lemma_policy_decision(effect: Effect, condition: Expr, env: Env)
    requires
        lower_expr(condition) is Ok,
        eval_expr(condition, env) matches Some(Value::Bool(_)),
    ensures
        run(lower_policy(effect, condition)->Ok_0, env) == if eval_expr(condition, env) == Some(
            Value::Bool(true),
        ) {
            effect_decision(effect)
        } else {
            Decision::NoDecision
        },
{
    let c = lower_expr(condition)->Ok_0;
    let v = eval_expr(condition, env)->Some_0;
    let head = seq![effect_instruction(effect), Instruction::NoDecision];
    let tail = seq![Instruction::IfThenElse, Instruction::Return];
    let st0 = Seq::<Value>::empty();
    let e = match effect {
        Effect::Permit => Value::Dec(Decision::Permit),
        Effect::Forbid => Value::Dec(Decision::Deny),
    };
    let st2 = seq![e, Value::Dec(Decision::NoDecision)];
    assert(head.drop_last() =~= seq![effect_instruction(effect)]);
    lemma_exec_one(effect_instruction(effect), st0, env);
    assert(st0.push(e).push(Value::Dec(Decision::NoDecision)) =~= st2);
    assert(exec(head, st0, env) == Outcome::Running(st2));
    lemma_lowering_correct(condition, env, st2);
    lemma_exec_concat(head, c, st0, env);
    lemma_exec_concat(head + c, tail, st0, env);
    let s3 = st2.push(v);
    assert(tail.drop_last() =~= seq![Instruction::IfThenElse]);
    lemma_exec_one(Instruction::IfThenElse, s3, env);
    assert(s3.subrange(0, 0) =~= st0);
}

/// Code that neither decides nor returns.
pub open spec fn plain_code(c: Seq<Instruction>) -> bool {
    forall|j: int|
        0 <= j < c.len() ==> !(#[trigger] c[j] is Permit || c[j] is Forbid || c[j] is NoDecision
            || c[j] is Return)
}

proof fn lemma_plain_concat(a: Seq<Instruction>, b: Seq<Instruction>)
    requires
        plain_code(a),
        plain_code(b),
    ensures
        plain_code(a + b),
{
    assert forall|j: int| 0 <= j < (a + b).len() implies !(#[trigger] (a + b)[j] is Permit || (a
        + b)[j] is Forbid || (a + b)[j] is NoDecision || (a + b)[j] is Return) by {
        if j < a.len() {
            assert((a + b)[j] == a[j]);
        } else {
            assert((a + b)[j] == b[j - a.len()]);
        }
    }
}

proof fn lemma_plain_push(a: Seq<Instruction>, i: Instruction)
    requires
        plain_code(a),
        !(i is Permit || i is Forbid || i is NoDecision || i is Return),
    ensures
        plain_code(a.push(i)),
{
    assert forall|j: int| 0 <= j < a.push(i).len() implies !(#[trigger] a.push(i)[j] is Permit
        || a.push(i)[j] is Forbid || a.push(i)[j] is NoDecision || a.push(i)[j] is Return) by {
        if j < a.len() {
            assert(a.push(i)[j] == a[j]);
        }
    }
}

/// The code of a condition never decides and never returns.
pub proof fn lemma_condition_code_plain(e: Expr)
    requires
        lower_expr(e) is Ok,
    ensures
        plain_code(lower_expr(e)->Ok_0),
    decreases e,
{
    match e {
        Expr::BinaryApp { op, arg1, arg2 } => {
            lemma_condition_code_plain(*arg1);
            lemma_condition_code_plain(*arg2);
            lemma_plain_concat(lower_expr(*arg1)->Ok_0, lower_expr(*arg2)->Ok_0);
            lemma_plain_push(
                lower_expr(*arg1)->Ok_0 + lower_expr(*arg2)->Ok_0,
                binary_instruction(op)->Ok_0,
            );
        },
        Expr::UnaryApp { op, arg } => {
            lemma_condition_code_plain(*arg);
            lemma_plain_push(lower_expr(*arg)->Ok_0, Instruction::Not);
        },
        Expr::And { left, right } => {
            lemma_condition_code_plain(*left);
            lemma_condition_code_plain(*right);
            lemma_plain_concat(lower_expr(*left)->Ok_0, lower_expr(*right)->Ok_0);
            lemma_plain_push(lower_expr(*left)->Ok_0 + lower_expr(*right)->Ok_0, Instruction::And);
        },
        Expr::Or { left, right } => {
            lemma_condition_code_plain(*left);
            lemma_condition_code_plain(*right);
            lemma_plain_concat(lower_expr(*left)->Ok_0, lower_expr(*right)->Ok_0);
            lemma_plain_push(lower_expr(*left)->Ok_0 + lower_expr(*right)->Ok_0, Instruction::Or);
        },
        Expr::GetAttr { expr, attr } => {
            lemma_condition_code_plain(*expr);
            lemma_plain_push(lower_expr(*expr)->Ok_0, Instruction::GetAttribute(attr));
        },
        Expr::HasAttr { expr, attr } => {
            lemma_condition_code_plain(*expr);
            lemma_plain_push(lower_expr(*expr)->Ok_0, Instruction::HasAttribute(attr));
        },
        Expr::If { test_expr, then_expr, else_expr } => {
            let ca = lower_expr(*then_expr)->Ok_0;
            let cb = lower_expr(*else_expr)->Ok_0;
            let ct = lower_expr(*test_expr)->Ok_0;
            lemma_condition_code_plain(*test_expr);
            lemma_condition_code_plain(*then_expr);
            lemma_condition_code_plain(*else_expr);
            lemma_plain_concat(ca, cb);
            lemma_plain_concat(ca + cb, ct);
            lemma_plain_push(ca + cb + ct, Instruction::IfThenElse);
        },
        _ => {
            assert(plain_code(lower_expr(e)->Ok_0));
        },
    }
}

/// A lowered policy starts with its own effect and the `NoDecision`
/// fallback, ends with `IfThenElse, Return`, and decides nowhere else: a
/// `forbid` policy holds no `Permit`, a `permit` policy no `Forbid`, and
/// its only `Return` is the last instruction.
pub proof fn lemma_policy_layout(effect: Effect, condition: Expr)
    requires
        lower_policy(effect, condition) is Ok,
    ensures
        ({
            let code = lower_policy(effect, condition)->Ok_0;
            let n = code.len();
            &&& n >= 4
            &&& code[0] == effect_instruction(effect)
            &&& code[1] == Instruction::NoDecision
            &&& code[n - 2] == Instruction::IfThenElse
            &&& code[n - 1] == Instruction::Return
            &&& plain_code(code.subrange(2, n - 2))
        }),
{
    let c = lower_expr(condition)->Ok_0;
    lemma_condition_code_plain(condition);
    let code = lower_policy(effect, condition)->Ok_0;
    let head = seq![effect_instruction(effect), Instruction::NoDecision];
    let tail = seq![Instruction::IfThenElse, Instruction::Return];
    assert(code == head + c + tail);
    assert(code.subrange(2, code.len() - 2) =~= c);
    assert(code[0] == head[0]);
    assert(code[1] == head[1]);
    assert(code[code.len() - 2] == tail[0]);
    assert(code[code.len() - 1] == tail[1]);
}

/// An unsupported binary operator over supported operands is rejected with
/// a message naming it.
pub proof fn lemma_unsupported_binary_message(op: BinaryOp, arg1: Expr, arg2: Expr)
    requires
        lower_expr(arg1) is Ok,
        lower_expr(arg2) is Ok,
        !(op == BinaryOp::Eq || op == BinaryOp::In || op == BinaryOp::Less || op
            == BinaryOp::LessEq),
    ensures
        lower_expr(Expr::BinaryApp { op, arg1: Box::new(arg1), arg2: Box::new(arg2) }) == Err::<
            Seq<Instruction>,
            Seq<char>,
        >("Unsupported binary operator: "@ + binary_op_name(op)),
{
}

/// An unsupported unary operator over a supported operand is rejected with
/// a message naming it.
pub proof fn lemma_unsupported_unary_message(op: UnaryOp, arg: Expr)
    requires
        lower_expr(arg) is Ok,
        op != UnaryOp::Not,
    ensures
        lower_expr(Expr::UnaryApp { op, arg: Box::new(arg) }) == Err::<Seq<Instruction>, Seq<char>>(
            "Unsupported unary operator: "@ + unary_op_name(op),
        ),
{
}

/// An unsupported expression form is rejected with a message carrying its
/// description.
pub proof fn lemma_unsupported_form_message(desc: String)
    ensures
        lower_expr(Expr::Other(desc)) == Err::<Seq<Instruction>, Seq<char>>(
            "Expression type not yet supported in compiler: "@ + desc@,
        ),
{
}

} // verus!
