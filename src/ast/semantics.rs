//! The meaning of the stack IR: a small-step machine over a stack of values.
//!
//! Attribute reads, attribute tests and hierarchy membership depend on the
//! request's entities; an `Env` supplies them, so "every input" below means
//! every `Env`.
//!
//! This is the meaning of the IR, not of the generated binary: here strings
//! compare by content, while the code generator still lowers every string to
//! the same placeholder pointer until a string pool exists. The equivalence
//! laws of the lowering and the optimizer are stated over this machine.
use vstd::prelude::*;
use crate::ast::lowering::Instruction;
use crate::wasm::runtime::Decision;

verus! {

/// A value on the IR operand stack.
pub enum Value {
    Bool(bool),
    Int(i64),
    Str(Seq<char>),
    Dec(Decision),
}

/// The entity store as seen by one evaluation.
pub struct Env {
    pub get_attr: spec_fn(Value, Seq<char>) -> Value,
    pub has_attr: spec_fn(Value, Seq<char>) -> bool,
    pub is_in: spec_fn(Value, Value) -> bool,
}

/// State of the machine after a run of instructions.
pub enum Outcome {
    /// Still running, with this stack (bottom first).
    Running(Seq<Value>),
    /// A `Return` handed back this value.
    Returned(Value),
    /// An instruction found the stack too short or of the wrong kind.
    Stuck,
}

pub open spec fn push(st: Seq<Value>, v: Value) -> Outcome {
    Outcome::Running(st.push(v))
}

/// Replace the top `n` values of the stack by `v`.
pub open spec fn replace_top(st: Seq<Value>, n: int, v: Value) -> Outcome {
    if st.len() < n {
        Outcome::Stuck
    } else {
        Outcome::Running(st.subrange(0, st.len() - n).push(v))
    }
}

pub open spec fn compare_ints(st: Seq<Value>, f: spec_fn(i64, i64) -> bool) -> Outcome {
    if st.len() < 2 {
        Outcome::Stuck
    } else {
        match (st[st.len() - 2], st[st.len() - 1]) {
            (Value::Int(a), Value::Int(b)) => replace_top(st, 2, Value::Bool(f(a, b))),
            _ => Outcome::Stuck,
        }
    }
}

pub open spec fn combine_bools(st: Seq<Value>, f: spec_fn(bool, bool) -> bool) -> Outcome {
    if st.len() < 2 {
        Outcome::Stuck
    } else {
        match (st[st.len() - 2], st[st.len() - 1]) {
            (Value::Bool(a), Value::Bool(b)) => replace_top(st, 2, Value::Bool(f(a, b))),
            _ => Outcome::Stuck,
        }
    }
}

/// One instruction applied to a stack.
///
/// `IfThenElse` pops the condition (top), then the else-value, then the
/// then-value, and pushes the then-value when the condition is true.
pub open spec fn step(i: Instruction, st: Seq<Value>, env: Env) -> Outcome {
    let n = st.len();
    match i {
        Instruction::PushBool(b) => push(st, Value::Bool(b)),
        Instruction::PushInt(v) => push(st, Value::Int(v)),
        Instruction::PushString(s) => push(st, Value::Str(s@)),
        Instruction::Equal => if n < 2 {
            Outcome::Stuck
        } else {
            replace_top(st, 2, Value::Bool(st[n - 2] == st[n - 1]))
        },
        Instruction::NotEqual => if n < 2 {
            Outcome::Stuck
        } else {
            replace_top(st, 2, Value::Bool(st[n - 2] != st[n - 1]))
        },
        Instruction::LessThan => compare_ints(st, |a: i64, b: i64| a < b),
        Instruction::LessThanOrEqual => compare_ints(st, |a: i64, b: i64| a <= b),
        Instruction::GreaterThan => compare_ints(st, |a: i64, b: i64| a > b),
        Instruction::GreaterThanOrEqual => compare_ints(st, |a: i64, b: i64| a >= b),
        Instruction::And => combine_bools(st, |a: bool, b: bool| a && b),
        Instruction::Or => combine_bools(st, |a: bool, b: bool| a || b),
        Instruction::Not => if n < 1 {
            Outcome::Stuck
        } else {
            match st[n - 1] {
                Value::Bool(b) => replace_top(st, 1, Value::Bool(!b)),
                _ => Outcome::Stuck,
            }
        },
        Instruction::GetAttribute(a) => if n < 1 {
            Outcome::Stuck
        } else {
            replace_top(st, 1, (env.get_attr)(st[n - 1], a@))
        },
        Instruction::HasAttribute(a) => if n < 1 {
            Outcome::Stuck
        } else {
            replace_top(st, 1, Value::Bool((env.has_attr)(st[n - 1], a@)))
        },
        Instruction::In => if n < 2 {
            Outcome::Stuck
        } else {
            replace_top(st, 2, Value::Bool((env.is_in)(st[n - 2], st[n - 1])))
        },
        Instruction::IfThenElse => if n < 3 {
            Outcome::Stuck
        } else {
            match st[n - 1] {
                Value::Bool(c) => replace_top(st, 3, if c { st[n - 3] } else { st[n - 2] }),
                _ => Outcome::Stuck,
            }
        },
        Instruction::Return => if n < 1 {
            Outcome::Stuck
        } else {
            Outcome::Returned(st[n - 1])
        },
        Instruction::Permit => push(st, Value::Dec(Decision::Permit)),
        Instruction::Forbid => push(st, Value::Dec(Decision::Deny)),
        Instruction::NoDecision => push(st, Value::Dec(Decision::NoDecision)),
    }
}

/// Continue from an outcome with one more instruction.
pub open spec fn then_step(o: Outcome, i: Instruction, env: Env) -> Outcome {
    match o {
        Outcome::Running(st) => step(i, st, env),
        _ => o,
    }
}

/// Run a straight-line instruction sequence from the stack `st`.
pub open spec fn exec(code: Seq<Instruction>, st: Seq<Value>, env: Env) -> Outcome
    decreases code.len(),
{
    if code.len() == 0 {
        Outcome::Running(st)
    } else {
        then_step(exec(code.drop_last(), st, env), code.last(), env)
    }
}

/// Continue from an outcome with a whole sequence.
pub open spec fn then_exec(o: Outcome, code: Seq<Instruction>, env: Env) -> Outcome {
    match o {
        Outcome::Running(st) => exec(code, st, env),
        _ => o,
    }
}

/// The decision a compiled function yields: the decision it returns, or
/// `Error` when it gets stuck, returns something else, or never returns.
pub open spec fn run(code: Seq<Instruction>, env: Env) -> Decision {
    match exec(code, Seq::empty(), env) {
        Outcome::Returned(Value::Dec(d)) => d,
        _ => Decision::Error,
    }
}

/// Running two sequences one after the other is running their concatenation.
pub proof fn lemma_exec_concat(a: Seq<Instruction>, b: Seq<Instruction>, st: Seq<Value>, env: Env)
    ensures
        exec(a + b, st, env) == then_exec(exec(a, st, env), b, env),
    decreases b.len(),
{
    if b.len() == 0 {
        assert(a + b =~= a);
    } else {
        assert((a + b).drop_last() =~= a + b.drop_last());
        assert((a + b).last() == b.last());
        lemma_exec_concat(a, b.drop_last(), st, env);
    }
}

} // verus!
