//! Individual optimization passes over the entry function's instructions.
use vstd::prelude::*;
use crate::ast::lowering::{Instruction, LoweredFunction, LoweredModule};
use crate::ast::semantics::{exec, then_step, step, Env, Outcome, Value};

verus! {

// ---------------------------------------------------------------------------
// Constant folding
// ---------------------------------------------------------------------------

/// The value of a unary operator over a constant, when it can be computed now.
pub open spec fn fold_unary(x: Instruction, i: Instruction) -> Option<bool> {
    match (x, i) {
        (Instruction::PushBool(b), Instruction::Not) => Some(!b),
        _ => None,
    }
}

/// The value of a binary operator over two constants, when it can be
/// computed now.
pub open spec fn fold_binary(x: Instruction, y: Instruction, i: Instruction) -> Option<bool> {
    match (x, y) {
        (Instruction::PushBool(a), Instruction::PushBool(b)) => match i {
            Instruction::And => Some(a && b),
            Instruction::Or => Some(a || b),
            Instruction::Equal => Some(a == b),
            Instruction::NotEqual => Some(a != b),
            _ => None,
        },
        (Instruction::PushInt(a), Instruction::PushInt(b)) => match i {
            Instruction::Equal => Some(a == b),
            Instruction::NotEqual => Some(a != b),
            Instruction::LessThan => Some(a < b),
            Instruction::LessThanOrEqual => Some(a <= b),
            Instruction::GreaterThan => Some(a > b),
            Instruction::GreaterThanOrEqual => Some(a >= b),
            _ => None,
        },
        _ => None,
    }
}

/// Append `i` to already-folded code, folding it with the constants it
/// applies to into one constant push when its value is known now.
pub open spec fn fold_step(out: Seq<Instruction>, i: Instruction) -> Seq<Instruction> {
    let n = out.len();
    if n >= 1 && fold_unary(out[n - 1], i) is Some {
        out.drop_last().push(Instruction::PushBool(fold_unary(out[n - 1], i)->Some_0))
    } else if n >= 2 && fold_binary(out[n - 2], out[n - 1], i) is Some {
        out.subrange(0, n - 2).push(
            Instruction::PushBool(fold_binary(out[n - 2], out[n - 1], i)->Some_0),
        )
    } else {
        out.push(i)
    }
}

/// Constant folding of a whole sequence, left to right.
pub open spec fn fold_spec(s: Seq<Instruction>) -> Seq<Instruction>
    decreases s.len(),
{
    if s.len() == 0 {
        s
    } else {
        fold_step(fold_spec(s.drop_last()), s.last())
    }
}

/// No constant operation is left to fold.
pub open spec fn fold_normal(s: Seq<Instruction>) -> bool {
    &&& forall|j: int| 0 <= j && j + 1 < s.len() ==> #[trigger] fold_unary(s[j], s[j + 1]) is None
    &&& forall|j: int|
        0 <= j && j + 2 < s.len() ==> #[trigger] fold_binary(s[j], s[j + 1], s[j + 2]) is None
}

fn fold_unary_exec(x: &Instruction, i: &Instruction) -> (r: Option<bool>)
    ensures
        r == fold_unary(*x, *i),
{
    match (x, i) {
        (Instruction::PushBool(b), Instruction::Not) => Some(!*b),
        _ => None,
    }
}

fn fold_binary_exec(x: &Instruction, y: &Instruction, i: &Instruction) -> (r: Option<bool>)
    ensures
        r == fold_binary(*x, *y, *i),
{
    match (x, y) {
        (Instruction::PushBool(a), Instruction::PushBool(b)) => match i {
            Instruction::And => Some(*a && *b),
            Instruction::Or => Some(*a || *b),
            Instruction::Equal => Some(*a == *b),
            Instruction::NotEqual => Some(*a != *b),
            _ => None,
        },
        (Instruction::PushInt(a), Instruction::PushInt(b)) => match i {
            Instruction::Equal => Some(*a == *b),
            Instruction::NotEqual => Some(*a != *b),
            Instruction::LessThan => Some(*a < *b),
            Instruction::LessThanOrEqual => Some(*a <= *b),
            Instruction::GreaterThan => Some(*a > *b),
            Instruction::GreaterThanOrEqual => Some(*a >= *b),
            _ => None,
        },
        _ => None,
    }
}

fn fold_push(out: &mut Vec<Instruction>, i: Instruction)
    ensures
        final(out)@ == fold_step(old(out)@, i),
{
    let n = out.len();
    if n >= 1 {
        if let Some(v) = fold_unary_exec(&out[n - 1], &i) {
            out.pop();
            out.push(Instruction::PushBool(v));
            return;
        }
    }
    if n >= 2 {
        if let Some(v) = fold_binary_exec(&out[n - 2], &out[n - 1], &i) {
            out.pop();
            out.pop();
            out.push(Instruction::PushBool(v));
            proof {
                assert(out@.drop_last() =~= old(out)@.subrange(0, n - 2));
            }
            return;
        }
    }
    out.push(i);
}

/// Constant folding: `Not` of a constant boolean, `And`/`Or`/`==`/`!=` of
/// two constant booleans, and comparisons of two constant integers become a
/// single constant push.
pub fn constant_folding(module: LoweredModule) -> (r: LoweredModule)
    ensures
        r.entry.instructions@ == fold_spec(module.entry.instructions@),
{
    let mut input = module.entry.instructions;
    let ghost orig = input@;
    let total = input.len();
    let mut out: Vec<Instruction> = Vec::new();
    let mut k: usize = 0;
    while input.len() > 0
        invariant
            orig.len() == total,
            k + input@.len() == orig.len(),
            input@ == orig.subrange(k as int, orig.len() as int),
            out@ == fold_spec(orig.subrange(0, k as int)),
        decreases input@.len(),
    {
        let i = input.remove(0);
        proof {
            assert(orig.subrange(0, k + 1).drop_last() =~= orig.subrange(0, k as int));
            assert(input@ =~= orig.subrange(k + 1, orig.len() as int));
        }
        fold_push(&mut out, i);
        k = k + 1;
    }
    proof {
        assert(orig.subrange(0, k as int) =~= orig);
    }
    LoweredModule { entry: LoweredFunction { instructions: out } }
}

// ---------------------------------------------------------------------------
// Dead-code elimination
// ---------------------------------------------------------------------------

pub open spec fn return_free(s: Seq<Instruction>) -> bool {
    forall|j: int| 0 <= j < s.len() ==> !(#[trigger] s[j] is Return)
}

/// The code up to and including its first `Return`; all of it when there is
/// none.
pub open spec fn dce_spec(s: Seq<Instruction>) -> Seq<Instruction>
    decreases s.len(),
{
    if s.len() == 0 || return_free(s.drop_last()) {
        s
    } else {
        dce_spec(s.drop_last())
    }
}

/// Code whose first `Return` is at index `k` keeps exactly its first `k + 1`
/// instructions.
pub proof fn lemma_dce_first_return(s: Seq<Instruction>, k: int)
    requires
        0 <= k < s.len(),
        s[k] is Return,
        return_free(s.subrange(0, k)),
    ensures
        dce_spec(s) == s.subrange(0, k + 1),
    decreases s.len(),
{
    if s.len() == k + 1 {
        assert(s.drop_last() =~= s.subrange(0, k));
        assert(s =~= s.subrange(0, k + 1));
    } else {
        assert(s.drop_last()[k] is Return);
        assert(s.drop_last().subrange(0, k) =~= s.subrange(0, k));
        lemma_dce_first_return(s.drop_last(), k);
        assert(s.drop_last().subrange(0, k + 1) =~= s.subrange(0, k + 1));
    }
}

pub proof fn lemma_dce_return_free(s: Seq<Instruction>)
    requires
        return_free(s),
    ensures
        dce_spec(s) == s,
{
    if s.len() > 0 {
        assert forall|j: int| 0 <= j < s.drop_last().len() implies !(
        #[trigger] s.drop_last()[j] is Return) by {
            assert(s.drop_last()[j] == s[j]);
        }
    }
}

/// Dead-code elimination: drop every instruction after the first `Return`.
pub fn dead_code_elimination(module: LoweredModule) -> (r: LoweredModule)
    ensures
        r.entry.instructions@ == dce_spec(module.entry.instructions@),
{
    let mut m = module;
    let ghost orig = m.entry.instructions@;
    let n = m.entry.instructions.len();
    let mut k: usize = 0;
    while k < n
        invariant
            n == orig.len(),
            orig == module.entry.instructions@,
            m.entry.instructions@ == orig,
            k <= n,
            return_free(orig.subrange(0, k as int)),
        decreases n - k,
    {
        if let Instruction::Return = &m.entry.instructions[k] {
            proof {
                lemma_dce_first_return(orig, k as int);
            }
            m.entry.instructions.truncate(k + 1);

            return m;
        }
        proof {
            assert forall|j: int| 0 <= j < k + 1 implies !(#[trigger] orig.subrange(
                0,
                k + 1,
            )[j] is Return) by {
                if j < k {
                    assert(orig.subrange(0, k + 1)[j] == orig.subrange(0, k as int)[j]);
                }
            }
        }
        k = k + 1;
    }
    proof {
        assert(orig.subrange(0, k as int) =~= orig);
        lemma_dce_return_free(orig);
    }
    m
}

// ---------------------------------------------------------------------------
// Instruction combining
// ---------------------------------------------------------------------------

/// Instructions that always leave a boolean on the stack.
pub open spec fn yields_bool(i: Instruction) -> bool {
    match i {
        Instruction::PushBool(_) | Instruction::Equal | Instruction::NotEqual
        | Instruction::LessThan | Instruction::LessThanOrEqual | Instruction::GreaterThan
        | Instruction::GreaterThanOrEqual | Instruction::And | Instruction::Or
        | Instruction::Not | Instruction::HasAttribute(_) | Instruction::In => true,
        _ => false,
    }
}

/// Append `i` to already-combined code, cancelling a double negation of a
/// boolean.
pub open spec fn comb_step(out: Seq<Instruction>, i: Instruction) -> Seq<Instruction> {
    let n = out.len();
    if i is Not && n >= 2 && out[n - 1] is Not && yields_bool(out[n - 2]) {
        out.drop_last()
    } else {
        out.push(i)
    }
}

pub open spec fn comb_spec(s: Seq<Instruction>) -> Seq<Instruction>
    decreases s.len(),
{
    if s.len() == 0 {
        s
    } else {
        comb_step(comb_spec(s.drop_last()), s.last())
    }
}

/// No double negation of a boolean is left.
pub open spec fn comb_normal(s: Seq<Instruction>) -> bool {
    forall|j: int|
        0 <= j && j + 2 < s.len() ==> !(yields_bool(#[trigger] s[j]) && s[j + 1] is Not && s[j
            + 2] is Not)
}

fn yields_bool_exec(i: &Instruction) -> (r: bool)
    ensures
        r == yields_bool(*i),
{
    match i {
        Instruction::PushBool(_) | Instruction::Equal | Instruction::NotEqual
        | Instruction::LessThan | Instruction::LessThanOrEqual | Instruction::GreaterThan
        | Instruction::GreaterThanOrEqual | Instruction::And | Instruction::Or
        | Instruction::Not | Instruction::HasAttribute(_) | Instruction::In => true,
        _ => false,
    }
}

fn comb_push(out: &mut Vec<Instruction>, i: Instruction)
    ensures
        final(out)@ == comb_step(old(out)@, i),
{
    let n = out.len();
    if let Instruction::Not = i {
        if n >= 2 {
            if let Instruction::Not = &out[n - 1] {
                if yields_bool_exec(&out[n - 2]) {
                    out.pop();
                    return;
                }
            }
        }
    }
    out.push(i);
}

/// Instruction combining: `Not, Not` after an instruction that yields a
/// boolean cancels out.
pub fn instruction_combining(module: LoweredModule) -> (r: LoweredModule)
    ensures
        r.entry.instructions@ == comb_spec(module.entry.instructions@),
{
    let mut input = module.entry.instructions;
    let ghost orig = input@;
    let total = input.len();
    let mut out: Vec<Instruction> = Vec::new();
    let mut k: usize = 0;
    while input.len() > 0
        invariant
            orig.len() == total,
            k + input@.len() == orig.len(),
            input@ == orig.subrange(k as int, orig.len() as int),
            out@ == comb_spec(orig.subrange(0, k as int)),
        decreases input@.len(),
    {
        let i = input.remove(0);
        proof {
            assert(orig.subrange(0, k + 1).drop_last() =~= orig.subrange(0, k as int));
            assert(input@ =~= orig.subrange(k + 1, orig.len() as int));
        }
        comb_push(&mut out, i);
        k = k + 1;
    }
    proof {
        assert(orig.subrange(0, k as int) =~= orig);
    }
    LoweredModule { entry: LoweredFunction { instructions: out } }
}

// ---------------------------------------------------------------------------
// Facts about the passes
// ---------------------------------------------------------------------------

proof fn lemma_exec_push(out: Seq<Instruction>, i: Instruction, st: Seq<Value>, env: Env)
    ensures
        exec(out.push(i), st, env) == then_step(exec(out, st, env), i, env),
{
    assert(out.push(i).drop_last() =~= out);
}

/// The value a constant push leaves on the stack.
pub open spec fn const_value(x: Instruction) -> Value {
    match x {
        Instruction::PushInt(a) => Value::Int(a),
        Instruction::PushBool(b) => Value::Bool(b),
        _ => Value::Bool(false),
    }
}

proof fn lemma_fold_step_exec(out: Seq<Instruction>, i: Instruction, st: Seq<Value>, env: Env)
    ensures
        exec(fold_step(out, i), st, env) == then_step(exec(out, st, env), i, env),
{
    let n = out.len();
    lemma_exec_push(out, i, st, env);
    if n >= 1 && fold_unary(out[n - 1], i) is Some {
        let o = out.drop_last();
        let x = out[n - 1];
        let v = fold_unary(x, i)->Some_0;
        assert(out =~= o.push(x));
        lemma_exec_push(o, x, st, env);
        lemma_exec_push(o, Instruction::PushBool(v), st, env);
        if let Outcome::Running(s0) = exec(o, st, env) {
            let s1 = s0.push(const_value(x));
            assert(s1.subrange(0, s1.len() - 1) =~= s0);
        }
    } else if n >= 2 && fold_binary(out[n - 2], out[n - 1], i) is Some {
        let o = out.subrange(0, n - 2);
        let x = out[n - 2];
        let y = out[n - 1];
        let v = fold_binary(x, y, i)->Some_0;
        assert(out =~= o.push(x).push(y));
        assert(fold_step(out, i) == o.push(Instruction::PushBool(v)));
        lemma_exec_push(o, x, st, env);
        lemma_exec_push(o.push(x), y, st, env);
        lemma_exec_push(o, Instruction::PushBool(v), st, env);
        if let Outcome::Running(s0) = exec(o, st, env) {
            let s2 = s0.push(const_value(x)).push(const_value(y));
            assert(s2.subrange(0, s2.len() - 2) =~= s0);
            assert(s2[s2.len() - 2] == const_value(x));
            assert(s2[s2.len() - 1] == const_value(y));
        }
    }
}

/// Constant folding changes no run, from any stack, in any environment.
pub proof fn lemma_fold_exec(s: Seq<Instruction>, st: Seq<Value>, env: Env)
    ensures
        exec(fold_spec(s), st, env) == exec(s, st, env),
    decreases s.len(),
{
    if s.len() > 0 {
        lemma_fold_exec(s.drop_last(), st, env);
        lemma_fold_step_exec(fold_spec(s.drop_last()), s.last(), st, env);
    }
}

/// Appending `i` to code with nothing to fold, where `i` does not fold with
/// what precedes it, leaves nothing to fold.
proof fn lemma_fold_normal_push(out: Seq<Instruction>, i: Instruction)
    requires
        fold_normal(out),
        !(out.len() >= 1 && fold_unary(out[out.len() - 1], i) is Some),
        !(out.len() >= 2 && fold_binary(out[out.len() - 2], out[out.len() - 1], i) is Some),
    ensures
        fold_normal(out.push(i)),
{
    let r = out.push(i);
    let n = out.len();
    assert forall|j: int| 0 <= j && j + 1 < r.len() implies #[trigger] fold_unary(r[j], r[j + 1]) is None by {
        assert(r[j] == out[j]);
        if j + 1 < n {
            assert(r[j + 1] == out[j + 1]);
        }
    }
    assert forall|j: int| 0 <= j && j + 2 < r.len() implies #[trigger] fold_binary(
        r[j],
        r[j + 1],
        r[j + 2],
    ) is None by {
        assert(r[j] == out[j] && r[j + 1] == out[j + 1]);
        if j + 2 < n {
            assert(r[j + 2] == out[j + 2]);
        }
    }
}

/// Folding leaves nothing to fold.
pub proof fn lemma_fold_normal(s: Seq<Instruction>)
    ensures
        fold_normal(fold_spec(s)),
    decreases s.len(),
{
    if s.len() > 0 {
        lemma_fold_normal(s.drop_last());
        let out = fold_spec(s.drop_last());
        let i = s.last();
        let n = out.len();
        if n >= 1 && fold_unary(out[n - 1], i) is Some {
            lemma_fold_normal_prefix(out, n - 1);
            assert(out.subrange(0, n - 1) =~= out.drop_last());
            lemma_fold_normal_push(
                out.drop_last(),
                Instruction::PushBool(fold_unary(out[n - 1], i)->Some_0),
            );
        } else if n >= 2 && fold_binary(out[n - 2], out[n - 1], i) is Some {
            lemma_fold_normal_prefix(out, n - 2);
            lemma_fold_normal_push(
                out.subrange(0, n - 2),
                Instruction::PushBool(fold_binary(out[n - 2], out[n - 1], i)->Some_0),
            );
        } else {
            lemma_fold_normal_push(out, i);
        }
    }
}

pub proof fn lemma_fold_normal_prefix(s: Seq<Instruction>, k: int)
    requires
        fold_normal(s),
        0 <= k <= s.len(),
    ensures
        fold_normal(s.subrange(0, k)),
{
    let t = s.subrange(0, k);
    assert forall|j: int| 0 <= j && j + 1 < t.len() implies #[trigger] fold_unary(t[j], t[j + 1]) is None by {
        assert(t[j] == s[j] && t[j + 1] == s[j + 1]);
        assert(fold_unary(s[j], s[j + 1]) is None);
    }
    assert forall|j: int| 0 <= j && j + 2 < t.len() implies #[trigger] fold_binary(
        t[j],
        t[j + 1],
        t[j + 2],
    ) is None by {
        assert(t[j] == s[j] && t[j + 1] == s[j + 1] && t[j + 2] == s[j + 2]);
        assert(fold_binary(s[j], s[j + 1], s[j + 2]) is None);
    }
}

/// Folding leaves code with nothing to fold unchanged.
pub proof fn lemma_fold_fixed(s: Seq<Instruction>)
    requires
        fold_normal(s),
    ensures
        fold_spec(s) == s,
    decreases s.len(),
{
    if s.len() > 0 {
        let p = s.drop_last();
        lemma_fold_normal_prefix(s, s.len() - 1);
        assert(s.subrange(0, s.len() - 1) =~= p);
        lemma_fold_fixed(p);
        let n = p.len();
        if n >= 1 {
            assert(s[n - 1] == p[n - 1]);
            let j = n - 1;
            assert(fold_unary(s[j], s[j + 1]) is None);
        }
        if n >= 2 {
            assert(s[n - 2] == p[n - 2]);
            let j = n - 2;
            assert(fold_binary(s[j], s[j + 1], s[j + 2]) is None);
        }
        assert(fold_step(p, s.last()) == p.push(s.last()));
        assert(p.push(s.last()) =~= s);
    }
}

proof fn lemma_not_return_free_stops(s: Seq<Instruction>, st: Seq<Value>, env: Env)
    requires
        !return_free(s),
    ensures
        !(exec(s, st, env) is Running),
    decreases s.len(),
{
    let p = s.drop_last();
    if !(s.last() is Return) {
        let j = choose|j: int| 0 <= j < s.len() && #[trigger] s[j] is Return;
        assert(p[j] == s[j]);
        lemma_not_return_free_stops(p, st, env);
    }
}

/// Dead-code elimination changes no run.
pub proof fn lemma_dce_exec(s: Seq<Instruction>, st: Seq<Value>, env: Env)
    ensures
        exec(dce_spec(s), st, env) == exec(s, st, env),
    decreases s.len(),
{
    if s.len() > 0 && !return_free(s.drop_last()) {
        lemma_dce_exec(s.drop_last(), st, env);
        lemma_not_return_free_stops(s.drop_last(), st, env);
    }
}

/// After dead-code elimination nothing follows the first `Return`: a
/// `Return` can only be the last instruction.
pub proof fn lemma_dce_truncates(s: Seq<Instruction>)
    ensures
        dce_spec(s).len() == 0 || return_free(dce_spec(s).drop_last()),
        dce_spec(s).len() <= s.len(),
        dce_spec(s) == s.subrange(0, dce_spec(s).len() as int),
        !return_free(s) ==> dce_spec(s).len() > 0 && dce_spec(s).last() is Return,
    decreases s.len(),
{
    if s.len() == 0 || return_free(s.drop_last()) {
        assert(s =~= s.subrange(0, s.len() as int));
        if !return_free(s) {
            let j = choose|j: int| 0 <= j < s.len() && #[trigger] s[j] is Return;
            if j < s.len() - 1 {
                assert(s.drop_last()[j] is Return);
            }
        }
    } else {
        lemma_dce_truncates(s.drop_last());
        let d = dce_spec(s.drop_last());
        assert(s.drop_last().subrange(0, d.len() as int) =~= s.subrange(0, d.len() as int));
    }
}

/// Code whose only possible `Return` is its last instruction is left alone
/// by dead-code elimination.
pub proof fn lemma_dce_fixed(s: Seq<Instruction>)
    requires
        s.len() == 0 || return_free(s.drop_last()),
    ensures
        dce_spec(s) == s,
{
}

proof fn lemma_yields_bool_top(i: Instruction, st: Seq<Value>, env: Env)
    requires
        yields_bool(i),
        step(i, st, env) is Running,
    ensures
        step(i, st, env)->Running_0.len() >= 1,
        step(i, st, env)->Running_0.last() is Bool,
{
}

proof fn lemma_comb_step_exec(out: Seq<Instruction>, i: Instruction, st: Seq<Value>, env: Env)
    ensures
        exec(comb_step(out, i), st, env) == then_step(exec(out, st, env), i, env),
{
    let n = out.len();
    lemma_exec_push(out, i, st, env);
    if i is Not && n >= 2 && out[n - 1] is Not && yields_bool(out[n - 2]) {
        let o = out.drop_last();
        assert(out =~= o.push(Instruction::Not));
        lemma_exec_push(o, Instruction::Not, st, env);
        let x = o.last();
        lemma_exec_push(o.drop_last(), x, st, env);
        assert(o.drop_last().push(x) =~= o);
        if let Outcome::Running(s0) = exec(o, st, env) {
            if let Outcome::Running(sp) = exec(o.drop_last(), st, env) {
                lemma_yields_bool_top(x, sp, env);
            }
            let b = s0.last()->Bool_0;
            let s1 = s0.subrange(0, s0.len() - 1).push(Value::Bool(!b));
            assert(s1.subrange(0, s1.len() - 1) =~= s0.subrange(0, s0.len() - 1));
            assert(s1.subrange(0, s1.len() - 1).push(Value::Bool(!!b)) =~= s0);
        }
    }
}

/// Instruction combining changes no run.
pub proof fn lemma_comb_exec(s: Seq<Instruction>, st: Seq<Value>, env: Env)
    ensures
        exec(comb_spec(s), st, env) == exec(s, st, env),
    decreases s.len(),
{
    if s.len() > 0 {
        lemma_comb_exec(s.drop_last(), st, env);
        lemma_comb_step_exec(comb_spec(s.drop_last()), s.last(), st, env);
    }
}

pub proof fn lemma_comb_normal(s: Seq<Instruction>)
    ensures
        comb_normal(comb_spec(s)),
    decreases s.len(),
{
    if s.len() > 0 {
        lemma_comb_normal(s.drop_last());
        let out = comb_spec(s.drop_last());
        let r = comb_spec(s);
        let n = out.len();
        assert forall|j: int| 0 <= j && j + 2 < r.len() implies !(yields_bool(#[trigger] r[j])
            && r[j + 1] is Not && r[j + 2] is Not) by {
            if j + 2 < n {
                assert(r[j] == out[j] && r[j + 1] == out[j + 1] && r[j + 2] == out[j + 2]);
            }
        }
    }
}

/// Combining leaves code with nothing to combine unchanged.
pub proof fn lemma_comb_fixed(s: Seq<Instruction>)
    requires
        comb_normal(s),
    ensures
        comb_spec(s) == s,
    decreases s.len(),
{
    if s.len() > 0 {
        let p = s.drop_last();
        assert forall|j: int| 0 <= j && j + 2 < p.len() implies !(yields_bool(#[trigger] p[j])
            && p[j + 1] is Not && p[j + 2] is Not) by {
            assert(p[j] == s[j] && p[j + 1] == s[j + 1] && p[j + 2] == s[j + 2]);
        }
        lemma_comb_fixed(p);
        let n = p.len();
        if n >= 2 {
            assert(s[n - 2] == p[n - 2] && s[n - 1] == p[n - 1]);
        }
        assert(p.push(s.last()) =~= s);
    }
}

/// Combining keeps `Return`-free code `Return`-free.
proof fn lemma_comb_return_free(s: Seq<Instruction>)
    requires
        return_free(s),
    ensures
        return_free(comb_spec(s)),
    decreases s.len(),
{
    if s.len() > 0 {
        let p = s.drop_last();
        assert forall|j: int| 0 <= j < p.len() implies !(#[trigger] p[j] is Return) by {
            assert(p[j] == s[j]);
        }
        lemma_comb_return_free(p);
        let out = comb_spec(p);
        let r = comb_spec(s);
        assert forall|j: int| 0 <= j < r.len() implies !(#[trigger] r[j] is Return) by {
            if j < out.len() {
                assert(r[j] == out[j]);
            } else {
                assert(r[j] == s.last());
            }
        }
    }
}

/// Combining keeps the shape that dead-code elimination leaves.
pub proof fn lemma_comb_keeps_dce_shape(s: Seq<Instruction>)
    requires
        s.len() == 0 || return_free(s.drop_last()),
    ensures
        comb_spec(s).len() == 0 || return_free(comb_spec(s).drop_last()),
{
    if s.len() > 0 {
        let p = s.drop_last();
        lemma_comb_return_free(p);
        let out = comb_spec(p);
        let r = comb_spec(s);
        assert forall|j: int| 0 <= j < r.drop_last().len() implies !(
        #[trigger] r.drop_last()[j] is Return) by {
            assert(r.drop_last()[j] == out[j]);
        }
    }
}

pub open spec fn is_const(x: Instruction) -> bool {
    x is PushBool || x is PushInt
}

/// What combining remembers of its input at the end of its output.
pub open spec fn comb_tail_ok(out: Seq<Instruction>, p: Seq<Instruction>) -> bool {
    &&& fold_normal(out)
    &&& (out.len() >= 1 && is_const(out.last())) ==> (p.len() >= 1 && out.last() == p.last())
    &&& (out.len() >= 2 && is_const(out[out.len() - 1]) && is_const(out[out.len() - 2])) ==> (
    p.len() >= 2 && out[out.len() - 2] == p[p.len() - 2])
}

proof fn lemma_comb_tail(s: Seq<Instruction>)
    requires
        fold_normal(s),
    ensures
        comb_tail_ok(comb_spec(s), s),
    decreases s.len(),
{
    if s.len() > 0 {
        let p = s.drop_last();
        lemma_fold_normal_prefix(s, s.len() - 1);
        assert(s.subrange(0, s.len() - 1) =~= p);
        lemma_comb_tail(p);
        let out = comb_spec(p);
        let i = s.last();
        let r = comb_spec(s);
        let n = out.len();
        let m = p.len();
        if i is Not && n >= 2 && out[n - 1] is Not && yields_bool(out[n - 2]) {
            assert(r =~= out.subrange(0, n - 1));
            lemma_fold_normal_prefix(out, n - 1);
            let j = n - 2;
            assert(fold_unary(out[j], out[j + 1]) is None);
            assert(!is_const(r.last()));
        } else {
            assert(r == out.push(i));
            if n >= 1 && is_const(out[n - 1]) {
                assert(s[m - 1] == p[m - 1]);
                let j = m - 1;
                assert(fold_unary(s[j], s[j + 1]) is None);
            }
            if n >= 2 && is_const(out[n - 1]) && is_const(out[n - 2]) {
                assert(s[m - 2] == p[m - 2] && s[m - 1] == p[m - 1]);
                let j = m - 2;
                assert(fold_binary(s[j], s[j + 1], s[j + 2]) is None);
            }
            lemma_fold_normal_push(out, i);
        }
    }
}

/// Combining code with nothing to fold leaves nothing to fold.
pub proof fn lemma_comb_keeps_fold_normal(s: Seq<Instruction>)
    requires
        fold_normal(s),
    ensures
        fold_normal(comb_spec(s)),
{
    lemma_comb_tail(s);
}

/// Folding keeps a `Return`: it only merges constants with the operator
/// applied to them.
pub proof fn lemma_fold_keeps_return(s: Seq<Instruction>)
    requires
        !return_free(s),
    ensures
        !return_free(fold_spec(s)),
    decreases s.len(),
{
    let p = s.drop_last();
    let i = s.last();
    let out = fold_spec(p);
    let r = fold_spec(s);
    let n = out.len();
    if i is Return {
        assert(r == out.push(i));
        assert(r[n as int] is Return);
    } else {
        let j = choose|j: int| 0 <= j < s.len() && #[trigger] s[j] is Return;
        assert(p[j] is Return);
        lemma_fold_keeps_return(p);
        let q = choose|q: int| 0 <= q < out.len() && #[trigger] out[q] is Return;
        if n >= 1 && fold_unary(out[n - 1], i) is Some {
            assert(q < n - 1);
            assert(r[q] == out[q]);
        } else if n >= 2 && fold_binary(out[n - 2], out[n - 1], i) is Some {
            assert(q < n - 2);
            assert(r[q] == out[q]);
        } else {
            assert(r[q] == out[q]);
        }
    }
}

/// Combining keeps a final `Return` last.
pub proof fn lemma_comb_keeps_last_return(s: Seq<Instruction>)
    requires
        s.len() > 0,
        s.last() is Return,
    ensures
        comb_spec(s).len() > 0,
        comb_spec(s).last() is Return,
{
}

} // verus!
