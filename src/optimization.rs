//! Optimization passes over the IR, selected by an optimization level.
pub mod passes;

use vstd::prelude::*;
use crate::ast::lowering::{Instruction, LoweredModule, module_code};
use crate::ast::semantics::{exec, run, Env, Value};
use crate::optimization::passes::{
    comb_spec, constant_folding, dce_spec, dead_code_elimination, fold_spec, instruction_combining,
    lemma_comb_exec, lemma_comb_fixed, lemma_comb_keeps_dce_shape, lemma_comb_keeps_fold_normal,
    lemma_comb_keeps_last_return, lemma_comb_normal, lemma_dce_exec, lemma_dce_fixed,
    lemma_dce_truncates, lemma_fold_exec, lemma_fold_keeps_return, lemma_fold_fixed, lemma_fold_normal, lemma_fold_normal_prefix, return_free,
};

verus! {

/// The code `optimize` produces at a level: 0 leaves it alone; 1 folds
/// constants and drops dead code; 2 and above also combine instructions.
pub open spec fn optimize_spec(s: Seq<Instruction>, level: u8) -> Seq<Instruction> {
    if level == 0 {
        s
    } else if level == 1 {
        dce_spec(fold_spec(s))
    } else {
        comb_spec(dce_spec(fold_spec(s)))
    }
}

/// Apply the optimization passes of a level to a module.
pub fn optimize(module: LoweredModule, opt_level: u8) -> (r: LoweredModule)
    ensures
        module_code(r) == optimize_spec(module_code(module), opt_level),
{
    let mut optimized = module;
    if opt_level >= 1 {
        optimized = constant_folding(optimized);
        optimized = dead_code_elimination(optimized);
    }
    if opt_level >= 2 {
        optimized = instruction_combining(optimized);
    }
    optimized
}

/// Optimizing changes no run, from any stack, in any environment.
pub proof fn lemma_optimize_exec(s: Seq<Instruction>, level: u8, st: Seq<Value>, env: Env)
    ensures
        exec(optimize_spec(s, level), st, env) == exec(s, st, env),
{
    lemma_fold_exec(s, st, env);
    lemma_dce_exec(fold_spec(s), st, env);
    lemma_comb_exec(dce_spec(fold_spec(s)), st, env);
}

/// Any two optimization levels give the same decision for every module and
/// every environment.
pub proof fn lemma_levels_agree(m: LoweredModule, l1: u8, l2: u8, env: Env)
    ensures
        run(optimize_spec(module_code(m), l1), env) == run(optimize_spec(module_code(m), l2), env),
{
    lemma_optimize_exec(module_code(m), l1, Seq::empty(), env);
    lemma_optimize_exec(module_code(m), l2, Seq::empty(), env);
}

/// From level 1 on, no instruction follows a `Return`, and code that had a
/// `Return` still ends with one.
pub proof fn lemma_nothing_after_return(s: Seq<Instruction>, level: u8)
    requires
        level >= 1,
    ensures
        optimize_spec(s, level).len() == 0 || return_free(optimize_spec(s, level).drop_last()),
        !return_free(s) ==> optimize_spec(s, level).len() > 0 && optimize_spec(
            s,
            level,
        ).last() is Return,
{
    lemma_dce_truncates(fold_spec(s));
    lemma_comb_keeps_dce_shape(dce_spec(fold_spec(s)));
    if !return_free(s) {
        lemma_fold_keeps_return(s);
        lemma_comb_keeps_last_return(dce_spec(fold_spec(s)));
    }
}

/// Optimizing twice at a level gives what optimizing once does.
pub proof fn lemma_optimize_idempotent(s: Seq<Instruction>, level: u8)
    ensures
        optimize_spec(optimize_spec(s, level), level) == optimize_spec(s, level),
{
    if level >= 1 {
        let f = fold_spec(s);
        let u = dce_spec(f);
        lemma_fold_normal(s);
        lemma_dce_truncates(f);
        lemma_fold_normal_prefix(f, u.len() as int);
        if level == 1 {
            lemma_fold_fixed(u);
            lemma_dce_fixed(u);
        } else {
            let t = comb_spec(u);
            lemma_comb_keeps_fold_normal(u);
            lemma_fold_fixed(t);
            lemma_comb_keeps_dce_shape(u);
            lemma_dce_fixed(t);
            lemma_comb_normal(u);
            lemma_comb_fixed(t);
        }
    }
}

} // verus!
