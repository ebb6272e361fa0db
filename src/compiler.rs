//! Compiler orchestration: lower, optimize, generate.
use vstd::prelude::*;
use vstd::string::*;
use crate::ast::expr::{Effect, Expr, Policy, Template};
use crate::ast::lowering::{
    effect_decision, eval_expr, lemma_policy_decision, lemma_rejection_names_construct,
    names_construct_of, lemma_policy_rejected_exactly_when_unsupported,
    lower_expr, lower_policy, module_code, supported, LoweredModule,
};
use crate::ast::semantics::{run, Env, Value};
use crate::optimization::{lemma_optimize_exec, optimize, optimize_spec};
use crate::wasm::runtime::Decision;
use crate::wasm::codegen::{generated, WasmCodeGen};

verus! {

/// Errors, tagged with the stage that raised them.
#[derive(Debug)]
pub enum CompilerError {
    /// The source text is not a policy.
    ParseError(String),
    /// The policy uses a construct the lowering does not support.
    CompilationError(String),
    /// Reading the input or writing the output failed.
    IoError(String),
    /// The IR holds an instruction the code generator cannot lower yet.
    WasmError(String),
}

pub type CompilerResult<T> = Result<T, CompilerError>;

impl CompilerError {
    /// The error's text, prefixed by its stage.
    pub fn message(&self) -> (r: String)
        ensures
            r@ == match self {
                CompilerError::ParseError(m) => "Parse error: "@ + m@,
                CompilerError::CompilationError(m) => "Compilation error: "@ + m@,
                CompilerError::IoError(m) => "IO error: "@ + m@,
                CompilerError::WasmError(m) => "WASM encoding error: "@ + m@,
            },
    {
        proof {
            reveal_strlit("Parse error: ");
            reveal_strlit("Compilation error: ");
            reveal_strlit("IO error: ");
            reveal_strlit("WASM encoding error: ");
        }
        match self {
            CompilerError::ParseError(m) => String::from_str("Parse error: ").concat(m.as_str()),
            CompilerError::CompilationError(m) => String::from_str("Compilation error: ").concat(
                m.as_str(),
            ),
            CompilerError::IoError(m) => String::from_str("IO error: ").concat(m.as_str()),
            CompilerError::WasmError(m) => String::from_str("WASM encoding error: ").concat(
                m.as_str(),
            ),
        }
    }
}

/// A result against what code generation gives, its error tagged as
/// `WasmError`.
pub open spec fn generated_with_stage(r: CompilerResult<Vec<u8>>, g: Result<Seq<u8>, Seq<char>>) -> bool {
    match g {
        Ok(bytes) => r matches Ok(b) && b@ == bytes,
        Err(msg) => r matches Err(CompilerError::WasmError(e)) && e@ == msg,
    }
}

/// What compiling a policy with this effect and condition at a level must
/// give: the lowering error, else the code generator's error on the
/// optimized code, else exactly the module `generate` makes of it.
pub open spec fn compiled_as(
    r: CompilerResult<Vec<u8>>,
    effect: Effect,
    condition: Expr,
    level: u8,
) -> bool {
    match lower_policy(effect, condition) {
        Err(msg) => r matches Err(CompilerError::CompilationError(e)) && e@ == msg,
        Ok(code) => generated_with_stage(r, generated(optimize_spec(code, level))),
    }
}

/// Cedar to WebAssembly compiler.
pub struct Compiler {
    /// Optimization level (0 = none, 1 = basic, 2 = aggressive).
    opt_level: u8,
}

impl Compiler {
    /// The optimization level in effect.
    pub closed spec fn level(&self) -> u8 {
        self.opt_level
    }

    /// Create a new compiler with default settings (level 1).
    pub fn new() -> (r: Self)
        ensures
            r.level() == 1,
    {
        Self { opt_level: 1 }
    }

    /// Set the optimization level, clamped to 2.
    pub fn with_opt_level(self, level: u8) -> (r: Self)
        ensures
            r.level() == if level > 2 {
                2
            } else {
                level
            },
    {
        let opt_level = if level > 2 {
            2
        } else {
            level
        };
        Self { opt_level }
    }

    pub fn opt_level(&self) -> (r: u8)
        ensures
            r == self.level(),
    {
        self.opt_level
    }

    /// Compile a parsed template (which may be a static policy).
    pub fn compile_template(&self, template: &Template) -> (r: CompilerResult<Vec<u8>>)
        ensures
            compiled_as(r, template.effect, template.condition, self.level()),
    {
        let ir = match LoweredModule::from_template(template) {
            Ok(m) => m,
            Err(e) => {
                return Err(CompilerError::CompilationError(e));
            },
        };
        self.finish(ir)
    }

    /// Compile a parsed static policy.
    pub fn compile_policy(&self, policy: &Policy) -> (r: CompilerResult<Vec<u8>>)
        ensures
            compiled_as(r, policy.effect, policy.condition, self.level()),
    {
        let ir = match LoweredModule::from_policy(policy) {
            Ok(m) => m,
            Err(e) => {
                return Err(CompilerError::CompilationError(e));
            },
        };
        self.finish(ir)
    }

    /// Optimize and generate.
    fn finish(&self, ir: LoweredModule) -> (r: CompilerResult<Vec<u8>>)
        ensures
            generated_with_stage(r, generated(optimize_spec(module_code(ir), self.level()))),
    {
        let optimized_ir = optimize(ir, self.opt_level);
        let mut codegen = WasmCodeGen::new();
        match codegen.generate(&optimized_ir) {
            Ok(bytes) => Ok(bytes),
            Err(e) => Err(CompilerError::WasmError(e)),
        }
    }
}

impl Default for Compiler {
    fn default() -> (r: Self)
        ensures
            r.level() == 1,
    {
        Self::new()
    }
}

/// A policy whose condition uses an unsupported construct fails to compile
/// with a `CompilationError` that names one of those constructs, whatever the
/// level, and yields no module.
pub proof fn lemma_unsupported_is_compilation_error(
    r: CompilerResult<Vec<u8>>,
    effect: Effect,
    condition: Expr,
    level: u8,
)
    requires
        compiled_as(r, effect, condition, level),
        !supported(condition),
    ensures
        r matches Err(CompilerError::CompilationError(m)) && names_construct_of(condition, m@),
{
    lemma_policy_rejected_exactly_when_unsupported(effect, condition);
    lemma_rejection_names_construct(condition);
}

/// At every optimization level, the code compiled for a policy yields its
/// effect's decision when the condition is true and `NoDecision` when it is
/// false.
pub proof fn lemma_compiled_decision(effect: Effect, condition: Expr, level: u8, env: Env)
    requires
        lower_expr(condition) is Ok,
        eval_expr(condition, env) matches Some(Value::Bool(_)),
    ensures
        run(optimize_spec(lower_policy(effect, condition)->Ok_0, level), env) == if eval_expr(
            condition,
            env,
        ) == Some(Value::Bool(true)) {
            effect_decision(effect)
        } else {
            Decision::NoDecision
        },
{
    lemma_policy_decision(effect, condition, env);
    lemma_optimize_exec(lower_policy(effect, condition)->Ok_0, level, Seq::empty(), env);
}

} // verus!
