use cedar_policy_compiler::ast::lowering::{Instruction, LoweredFunction, LoweredModule};
use cedar_policy_compiler::optimization::optimize;
use cedar_policy_compiler::optimization::passes::{
    constant_folding, dead_code_elimination, instruction_combining,
};

fn module(instructions: Vec<Instruction>) -> LoweredModule {
    LoweredModule { entry: LoweredFunction { instructions } }
}

#[test]
fn test_dead_code_elimination() {
    let module = LoweredModule {
        entry: LoweredFunction {
            instructions: vec![
                Instruction::PushBool(true),
                Instruction::Return,
                Instruction::PushBool(false), // Dead code
            ],
        },
    };
    let optimized = dead_code_elimination(module);
    assert_eq!(optimized.entry.instructions.len(), 2);
}

#[test]
fn dead_code_truncated_after_first_return() {
    let m = module(vec![Instruction::PushBool(true), Instruction::Return, Instruction::PushBool(false)]);
    let optimized = optimize(m, 1);
    assert_eq!(optimized.entry.instructions, vec![Instruction::PushBool(true), Instruction::Return]);
}

#[test]
fn dead_code_keeps_code_without_return() {
    let code = vec![Instruction::PushInt(4), Instruction::PushInt(5), Instruction::Equal];
    let optimized = dead_code_elimination(module(code.clone()));
    assert_eq!(optimized.entry.instructions, code);
}

#[test]
fn dead_code_cut_at_first_of_two_returns() {
    let m = module(vec![
        Instruction::Permit,
        Instruction::Return,
        Instruction::Forbid,
        Instruction::Return,
    ]);
    assert_eq!(
        dead_code_elimination(m).entry.instructions,
        vec![Instruction::Permit, Instruction::Return]
    );
}

#[test]
fn constant_folding_and_not_chain() {
    let m = module(vec![
        Instruction::PushBool(true),
        Instruction::PushBool(false),
        Instruction::And,
        Instruction::Not,
        Instruction::Return,
    ]);
    assert_eq!(
        constant_folding(m).entry.instructions,
        vec![Instruction::PushBool(true), Instruction::Return]
    );
}

#[test]
fn constant_folding_or() {
    let m = module(vec![
        Instruction::PushBool(false),
        Instruction::PushBool(false),
        Instruction::Or,
        Instruction::PushBool(true),
        Instruction::Or,
    ]);
    assert_eq!(constant_folding(m).entry.instructions, vec![Instruction::PushBool(true)]);
}

#[test]
fn constant_folding_leaves_non_constants() {
    let code = vec![Instruction::PushInt(1), Instruction::Not, Instruction::PushBool(true), Instruction::And];
    assert_eq!(constant_folding(module(code.clone())).entry.instructions, code);
}

#[test]
fn instruction_combining_cancels_double_negation() {
    let m = module(vec![
        Instruction::PushInt(1),
        Instruction::PushInt(2),
        Instruction::LessThan,
        Instruction::Not,
        Instruction::Not,
        Instruction::Not,
        Instruction::Not,
        Instruction::Return,
    ]);
    assert_eq!(
        instruction_combining(m).entry.instructions,
        vec![Instruction::PushInt(1), Instruction::PushInt(2), Instruction::LessThan, Instruction::Return]
    );
}

#[test]
fn instruction_combining_keeps_negation_of_non_boolean() {
    let code = vec![Instruction::PushInt(1), Instruction::Not, Instruction::Not];
    assert_eq!(instruction_combining(module(code.clone())).entry.instructions, code);
}

#[test]
fn level_zero_applies_no_pass() {
    let code = vec![
        Instruction::PushBool(true),
        Instruction::Not,
        Instruction::Return,
        Instruction::PushBool(false),
    ];
    assert_eq!(optimize(module(code.clone()), 0).entry.instructions, code);
}

#[test]
fn level_one_folds_constant_comparisons_and_negations() {
    let code = vec![
        Instruction::Permit,
        Instruction::NoDecision,
        Instruction::PushInt(1),
        Instruction::PushInt(2),
        Instruction::Equal,
        Instruction::Not,
        Instruction::Not,
        Instruction::PushBool(true),
        Instruction::Not,
        Instruction::Or,
        Instruction::IfThenElse,
        Instruction::Return,
        Instruction::Return,
    ];
    let expected = vec![
        Instruction::Permit,
        Instruction::NoDecision,
        Instruction::PushBool(false),
        Instruction::IfThenElse,
        Instruction::Return,
    ];
    assert_eq!(optimize(module(code.clone()), 1).entry.instructions, expected);
    assert_eq!(optimize(module(code), 2).entry.instructions, expected);
}

#[test]
fn level_two_combines_after_folding() {
    let code = vec![
        Instruction::Permit,
        Instruction::NoDecision,
        Instruction::PushString("a".to_string()),
        Instruction::PushString("b".to_string()),
        Instruction::Equal,
        Instruction::Not,
        Instruction::Not,
        Instruction::PushBool(true),
        Instruction::Not,
        Instruction::Or,
        Instruction::IfThenElse,
        Instruction::Return,
        Instruction::Return,
    ];
    let expected = vec![
        Instruction::Permit,
        Instruction::NoDecision,
        Instruction::PushString("a".to_string()),
        Instruction::PushString("b".to_string()),
        Instruction::Equal,
        Instruction::PushBool(false),
        Instruction::Or,
        Instruction::IfThenElse,
        Instruction::Return,
    ];
    assert_eq!(optimize(module(code.clone()), 2).entry.instructions, expected);
    assert_eq!(optimize(module(code), 7).entry.instructions, expected);
}

#[test]
fn constant_folding_integer_comparisons() {
    let cases = vec![
        (Instruction::Equal, false),
        (Instruction::NotEqual, true),
        (Instruction::LessThan, true),
        (Instruction::LessThanOrEqual, true),
        (Instruction::GreaterThan, false),
        (Instruction::GreaterThanOrEqual, false),
    ];
    for (op, expected) in cases {
        let m = module(vec![Instruction::PushInt(-3), Instruction::PushInt(7), op]);
        assert_eq!(constant_folding(m).entry.instructions, vec![Instruction::PushBool(expected)]);
    }
    let m = module(vec![Instruction::PushBool(true), Instruction::PushBool(true), Instruction::Equal]);
    assert_eq!(constant_folding(m).entry.instructions, vec![Instruction::PushBool(true)]);
}

#[test]
fn instruction_combining_cancels_negations_of_a_constant() {
    let m = module(vec![
        Instruction::PushBool(true),
        Instruction::Not,
        Instruction::Not,
        Instruction::Return,
    ]);
    assert_eq!(
        instruction_combining(m).entry.instructions,
        vec![Instruction::PushBool(true), Instruction::Return]
    );
}

#[test]
fn optimizing_twice_changes_nothing() {
    let samples = vec![
        vec![Instruction::PushBool(true), Instruction::Return, Instruction::PushBool(false)],
        vec![
            Instruction::PushBool(true),
            Instruction::PushBool(false),
            Instruction::Not,
            Instruction::And,
            Instruction::Not,
            Instruction::Not,
            Instruction::Return,
        ],
        vec![
            Instruction::PushInt(3),
            Instruction::PushInt(3),
            Instruction::Equal,
            Instruction::Not,
            Instruction::Not,
            Instruction::Not,
        ],
    ];
    for code in samples {
        for level in 0u8..=3 {
            let once = optimize(module(code.clone()), level).entry.instructions;
            let twice = optimize(module(once.clone()), level).entry.instructions;
            assert_eq!(once, twice);
        }
    }
}
