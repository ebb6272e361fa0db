//! The subset of Cedar's policy syntax that the compiler reads.
//!
//! A parsed policy is converted into these types before lowering; every
//! expression form the parser can produce has a place here, so that the
//! lowering can name the forms it does not support.
use vstd::prelude::*;

verus! {

/// What a policy contributes when its condition holds.
#[derive(Debug, Clone, Copy, PartialEq, Eq, Structural)]
pub enum Effect {
    Permit,
    Forbid,
}

/// The request variables a condition can refer to.
#[derive(Debug, Clone, Copy, PartialEq, Eq, Structural)]
pub enum Var {
    Principal,
    Action,
    Resource,
    Context,
}

/// Binary operators of the policy language.
#[derive(Debug, Clone, Copy, PartialEq, Eq, Structural)]
pub enum BinaryOp {
    Eq,
    Less,
    LessEq,
    Add,
    Sub,
    Mul,
    In,
    Contains,
    ContainsAll,
    ContainsAny,
    GetTag,
    HasTag,
}

/// Unary operators of the policy language.
#[derive(Debug, Clone, Copy, PartialEq, Eq, Structural)]
pub enum UnaryOp {
    Not,
    Neg,
    IsEmpty,
}

/// Literal values.
#[derive(Debug, Clone)]
pub enum Literal {
    Bool(bool),
    Long(i64),
    String(String),
    /// An entity identifier, held in its canonical text form (`Type::"id"`).
    EntityUID(String),
}

/// A condition expression.
#[allow(inconsistent_fields)]
#[derive(Debug)]
pub enum Expr {
    Lit(Literal),
    BinaryApp { op: BinaryOp, arg1: Box<Expr>, arg2: Box<Expr> },
    UnaryApp { op: UnaryOp, arg: Box<Expr> },
    And { left: Box<Expr>, right: Box<Expr> },
    Or { left: Box<Expr>, right: Box<Expr> },
    GetAttr { expr: Box<Expr>, attr: String },
    HasAttr { expr: Box<Expr>, attr: String },
    If { test_expr: Box<Expr>, then_expr: Box<Expr>, else_expr: Box<Expr> },
    Var(Var),
    /// Any other expression form (sets, records, `like`, `is`, extension
    /// calls, slots, ...), described by its text.
    Other(String),
}

/// A static policy: its effect and its `when` condition (`true` when absent).
#[derive(Debug)]
pub struct Policy {
    pub effect: Effect,
    pub condition: Expr,
}

/// A policy template; its condition may mention slots, which appear as
/// `Expr::Other`.
#[derive(Debug)]
pub struct Template {
    pub effect: Effect,
    pub condition: Expr,
}

/// Name of a binary operator, as error messages spell it.
pub open spec fn binary_op_name(op: BinaryOp) -> Seq<char> {
    match op {
        BinaryOp::Eq => "Eq"@,
        BinaryOp::Less => "Less"@,
        BinaryOp::LessEq => "LessEq"@,
        BinaryOp::Add => "Add"@,
        BinaryOp::Sub => "Sub"@,
        BinaryOp::Mul => "Mul"@,
        BinaryOp::In => "In"@,
        BinaryOp::Contains => "Contains"@,
        BinaryOp::ContainsAll => "ContainsAll"@,
        BinaryOp::ContainsAny => "ContainsAny"@,
        BinaryOp::GetTag => "GetTag"@,
        BinaryOp::HasTag => "HasTag"@,
    }
}

/// Name of a unary operator, as error messages spell it.
pub open spec fn unary_op_name(op: UnaryOp) -> Seq<char> {
    match op {
        UnaryOp::Not => "Not"@,
        UnaryOp::Neg => "Neg"@,
        UnaryOp::IsEmpty => "IsEmpty"@,
    }
}

impl BinaryOp {
    pub fn name(self) -> (r: &'static str)
        ensures
            r@ == binary_op_name(self),
    {
        match self {
            BinaryOp::Eq => "Eq",
            BinaryOp::Less => "Less",
            BinaryOp::LessEq => "LessEq",
            BinaryOp::Add => "Add",
            BinaryOp::Sub => "Sub",
            BinaryOp::Mul => "Mul",
            BinaryOp::In => "In",
            BinaryOp::Contains => "Contains",
            BinaryOp::ContainsAll => "ContainsAll",
            BinaryOp::ContainsAny => "ContainsAny",
            BinaryOp::GetTag => "GetTag",
            BinaryOp::HasTag => "HasTag",
        }
    }
}

impl UnaryOp {
    pub fn name(self) -> (r: &'static str)
        ensures
            r@ == unary_op_name(self),
    {
        match self {
            UnaryOp::Not => "Not",
            UnaryOp::Neg => "Neg",
            UnaryOp::IsEmpty => "IsEmpty",
        }
    }
}

} // verus!
