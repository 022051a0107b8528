//! Expressions of the HLIR: the syntax-tree shapes with names replaced by
//! resolved ids and every node carrying the inference id of its type.

use vstd::prelude::*;

use crate::hlir::functions::FunctionId;
use crate::hlir::inference::InferenceId;
use crate::hlir::literals::Literal;
use crate::hlir::package::HLIRPackage;
use crate::hlir::variables::VariableId;

verus! {

/// An expression in the HLIR.
#[derive(Debug, PartialEq, Eq)]
pub enum Expression {
    Variable(VariableId),
    Literal(Literal),
    FunctionCall(FunctionCall),
    UnaryOperation(UnaryOperation),
    BinaryOperation(BinaryOperation),
    TypeCast(TypeCast),
}

impl Expression {
    /// The inference id that carries this expression's type. A variable
    /// reference owns no id of its own: its type lives with the variable,
    /// so the caller supplies the variable table's answer for it.
    pub open spec fn spec_ty(&self, var_ty: Option<InferenceId>) -> Option<InferenceId> {
        match self {
            Expression::Variable(_) => var_ty,
            Expression::Literal(l) => Some(l.spec_ty()),
            Expression::FunctionCall(c) => Some(c.result),
            Expression::UnaryOperation(u) => Some(u.result),
            Expression::BinaryOperation(b) => Some(b.result),
            Expression::TypeCast(t) => Some(t.target_type),
        }
    }

    /// The inference id carrying this expression's type within a package;
    /// `None` only for a variable reference whose id the package does not
    /// know, which cannot arise from expressions the package built.
    pub fn ty(&self, package: &HLIRPackage) -> (r: Option<InferenceId>)
        ensures
            r == crate::hlir::package::spec_expr_ty(package, self),
    {
        match self {
            Expression::Variable(v) => package.variables.get_type(*v),
            Expression::Literal(l) => Some(l.ty()),
            Expression::FunctionCall(c) => Some(c.result),
            Expression::UnaryOperation(u) => Some(u.result),
            Expression::BinaryOperation(b) => Some(b.result),
            Expression::TypeCast(t) => Some(t.target_type),
        }
    }
}

/// A call: the resolved callee, the argument expressions, and the inference
/// id of the result.
#[derive(Debug, PartialEq, Eq)]
pub struct FunctionCall {
    pub function: FunctionId,
    pub arguments: Vec<Expression>,
    pub result: InferenceId,
}

/// A unary operation and the inference id of its result.
#[derive(Debug, PartialEq, Eq)]
pub struct UnaryOperation {
    pub operator: UnaryOperator,
    pub operand: Box<Expression>,
    pub result: InferenceId,
}

/// The unary operators.
#[derive(Debug, Clone, Copy, PartialEq, Eq, Structural)]
pub enum UnaryOperator {
    Negation,
    BitwiseNot,
    LogicalNot,
    Deref,
    Ref,
}

/// A binary operation and the inference id of its result.
#[derive(Debug, PartialEq, Eq)]
pub struct BinaryOperation {
    pub left: Box<Expression>,
    pub operator: BinaryOperator,
    pub right: Box<Expression>,
    pub result: InferenceId,
}

/// The binary operators.
#[derive(Debug, Clone, Copy, PartialEq, Eq, Structural)]
pub enum BinaryOperator {
    Addition,
    Subtraction,
    Multiplication,
    Division,
    Remainder,
    BitwiseAnd,
    BitwiseOr,
    BitwiseXor,
    BitwiseShiftLeft,
    BitwiseShiftRight,
    LogicalAnd,
    LogicalOr,
    Equals,
    NotEquals,
    LessThan,
    LessThanOrEqual,
    GreaterThan,
    GreaterThanOrEqual,
}

impl BinaryOperator {
    /// Comparison, equality and logical operators produce a boolean;
    /// the arithmetic, bitwise and shift operators produce their left
    /// operand's type.
    pub open spec fn spec_is_boolean(self) -> bool {
        match self {
            BinaryOperator::LogicalAnd | BinaryOperator::LogicalOr | BinaryOperator::Equals
            | BinaryOperator::NotEquals | BinaryOperator::LessThan
            | BinaryOperator::LessThanOrEqual | BinaryOperator::GreaterThan
            | BinaryOperator::GreaterThanOrEqual => true,
            _ => false,
        }
    }
}

/// A cast of an expression to an annotated type.
#[derive(Debug, PartialEq, Eq)]
pub struct TypeCast {
    pub expression: Box<Expression>,
    pub target_type: InferenceId,
}

} // verus!
