//! Statements of the HLIR, mirroring the syntax-tree shapes with resolved
//! ids. A block keeps the scope blocks it owned so later consumers can read
//! the bindings made in it.

use vstd::prelude::*;

use crate::hlir::expressions::Expression;
use crate::hlir::type_scope::TypeScopeId;
use crate::hlir::variable_scope::VariableScopeBlockId;
use crate::hlir::variables::VariableId;

verus! {

/// A statement in the HLIR.
#[derive(Debug, PartialEq, Eq)]
pub enum Statement {
    Block(Block),
    Let(Let),
    If(If),
    While(While),
    Return(Return),
    Expression(Expression),
}

/// A `{}` block: the scope blocks it owned and its statements in order.
#[derive(Debug, PartialEq, Eq)]
pub struct Block {
    pub variable_scope: VariableScopeBlockId,
    pub type_scope: TypeScopeId,
    pub statements: Vec<Statement>,
}

/// A variable declaration: the declared variable and its initializer.
#[derive(Debug, PartialEq, Eq)]
pub struct Let {
    pub variable: VariableId,
    pub value: Expression,
}

/// An `if` statement with an optional `else` branch.
#[derive(Debug, PartialEq, Eq)]
pub struct If {
    pub condition: Expression,
    pub then_branch: Box<Statement>,
    pub else_branch: Option<Box<Statement>>,
}

/// A `while` loop.
#[derive(Debug, PartialEq, Eq)]
pub struct While {
    pub condition: Expression,
    pub body: Box<Statement>,
}

/// A `return`, with or without a value.
#[derive(Debug, PartialEq, Eq)]
pub struct Return {
    pub value: Option<Expression>,
}

impl Return {
    /// A `return;` with no value.
    #[must_use]
    pub fn void() -> (r: Self)
        ensures
            r.value is None,
    {
        Self { value: None }
    }
}

} // verus!
