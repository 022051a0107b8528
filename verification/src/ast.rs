//! The abstract syntax tree of the Tantalum language, as the parser hands
//! it over: items made of statements and expressions, every node wrapped in
//! its source span. Literals keep their raw lexeme (and radix for
//! integers); parsing text into machine values is deferred to later stages.

use vstd::prelude::*;

use crate::span::Spanned;

verus! {

/// A whole parsed file: its top-level items in source order.
#[derive(Debug, PartialEq, Eq)]
pub struct AST(pub Vec<Spanned<Item>>);

/// A top-level item.
#[derive(Debug, PartialEq, Eq)]
pub enum Item {
    Function(Function),
    ExternalFunction(ExternalFunction),
}

impl Item {
    /// The name the item declares.
    pub open spec fn spec_name(&self) -> Seq<char> {
        match self {
            Item::Function(f) => f.name.spec_data()@,
            Item::ExternalFunction(e) => e.name.spec_data()@,
        }
    }
}

/// How many named parameters a parameter list declares.
pub open spec fn spec_named_count(params: Seq<Spanned<Parameter>>) -> int
    decreases params.len(),
{
    if params.len() == 0 {
        0
    } else {
        spec_named_count(params.drop_last()) + match params.last().spec_data() {
            Parameter::Named(_) => 1int,
            Parameter::Variadic => 0int,
        }
    }
}

/// Whether a parameter list contains the `...` marker.
pub open spec fn spec_has_variadic(params: Seq<Spanned<Parameter>>) -> bool
    decreases params.len(),
{
    if params.len() == 0 {
        false
    } else {
        spec_has_variadic(params.drop_last()) || params.last().spec_data() is Variadic
    }
}

/// A function definition.
#[derive(Debug, PartialEq, Eq)]
pub struct Function {
    pub name: Spanned<String>,
    pub parameters: Spanned<Vec<Spanned<Parameter>>>,
    pub return_type: Option<Spanned<Type>>,
    pub body: Spanned<Statement>,
}

/// A function declared but defined elsewhere.
#[derive(Debug, PartialEq, Eq)]
pub struct ExternalFunction {
    pub name: Spanned<String>,
    pub parameters: Spanned<Vec<Spanned<Parameter>>>,
    pub return_type: Option<Spanned<Type>>,
}

/// A parameter of a function.
#[derive(Debug, PartialEq, Eq)]
pub enum Parameter {
    Named(NamedParameter),
    /// The `...` marker: the function accepts extra arguments.
    Variadic,
}

/// A named, typed parameter.
#[derive(Debug, PartialEq, Eq)]
pub struct NamedParameter {
    pub name: Spanned<String>,
    pub ty: Spanned<Type>,
}

/// A type annotation.
#[derive(Debug, PartialEq, Eq)]
pub enum Type {
    Named(NamedType),
    Function(FunctionType),
    Pointer(PointerType),
    SizedArray(SizedArrayType),
    UnsizedArray(UnsizedArrayType),
    Const(ConstType),
}

/// A type referred to by name.
#[derive(Debug, PartialEq, Eq)]
pub struct NamedType {
    pub name: Spanned<String>,
}

/// A function type: parameter types, return type and variadic flag.
#[derive(Debug, PartialEq, Eq)]
pub struct FunctionType {
    pub parameters: Vec<Spanned<Type>>,
    pub return_type: Box<Spanned<Type>>,
    pub is_variadic: bool,
}

/// A pointer to a type.
#[derive(Debug, PartialEq, Eq)]
pub struct PointerType {
    pub ty: Box<Spanned<Type>>,
}

/// An array of a fixed size.
#[derive(Debug, PartialEq, Eq)]
pub struct SizedArrayType {
    pub ty: Box<Spanned<Type>>,
    pub size: Spanned<usize>,
}

/// An array of unknown size.
#[derive(Debug, PartialEq, Eq)]
pub struct UnsizedArrayType {
    pub ty: Box<Spanned<Type>>,
}

/// A constant type modifier.
#[derive(Debug, PartialEq, Eq)]
pub struct ConstType {
    pub ty: Box<Spanned<Type>>,
}

/// A statement.
#[derive(Debug, PartialEq, Eq)]
pub enum Statement {
    Block(Block),
    VariableDeclaration(VariableDeclaration),
    If(If),
    While(While),
    ForInitCondUpdate(ForInitCondUpdate),
    Break,
    Continue,
    Return(Return),
    Expression(Expression),
}

/// A block of statements.
#[derive(Debug, PartialEq, Eq)]
pub struct Block {
    pub statements: Vec<Spanned<Statement>>,
}

/// A `let` declaration with an optional type annotation.
#[derive(Debug, PartialEq, Eq)]
pub struct VariableDeclaration {
    pub name: Spanned<String>,
    pub ty: Option<Spanned<Type>>,
    pub value: Spanned<Expression>,
}

/// An `if` statement with an optional `else` branch.
#[derive(Debug, PartialEq, Eq)]
pub struct If {
    pub condition: Spanned<Expression>,
    pub body: Box<Spanned<Statement>>,
    pub else_branch: Option<Box<Spanned<Statement>>>,
}

/// A `while` loop.
#[derive(Debug, PartialEq, Eq)]
pub struct While {
    pub condition: Spanned<Expression>,
    pub body: Box<Spanned<Statement>>,
}

/// A three-part `for` loop.
#[derive(Debug, PartialEq, Eq)]
pub struct ForInitCondUpdate {
    pub init: Box<Spanned<Statement>>,
    pub condition: Box<Spanned<Statement>>,
    pub update: Box<Spanned<Statement>>,
    pub body: Box<Spanned<Statement>>,
}

/// A `return`, with or without a value.
#[derive(Debug, PartialEq, Eq)]
pub struct Return {
    pub value: Option<Spanned<Expression>>,
}

/// An expression.
#[derive(Debug, PartialEq, Eq)]
pub enum Expression {
    Variable(Variable),
    Literal(Literal),
    FunctionCall(FunctionCall),
    MemberAccess(MemberAccess),
    Index(Index),
    UnaryOperation(UnaryOperation),
    BinaryOperation(BinaryOperation),
    TypeCast(TypeCast),
}

/// A reference to a name.
#[derive(Debug, PartialEq, Eq)]
pub struct Variable {
    pub name: Spanned<String>,
}

/// A call of a callee expression with arguments.
#[derive(Debug, PartialEq, Eq)]
pub struct FunctionCall {
    pub function: Box<Spanned<Expression>>,
    pub arguments: Vec<Spanned<Expression>>,
}

/// An access of a member of an object.
#[derive(Debug, PartialEq, Eq)]
pub struct MemberAccess {
    pub object: Box<Spanned<Expression>>,
    pub member: Spanned<String>,
}

/// An indexing of an object.
#[derive(Debug, PartialEq, Eq)]
pub struct Index {
    pub object: Box<Spanned<Expression>>,
    pub index: Box<Spanned<Expression>>,
}

/// A unary operation.
#[derive(Debug, PartialEq, Eq)]
pub struct UnaryOperation {
    pub operator: Spanned<UnaryOperator>,
    pub operand: Box<Spanned<Expression>>,
}

/// The unary operators.
#[derive(Debug, Clone, Copy, PartialEq, Eq, Structural)]
pub enum UnaryOperator {
    Negation,
    LogicalNegation,
    BitwiseNegation,
    Deref,
    Ref,
}

/// A binary operation.
#[derive(Debug, PartialEq, Eq)]
pub struct BinaryOperation {
    pub left: Box<Spanned<Expression>>,
    pub operator: Spanned<BinaryOperator>,
    pub right: Box<Spanned<Expression>>,
}

/// The binary operators.
#[derive(Debug, Clone, Copy, PartialEq, Eq, Structural)]
pub enum BinaryOperator {
    Addition,
    Subtraction,
    Multiplication,
    Division,
    Modulus,
    BitwiseAnd,
    BitwiseOr,
    BitwiseXor,
    LeftShift,
    RightShift,
    LessThan,
    LessThanOrEqual,
    GreaterThan,
    GreaterThanOrEqual,
    Equal,
    NotEqual,
    LogicalAnd,
    LogicalOr,
    Assignment,
}

/// A cast of a value to an annotated type.
#[derive(Debug, PartialEq, Eq)]
pub struct TypeCast {
    pub ty: Spanned<Type>,
    pub value: Box<Spanned<Expression>>,
}

/// A literal value, kept as its raw lexeme.
#[derive(Debug, PartialEq, Eq)]
pub enum Literal {
    Integer(Integer),
    Float(Float),
    Boolean(Boolean),
    Character(Character),
    String(StringLit),
}

/// An integer literal: its digits and the radix they are written in.
#[derive(Debug, PartialEq, Eq)]
pub struct Integer {
    pub value: Spanned<String>,
    pub radix: u32,
}

/// A float literal.
#[derive(Debug, PartialEq, Eq)]
pub struct Float {
    pub value: Spanned<String>,
}

/// A boolean literal, kept as its lexeme.
#[derive(Debug, PartialEq, Eq)]
pub struct Boolean {
    pub value: Spanned<String>,
}

/// A character literal, kept as its lexeme.
#[derive(Debug, PartialEq, Eq)]
pub struct Character {
    pub value: Spanned<String>,
}

/// A string literal, kept as its lexeme.
#[derive(Debug, PartialEq, Eq)]
pub struct StringLit {
    pub value: Spanned<String>,
}

/// A double-dispatch walk over the syntax tree. Implementors receive one
/// call per node shape; how child nodes are visited is up to the
/// implementor, which lets a pass bound its own recursion.
pub trait ASTVisitor {
    fn visit_ast(&mut self, ast: &AST);

    fn visit_item(&mut self, item: &Item);

    fn visit_function(&mut self, function: &Function);

    fn visit_external_function(&mut self, external_function: &ExternalFunction);

    fn visit_parameter(&mut self, parameter: &Parameter);

    fn visit_type(&mut self, ty: &Type);

    fn visit_statement(&mut self, statement: &Statement);

    fn visit_expression(&mut self, expression: &Expression);

    fn visit_literal(&mut self, literal: &Literal);
}

} // verus!
