//! The body pass: for every function, open its builder, declare its
//! parameters pre-resolved to the prototype's types, lower the body
//! statement tree through the package's `build_*` API, and finish the
//! function, which finalizes type inference for it.

use vstd::prelude::*;

use crate::ast;
use crate::hlir::expressions::Expression;
use crate::hlir::inference::TypeError;
use crate::hlir::package::{env_fully_resolved, HLIRPackage};
use crate::hlir::path::Path;
use crate::hlir::statements::Statement;
use crate::hlir::types::TypeId;
use crate::lowering::prototypes::LOWERING_DEPTH_LIMIT;

verus! {

/// The state of the body pass: the package being filled and the stacks
/// that thread lowered types, statements and expressions between the
/// visit calls.
#[derive(Debug)]
pub struct FunctionLoweringContext {
    /// The package receiving the lowered bodies.
    pub package: HLIRPackage,
    /// Types produced by nested type annotations, innermost on top.
    pub type_stack: Vec<TypeId>,
    /// Statements produced by nested statement nodes.
    pub statement_stack: Vec<Statement>,
    /// Expressions produced by nested expression nodes.
    pub expression_stack: Vec<Expression>,
    /// The remaining recursion budget.
    pub fuel: u64,
}

/// What every step of the body pass guarantees: diagnostics only grow,
/// and the function registrations — names, prototypes and every
/// already-recorded body — are never altered; only new bodies appear.
pub open spec fn body_step(pre: &FunctionLoweringContext, post: &FunctionLoweringContext) -> bool {
    &&& pre.package.spec_diagnostics().len() <= post.package.spec_diagnostics().len()
    &&& post.package.spec_functions().spec_known_paths() == pre.package.spec_functions().spec_known_paths()
    &&& post.package.spec_functions().spec_protos() == pre.package.spec_functions().spec_protos()
    &&& post.package.spec_functions().spec_impls().len() == pre.package.spec_functions().spec_impls().len()
    &&& forall|i: int|
        0 <= i < pre.package.spec_functions().spec_impls().len()
            && pre.package.spec_functions().spec_impls()[i] is Some ==> (#[trigger] post.package.spec_functions().spec_impls()[i]) == pre.package.spec_functions().spec_impls()[i]
}

/// The statement and expression walks never touch the function tables or
/// the open builders at all; they only raise diagnostics and work on the
/// inference environment, the scopes and the literal values.
pub open spec fn steady(pre: &FunctionLoweringContext, post: &FunctionLoweringContext) -> bool {
    &&& post.package.spec_functions() == pre.package.spec_functions()
    &&& post.package.building_functions == pre.package.building_functions
    &&& pre.package.spec_diagnostics().len() <= post.package.spec_diagnostics().len()
}

/// A body for the named function stands recorded: the name resolved to a
/// registered id before the step, and that id's body slot is filled after
/// it.
pub open spec fn recorded_impl(
    pre: &FunctionLoweringContext,
    post: &FunctionLoweringContext,
    name: Seq<char>,
) -> bool {
    &&& pre.package.spec_functions().spec_get(seq![name]) is Some
    &&& ({
        let fid = pre.package.spec_functions().spec_get(seq![name]).unwrap();
        &&& 0 <= fid@ < post.package.spec_functions().spec_impls().len()
        &&& post.package.spec_functions().spec_impls()[fid@] is Some
    })
}

proof fn lemma_body_step_trans(
    a: &FunctionLoweringContext,
    b: &FunctionLoweringContext,
    c: &FunctionLoweringContext,
)
    requires
        body_step(a, b),
        body_step(b, c),
    ensures
        body_step(a, c),
{
    assert forall|i: int|
        0 <= i < a.package.spec_functions().spec_impls().len()
            && a.package.spec_functions().spec_impls()[i] is Some implies (#[trigger] c.package.spec_functions().spec_impls()[i]) == a.package.spec_functions().spec_impls()[i] by {
        assert(b.package.spec_functions().spec_impls()[i]
            == a.package.spec_functions().spec_impls()[i]);
    }
}

impl FunctionLoweringContext {
    pub open spec fn wf(&self) -> bool {
        self.package.wf()
    }

    /// Whether the step from `pre` raised no diagnostics.
    pub open spec fn silent_since(&self, pre: &Self) -> bool {
        self.package.spec_diagnostics().len() == pre.package.spec_diagnostics().len()
    }

    #[must_use]
    pub fn new(package: HLIRPackage) -> (r: Self)
        requires
            package.wf(),
        ensures
            r.wf(),
            r.package == package,
    {
        Self {
            package,
            type_stack: Vec::new(),
            statement_stack: Vec::new(),
            expression_stack: Vec::new(),
            fuel: LOWERING_DEPTH_LIMIT,
        }
    }

    /// Run the pass over a whole syntax tree: when it finishes silently,
    /// every function item whose name is registered has its lowered body
    /// recorded, and every inference variable the pass created is
    /// resolved.
    pub fn lower(&mut self, ast: &ast::AST)
        requires
            old(self).wf(),
        ensures
            final(self).wf(),
            body_step(old(self), final(self)),
            final(self).silent_since(old(self)) ==> forall|i: int|
                0 <= i < ast.0@.len() && (#[trigger] ast.0@[i].spec_data()) is Function
                    ==> recorded_impl(old(self), final(self), ast.0@[i].spec_data().spec_name()),
            (final(self).silent_since(old(self)) && env_fully_resolved(&old(self).package))
                ==> env_fully_resolved(&final(self).package),
    {
        let ghost pre = *old(self);
        let n = ast.0.len();
        let mut i: usize = 0;
        while i < n
            invariant
                pre == *old(self),
                self.wf(),
                n == ast.0@.len(),
                i <= n,
                body_step(&pre, self),
                self.silent_since(&pre) ==> forall|j: int|
                    0 <= j < i && (#[trigger] ast.0@[j].spec_data()) is Function
                        ==> recorded_impl(&pre, self, ast.0@[j].spec_data().spec_name()),
                (self.silent_since(&pre) && env_fully_resolved(&pre.package))
                    ==> env_fully_resolved(&self.package),
            decreases n - i,
        {
            let ghost mid = *self;
            match ast.0[i].data() {
                ast::Item::Function(function) => {
                    self.visit_function(function);
                },
                ast::Item::ExternalFunction(_) => {
                    // an external function has no body to lower
                },
            }
            proof {
                lemma_body_step_trans(&pre, &mid, self);
                assert forall|j: int|
                    self.silent_since(&pre) && 0 <= j < i + 1 && (#[trigger] ast.0@[j].spec_data())
                        is Function implies recorded_impl(
                    &pre,
                    self,
                    ast.0@[j].spec_data().spec_name(),
                ) by {
                    if j < i {
                        assert(recorded_impl(&pre, &mid, ast.0@[j].spec_data().spec_name()));
                    } else {
                        assert(recorded_impl(&mid, self, ast.0@[j].spec_data().spec_name()));
                        crate::hlir::functions::Functions::lemma_same_names(
                            &pre.package.functions,
                            &mid.package.functions,
                        );
                    }
                }
            }
            i += 1;
        }
    }

    /// Hand the package back once the pass is done, exactly as it stands.
    #[must_use]
    pub fn finish(self) -> (r: HLIRPackage)
        ensures
            r == self.package,
            self.wf() ==> r.wf(),
    {
        self.package
    }

    /// Lower one function body: start its builder, declare its parameters
    /// with their prototype-declared types, lower the body and finish the
    /// function. Every failure is a recorded diagnostic, so a silent visit
    /// means the body stands recorded and inference fully resolved.
    fn visit_function(&mut self, function: &ast::Function)
        requires
            old(self).wf(),
        ensures
            final(self).wf(),
            body_step(old(self), final(self)),
            final(self).silent_since(old(self)) ==> recorded_impl(
                old(self),
                final(self),
                function.name.spec_data()@,
            ),
            final(self).silent_since(old(self)) ==> env_fully_resolved(&final(self).package),
    {
        let path = Path::from_name(function.name.data().clone());
        let function_id = match self.package.get_function_id(&path) {
            Some(id) => id,
            None => {
                self.package.diagnostics.push(
                    TypeError::UndefinedName { name: function.name.data().clone() },
                );
                return ;
            },
        };
        let prototype = match self.package.get_prototype(function_id) {
            Some(p) => p,
            None => {
                proof {
                    // a name never resolves to an unregistered prototype
                    assert(false);
                }
                return ;
            },
        };
        if self.package.functions.has_impl(function_id) {
            self.package.diagnostics.push(
                TypeError::DuplicateDefinition { name: function.name.data().clone() },
            );
            return ;
        }
        if !self.package.start_function_impl(function_id) {
            self.package.diagnostics.push(
                TypeError::DuplicateDefinition { name: function.name.data().clone() },
            );
            return ;
        }
        let ghost started = *self;
        proof {
            started.package.functions.lemma_wf_lens();
        }
        // declare each named parameter as a variable pre-resolved to its
        // prototype-declared type
        let params = function.parameters.data();
        let n = params.len();
        let mut i: usize = 0;
        let mut ti: usize = 0;
        while i < n
            invariant
                started.package.spec_diagnostics().len() >= old(self).package.spec_diagnostics().len(),
                self.wf(),
                n == params@.len(),
                i <= n,
                body_step(&started, self),
                self.package.spec_builder_of(function_id) is Some,
                0 <= function_id@ < self.package.spec_functions().spec_protos().len(),
                self.package.spec_functions().spec_protos()[function_id@] is Some,
                self.package.spec_functions().spec_impls()[function_id@] is None,
            decreases n - i,
        {
            let ghost mid = *self;
            match params[i].data() {
                ast::Parameter::Named(named) => {
                    if ti < prototype.parameters.len() {
                        let ty = prototype.parameters[ti];
                        let inference_id = self.package.create_type_inference_resolved(ty);
                        let variable_id = self.package.create_variable(
                            named.name.data().as_str(),
                            inference_id,
                        );
                        let _ = self.package.add_function_parameter(function_id, variable_id);
                        ti += 1;
                    }
                },
                ast::Parameter::Variadic => {},
            }
            proof {
                lemma_body_step_trans(&started, &mid, self);
            }
            i += 1;
        }
        let ghost before_body = *self;
        self.visit_statement(function.body.data());
        proof {
            lemma_body_step_trans(&started, &before_body, self);
        }
        let ghost after_body = *self;
        match self.statement_stack.pop() {
            Some(statement) => {
                if !self.package.set_function_body(function_id, statement) {
                    self.package.diagnostics.push(
                        TypeError::DuplicateDefinition { name: function.name.data().clone() },
                    );
                    return ;
                }
                let ghost before_finish = *self;
                if !self.package.finish_function_impl(function_id) {
                    self.package.diagnostics.push(
                        TypeError::DuplicateDefinition { name: function.name.data().clone() },
                    );
                    return ;
                }
                proof {
                    lemma_body_step_trans(&started, &before_finish, self);
                }
            },
            None => {
                // the body statement could not be produced
                self.package.diagnostics.push(
                    TypeError::UnsupportedConstruct { name: "body".to_owned() },
                );
            },
        }
    }

    /// Lower one type annotation onto the type stack.
    fn visit_type(&mut self, ty: &ast::Type)
        requires
            old(self).wf(),
        ensures
            final(self).wf(),
            final(self).fuel <= old(self).fuel,
            steady(old(self), final(self)),
        decreases old(self).fuel,
    {
        if self.fuel == 0 {
            self.package.diagnostics.push(
                TypeError::UnsupportedConstruct { name: "type".to_owned() },
            );
            return ;
        }
        self.fuel = self.fuel - 1;
        match ty {
            ast::Type::Named(named) => {
                let path = Path::from_name(named.name.data().clone());
                match self.package.get_type_id(&path) {
                    Some(type_id) => {
                        self.type_stack.push(type_id);
                    },
                    None => {
                        self.package.diagnostics.push(
                            TypeError::UndefinedName { name: named.name.data().clone() },
                        );
                    },
                }
            },
            ast::Type::Pointer(pointer) => {
                self.visit_type(pointer.ty.data());
                match self.type_stack.pop() {
                    Some(inner) => {
                        if inner.0 < self.package.types.known_len() {
                            let type_id = self.package.build_type_pointer(inner);
                            self.type_stack.push(type_id);
                        }
                    },
                    None => {},
                }
            },
            ast::Type::SizedArray(array) => {
                self.visit_type(array.ty.data());
                match self.type_stack.pop() {
                    Some(inner) => {
                        if inner.0 < self.package.types.known_len() {
                            let type_id = self.package.build_type_array(
                                inner,
                                *array.size.data(),
                            );
                            self.type_stack.push(type_id);
                        }
                    },
                    None => {},
                }
            },
            ast::Type::UnsizedArray(array) => {
                self.visit_type(array.ty.data());
                match self.type_stack.pop() {
                    Some(inner) => {
                        if inner.0 < self.package.types.known_len() {
                            let type_id = self.package.build_type_unsized_array(inner);
                            self.type_stack.push(type_id);
                        }
                    },
                    None => {},
                }
            },
            ast::Type::Function(_) => {
                self.package.diagnostics.push(
                    TypeError::UnsupportedConstruct { name: "fn".to_owned() },
                );
            },
            ast::Type::Const(_) => {
                self.package.diagnostics.push(
                    TypeError::UnsupportedConstruct { name: "const".to_owned() },
                );
            },
        }
    }

    /// Lower one statement onto the statement stack. A statement shape the
    /// body pass cannot lower is reported and skipped, so lowering
    /// continues past it.
    fn visit_statement(&mut self, statement: &ast::Statement)
        requires
            old(self).wf(),
        ensures
            final(self).wf(),
            final(self).fuel <= old(self).fuel,
            steady(old(self), final(self)),
        decreases old(self).fuel,
    {
        if self.fuel == 0 {
            self.package.diagnostics.push(
                TypeError::UnsupportedConstruct { name: "statement".to_owned() },
            );
            return ;
        }
        self.fuel = self.fuel - 1;
        match statement {
            ast::Statement::Block(block) => {
                self.package.build_block_start();
                let mut statements: Vec<Statement> = Vec::new();
                let n = block.statements.len();
                let mut i: usize = 0;
                while i < n
                    invariant
                        self.wf(),
                        n == block.statements@.len(),
                        i <= n,
                        self.fuel < old(self).fuel,
                        steady(old(self), self),
                    decreases n - i,
                {
                    let before = self.statement_stack.len();
                    self.visit_statement(block.statements[i].data());
                    if self.statement_stack.len() > before {
                        match self.statement_stack.pop() {
                            Some(s) => {
                                statements.push(s);
                            },
                            None => {},
                        }
                    }
                    i += 1;
                }
                match self.package.build_block_end(statements) {
                    Some(s) => {
                        self.statement_stack.push(s);
                    },
                    None => {},
                }
            },
            ast::Statement::VariableDeclaration(declaration) => {
                self.visit_expression(declaration.value.data());
                let inference_id = match &declaration.ty {
                    Some(annotation) => {
                        self.visit_type(annotation.data());
                        match self.type_stack.pop() {
                            Some(type_id) => self.package.create_type_inference_resolved(
                                type_id,
                            ),
                            None => self.package.create_type_inference_variable(),
                        }
                    },
                    None => self.package.create_type_inference_variable(),
                };
                match self.expression_stack.pop() {
                    Some(value) => {
                        let s = self.package.build_statement_let(
                            declaration.name.data().as_str(),
                            inference_id,
                            value,
                        );
                        self.statement_stack.push(s);
                    },
                    None => {},
                }
            },
            ast::Statement::If(if_statement) => {
                self.visit_expression(if_statement.condition.data());
                let condition = self.expression_stack.pop();
                self.visit_statement(if_statement.body.data());
                let then_branch = self.statement_stack.pop();
                let else_branch = match &if_statement.else_branch {
                    Some(else_statement) => {
                        self.visit_statement(else_statement.data());
                        self.statement_stack.pop()
                    },
                    None => None,
                };
                match (condition, then_branch) {
                    (Some(c), Some(t)) => {
                        let s = self.package.build_statement_if(c, t, else_branch);
                        self.statement_stack.push(s);
                    },
                    _ => {},
                }
            },
            ast::Statement::While(while_statement) => {
                self.visit_expression(while_statement.condition.data());
                let condition = self.expression_stack.pop();
                self.visit_statement(while_statement.body.data());
                let body = self.statement_stack.pop();
                match (condition, body) {
                    (Some(c), Some(b)) => {
                        let s = self.package.build_statement_while(c, b);
                        self.statement_stack.push(s);
                    },
                    _ => {},
                }
            },
            ast::Statement::ForInitCondUpdate(_) => {
                self.package.diagnostics.push(
                    TypeError::UnsupportedConstruct { name: "for".to_owned() },
                );
            },
            ast::Statement::Break => {
                self.package.diagnostics.push(
                    TypeError::UnsupportedConstruct { name: "break".to_owned() },
                );
            },
            ast::Statement::Continue => {
                self.package.diagnostics.push(
                    TypeError::UnsupportedConstruct { name: "continue".to_owned() },
                );
            },
            ast::Statement::Return(return_statement) => {
                match &return_statement.value {
                    Some(value) => {
                        self.visit_expression(value.data());
                        match self.expression_stack.pop() {
                            Some(v) => {
                                let s = self.package.build_statement_return(v);
                                self.statement_stack.push(s);
                            },
                            None => {},
                        }
                    },
                    None => {
                        let s = self.package.build_statement_return_void();
                        self.statement_stack.push(s);
                    },
                }
            },
            ast::Statement::Expression(expression) => {
                self.visit_expression(expression);
                match self.expression_stack.pop() {
                    Some(e) => {
                        let s = self.package.build_statement_expression(e);
                        self.statement_stack.push(s);
                    },
                    None => {},
                }
            },
        }
    }

    /// Lower one expression onto the expression stack. An expression shape
    /// the body pass cannot lower is reported and skipped.
    fn visit_expression(&mut self, expression: &ast::Expression)
        requires
            old(self).wf(),
        ensures
            final(self).wf(),
            final(self).fuel <= old(self).fuel,
            steady(old(self), final(self)),
        decreases old(self).fuel,
    {
        if self.fuel == 0 {
            self.package.diagnostics.push(
                TypeError::UnsupportedConstruct { name: "expression".to_owned() },
            );
            return ;
        }
        self.fuel = self.fuel - 1;
        match expression {
            ast::Expression::Variable(variable) => {
                match self.package.build_expression_variable(variable.name.data().as_str()) {
                    Some(e) => {
                        self.expression_stack.push(e);
                    },
                    None => {},
                }
            },
            ast::Expression::Literal(literal) => {
                self.visit_literal(literal);
            },
            ast::Expression::FunctionCall(call) => {
                let function_id = match call.function.data() {
                    ast::Expression::Variable(variable) => {
                        let path = Path::from_name(variable.name.data().clone());
                        match self.package.get_function_id(&path) {
                            Some(id) => Some(id),
                            None => {
                                self.package.diagnostics.push(
                                    TypeError::UndefinedName {
                                        name: variable.name.data().clone(),
                                    },
                                );
                                None
                            },
                        }
                    },
                    _ => {
                        self.package.diagnostics.push(
                            TypeError::UnsupportedConstruct { name: "call".to_owned() },
                        );
                        None
                    },
                };
                let mut arguments: Vec<Expression> = Vec::new();
                let n = call.arguments.len();
                let mut i: usize = 0;
                while i < n
                    invariant
                        self.wf(),
                        n == call.arguments@.len(),
                        i <= n,
                        self.fuel < old(self).fuel,
                        steady(old(self), self),
                    decreases n - i,
                {
                    let before = self.expression_stack.len();
                    self.visit_expression(call.arguments[i].data());
                    if self.expression_stack.len() > before {
                        match self.expression_stack.pop() {
                            Some(e) => {
                                arguments.push(e);
                            },
                            None => {},
                        }
                    }
                    i += 1;
                }
                match function_id {
                    Some(id) => {
                        match self.package.build_function_call(id, arguments) {
                            Some(e) => {
                                self.expression_stack.push(e);
                            },
                            None => {},
                        }
                    },
                    None => {},
                }
            },
            ast::Expression::MemberAccess(_) => {
                self.package.diagnostics.push(
                    TypeError::UnsupportedConstruct { name: "member".to_owned() },
                );
            },
            ast::Expression::Index(_) => {
                self.package.diagnostics.push(
                    TypeError::UnsupportedConstruct { name: "index".to_owned() },
                );
            },
            ast::Expression::UnaryOperation(unary) => {
                self.visit_expression(unary.operand.data());
                let operand = self.expression_stack.pop();
                let operator = match unary.operator.data() {
                    ast::UnaryOperator::Negation => self.package.build_unary_operator_negation(),
                    ast::UnaryOperator::BitwiseNegation => {
                        self.package.build_unary_operator_bitwise_not()
                    },
                    ast::UnaryOperator::LogicalNegation => {
                        self.package.build_unary_operator_logical_not()
                    },
                    ast::UnaryOperator::Deref => self.package.build_unary_operator_deref(),
                    ast::UnaryOperator::Ref => self.package.build_unary_operator_ref(),
                };
                match operand {
                    Some(o) => {
                        match self.package.build_expression_unary(operator, o) {
                            Some(e) => {
                                self.expression_stack.push(e);
                            },
                            None => {},
                        }
                    },
                    None => {},
                }
            },
            ast::Expression::BinaryOperation(binary) => {
                self.visit_expression(binary.left.data());
                let left = self.expression_stack.pop();
                self.visit_expression(binary.right.data());
                let right = self.expression_stack.pop();
                let operator = match binary.operator.data() {
                    ast::BinaryOperator::Addition => Some(
                        self.package.build_binary_operator_addition(),
                    ),
                    ast::BinaryOperator::Subtraction => Some(
                        self.package.build_binary_operator_subtraction(),
                    ),
                    ast::BinaryOperator::Multiplication => Some(
                        self.package.build_binary_operator_multiplication(),
                    ),
                    ast::BinaryOperator::Division => Some(
                        self.package.build_binary_operator_division(),
                    ),
                    ast::BinaryOperator::Modulus => Some(
                        self.package.build_binary_operator_remainder(),
                    ),
                    ast::BinaryOperator::BitwiseAnd => Some(
                        self.package.build_binary_operator_bitwise_and(),
                    ),
                    ast::BinaryOperator::BitwiseOr => Some(
                        self.package.build_binary_operator_bitwise_or(),
                    ),
                    ast::BinaryOperator::BitwiseXor => Some(
                        self.package.build_binary_operator_bitwise_xor(),
                    ),
                    ast::BinaryOperator::LeftShift => Some(
                        self.package.build_binary_operator_bitwise_shift_left(),
                    ),
                    ast::BinaryOperator::RightShift => Some(
                        self.package.build_binary_operator_bitwise_shift_right(),
                    ),
                    ast::BinaryOperator::LessThan => Some(
                        self.package.build_binary_operator_less_than(),
                    ),
                    ast::BinaryOperator::LessThanOrEqual => Some(
                        self.package.build_binary_operator_less_than_or_equal(),
                    ),
                    ast::BinaryOperator::GreaterThan => Some(
                        self.package.build_binary_operator_greater_than(),
                    ),
                    ast::BinaryOperator::GreaterThanOrEqual => Some(
                        self.package.build_binary_operator_greater_than_or_equal(),
                    ),
                    ast::BinaryOperator::Equal => Some(
                        self.package.build_binary_operator_equal(),
                    ),
                    ast::BinaryOperator::NotEqual => Some(
                        self.package.build_binary_operator_not_equal(),
                    ),
                    ast::BinaryOperator::LogicalAnd => Some(
                        self.package.build_binary_operator_logical_and(),
                    ),
                    ast::BinaryOperator::LogicalOr => Some(
                        self.package.build_binary_operator_logical_or(),
                    ),
                    ast::BinaryOperator::Assignment => {
                        self.package.diagnostics.push(
                            TypeError::UnsupportedConstruct { name: "assignment".to_owned() },
                        );
                        None
                    },
                };
                match (operator, left, right) {
                    (Some(op), Some(l), Some(rr)) => {
                        match self.package.build_expression_binary(op, l, rr) {
                            Some(e) => {
                                self.expression_stack.push(e);
                            },
                            None => {},
                        }
                    },
                    _ => {},
                }
            },
            ast::Expression::TypeCast(cast) => {
                self.visit_type(cast.ty.data());
                let ty = self.type_stack.pop();
                self.visit_expression(cast.value.data());
                let value = self.expression_stack.pop();
                match (ty, value) {
                    (Some(t), Some(v)) => {
                        let e = self.package.build_expression_type_cast(t, v);
                        self.expression_stack.push(e);
                    },
                    _ => {},
                }
            },
        }
    }

    /// Lower one literal onto the expression stack.
    fn visit_literal(&mut self, literal: &ast::Literal)
        requires
            old(self).wf(),
        ensures
            final(self).wf(),
            final(self).fuel <= old(self).fuel,
            steady(old(self), final(self)),
    {
        match literal {
            ast::Literal::Integer(integer) => {
                let l = self.package.build_integer_literal(
                    integer.value.data().clone(),
                    integer.radix,
                );
                let e = self.package.build_expression_literal(l);
                self.expression_stack.push(e);
            },
            ast::Literal::Float(float) => {
                let l = self.package.build_float_literal(float.value.data().clone());
                let e = self.package.build_expression_literal(l);
                self.expression_stack.push(e);
            },
            ast::Literal::Boolean(boolean) => {
                let value = crate::hlir::variable_scope::str_eq(
                    boolean.value.data().as_str(),
                    "true",
                );
                let l = self.package.build_boolean_literal(value);
                let e = self.package.build_expression_literal(l);
                self.expression_stack.push(e);
            },
            ast::Literal::Character(character) => {
                let l = self.package.build_character_literal(character.value.data().clone());
                let e = self.package.build_expression_literal(l);
                self.expression_stack.push(e);
            },
            ast::Literal::String(string) => {
                let l = self.package.build_string_literal(string.value.data().clone());
                let e = self.package.build_expression_literal(l);
                self.expression_stack.push(e);
            },
        }
    }
}

} // verus!
