//! End-to-end lowering tests: whole-program scenarios walked through the
//! prototype pass and the body pass, checking the typed result and the
//! collected diagnostics.

use tantalum::ast;
use tantalum::hlir::expressions::Expression as HlirExpression;
use tantalum::hlir::inference::TypeError;
use tantalum::hlir::path::Path;
use tantalum::hlir::statements::Statement as HlirStatement;
use tantalum::lowering::ASTLoweringContext;
use tantalum::span::{Location, Span, Spanned};

fn sp() -> Span {
    Span::new(Location::new("test".to_string()), Location::new("test".to_string()))
}

fn sn<T>(data: T) -> Spanned<T> {
    Spanned::new(sp(), data)
}

fn named_type(name: &str) -> Spanned<ast::Type> {
    sn(ast::Type::Named(ast::NamedType {
        name: sn(name.to_string()),
    }))
}

fn named_param(name: &str, ty: &str) -> Spanned<ast::Parameter> {
    sn(ast::Parameter::Named(ast::NamedParameter {
        name: sn(name.to_string()),
        ty: named_type(ty),
    }))
}

fn int_literal(digits: &str) -> Spanned<ast::Expression> {
    sn(ast::Expression::Literal(ast::Literal::Integer(
        ast::Integer {
            value: sn(digits.to_string()),
            radix: 10,
        },
    )))
}

fn bool_literal(lexeme: &str) -> Spanned<ast::Expression> {
    sn(ast::Expression::Literal(ast::Literal::Boolean(
        ast::Boolean {
            value: sn(lexeme.to_string()),
        },
    )))
}

fn variable(name: &str) -> Spanned<ast::Expression> {
    sn(ast::Expression::Variable(ast::Variable {
        name: sn(name.to_string()),
    }))
}

fn call(name: &str, arguments: Vec<Spanned<ast::Expression>>) -> Spanned<ast::Expression> {
    sn(ast::Expression::FunctionCall(ast::FunctionCall {
        function: Box::new(variable(name)),
        arguments,
    }))
}

fn return_of(value: Spanned<ast::Expression>) -> Spanned<ast::Statement> {
    sn(ast::Statement::Return(ast::Return { value: Some(value) }))
}

fn body_of(statements: Vec<Spanned<ast::Statement>>) -> Spanned<ast::Statement> {
    sn(ast::Statement::Block(ast::Block { statements }))
}

fn function(
    name: &str,
    parameters: Vec<Spanned<ast::Parameter>>,
    return_type: &str,
    body: Vec<Spanned<ast::Statement>>,
) -> Spanned<ast::Item> {
    sn(ast::Item::Function(ast::Function {
        name: sn(name.to_string()),
        parameters: sn(parameters),
        return_type: Some(named_type(return_type)),
        body: body_of(body),
    }))
}

#[test]
fn add_program_lowers_with_all_types_resolved() {
    // fn add(a: i32, b: i32): i32 { return a + b; }
    // fn main(): i32 { return add(1, 2); }
    let add_body = return_of(sn(ast::Expression::BinaryOperation(ast::BinaryOperation {
        left: Box::new(variable("a")),
        operator: sn(ast::BinaryOperator::Addition),
        right: Box::new(variable("b")),
    })));
    let main_body = return_of(call("add", vec![int_literal("1"), int_literal("2")]));
    let tree = ast::AST(vec![
        function(
            "add",
            vec![named_param("a", "i32"), named_param("b", "i32")],
            "i32",
            vec![add_body],
        ),
        function("main", Vec::new(), "i32", vec![main_body]),
    ]);

    let mut lowering = ASTLoweringContext::new();
    lowering.lower(&tree);
    let package = lowering.finish();

    assert!(package.diagnostics().is_empty());

    let i32_id = package
        .get_type_id(&Path::from_name("i32".to_string()))
        .expect("i32 is built in");

    // add's prototype returns i32
    let add_id = package
        .get_function_id(&Path::from_name("add".to_string()))
        .expect("add is registered");
    let prototype = package.get_prototype(add_id).expect("prototype exists");
    assert_eq!(prototype.return_type, i32_id);
    assert_eq!(prototype.parameters, vec![i32_id, i32_id]);

    // both literal arguments of the call in main resolve to i32
    let impls = package.functions.impls();
    let mut literal_types = Vec::new();
    for (_, f) in impls.iter() {
        if let HlirStatement::Block(block) = &f.body {
            for statement in block.statements.iter() {
                if let HlirStatement::Return(ret) = statement {
                    if let Some(HlirExpression::FunctionCall(call)) = &ret.value {
                        for argument in call.arguments.iter() {
                            if let HlirExpression::Literal(literal) = argument {
                                literal_types.push(literal.ty());
                            }
                        }
                        // the call's result is the declared return type
                        assert_eq!(
                            package.type_inference_environment.resolve(call.result),
                            Some(i32_id)
                        );
                    }
                }
            }
        }
    }
    assert_eq!(literal_types.len(), 2);
    for ty in literal_types {
        assert_eq!(package.type_inference_environment.resolve(ty), Some(i32_id));
    }
}

#[test]
fn bool_initializer_for_i32_is_one_mismatch() {
    // fn main(): i32 { let x: i32 = true; return x; }
    let let_statement = sn(ast::Statement::VariableDeclaration(
        ast::VariableDeclaration {
            name: sn("x".to_string()),
            ty: Some(named_type("i32")),
            value: bool_literal("true"),
        },
    ));
    let tree = ast::AST(vec![function(
        "main",
        Vec::new(),
        "i32",
        vec![let_statement, return_of(variable("x"))],
    )]);

    let mut lowering = ASTLoweringContext::new();
    lowering.lower(&tree);
    let package = lowering.finish();

    let i32_id = package
        .get_type_id(&Path::from_name("i32".to_string()))
        .expect("i32 is built in");
    let bool_id = package
        .get_type_id(&Path::from_name("bool".to_string()))
        .expect("bool is built in");

    assert_eq!(
        package.diagnostics().as_slice(),
        &[TypeError::UnificationMismatch {
            expected: bool_id,
            found: i32_id
        }]
    );
}

#[test]
fn variadic_call_accepts_extra_arguments() {
    // fn f(a: i32, ...): i32 { return a; }
    // fn main(): i32 { return f(1, 2, 3); }
    let f_item = sn(ast::Item::Function(ast::Function {
        name: sn("f".to_string()),
        parameters: sn(vec![named_param("a", "i32"), sn(ast::Parameter::Variadic)]),
        return_type: Some(named_type("i32")),
        body: body_of(vec![return_of(variable("a"))]),
    }));
    let main_body = return_of(call(
        "f",
        vec![int_literal("1"), int_literal("2"), int_literal("3")],
    ));
    let tree = ast::AST(vec![f_item, function("main", Vec::new(), "i32", vec![main_body])]);

    let mut lowering = ASTLoweringContext::new();
    lowering.lower(&tree);
    let package = lowering.finish();
    assert!(package.diagnostics().is_empty());
}

#[test]
fn extra_argument_for_fixed_arity_is_reported() {
    // fn g(a: i32): i32 { return a; }
    // fn main(): i32 { return g(1, 2); }
    let g_item = function(
        "g",
        vec![named_param("a", "i32")],
        "i32",
        vec![return_of(variable("a"))],
    );
    let main_body = return_of(call("g", vec![int_literal("1"), int_literal("2")]));
    let tree = ast::AST(vec![g_item, function("main", Vec::new(), "i32", vec![main_body])]);

    let mut lowering = ASTLoweringContext::new();
    lowering.lower(&tree);
    let package = lowering.finish();

    assert!(package
        .diagnostics()
        .contains(&TypeError::ArityMismatch {
            expected: 1,
            found: 2
        }));
}

#[test]
fn forward_reference_resolves() {
    // fn b(): i32 { return a(); } -- a is declared textually later
    // fn a(): i32 { return 1; }
    let b_item = function(
        "b",
        Vec::new(),
        "i32",
        vec![return_of(call("a", Vec::new()))],
    );
    let a_item = function("a", Vec::new(), "i32", vec![return_of(int_literal("1"))]);
    let tree = ast::AST(vec![b_item, a_item]);

    let mut lowering = ASTLoweringContext::new();
    lowering.lower(&tree);
    let package = lowering.finish();

    assert!(package.diagnostics().is_empty());
    assert!(package
        .get_function_id(&Path::from_name("a".to_string()))
        .is_some());
    assert!(package
        .get_function_id(&Path::from_name("b".to_string()))
        .is_some());
}

#[test]
fn undeclared_variable_is_reported_and_lowering_continues() {
    // fn main(): i32 { return y; } -- y is undeclared
    let tree = ast::AST(vec![function(
        "main",
        Vec::new(),
        "i32",
        vec![return_of(variable("y"))],
    )]);

    let mut lowering = ASTLoweringContext::new();
    lowering.lower(&tree);
    let package = lowering.finish();

    assert!(package
        .diagnostics()
        .contains(&TypeError::UndefinedName {
            name: "y".to_string()
        }));
}

#[test]
fn break_outside_a_loop_shape_is_unsupported() {
    // `break` has no lowered form yet: it is reported and skipped
    let tree = ast::AST(vec![function(
        "main",
        Vec::new(),
        "i32",
        vec![sn(ast::Statement::Break), return_of(int_literal("0"))],
    )]);

    let mut lowering = ASTLoweringContext::new();
    lowering.lower(&tree);
    let package = lowering.finish();
    assert!(package
        .diagnostics()
        .contains(&TypeError::UnsupportedConstruct {
            name: "break".to_string()
        }));
}

#[test]
fn duplicate_definition_is_reported() {
    // two bodies for the same name: the second is rejected with a
    // diagnostic, the first stays recorded
    let first = function("twice", Vec::new(), "i32", vec![return_of(int_literal("1"))]);
    let second = function("twice", Vec::new(), "i32", vec![return_of(int_literal("2"))]);
    let tree = ast::AST(vec![first, second]);

    let mut lowering = ASTLoweringContext::new();
    lowering.lower(&tree);
    let package = lowering.finish();

    assert!(package
        .diagnostics()
        .contains(&TypeError::DuplicateDefinition {
            name: "twice".to_string()
        }));
    let id = package
        .get_function_id(&Path::from_name("twice".to_string()))
        .expect("the name is registered");
    assert!(package.functions.has_impl(id));
}

#[test]
fn literal_defaulting_in_a_full_function() {
    // fn main(): i64 { let x = 1; return 2; } -- the unannotated literal
    // defaults to i32, the returned literal takes the return type
    let let_statement = sn(ast::Statement::VariableDeclaration(
        ast::VariableDeclaration {
            name: sn("x".to_string()),
            ty: None,
            value: int_literal("1"),
        },
    ));
    let tree = ast::AST(vec![function(
        "main",
        Vec::new(),
        "i64",
        vec![let_statement, return_of(int_literal("2"))],
    )]);

    let mut lowering = ASTLoweringContext::new();
    lowering.lower(&tree);
    let package = lowering.finish();
    assert!(package.diagnostics().is_empty());

    let i32_id = package
        .get_type_id(&Path::from_name("i32".to_string()))
        .expect("i32 is built in");
    let i64_id = package
        .get_type_id(&Path::from_name("i64".to_string()))
        .expect("i64 is built in");

    let impls = package.functions.impls();
    assert_eq!(impls.len(), 1);
    let (_, f) = &impls[0];
    if let HlirStatement::Block(block) = &f.body {
        let mut seen_let = false;
        let mut seen_return = false;
        for statement in block.statements.iter() {
            match statement {
                HlirStatement::Let(l) => {
                    if let HlirExpression::Literal(literal) = &l.value {
                        assert_eq!(
                            package.type_inference_environment.resolve(literal.ty()),
                            Some(i32_id)
                        );
                        seen_let = true;
                    }
                },
                HlirStatement::Return(ret) => {
                    if let Some(HlirExpression::Literal(literal)) = &ret.value {
                        assert_eq!(
                            package.type_inference_environment.resolve(literal.ty()),
                            Some(i64_id)
                        );
                        seen_return = true;
                    }
                },
                _ => {},
            }
        }
        assert!(seen_let && seen_return);
    } else {
        panic!("the lowered body is a block");
    }
}
