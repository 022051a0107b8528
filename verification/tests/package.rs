//! Tests of the package builder: builder-misuse rejection, the typing
//! rules of the build API, and the function table.

use tantalum::hlir::expressions::{BinaryOperator, Expression, UnaryOperator};
use tantalum::hlir::inference::TypeError;
use tantalum::hlir::package::HLIRPackage;
use tantalum::hlir::path::{Path, PathSegment};
use tantalum::hlir::statements::Statement;

#[test]
fn starting_a_function_twice_is_rejected() {
    let mut package = HLIRPackage::new();
    let i32_id = package
        .get_type_id(&Path::from_name("i32".to_string()))
        .expect("i32 is built in");
    let prototype = package.build_function_prototype(Vec::new(), false, i32_id);
    let id = package.create_function(Path::from_name("f".to_string()), prototype);

    assert!(package.start_function_impl(id));
    assert!(!package.start_function_impl(id));
}

#[test]
fn finishing_without_a_body_is_rejected() {
    let mut package = HLIRPackage::new();
    let i32_id = package
        .get_type_id(&Path::from_name("i32".to_string()))
        .expect("i32 is built in");
    let prototype = package.build_function_prototype(Vec::new(), false, i32_id);
    let id = package.create_function(Path::from_name("f".to_string()), prototype);

    assert!(package.start_function_impl(id));
    assert!(!package.finish_function_impl(id));

    let body = package.build_statement_return_void();
    assert!(package.set_function_body(id, body));
    assert!(package.finish_function_impl(id));
    // a finished function cannot be finished again
    assert!(!package.finish_function_impl(id));
}

#[test]
fn return_outside_any_function_is_reported() {
    let mut package = HLIRPackage::new();
    let literal = package.build_integer_literal("1".to_string(), 10);
    let value = package.build_expression_literal(literal);
    let statement = package.build_statement_return(value);
    assert!(matches!(statement, Statement::Return(_)));
    assert_eq!(package.diagnostics().as_slice(), &[TypeError::MisplacedReturn]);
}

#[test]
fn binary_comparison_produces_bool() {
    let mut package = HLIRPackage::new();
    let bool_id = package
        .get_type_id(&Path::from_name("bool".to_string()))
        .expect("bool is built in");

    let l1 = package.build_integer_literal("1".to_string(), 10);
    let left = package.build_expression_literal(l1);
    let l2 = package.build_integer_literal("2".to_string(), 10);
    let right = package.build_expression_literal(l2);

    let op = package.build_binary_operator_less_than();
    assert_eq!(op, BinaryOperator::LessThan);
    let expr = package
        .build_expression_binary(op, left, right)
        .expect("both operand types are known");
    if let Expression::BinaryOperation(binary) = expr {
        assert_eq!(
            package.type_inference_environment.resolve(binary.result),
            Some(bool_id)
        );
    } else {
        panic!("a binary operation was built");
    }
}

#[test]
fn arithmetic_result_is_left_operand_type() {
    let mut package = HLIRPackage::new();
    let l1 = package.build_integer_literal("1".to_string(), 10);
    let left = package.build_expression_literal(l1.clone());
    let l2 = package.build_integer_literal("2".to_string(), 10);
    let right = package.build_expression_literal(l2);

    let op = package.build_binary_operator_addition();
    let expr = package
        .build_expression_binary(op, left, right)
        .expect("both operand types are known");
    if let Expression::BinaryOperation(binary) = expr {
        assert_eq!(binary.result, l1.ty());
    } else {
        panic!("a binary operation was built");
    }
}

#[test]
fn negation_keeps_operand_type() {
    let mut package = HLIRPackage::new();
    let literal = package.build_integer_literal("7".to_string(), 10);
    let ty = literal.ty();
    let operand = package.build_expression_literal(literal);
    let op = package.build_unary_operator_negation();
    assert_eq!(op, UnaryOperator::Negation);
    let expr = package
        .build_expression_unary(op, operand)
        .expect("the operand type is known");
    if let Expression::UnaryOperation(unary) = expr {
        assert_eq!(unary.result, ty);
    } else {
        panic!("a unary operation was built");
    }
}

#[test]
fn type_cast_pins_target_and_source() {
    let mut package = HLIRPackage::new();
    let i32_id = package
        .get_type_id(&Path::from_name("i32".to_string()))
        .expect("i32 is built in");
    let literal = package.build_integer_literal("3".to_string(), 10);
    let source_ty = literal.ty();
    let value = package.build_expression_literal(literal);
    let expr = package.build_expression_type_cast(i32_id, value);
    if let Expression::TypeCast(cast) = expr {
        assert_eq!(
            package.type_inference_environment.resolve(cast.target_type),
            Some(i32_id)
        );
        // the cast asserts compatibility: the source is unified with the
        // target, not converted
        assert_eq!(
            package.type_inference_environment.resolve(source_ty),
            Some(i32_id)
        );
    } else {
        panic!("a type cast was built");
    }
    assert!(package.diagnostics().is_empty());
}

#[test]
fn variable_reference_to_unknown_name_is_reported() {
    let mut package = HLIRPackage::new();
    assert!(package.build_expression_variable("nope").is_none());
    assert_eq!(
        package.diagnostics().as_slice(),
        &[TypeError::UndefinedName {
            name: "nope".to_string()
        }]
    );
}

#[test]
fn function_paths_round_trip() {
    let mut package = HLIRPackage::new();
    let void_id = package
        .get_type_id(&Path::from_name("void".to_string()))
        .expect("void is built in");
    let prototype = package.build_function_prototype(Vec::new(), false, void_id);
    let id = package.create_function(Path::from_name("callee".to_string()), prototype);

    assert_eq!(
        package.get_function_id(&Path::from_name("callee".to_string())),
        Some(id)
    );
    let back = package
        .functions
        .get_path(&id)
        .expect("the path was registered");
    assert_eq!(back.segments().len(), 1);
    assert_eq!(back.segments()[0], PathSegment::new("callee".to_string()));
}

#[test]
fn dereferencing_a_non_pointer_is_reported() {
    let mut package = HLIRPackage::new();
    let i32_id = package
        .get_type_id(&Path::from_name("i32".to_string()))
        .expect("i32 is built in");
    let resolved = package.create_type_inference_resolved(i32_id);
    let variable = package.create_variable("v", resolved);
    let reference = package
        .build_expression_variable("v")
        .expect("v was just declared");
    assert!(matches!(reference, Expression::Variable(id) if id == variable));

    let op = package.build_unary_operator_deref();
    let expr = package
        .build_expression_unary(op, reference)
        .expect("the operand type is known");
    assert!(matches!(expr, Expression::UnaryOperation(_)));
    assert_eq!(
        package.diagnostics().as_slice(),
        &[TypeError::InvalidReference { id: resolved }]
    );
}

#[test]
fn path_push_and_pop() {
    let mut path = Path::new(vec![PathSegment::new("std".to_string())]);
    path.push(PathSegment::new("io".to_string()));
    assert_eq!(path.segments().len(), 2);
    let last = path.pop().expect("a segment was pushed");
    assert_eq!(last, PathSegment::new("io".to_string()));
    assert_eq!(path.segments().len(), 1);
    assert!(path.pop().is_some());
    assert!(path.pop().is_none());
}
