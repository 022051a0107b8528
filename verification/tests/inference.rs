//! Tests of the type inference environment: write-once resolution,
//! unification, transitivity across deferred chains, and finalization
//! with literal defaulting.

use tantalum::hlir::inference::{TypeConstraint, TypeError, TypeInferenceEnvironment};
use tantalum::hlir::package::HLIRPackage;
use tantalum::hlir::path::Path;
use tantalum::hlir::types::{PrimitiveType, Type};

fn package_types() -> tantalum::hlir::package::HLIRPackage {
    HLIRPackage::new()
}

#[test]
fn unify_resolved_with_unresolved_propagates() {
    let package = package_types();
    let i32_id = package
        .get_type_id(&Path::from_name("i32".to_string()))
        .expect("i32 is built in");

    let mut env = TypeInferenceEnvironment::new();
    let a = env.create_resolved(i32_id);
    let b = env.create_unknown();
    assert!(env.resolve(b).is_none());

    env.unify(a, b, &package.types).expect("compatible sides");
    assert_eq!(env.resolve(a), Some(i32_id));
    assert_eq!(env.resolve(b), Some(i32_id));
}

#[test]
fn unify_transitive_across_deferred_chain() {
    // unify(x, y) defers; unify(y, z) with z resolved cascades through the
    // recorded link, so x, y and z all agree
    let package = package_types();
    let i64_id = package
        .get_type_id(&Path::from_name("i64".to_string()))
        .expect("i64 is built in");

    let mut env = TypeInferenceEnvironment::new();
    let x = env.create_unknown();
    let y = env.create_unknown();
    let z = env.create_resolved(i64_id);

    env.unify(x, y, &package.types).expect("deferred");
    assert!(env.resolve(x).is_none());
    assert!(env.resolve(y).is_none());

    env.unify(y, z, &package.types).expect("propagates");
    assert_eq!(env.resolve(x), Some(i64_id));
    assert_eq!(env.resolve(y), Some(i64_id));
    assert_eq!(env.resolve(z), Some(i64_id));
}

#[test]
fn unify_transitive_with_head_resolved() {
    let package = package_types();
    let u8_id = package
        .get_type_id(&Path::from_name("u8".to_string()))
        .expect("u8 is built in");

    let mut env = TypeInferenceEnvironment::new();
    let x = env.create_resolved(u8_id);
    let y = env.create_unknown();
    let z = env.create_unknown();

    env.unify(x, y, &package.types).expect("propagates to y");
    env.unify(y, z, &package.types).expect("propagates to z");
    assert_eq!(env.resolve(x), env.resolve(z));
    assert_eq!(env.resolve(z), Some(u8_id));
}

#[test]
fn unify_with_twice_same_type_is_no_op() {
    let package = package_types();
    let i32_id = package
        .get_type_id(&Path::from_name("i32".to_string()))
        .expect("i32 is built in");

    let mut env = TypeInferenceEnvironment::new();
    let a = env.create_unknown();
    env.unify_with(a, i32_id, &package.types).expect("first");
    assert_eq!(env.resolve(a), Some(i32_id));

    env.unify_with(a, i32_id, &package.types)
        .expect("second call with the same type succeeds");
    assert_eq!(env.resolve(a), Some(i32_id));
}

#[test]
fn unify_with_conflicting_type_is_mismatch() {
    let package = package_types();
    let i32_id = package
        .get_type_id(&Path::from_name("i32".to_string()))
        .expect("i32 is built in");
    let bool_id = package
        .get_type_id(&Path::from_name("bool".to_string()))
        .expect("bool is built in");

    let mut env = TypeInferenceEnvironment::new();
    let a = env.create_unknown();
    env.unify_with(a, i32_id, &package.types).expect("first");

    let err = env
        .unify_with(a, bool_id, &package.types)
        .expect_err("conflicting type must be reported");
    assert_eq!(
        err,
        TypeError::UnificationMismatch {
            expected: i32_id,
            found: bool_id
        }
    );
    // the environment still holds the first resolution
    assert_eq!(env.resolve(a), Some(i32_id));
}

#[test]
fn add_constraint_on_resolved_id_fails() {
    let package = package_types();
    let i32_id = package
        .get_type_id(&Path::from_name("i32".to_string()))
        .expect("i32 is built in");

    let mut env = TypeInferenceEnvironment::new();
    let a = env.create_resolved(i32_id);
    let err = env
        .add_constraint(a, TypeConstraint::FromIntegerLiteral)
        .expect_err("resolved ids take no more constraints");
    assert_eq!(err, TypeError::InvalidConstraint { id: a });
}

#[test]
fn integer_literal_defaults_to_i32() {
    let package = package_types();
    let i32_id = package
        .get_type_id(&Path::from_name("i32".to_string()))
        .expect("i32 is built in");

    let mut env = TypeInferenceEnvironment::new();
    let a = env.create_unknown();
    env.add_constraint(a, TypeConstraint::FromIntegerLiteral)
        .expect("unresolved id");

    let errors = env.unify_final(&package.types);
    assert!(errors.is_empty());
    assert_eq!(env.resolve(a), Some(i32_id));
}

#[test]
fn float_literal_defaults_to_f32() {
    let package = package_types();
    let f32_id = package
        .get_type_id(&Path::from_name("f32".to_string()))
        .expect("f32 is built in");

    let mut env = TypeInferenceEnvironment::new();
    let a = env.create_unknown();
    env.add_constraint(a, TypeConstraint::FromFloatLiteral)
        .expect("unresolved id");

    let errors = env.unify_final(&package.types);
    assert!(errors.is_empty());
    assert_eq!(env.resolve(a), Some(f32_id));
}

#[test]
fn integer_literal_on_bool_is_rejected() {
    let package = package_types();
    let bool_id = package
        .get_type_id(&Path::from_name("bool".to_string()))
        .expect("bool is built in");

    let mut env = TypeInferenceEnvironment::new();
    let a = env.create_unknown();
    env.add_constraint(a, TypeConstraint::FromIntegerLiteral)
        .expect("unresolved id");
    env.unify_with(a, bool_id, &package.types)
        .expect_err("an integer literal cannot be a bool");
}

#[test]
fn unresolved_id_is_reported_by_finalize() {
    let package = package_types();
    let mut env = TypeInferenceEnvironment::new();
    let a = env.create_unknown();

    let errors = env.unify_final(&package.types);
    assert_eq!(errors, vec![TypeError::UnresolvedInference { id: a }]);
}

#[test]
fn referencing_str_decays_to_byte_pointer() {
    // the one exception of the reference rule: a reference to a `str`
    // value may resolve to a pointer to its byte-element type
    let mut package = package_types();
    let str_id = package
        .get_type_id(&Path::from_name("str".to_string()))
        .expect("str is built in");
    let u8_id = package
        .get_type_id(&Path::from_name("u8".to_string()))
        .expect("u8 is built in");
    let u8_ptr = package.build_type_pointer(u8_id);

    let mut env = TypeInferenceEnvironment::new();
    let operand = env.create_resolved(str_id);
    let reference = env.create_unknown();
    env.add_constraint(reference, TypeConstraint::RefTo(operand))
        .expect("unresolved id");
    env.unify_with(reference, u8_ptr, &package.types)
        .expect("str decays to a byte pointer");
}

#[test]
fn registry_shares_one_id_per_structural_type() {
    // two pointer types over the same element are the same id
    let mut package = package_types();
    let i32_id = package
        .get_type_id(&Path::from_name("i32".to_string()))
        .expect("i32 is built in");
    let first = package.build_type_pointer(i32_id);
    let second = package.build_type_pointer(i32_id);
    assert_eq!(first, second);

    let array_a = package.build_type_array(i32_id, 4);
    let array_b = package.build_type_array(i32_id, 4);
    assert_eq!(array_a, array_b);

    let array_c = package.build_type_array(i32_id, 5);
    assert_ne!(array_a, array_c);

    assert_eq!(
        package.types.get_by_id(first),
        Some(Type::Ptr(i32_id))
    );
    assert_eq!(
        package.types.get_by_id(i32_id),
        Some(Type::Primitive(PrimitiveType::I32))
    );
}
