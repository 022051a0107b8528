//! Tests of the hierarchical scope tables: shadowing, lookup through
//! nesting, and the rejection of exiting the root block.

use tantalum::hlir::inference::TypeInferenceEnvironment;
use tantalum::hlir::package::HLIRPackage;
use tantalum::hlir::path::Path;
use tantalum::hlir::variables::Variables;

#[test]
fn shadowing_inner_wins_then_outer_returns() {
    let mut env = TypeInferenceEnvironment::new();
    let outer_ty = env.create_unknown();
    let inner_ty = env.create_unknown();

    let mut variables = Variables::new();
    let outer = variables.create_variable("a", outer_ty);
    assert_eq!(variables.get("a"), Some(outer));

    let _block = variables.push_scope();
    // still visible from the nested block
    assert_eq!(variables.get("a"), Some(outer));

    let inner = variables.create_variable("a", inner_ty);
    assert_ne!(outer, inner);
    assert_eq!(variables.get("a"), Some(inner));

    let popped = variables.pop_scope();
    assert!(popped.is_some());
    // the outer binding was shadowed, not removed
    assert_eq!(variables.get("a"), Some(outer));
}

#[test]
fn two_declarations_same_block_get_distinct_ids() {
    let mut env = TypeInferenceEnvironment::new();
    let t1 = env.create_unknown();
    let t2 = env.create_unknown();

    let mut variables = Variables::new();
    let first = variables.create_variable("x", t1);
    let second = variables.create_variable("x", t2);
    assert_ne!(first, second);
    // the later declaration wins for lookups
    assert_eq!(variables.get("x"), Some(second));
}

#[test]
fn variable_names_round_trip_for_diagnostics() {
    let mut env = TypeInferenceEnvironment::new();
    let ty = env.create_unknown();
    let mut variables = Variables::new();
    let id = variables.create_variable("answer", ty);
    assert_eq!(variables.get_name(id), Some("answer"));
    assert_eq!(variables.get_type(id), Some(ty));
}

#[test]
fn exiting_the_root_scope_is_rejected() {
    let mut variables = Variables::new();
    assert!(variables.pop_scope().is_none());
    // the scope is unchanged and still usable
    let mut env = TypeInferenceEnvironment::new();
    let ty = env.create_unknown();
    let id = variables.create_variable("x", ty);
    assert_eq!(variables.get("x"), Some(id));
}

#[test]
fn closing_a_block_at_the_root_is_rejected() {
    let mut package = HLIRPackage::new();
    // no block is open: there is nothing to close
    assert!(package.build_block_end(Vec::new()).is_none());

    package.build_block_start();
    let statement = package.build_block_end(Vec::new());
    assert!(statement.is_some());
    // and now the root is reached again
    assert!(package.build_block_end(Vec::new()).is_none());
}

#[test]
fn type_scope_shadowing_through_package() {
    let mut package = HLIRPackage::new();
    let i32_path = Path::from_name("i32".to_string());
    let outer = package.get_type_id(&i32_path).expect("built in");

    package.build_block_start();
    assert!(package.add_type_alias(Path::from_name("myint".to_string()), &i32_path));
    let aliased = package
        .get_type_id(&Path::from_name("myint".to_string()))
        .expect("alias visible in the block");
    assert_eq!(aliased, outer);

    let closed = package.build_block_end(Vec::new());
    assert!(closed.is_some());
    // the alias was declared in the closed block and is gone
    assert!(package
        .get_type_id(&Path::from_name("myint".to_string()))
        .is_none());
    // the built-in is untouched
    assert_eq!(package.get_type_id(&i32_path), Some(outer));
}

#[test]
fn all_builtin_types_are_preregistered_and_distinct() {
    let package = HLIRPackage::new();
    let names = [
        "void", "i8", "i16", "i32", "i64", "u8", "u16", "u32", "u64", "f32", "f64", "bool",
        "char", "str",
    ];
    let mut ids = Vec::new();
    for name in names.iter() {
        let id = package
            .get_type_id(&Path::from_name(name.to_string()))
            .expect("every built-in name resolves");
        ids.push(id);
    }
    for a in 0..ids.len() {
        for b in 0..ids.len() {
            if a != b {
                assert_ne!(ids[a], ids[b]);
            }
        }
    }
}

#[test]
fn unknown_alias_is_rejected() {
    let mut package = HLIRPackage::new();
    assert!(!package.add_type_alias(
        Path::from_name("other".to_string()),
        &Path::from_name("missing".to_string())
    ));
}
