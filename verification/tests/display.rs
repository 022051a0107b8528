//! Tests of the rendering helpers: decimal formatting, type display and
//! inference-variable display.

use tantalum::hlir::inference::{TypeConstraint, TypeInferenceEnvironment};
use tantalum::hlir::package::HLIRPackage;
use tantalum::hlir::path::Path;
use tantalum::text::usize_to_string;

#[test]
fn decimal_rendering_is_exact() {
    assert_eq!(usize_to_string(0), "0");
    assert_eq!(usize_to_string(7), "7");
    assert_eq!(usize_to_string(10), "10");
    assert_eq!(usize_to_string(109), "109");
    assert_eq!(usize_to_string(65535), "65535");
}

#[test]
fn type_display_matches_structure() {
    let mut package = HLIRPackage::new();
    let i32_id = package
        .get_type_id(&Path::from_name("i32".to_string()))
        .expect("i32 is built in");
    assert_eq!(package.types.to_display(i32_id), "i32");

    let ptr = package.build_type_pointer(i32_id);
    assert_eq!(package.types.to_display(ptr), "*i32");

    let array = package.build_type_array(i32_id, 12);
    assert_eq!(package.types.to_display(array), "[i32; 12]");

    let unsized_array = package.build_type_unsized_array(i32_id);
    assert_eq!(package.types.to_display(unsized_array), "[i32]");

    let nested = package.build_type_pointer(ptr);
    assert_eq!(package.types.to_display(nested), "**i32");
}

#[test]
fn inference_display_shows_resolution_state() {
    let package = HLIRPackage::new();
    let i32_id = package
        .get_type_id(&Path::from_name("i32".to_string()))
        .expect("i32 is built in");

    let mut env = TypeInferenceEnvironment::new();
    let unknown = env.create_unknown();
    let resolved = env.create_resolved(i32_id);

    assert_eq!(env.to_display(unknown, &package.types), "?0");
    assert_eq!(env.to_display(resolved, &package.types), "i32");
}

#[test]
fn constraint_display_names_the_constraint() {
    let package = HLIRPackage::new();
    let i32_id = package
        .get_type_id(&Path::from_name("i32".to_string()))
        .expect("i32 is built in");
    let mut env = TypeInferenceEnvironment::new();
    let other = env.create_unknown();

    assert_eq!(
        TypeConstraint::Type(i32_id).to_display(&package.types),
        "i32"
    );
    assert_eq!(
        TypeConstraint::ConvertedFrom(other).to_display(&package.types),
        "ConvertedFrom(?0)"
    );
    assert_eq!(
        TypeConstraint::FromIntegerLiteral.to_display(&package.types),
        "FromIntegerLiteral"
    );
}
