//! Front and middle end of the Tantalum language compiler: source files,
//! lexing, resilient parsing into a syntax tree, the abstract syntax tree,
//! and semantic lowering into a typed high-level intermediate representation
//! (HLIR) driven by scoped symbol tables and constraint-based type inference.

pub mod ast;
pub mod source;
pub mod syntax;
pub mod hlir;
pub mod lexer;
pub mod lowering;
pub mod parser;
pub mod span;
pub mod text;

pub use hlir::expressions::Expression;
pub use hlir::package::HLIRPackage;
pub use hlir::path::{Path, PathSegment};
pub use hlir::statements::Statement;
pub use hlir::types::TypeId;
pub use hlir::variables::VariableId;
