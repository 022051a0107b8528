//! The high-level intermediate representation (HLIR) and the package builder
//! that assembles it: a deduplicating type registry, hierarchical scope
//! tables for type and variable names, a constraint-based type inference
//! environment, a literal pool, and the statement and expression trees.

pub mod expressions;
pub mod functions;
pub mod inference;
pub mod items;
pub mod literals;
pub mod package;
pub mod path;
pub mod statements;
pub mod traits;
pub mod type_scope;
pub mod types;
pub mod variable_scope;
pub mod variables;
