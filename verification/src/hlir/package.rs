//! The HLIR package: the one owner of the type registry, the scope tables,
//! the inference environment and the literal values, and the `build_*` API
//! that the lowering visitors drive while walking the syntax tree.
//!
//! Failures that concern the compiled program — mismatched types, unknown
//! names, wrong arity — are collected as diagnostics on the package and
//! lowering continues; they never abort the build. Misuse of the builder
//! itself (finishing a function that was never started, leaving the root
//! block) is rejected by the return value.

use vstd::prelude::*;

use crate::hlir::expressions::{
    BinaryOperation, BinaryOperator, Expression, FunctionCall, TypeCast, UnaryOperation,
    UnaryOperator,
};
use crate::hlir::functions::{FunctionId, Functions};
use crate::hlir::inference::{InferenceId, TypeConstraint, TypeError, TypeInferenceEnvironment};
use crate::hlir::items::{Function, FunctionBuilder, FunctionPrototype};
use crate::hlir::literals::{Literal, LiteralValue};
use crate::hlir::path::Path;
use crate::hlir::statements::{Block, If, Let, Return, Statement, While};
use crate::hlir::traits::Traits;
use crate::hlir::type_scope::TypeScopeId;
use crate::hlir::types::{PrimitiveType, Type, TypeId, Types};
use crate::hlir::variable_scope::VariableScopeBlockId;
use crate::hlir::variables::{VariableId, Variables};

verus! {

/// The name of the default integer type.
pub open spec fn nm_i32() -> Seq<Seq<char>> {
    seq!["i32"@]
}

/// The name of the default floating-point type.
pub open spec fn nm_f32() -> Seq<Seq<char>> {
    seq!["f32"@]
}

/// The name of the boolean type.
pub open spec fn nm_bool() -> Seq<Seq<char>> {
    seq!["bool"@]
}

/// The name of the character type.
pub open spec fn nm_char() -> Seq<Seq<char>> {
    seq!["char"@]
}

/// The name of the string type.
pub open spec fn nm_str() -> Seq<Seq<char>> {
    seq!["str"@]
}

/// The name of the void type.
pub open spec fn nm_void() -> Seq<Seq<char>> {
    seq!["void"@]
}

/// The name of the 8-bit signed integer type.
pub open spec fn nm_i8() -> Seq<Seq<char>> {
    seq!["i8"@]
}

/// The name of the 16-bit signed integer type.
pub open spec fn nm_i16() -> Seq<Seq<char>> {
    seq!["i16"@]
}

/// The name of the 64-bit signed integer type.
pub open spec fn nm_i64() -> Seq<Seq<char>> {
    seq!["i64"@]
}

/// The name of the 8-bit unsigned integer type.
pub open spec fn nm_u8() -> Seq<Seq<char>> {
    seq!["u8"@]
}

/// The name of the 16-bit unsigned integer type.
pub open spec fn nm_u16() -> Seq<Seq<char>> {
    seq!["u16"@]
}

/// The name of the 32-bit unsigned integer type.
pub open spec fn nm_u32() -> Seq<Seq<char>> {
    seq!["u32"@]
}

/// The name of the 64-bit unsigned integer type.
pub open spec fn nm_u64() -> Seq<Seq<char>> {
    seq!["u64"@]
}

/// The name of the 64-bit floating-point type.
pub open spec fn nm_f64() -> Seq<Seq<char>> {
    seq!["f64"@]
}

/// Each of the fourteen built-in names resolves in `types` to an id whose
/// registry entry is the corresponding primitive. Since the registry never
/// holds two structurally equal types, the fourteen ids are distinct.
pub open spec fn builtins_registered(types: Types) -> bool {
    &&& builtin_at(types, nm_void(), PrimitiveType::Void)
    &&& builtin_at(types, nm_i8(), PrimitiveType::I8)
    &&& builtin_at(types, nm_i16(), PrimitiveType::I16)
    &&& builtin_at(types, nm_i32(), PrimitiveType::I32)
    &&& builtin_at(types, nm_i64(), PrimitiveType::I64)
    &&& builtin_at(types, nm_u8(), PrimitiveType::U8)
    &&& builtin_at(types, nm_u16(), PrimitiveType::U16)
    &&& builtin_at(types, nm_u32(), PrimitiveType::U32)
    &&& builtin_at(types, nm_u64(), PrimitiveType::U64)
    &&& builtin_at(types, nm_f32(), PrimitiveType::F32)
    &&& builtin_at(types, nm_f64(), PrimitiveType::F64)
    &&& builtin_at(types, nm_bool(), PrimitiveType::Bool)
    &&& builtin_at(types, nm_char(), PrimitiveType::Char)
    &&& builtin_at(types, nm_str(), PrimitiveType::Str)
}

/// Register one primitive type under its source-level name.
fn register_builtin(types: &mut Types, name: String, p: PrimitiveType) -> (r: TypeId)
    requires
        old(types).wf(),
    ensures
        final(types).wf(),
        builtin_at(*final(types), seq![name@], p),
        old(types).spec_known().len() <= final(types).spec_known().len(),
        forall|i: int|
            0 <= i < old(types).spec_known().len() ==> final(types).spec_known()[i] == old(types).spec_known()[i],
        forall|n: Seq<Seq<char>>|
            n != seq![name@] ==> final(types).spec_get(n) == old(types).spec_get(n),
{
    let path = Path::from_name(name);
    let ghost path_view = path@;
    let id = types.create_type(path, Type::Primitive(p));
    proof {
        assert(types.spec_get(path_view) == Some(id));
    }
    id
}

/// The name resolves to a valid id whose registered type is the primitive.
pub open spec fn builtin_at(types: Types, name: Seq<Seq<char>>, p: PrimitiveType) -> bool {
    &&& types.spec_get(name) matches Some(id)
    &&& 0 <= types.spec_get(name).unwrap()@ < types.spec_known().len()
    &&& types.spec_known()[types.spec_get(name).unwrap()@] == Type::Primitive(p)
}

/// A HLIR program package.
#[derive(Debug)]
pub struct HLIRPackage {
    /// All the types known to the package.
    pub types: Types,
    /// All the traits and their implementations.
    pub traits: Traits,
    /// All the functions: prototypes first, bodies as they finish.
    pub functions: Functions,
    /// All the variables.
    pub variables: Variables,
    /// The inference environment owning every expression type.
    pub type_inference_environment: TypeInferenceEnvironment,
    /// The function whose body is being lowered, if any.
    pub current_function: Option<FunctionId>,
    /// Builders of functions that were started and not yet finished,
    /// indexed by function id.
    pub building_functions: Vec<Option<FunctionBuilder>>,
    /// The scope blocks of the `{}` blocks currently open.
    pub current_blocks: Vec<(VariableScopeBlockId, TypeScopeId)>,
    /// The diagnostics collected so far, in the order they arose.
    pub diagnostics: Vec<TypeError>,
}

impl HLIRPackage {
    pub open spec fn spec_types(&self) -> Types {
        self.types
    }

    pub open spec fn spec_variables(&self) -> Variables {
        self.variables
    }

    pub open spec fn spec_functions(&self) -> Functions {
        self.functions
    }

    pub open spec fn spec_env(&self) -> TypeInferenceEnvironment {
        self.type_inference_environment
    }

    pub open spec fn spec_diagnostics(&self) -> Seq<TypeError> {
        self.diagnostics@
    }

    pub open spec fn spec_current_function(&self) -> Option<FunctionId> {
        self.current_function
    }

    pub open spec fn spec_open_blocks(&self) -> int {
        self.current_blocks@.len() as int
    }

    /// The scope pair of the innermost open `{}` block, if one is open.
    pub open spec fn spec_open_block_top(&self) -> Option<(VariableScopeBlockId, TypeScopeId)> {
        if self.current_blocks@.len() > 0 {
            Some(self.current_blocks@.last())
        } else {
            None
        }
    }

    /// The builder of a function that was started and not finished, if any.
    pub open spec fn spec_builder_of(&self, id: FunctionId) -> Option<FunctionBuilder> {
        if 0 <= id@ < self.building_functions@.len() {
            self.building_functions@[id@]
        } else {
            None
        }
    }

    /// All component tables are well formed.
    pub open spec fn wf(&self) -> bool {
        &&& self.spec_types().wf()
        &&& self.spec_variables().wf()
        &&& self.spec_functions().wf()
        &&& self.spec_env().wf()
    }

    /// Diagnostics are only ever appended: nothing already reported is
    /// dropped or rewritten.
    pub open spec fn extends_diagnostics(pre: Self, post: Self) -> bool {
        &&& pre.spec_diagnostics().len() <= post.spec_diagnostics().len()
        &&& forall|i: int|
            0 <= i < pre.spec_diagnostics().len() ==> #[trigger] post.spec_diagnostics()[i]
                == pre.spec_diagnostics()[i]
    }

    /// Create a package with the built-in primitive types pre-registered:
    /// `void`, the integer types, `f32`/`f64`, `bool`, `char` and `str` are
    /// always resolvable without prior declaration.
    #[must_use]
    pub fn new() -> (r: Self)
        ensures
            r.wf(),
            r.spec_env().spec_len() == 0,
            r.spec_diagnostics().len() == 0,
            r.spec_current_function() is None,
            r.spec_open_blocks() == 0,
            builtins_registered(r.spec_types()),
            // nothing but the built-in types exists yet
            r.spec_functions().spec_protos().len() == 0,
            forall|n: Seq<Seq<char>>| r.spec_functions().spec_get(n) is None,
            r.spec_variables().spec_known().len() == 0,
            forall|n: Seq<char>| r.spec_variables().spec_get(n) is None,
            forall|id: FunctionId| r.spec_builder_of(id) is None,
    {
        let mut package = Self {
            types: Types::new(),
            traits: Traits::new(),
            functions: Functions::new(),
            variables: Variables::new(),
            type_inference_environment: TypeInferenceEnvironment::new(),
            current_function: None,
            building_functions: Vec::new(),
            current_blocks: Vec::new(),
            diagnostics: Vec::new(),
        };
        package.add_builtin_types();
        package
    }

    /// Register the primitive types under their source-level names.
    #[verifier::rlimit(100)]
    fn add_builtin_types(&mut self)
        requires
            old(self).wf(),
        ensures
            final(self).wf(),
            final(self).spec_env() == old(self).spec_env(),
            final(self).spec_diagnostics() == old(self).spec_diagnostics(),
            final(self).spec_current_function() == old(self).spec_current_function(),
            final(self).spec_open_blocks() == old(self).spec_open_blocks(),
            final(self).spec_functions() == old(self).spec_functions(),
            final(self).spec_variables() == old(self).spec_variables(),
            final(self).building_functions == old(self).building_functions,
            builtins_registered(final(self).spec_types()),
    {
        let _ = register_builtin(&mut self.types, "void".to_owned(), PrimitiveType::Void);
        proof {
            reveal_strlit("void");
            reveal_strlit("i8");
            reveal_strlit("i16");
            reveal_strlit("i32");
            reveal_strlit("i64");
            reveal_strlit("u8");
            reveal_strlit("u16");
            reveal_strlit("u32");
            reveal_strlit("u64");
            reveal_strlit("f32");
            reveal_strlit("f64");
            reveal_strlit("bool");
            reveal_strlit("char");
            reveal_strlit("str");
            assert(seq!["void"@] =~~= nm_void());
            assert(seq!["void"@] == nm_void());
            assert(builtin_at(self.types, seq!["void"@], PrimitiveType::Void));
            assert(builtin_at(self.types, nm_void(), PrimitiveType::Void));
        }
        let _ = register_builtin(&mut self.types, "i8".to_owned(), PrimitiveType::I8);
        proof {
            reveal_strlit("void");
            reveal_strlit("i8");
            reveal_strlit("i16");
            reveal_strlit("i32");
            reveal_strlit("i64");
            reveal_strlit("u8");
            reveal_strlit("u16");
            reveal_strlit("u32");
            reveal_strlit("u64");
            reveal_strlit("f32");
            reveal_strlit("f64");
            reveal_strlit("bool");
            reveal_strlit("char");
            reveal_strlit("str");
            assert(seq!["i8"@] =~~= nm_i8());
            assert(seq!["i8"@] == nm_i8());
            assert(nm_void() != seq!["i8"@]) by {
                reveal_strlit("void");
                reveal_strlit("i8");
                assert("void"@.len() == 4);
                assert("i8"@.len() == 2);
                assert("void"@ != "i8"@);
                assert(nm_void()[0] == "void"@);
                assert(seq!["i8"@][0] == "i8"@);
            }
            assert(builtin_at(self.types, seq!["i8"@], PrimitiveType::I8));
            assert(builtin_at(self.types, nm_void(), PrimitiveType::Void));
            assert(builtin_at(self.types, nm_i8(), PrimitiveType::I8));
        }
        let _ = register_builtin(&mut self.types, "i16".to_owned(), PrimitiveType::I16);
        proof {
            reveal_strlit("void");
            reveal_strlit("i8");
            reveal_strlit("i16");
            reveal_strlit("i32");
            reveal_strlit("i64");
            reveal_strlit("u8");
            reveal_strlit("u16");
            reveal_strlit("u32");
            reveal_strlit("u64");
            reveal_strlit("f32");
            reveal_strlit("f64");
            reveal_strlit("bool");
            reveal_strlit("char");
            reveal_strlit("str");
            assert(seq!["i16"@] =~~= nm_i16());
            assert(seq!["i16"@] == nm_i16());
            assert(nm_void() != seq!["i16"@]) by {
                reveal_strlit("void");
                reveal_strlit("i16");
                assert("void"@.len() == 4);
                assert("i16"@.len() == 3);
                assert("void"@ != "i16"@);
                assert(nm_void()[0] == "void"@);
                assert(seq!["i16"@][0] == "i16"@);
            }
            assert(nm_i8() != seq!["i16"@]) by {
                reveal_strlit("i8");
                reveal_strlit("i16");
                assert("i8"@.len() == 2);
                assert("i16"@.len() == 3);
                assert("i8"@ != "i16"@);
                assert(nm_i8()[0] == "i8"@);
                assert(seq!["i16"@][0] == "i16"@);
            }
            assert(builtin_at(self.types, seq!["i16"@], PrimitiveType::I16));
            assert(builtin_at(self.types, nm_void(), PrimitiveType::Void));
            assert(builtin_at(self.types, nm_i8(), PrimitiveType::I8));
            assert(builtin_at(self.types, nm_i16(), PrimitiveType::I16));
        }
        let _ = register_builtin(&mut self.types, "i32".to_owned(), PrimitiveType::I32);
        proof {
            reveal_strlit("void");
            reveal_strlit("i8");
            reveal_strlit("i16");
            reveal_strlit("i32");
            reveal_strlit("i64");
            reveal_strlit("u8");
            reveal_strlit("u16");
            reveal_strlit("u32");
            reveal_strlit("u64");
            reveal_strlit("f32");
            reveal_strlit("f64");
            reveal_strlit("bool");
            reveal_strlit("char");
            reveal_strlit("str");
            assert(seq!["i32"@] =~~= nm_i32());
            assert(seq!["i32"@] == nm_i32());
            assert(nm_void() != seq!["i32"@]) by {
                reveal_strlit("void");
                reveal_strlit("i32");
                assert("void"@.len() == 4);
                assert("i32"@.len() == 3);
                assert("void"@ != "i32"@);
                assert(nm_void()[0] == "void"@);
                assert(seq!["i32"@][0] == "i32"@);
            }
            assert(nm_i8() != seq!["i32"@]) by {
                reveal_strlit("i8");
                reveal_strlit("i32");
                assert("i8"@.len() == 2);
                assert("i32"@.len() == 3);
                assert("i8"@ != "i32"@);
                assert(nm_i8()[0] == "i8"@);
                assert(seq!["i32"@][0] == "i32"@);
            }
            assert(nm_i16() != seq!["i32"@]) by {
                reveal_strlit("i16");
                reveal_strlit("i32");
                assert("i16"@[1] == '1');
                assert("i32"@[1] == '3');
                assert("i16"@ != "i32"@);
                assert(nm_i16()[0] == "i16"@);
                assert(seq!["i32"@][0] == "i32"@);
            }
            assert(builtin_at(self.types, seq!["i32"@], PrimitiveType::I32));
            assert(builtin_at(self.types, nm_void(), PrimitiveType::Void));
            assert(builtin_at(self.types, nm_i8(), PrimitiveType::I8));
            assert(builtin_at(self.types, nm_i16(), PrimitiveType::I16));
            assert(builtin_at(self.types, nm_i32(), PrimitiveType::I32));
        }
        let _ = register_builtin(&mut self.types, "i64".to_owned(), PrimitiveType::I64);
        proof {
            reveal_strlit("void");
            reveal_strlit("i8");
            reveal_strlit("i16");
            reveal_strlit("i32");
            reveal_strlit("i64");
            reveal_strlit("u8");
            reveal_strlit("u16");
            reveal_strlit("u32");
            reveal_strlit("u64");
            reveal_strlit("f32");
            reveal_strlit("f64");
            reveal_strlit("bool");
            reveal_strlit("char");
            reveal_strlit("str");
            assert(seq!["i64"@] =~~= nm_i64());
            assert(seq!["i64"@] == nm_i64());
            assert(nm_void() != seq!["i64"@]) by {
                reveal_strlit("void");
                reveal_strlit("i64");
                assert("void"@.len() == 4);
                assert("i64"@.len() == 3);
                assert("void"@ != "i64"@);
                assert(nm_void()[0] == "void"@);
                assert(seq!["i64"@][0] == "i64"@);
            }
            assert(nm_i8() != seq!["i64"@]) by {
                reveal_strlit("i8");
                reveal_strlit("i64");
                assert("i8"@.len() == 2);
                assert("i64"@.len() == 3);
                assert("i8"@ != "i64"@);
                assert(nm_i8()[0] == "i8"@);
                assert(seq!["i64"@][0] == "i64"@);
            }
            assert(nm_i16() != seq!["i64"@]) by {
                reveal_strlit("i16");
                reveal_strlit("i64");
                assert("i16"@[1] == '1');
                assert("i64"@[1] == '6');
                assert("i16"@ != "i64"@);
                assert(nm_i16()[0] == "i16"@);
                assert(seq!["i64"@][0] == "i64"@);
            }
            assert(nm_i32() != seq!["i64"@]) by {
                reveal_strlit("i32");
                reveal_strlit("i64");
                assert("i32"@[1] == '3');
                assert("i64"@[1] == '6');
                assert("i32"@ != "i64"@);
                assert(nm_i32()[0] == "i32"@);
                assert(seq!["i64"@][0] == "i64"@);
            }
            assert(builtin_at(self.types, seq!["i64"@], PrimitiveType::I64));
            assert(builtin_at(self.types, nm_void(), PrimitiveType::Void));
            assert(builtin_at(self.types, nm_i8(), PrimitiveType::I8));
            assert(builtin_at(self.types, nm_i16(), PrimitiveType::I16));
            assert(builtin_at(self.types, nm_i32(), PrimitiveType::I32));
            assert(builtin_at(self.types, nm_i64(), PrimitiveType::I64));
        }
        let _ = register_builtin(&mut self.types, "u8".to_owned(), PrimitiveType::U8);
        proof {
            reveal_strlit("void");
            reveal_strlit("i8");
            reveal_strlit("i16");
            reveal_strlit("i32");
            reveal_strlit("i64");
            reveal_strlit("u8");
            reveal_strlit("u16");
            reveal_strlit("u32");
            reveal_strlit("u64");
            reveal_strlit("f32");
            reveal_strlit("f64");
            reveal_strlit("bool");
            reveal_strlit("char");
            reveal_strlit("str");
            assert(seq!["u8"@] =~~= nm_u8());
            assert(seq!["u8"@] == nm_u8());
            assert(nm_void() != seq!["u8"@]) by {
                reveal_strlit("void");
                reveal_strlit("u8");
                assert("void"@.len() == 4);
                assert("u8"@.len() == 2);
                assert("void"@ != "u8"@);
                assert(nm_void()[0] == "void"@);
                assert(seq!["u8"@][0] == "u8"@);
            }
            assert(nm_i8() != seq!["u8"@]) by {
                reveal_strlit("i8");
                reveal_strlit("u8");
                assert("i8"@[0] == 'i');
                assert("u8"@[0] == 'u');
                assert("i8"@ != "u8"@);
                assert(nm_i8()[0] == "i8"@);
                assert(seq!["u8"@][0] == "u8"@);
            }
            assert(nm_i16() != seq!["u8"@]) by {
                reveal_strlit("i16");
                reveal_strlit("u8");
                assert("i16"@.len() == 3);
                assert("u8"@.len() == 2);
                assert("i16"@ != "u8"@);
                assert(nm_i16()[0] == "i16"@);
                assert(seq!["u8"@][0] == "u8"@);
            }
            assert(nm_i32() != seq!["u8"@]) by {
                reveal_strlit("i32");
                reveal_strlit("u8");
                assert("i32"@.len() == 3);
                assert("u8"@.len() == 2);
                assert("i32"@ != "u8"@);
                assert(nm_i32()[0] == "i32"@);
                assert(seq!["u8"@][0] == "u8"@);
            }
            assert(nm_i64() != seq!["u8"@]) by {
                reveal_strlit("i64");
                reveal_strlit("u8");
                assert("i64"@.len() == 3);
                assert("u8"@.len() == 2);
                assert("i64"@ != "u8"@);
                assert(nm_i64()[0] == "i64"@);
                assert(seq!["u8"@][0] == "u8"@);
            }
            assert(builtin_at(self.types, seq!["u8"@], PrimitiveType::U8));
            assert(builtin_at(self.types, nm_void(), PrimitiveType::Void));
            assert(builtin_at(self.types, nm_i8(), PrimitiveType::I8));
            assert(builtin_at(self.types, nm_i16(), PrimitiveType::I16));
            assert(builtin_at(self.types, nm_i32(), PrimitiveType::I32));
            assert(builtin_at(self.types, nm_i64(), PrimitiveType::I64));
            assert(builtin_at(self.types, nm_u8(), PrimitiveType::U8));
        }
        let _ = register_builtin(&mut self.types, "u16".to_owned(), PrimitiveType::U16);
        proof {
            reveal_strlit("void");
            reveal_strlit("i8");
            reveal_strlit("i16");
            reveal_strlit("i32");
            reveal_strlit("i64");
            reveal_strlit("u8");
            reveal_strlit("u16");
            reveal_strlit("u32");
            reveal_strlit("u64");
            reveal_strlit("f32");
            reveal_strlit("f64");
            reveal_strlit("bool");
            reveal_strlit("char");
            reveal_strlit("str");
            assert(seq!["u16"@] =~~= nm_u16());
            assert(seq!["u16"@] == nm_u16());
            assert(nm_void() != seq!["u16"@]) by {
                reveal_strlit("void");
                reveal_strlit("u16");
                assert("void"@.len() == 4);
                assert("u16"@.len() == 3);
                assert("void"@ != "u16"@);
                assert(nm_void()[0] == "void"@);
                assert(seq!["u16"@][0] == "u16"@);
            }
            assert(nm_i8() != seq!["u16"@]) by {
                reveal_strlit("i8");
                reveal_strlit("u16");
                assert("i8"@.len() == 2);
                assert("u16"@.len() == 3);
                assert("i8"@ != "u16"@);
                assert(nm_i8()[0] == "i8"@);
                assert(seq!["u16"@][0] == "u16"@);
            }
            assert(nm_i16() != seq!["u16"@]) by {
                reveal_strlit("i16");
                reveal_strlit("u16");
                assert("i16"@[0] == 'i');
                assert("u16"@[0] == 'u');
                assert("i16"@ != "u16"@);
                assert(nm_i16()[0] == "i16"@);
                assert(seq!["u16"@][0] == "u16"@);
            }
            assert(nm_i32() != seq!["u16"@]) by {
                reveal_strlit("i32");
                reveal_strlit("u16");
                assert("i32"@[0] == 'i');
                assert("u16"@[0] == 'u');
                assert("i32"@ != "u16"@);
                assert(nm_i32()[0] == "i32"@);
                assert(seq!["u16"@][0] == "u16"@);
            }
            assert(nm_i64() != seq!["u16"@]) by {
                reveal_strlit("i64");
                reveal_strlit("u16");
                assert("i64"@[0] == 'i');
                assert("u16"@[0] == 'u');
                assert("i64"@ != "u16"@);
                assert(nm_i64()[0] == "i64"@);
                assert(seq!["u16"@][0] == "u16"@);
            }
            assert(nm_u8() != seq!["u16"@]) by {
                reveal_strlit("u8");
                reveal_strlit("u16");
                assert("u8"@.len() == 2);
                assert("u16"@.len() == 3);
                assert("u8"@ != "u16"@);
                assert(nm_u8()[0] == "u8"@);
                assert(seq!["u16"@][0] == "u16"@);
            }
            assert(builtin_at(self.types, seq!["u16"@], PrimitiveType::U16));
            assert(builtin_at(self.types, nm_void(), PrimitiveType::Void));
            assert(builtin_at(self.types, nm_i8(), PrimitiveType::I8));
            assert(builtin_at(self.types, nm_i16(), PrimitiveType::I16));
            assert(builtin_at(self.types, nm_i32(), PrimitiveType::I32));
            assert(builtin_at(self.types, nm_i64(), PrimitiveType::I64));
            assert(builtin_at(self.types, nm_u8(), PrimitiveType::U8));
            assert(builtin_at(self.types, nm_u16(), PrimitiveType::U16));
        }
        let _ = register_builtin(&mut self.types, "u32".to_owned(), PrimitiveType::U32);
        proof {
            reveal_strlit("void");
            reveal_strlit("i8");
            reveal_strlit("i16");
            reveal_strlit("i32");
            reveal_strlit("i64");
            reveal_strlit("u8");
            reveal_strlit("u16");
            reveal_strlit("u32");
            reveal_strlit("u64");
            reveal_strlit("f32");
            reveal_strlit("f64");
            reveal_strlit("bool");
            reveal_strlit("char");
            reveal_strlit("str");
            assert(seq!["u32"@] =~~= nm_u32());
            assert(seq!["u32"@] == nm_u32());
            assert(nm_void() != seq!["u32"@]) by {
                reveal_strlit("void");
                reveal_strlit("u32");
                assert("void"@.len() == 4);
                assert("u32"@.len() == 3);
                assert("void"@ != "u32"@);
                assert(nm_void()[0] == "void"@);
                assert(seq!["u32"@][0] == "u32"@);
            }
            assert(nm_i8() != seq!["u32"@]) by {
                reveal_strlit("i8");
                reveal_strlit("u32");
                assert("i8"@.len() == 2);
                assert("u32"@.len() == 3);
                assert("i8"@ != "u32"@);
                assert(nm_i8()[0] == "i8"@);
                assert(seq!["u32"@][0] == "u32"@);
            }
            assert(nm_i16() != seq!["u32"@]) by {
                reveal_strlit("i16");
                reveal_strlit("u32");
                assert("i16"@[0] == 'i');
                assert("u32"@[0] == 'u');
                assert("i16"@ != "u32"@);
                assert(nm_i16()[0] == "i16"@);
                assert(seq!["u32"@][0] == "u32"@);
            }
            assert(nm_i32() != seq!["u32"@]) by {
                reveal_strlit("i32");
                reveal_strlit("u32");
                assert("i32"@[0] == 'i');
                assert("u32"@[0] == 'u');
                assert("i32"@ != "u32"@);
                assert(nm_i32()[0] == "i32"@);
                assert(seq!["u32"@][0] == "u32"@);
            }
            assert(nm_i64() != seq!["u32"@]) by {
                reveal_strlit("i64");
                reveal_strlit("u32");
                assert("i64"@[0] == 'i');
                assert("u32"@[0] == 'u');
                assert("i64"@ != "u32"@);
                assert(nm_i64()[0] == "i64"@);
                assert(seq!["u32"@][0] == "u32"@);
            }
            assert(nm_u8() != seq!["u32"@]) by {
                reveal_strlit("u8");
                reveal_strlit("u32");
                assert("u8"@.len() == 2);
                assert("u32"@.len() == 3);
                assert("u8"@ != "u32"@);
                assert(nm_u8()[0] == "u8"@);
                assert(seq!["u32"@][0] == "u32"@);
            }
            assert(nm_u16() != seq!["u32"@]) by {
                reveal_strlit("u16");
                reveal_strlit("u32");
                assert("u16"@[1] == '1');
                assert("u32"@[1] == '3');
                assert("u16"@ != "u32"@);
                assert(nm_u16()[0] == "u16"@);
                assert(seq!["u32"@][0] == "u32"@);
            }
            assert(builtin_at(self.types, seq!["u32"@], PrimitiveType::U32));
            assert(builtin_at(self.types, nm_void(), PrimitiveType::Void));
            assert(builtin_at(self.types, nm_i8(), PrimitiveType::I8));
            assert(builtin_at(self.types, nm_i16(), PrimitiveType::I16));
            assert(builtin_at(self.types, nm_i32(), PrimitiveType::I32));
            assert(builtin_at(self.types, nm_i64(), PrimitiveType::I64));
            assert(builtin_at(self.types, nm_u8(), PrimitiveType::U8));
            assert(builtin_at(self.types, nm_u16(), PrimitiveType::U16));
            assert(builtin_at(self.types, nm_u32(), PrimitiveType::U32));
        }
        let _ = register_builtin(&mut self.types, "u64".to_owned(), PrimitiveType::U64);
        proof {
            reveal_strlit("void");
            reveal_strlit("i8");
            reveal_strlit("i16");
            reveal_strlit("i32");
            reveal_strlit("i64");
            reveal_strlit("u8");
            reveal_strlit("u16");
            reveal_strlit("u32");
            reveal_strlit("u64");
            reveal_strlit("f32");
            reveal_strlit("f64");
            reveal_strlit("bool");
            reveal_strlit("char");
            reveal_strlit("str");
            assert(seq!["u64"@] =~~= nm_u64());
            assert(seq!["u64"@] == nm_u64());
            assert(nm_void() != seq!["u64"@]) by {
                reveal_strlit("void");
                reveal_strlit("u64");
                assert("void"@.len() == 4);
                assert("u64"@.len() == 3);
                assert("void"@ != "u64"@);
                assert(nm_void()[0] == "void"@);
                assert(seq!["u64"@][0] == "u64"@);
            }
            assert(nm_i8() != seq!["u64"@]) by {
                reveal_strlit("i8");
                reveal_strlit("u64");
                assert("i8"@.len() == 2);
                assert("u64"@.len() == 3);
                assert("i8"@ != "u64"@);
                assert(nm_i8()[0] == "i8"@);
                assert(seq!["u64"@][0] == "u64"@);
            }
            assert(nm_i16() != seq!["u64"@]) by {
                reveal_strlit("i16");
                reveal_strlit("u64");
                assert("i16"@[0] == 'i');
                assert("u64"@[0] == 'u');
                assert("i16"@ != "u64"@);
                assert(nm_i16()[0] == "i16"@);
                assert(seq!["u64"@][0] == "u64"@);
            }
            assert(nm_i32() != seq!["u64"@]) by {
                reveal_strlit("i32");
                reveal_strlit("u64");
                assert("i32"@[0] == 'i');
                assert("u64"@[0] == 'u');
                assert("i32"@ != "u64"@);
                assert(nm_i32()[0] == "i32"@);
                assert(seq!["u64"@][0] == "u64"@);
            }
            assert(nm_i64() != seq!["u64"@]) by {
                reveal_strlit("i64");
                reveal_strlit("u64");
                assert("i64"@[0] == 'i');
                assert("u64"@[0] == 'u');
                assert("i64"@ != "u64"@);
                assert(nm_i64()[0] == "i64"@);
                assert(seq!["u64"@][0] == "u64"@);
            }
            assert(nm_u8() != seq!["u64"@]) by {
                reveal_strlit("u8");
                reveal_strlit("u64");
                assert("u8"@.len() == 2);
                assert("u64"@.len() == 3);
                assert("u8"@ != "u64"@);
                assert(nm_u8()[0] == "u8"@);
                assert(seq!["u64"@][0] == "u64"@);
            }
            assert(nm_u16() != seq!["u64"@]) by {
                reveal_strlit("u16");
                reveal_strlit("u64");
                assert("u16"@[1] == '1');
                assert("u64"@[1] == '6');
                assert("u16"@ != "u64"@);
                assert(nm_u16()[0] == "u16"@);
                assert(seq!["u64"@][0] == "u64"@);
            }
            assert(nm_u32() != seq!["u64"@]) by {
                reveal_strlit("u32");
                reveal_strlit("u64");
                assert("u32"@[1] == '3');
                assert("u64"@[1] == '6');
                assert("u32"@ != "u64"@);
                assert(nm_u32()[0] == "u32"@);
                assert(seq!["u64"@][0] == "u64"@);
            }
            assert(builtin_at(self.types, seq!["u64"@], PrimitiveType::U64));
            assert(builtin_at(self.types, nm_void(), PrimitiveType::Void));
            assert(builtin_at(self.types, nm_i8(), PrimitiveType::I8));
            assert(builtin_at(self.types, nm_i16(), PrimitiveType::I16));
            assert(builtin_at(self.types, nm_i32(), PrimitiveType::I32));
            assert(builtin_at(self.types, nm_i64(), PrimitiveType::I64));
            assert(builtin_at(self.types, nm_u8(), PrimitiveType::U8));
            assert(builtin_at(self.types, nm_u16(), PrimitiveType::U16));
            assert(builtin_at(self.types, nm_u32(), PrimitiveType::U32));
            assert(builtin_at(self.types, nm_u64(), PrimitiveType::U64));
        }
        let _ = register_builtin(&mut self.types, "f32".to_owned(), PrimitiveType::F32);
        proof {
            reveal_strlit("void");
            reveal_strlit("i8");
            reveal_strlit("i16");
            reveal_strlit("i32");
            reveal_strlit("i64");
            reveal_strlit("u8");
            reveal_strlit("u16");
            reveal_strlit("u32");
            reveal_strlit("u64");
            reveal_strlit("f32");
            reveal_strlit("f64");
            reveal_strlit("bool");
            reveal_strlit("char");
            reveal_strlit("str");
            assert(seq!["f32"@] =~~= nm_f32());
            assert(seq!["f32"@] == nm_f32());
            assert(nm_void() != seq!["f32"@]) by {
                reveal_strlit("void");
                reveal_strlit("f32");
                assert("void"@.len() == 4);
                assert("f32"@.len() == 3);
                assert("void"@ != "f32"@);
                assert(nm_void()[0] == "void"@);
                assert(seq!["f32"@][0] == "f32"@);
            }
            assert(nm_i8() != seq!["f32"@]) by {
                reveal_strlit("i8");
                reveal_strlit("f32");
                assert("i8"@.len() == 2);
                assert("f32"@.len() == 3);
                assert("i8"@ != "f32"@);
                assert(nm_i8()[0] == "i8"@);
                assert(seq!["f32"@][0] == "f32"@);
            }
            assert(nm_i16() != seq!["f32"@]) by {
                reveal_strlit("i16");
                reveal_strlit("f32");
                assert("i16"@[0] == 'i');
                assert("f32"@[0] == 'f');
                assert("i16"@ != "f32"@);
                assert(nm_i16()[0] == "i16"@);
                assert(seq!["f32"@][0] == "f32"@);
            }
            assert(nm_i32() != seq!["f32"@]) by {
                reveal_strlit("i32");
                reveal_strlit("f32");
                assert("i32"@[0] == 'i');
                assert("f32"@[0] == 'f');
                assert("i32"@ != "f32"@);
                assert(nm_i32()[0] == "i32"@);
                assert(seq!["f32"@][0] == "f32"@);
            }
            assert(nm_i64() != seq!["f32"@]) by {
                reveal_strlit("i64");
                reveal_strlit("f32");
                assert("i64"@[0] == 'i');
                assert("f32"@[0] == 'f');
                assert("i64"@ != "f32"@);
                assert(nm_i64()[0] == "i64"@);
                assert(seq!["f32"@][0] == "f32"@);
            }
            assert(nm_u8() != seq!["f32"@]) by {
                reveal_strlit("u8");
                reveal_strlit("f32");
                assert("u8"@.len() == 2);
                assert("f32"@.len() == 3);
                assert("u8"@ != "f32"@);
                assert(nm_u8()[0] == "u8"@);
                assert(seq!["f32"@][0] == "f32"@);
            }
            assert(nm_u16() != seq!["f32"@]) by {
                reveal_strlit("u16");
                reveal_strlit("f32");
                assert("u16"@[0] == 'u');
                assert("f32"@[0] == 'f');
                assert("u16"@ != "f32"@);
                assert(nm_u16()[0] == "u16"@);
                assert(seq!["f32"@][0] == "f32"@);
            }
            assert(nm_u32() != seq!["f32"@]) by {
                reveal_strlit("u32");
                reveal_strlit("f32");
                assert("u32"@[0] == 'u');
                assert("f32"@[0] == 'f');
                assert("u32"@ != "f32"@);
                assert(nm_u32()[0] == "u32"@);
                assert(seq!["f32"@][0] == "f32"@);
            }
            assert(nm_u64() != seq!["f32"@]) by {
                reveal_strlit("u64");
                reveal_strlit("f32");
                assert("u64"@[0] == 'u');
                assert("f32"@[0] == 'f');
                assert("u64"@ != "f32"@);
                assert(nm_u64()[0] == "u64"@);
                assert(seq!["f32"@][0] == "f32"@);
            }
            assert(builtin_at(self.types, seq!["f32"@], PrimitiveType::F32));
            assert(builtin_at(self.types, nm_void(), PrimitiveType::Void));
            assert(builtin_at(self.types, nm_i8(), PrimitiveType::I8));
            assert(builtin_at(self.types, nm_i16(), PrimitiveType::I16));
            assert(builtin_at(self.types, nm_i32(), PrimitiveType::I32));
            assert(builtin_at(self.types, nm_i64(), PrimitiveType::I64));
            assert(builtin_at(self.types, nm_u8(), PrimitiveType::U8));
            assert(builtin_at(self.types, nm_u16(), PrimitiveType::U16));
            assert(builtin_at(self.types, nm_u32(), PrimitiveType::U32));
            assert(builtin_at(self.types, nm_u64(), PrimitiveType::U64));
            assert(builtin_at(self.types, nm_f32(), PrimitiveType::F32));
        }
        let _ = register_builtin(&mut self.types, "f64".to_owned(), PrimitiveType::F64);
        proof {
            reveal_strlit("void");
            reveal_strlit("i8");
            reveal_strlit("i16");
            reveal_strlit("i32");
            reveal_strlit("i64");
            reveal_strlit("u8");
            reveal_strlit("u16");
            reveal_strlit("u32");
            reveal_strlit("u64");
            reveal_strlit("f32");
            reveal_strlit("f64");
            reveal_strlit("bool");
            reveal_strlit("char");
            reveal_strlit("str");
            assert(seq!["f64"@] =~~= nm_f64());
            assert(seq!["f64"@] == nm_f64());
            assert(nm_void() != seq!["f64"@]) by {
                reveal_strlit("void");
                reveal_strlit("f64");
                assert("void"@.len() == 4);
                assert("f64"@.len() == 3);
                assert("void"@ != "f64"@);
                assert(nm_void()[0] == "void"@);
                assert(seq!["f64"@][0] == "f64"@);
            }
            assert(nm_i8() != seq!["f64"@]) by {
                reveal_strlit("i8");
                reveal_strlit("f64");
                assert("i8"@.len() == 2);
                assert("f64"@.len() == 3);
                assert("i8"@ != "f64"@);
                assert(nm_i8()[0] == "i8"@);
                assert(seq!["f64"@][0] == "f64"@);
            }
            assert(nm_i16() != seq!["f64"@]) by {
                reveal_strlit("i16");
                reveal_strlit("f64");
                assert("i16"@[0] == 'i');
                assert("f64"@[0] == 'f');
                assert("i16"@ != "f64"@);
                assert(nm_i16()[0] == "i16"@);
                assert(seq!["f64"@][0] == "f64"@);
            }
            assert(nm_i32() != seq!["f64"@]) by {
                reveal_strlit("i32");
                reveal_strlit("f64");
                assert("i32"@[0] == 'i');
                assert("f64"@[0] == 'f');
                assert("i32"@ != "f64"@);
                assert(nm_i32()[0] == "i32"@);
                assert(seq!["f64"@][0] == "f64"@);
            }
            assert(nm_i64() != seq!["f64"@]) by {
                reveal_strlit("i64");
                reveal_strlit("f64");
                assert("i64"@[0] == 'i');
                assert("f64"@[0] == 'f');
                assert("i64"@ != "f64"@);
                assert(nm_i64()[0] == "i64"@);
                assert(seq!["f64"@][0] == "f64"@);
            }
            assert(nm_u8() != seq!["f64"@]) by {
                reveal_strlit("u8");
                reveal_strlit("f64");
                assert("u8"@.len() == 2);
                assert("f64"@.len() == 3);
                assert("u8"@ != "f64"@);
                assert(nm_u8()[0] == "u8"@);
                assert(seq!["f64"@][0] == "f64"@);
            }
            assert(nm_u16() != seq!["f64"@]) by {
                reveal_strlit("u16");
                reveal_strlit("f64");
                assert("u16"@[0] == 'u');
                assert("f64"@[0] == 'f');
                assert("u16"@ != "f64"@);
                assert(nm_u16()[0] == "u16"@);
                assert(seq!["f64"@][0] == "f64"@);
            }
            assert(nm_u32() != seq!["f64"@]) by {
                reveal_strlit("u32");
                reveal_strlit("f64");
                assert("u32"@[0] == 'u');
                assert("f64"@[0] == 'f');
                assert("u32"@ != "f64"@);
                assert(nm_u32()[0] == "u32"@);
                assert(seq!["f64"@][0] == "f64"@);
            }
            assert(nm_u64() != seq!["f64"@]) by {
                reveal_strlit("u64");
                reveal_strlit("f64");
                assert("u64"@[0] == 'u');
                assert("f64"@[0] == 'f');
                assert("u64"@ != "f64"@);
                assert(nm_u64()[0] == "u64"@);
                assert(seq!["f64"@][0] == "f64"@);
            }
            assert(nm_f32() != seq!["f64"@]) by {
                reveal_strlit("f32");
                reveal_strlit("f64");
                assert("f32"@[1] == '3');
                assert("f64"@[1] == '6');
                assert("f32"@ != "f64"@);
                assert(nm_f32()[0] == "f32"@);
                assert(seq!["f64"@][0] == "f64"@);
            }
            assert(builtin_at(self.types, seq!["f64"@], PrimitiveType::F64));
            assert(builtin_at(self.types, nm_void(), PrimitiveType::Void));
            assert(builtin_at(self.types, nm_i8(), PrimitiveType::I8));
            assert(builtin_at(self.types, nm_i16(), PrimitiveType::I16));
            assert(builtin_at(self.types, nm_i32(), PrimitiveType::I32));
            assert(builtin_at(self.types, nm_i64(), PrimitiveType::I64));
            assert(builtin_at(self.types, nm_u8(), PrimitiveType::U8));
            assert(builtin_at(self.types, nm_u16(), PrimitiveType::U16));
            assert(builtin_at(self.types, nm_u32(), PrimitiveType::U32));
            assert(builtin_at(self.types, nm_u64(), PrimitiveType::U64));
            assert(builtin_at(self.types, nm_f32(), PrimitiveType::F32));
            assert(builtin_at(self.types, nm_f64(), PrimitiveType::F64));
        }
        let _ = register_builtin(&mut self.types, "bool".to_owned(), PrimitiveType::Bool);
        proof {
            reveal_strlit("void");
            reveal_strlit("i8");
            reveal_strlit("i16");
            reveal_strlit("i32");
            reveal_strlit("i64");
            reveal_strlit("u8");
            reveal_strlit("u16");
            reveal_strlit("u32");
            reveal_strlit("u64");
            reveal_strlit("f32");
            reveal_strlit("f64");
            reveal_strlit("bool");
            reveal_strlit("char");
            reveal_strlit("str");
            assert(seq!["bool"@] =~~= nm_bool());
            assert(seq!["bool"@] == nm_bool());
            assert(nm_void() != seq!["bool"@]) by {
                reveal_strlit("void");
                reveal_strlit("bool");
                assert("void"@[0] == 'v');
                assert("bool"@[0] == 'b');
                assert("void"@ != "bool"@);
                assert(nm_void()[0] == "void"@);
                assert(seq!["bool"@][0] == "bool"@);
            }
            assert(nm_i8() != seq!["bool"@]) by {
                reveal_strlit("i8");
                reveal_strlit("bool");
                assert("i8"@.len() == 2);
                assert("bool"@.len() == 4);
                assert("i8"@ != "bool"@);
                assert(nm_i8()[0] == "i8"@);
                assert(seq!["bool"@][0] == "bool"@);
            }
            assert(nm_i16() != seq!["bool"@]) by {
                reveal_strlit("i16");
                reveal_strlit("bool");
                assert("i16"@.len() == 3);
                assert("bool"@.len() == 4);
                assert("i16"@ != "bool"@);
                assert(nm_i16()[0] == "i16"@);
                assert(seq!["bool"@][0] == "bool"@);
            }
            assert(nm_i32() != seq!["bool"@]) by {
                reveal_strlit("i32");
                reveal_strlit("bool");
                assert("i32"@.len() == 3);
                assert("bool"@.len() == 4);
                assert("i32"@ != "bool"@);
                assert(nm_i32()[0] == "i32"@);
                assert(seq!["bool"@][0] == "bool"@);
            }
            assert(nm_i64() != seq!["bool"@]) by {
                reveal_strlit("i64");
                reveal_strlit("bool");
                assert("i64"@.len() == 3);
                assert("bool"@.len() == 4);
                assert("i64"@ != "bool"@);
                assert(nm_i64()[0] == "i64"@);
                assert(seq!["bool"@][0] == "bool"@);
            }
            assert(nm_u8() != seq!["bool"@]) by {
                reveal_strlit("u8");
                reveal_strlit("bool");
                assert("u8"@.len() == 2);
                assert("bool"@.len() == 4);
                assert("u8"@ != "bool"@);
                assert(nm_u8()[0] == "u8"@);
                assert(seq!["bool"@][0] == "bool"@);
            }
            assert(nm_u16() != seq!["bool"@]) by {
                reveal_strlit("u16");
                reveal_strlit("bool");
                assert("u16"@.len() == 3);
                assert("bool"@.len() == 4);
                assert("u16"@ != "bool"@);
                assert(nm_u16()[0] == "u16"@);
                assert(seq!["bool"@][0] == "bool"@);
            }
            assert(nm_u32() != seq!["bool"@]) by {
                reveal_strlit("u32");
                reveal_strlit("bool");
                assert("u32"@.len() == 3);
                assert("bool"@.len() == 4);
                assert("u32"@ != "bool"@);
                assert(nm_u32()[0] == "u32"@);
                assert(seq!["bool"@][0] == "bool"@);
            }
            assert(nm_u64() != seq!["bool"@]) by {
                reveal_strlit("u64");
                reveal_strlit("bool");
                assert("u64"@.len() == 3);
                assert("bool"@.len() == 4);
                assert("u64"@ != "bool"@);
                assert(nm_u64()[0] == "u64"@);
                assert(seq!["bool"@][0] == "bool"@);
            }
            assert(nm_f32() != seq!["bool"@]) by {
                reveal_strlit("f32");
                reveal_strlit("bool");
                assert("f32"@.len() == 3);
                assert("bool"@.len() == 4);
                assert("f32"@ != "bool"@);
                assert(nm_f32()[0] == "f32"@);
                assert(seq!["bool"@][0] == "bool"@);
            }
            assert(nm_f64() != seq!["bool"@]) by {
                reveal_strlit("f64");
                reveal_strlit("bool");
                assert("f64"@.len() == 3);
                assert("bool"@.len() == 4);
                assert("f64"@ != "bool"@);
                assert(nm_f64()[0] == "f64"@);
                assert(seq!["bool"@][0] == "bool"@);
            }
            assert(builtin_at(self.types, seq!["bool"@], PrimitiveType::Bool));
            assert(builtin_at(self.types, nm_void(), PrimitiveType::Void));
            assert(builtin_at(self.types, nm_i8(), PrimitiveType::I8));
            assert(builtin_at(self.types, nm_i16(), PrimitiveType::I16));
            assert(builtin_at(self.types, nm_i32(), PrimitiveType::I32));
            assert(builtin_at(self.types, nm_i64(), PrimitiveType::I64));
            assert(builtin_at(self.types, nm_u8(), PrimitiveType::U8));
            assert(builtin_at(self.types, nm_u16(), PrimitiveType::U16));
            assert(builtin_at(self.types, nm_u32(), PrimitiveType::U32));
            assert(builtin_at(self.types, nm_u64(), PrimitiveType::U64));
            assert(builtin_at(self.types, nm_f32(), PrimitiveType::F32));
            assert(builtin_at(self.types, nm_f64(), PrimitiveType::F64));
            assert(builtin_at(self.types, nm_bool(), PrimitiveType::Bool));
        }
        let _ = register_builtin(&mut self.types, "char".to_owned(), PrimitiveType::Char);
        proof {
            reveal_strlit("void");
            reveal_strlit("i8");
            reveal_strlit("i16");
            reveal_strlit("i32");
            reveal_strlit("i64");
            reveal_strlit("u8");
            reveal_strlit("u16");
            reveal_strlit("u32");
            reveal_strlit("u64");
            reveal_strlit("f32");
            reveal_strlit("f64");
            reveal_strlit("bool");
            reveal_strlit("char");
            reveal_strlit("str");
            assert(seq!["char"@] =~~= nm_char());
            assert(seq!["char"@] == nm_char());
            assert(nm_void() != seq!["char"@]) by {
                reveal_strlit("void");
                reveal_strlit("char");
                assert("void"@[0] == 'v');
                assert("char"@[0] == 'c');
                assert("void"@ != "char"@);
                assert(nm_void()[0] == "void"@);
                assert(seq!["char"@][0] == "char"@);
            }
            assert(nm_i8() != seq!["char"@]) by {
                reveal_strlit("i8");
                reveal_strlit("char");
                assert("i8"@.len() == 2);
                assert("char"@.len() == 4);
                assert("i8"@ != "char"@);
                assert(nm_i8()[0] == "i8"@);
                assert(seq!["char"@][0] == "char"@);
            }
            assert(nm_i16() != seq!["char"@]) by {
                reveal_strlit("i16");
                reveal_strlit("char");
                assert("i16"@.len() == 3);
                assert("char"@.len() == 4);
                assert("i16"@ != "char"@);
                assert(nm_i16()[0] == "i16"@);
                assert(seq!["char"@][0] == "char"@);
            }
            assert(nm_i32() != seq!["char"@]) by {
                reveal_strlit("i32");
                reveal_strlit("char");
                assert("i32"@.len() == 3);
                assert("char"@.len() == 4);
                assert("i32"@ != "char"@);
                assert(nm_i32()[0] == "i32"@);
                assert(seq!["char"@][0] == "char"@);
            }
            assert(nm_i64() != seq!["char"@]) by {
                reveal_strlit("i64");
                reveal_strlit("char");
                assert("i64"@.len() == 3);
                assert("char"@.len() == 4);
                assert("i64"@ != "char"@);
                assert(nm_i64()[0] == "i64"@);
                assert(seq!["char"@][0] == "char"@);
            }
            assert(nm_u8() != seq!["char"@]) by {
                reveal_strlit("u8");
                reveal_strlit("char");
                assert("u8"@.len() == 2);
                assert("char"@.len() == 4);
                assert("u8"@ != "char"@);
                assert(nm_u8()[0] == "u8"@);
                assert(seq!["char"@][0] == "char"@);
            }
            assert(nm_u16() != seq!["char"@]) by {
                reveal_strlit("u16");
                reveal_strlit("char");
                assert("u16"@.len() == 3);
                assert("char"@.len() == 4);
                assert("u16"@ != "char"@);
                assert(nm_u16()[0] == "u16"@);
                assert(seq!["char"@][0] == "char"@);
            }
            assert(nm_u32() != seq!["char"@]) by {
                reveal_strlit("u32");
                reveal_strlit("char");
                assert("u32"@.len() == 3);
                assert("char"@.len() == 4);
                assert("u32"@ != "char"@);
                assert(nm_u32()[0] == "u32"@);
                assert(seq!["char"@][0] == "char"@);
            }
            assert(nm_u64() != seq!["char"@]) by {
                reveal_strlit("u64");
                reveal_strlit("char");
                assert("u64"@.len() == 3);
                assert("char"@.len() == 4);
                assert("u64"@ != "char"@);
                assert(nm_u64()[0] == "u64"@);
                assert(seq!["char"@][0] == "char"@);
            }
            assert(nm_f32() != seq!["char"@]) by {
                reveal_strlit("f32");
                reveal_strlit("char");
                assert("f32"@.len() == 3);
                assert("char"@.len() == 4);
                assert("f32"@ != "char"@);
                assert(nm_f32()[0] == "f32"@);
                assert(seq!["char"@][0] == "char"@);
            }
            assert(nm_f64() != seq!["char"@]) by {
                reveal_strlit("f64");
                reveal_strlit("char");
                assert("f64"@.len() == 3);
                assert("char"@.len() == 4);
                assert("f64"@ != "char"@);
                assert(nm_f64()[0] == "f64"@);
                assert(seq!["char"@][0] == "char"@);
            }
            assert(nm_bool() != seq!["char"@]) by {
                reveal_strlit("bool");
                reveal_strlit("char");
                assert("bool"@[0] == 'b');
                assert("char"@[0] == 'c');
                assert("bool"@ != "char"@);
                assert(nm_bool()[0] == "bool"@);
                assert(seq!["char"@][0] == "char"@);
            }
            assert(builtin_at(self.types, seq!["char"@], PrimitiveType::Char));
            assert(builtin_at(self.types, nm_void(), PrimitiveType::Void));
            assert(builtin_at(self.types, nm_i8(), PrimitiveType::I8));
            assert(builtin_at(self.types, nm_i16(), PrimitiveType::I16));
            assert(builtin_at(self.types, nm_i32(), PrimitiveType::I32));
            assert(builtin_at(self.types, nm_i64(), PrimitiveType::I64));
            assert(builtin_at(self.types, nm_u8(), PrimitiveType::U8));
            assert(builtin_at(self.types, nm_u16(), PrimitiveType::U16));
            assert(builtin_at(self.types, nm_u32(), PrimitiveType::U32));
            assert(builtin_at(self.types, nm_u64(), PrimitiveType::U64));
            assert(builtin_at(self.types, nm_f32(), PrimitiveType::F32));
            assert(builtin_at(self.types, nm_f64(), PrimitiveType::F64));
            assert(builtin_at(self.types, nm_bool(), PrimitiveType::Bool));
            assert(builtin_at(self.types, nm_char(), PrimitiveType::Char));
        }
        let _ = register_builtin(&mut self.types, "str".to_owned(), PrimitiveType::Str);
        proof {
            reveal_strlit("void");
            reveal_strlit("i8");
            reveal_strlit("i16");
            reveal_strlit("i32");
            reveal_strlit("i64");
            reveal_strlit("u8");
            reveal_strlit("u16");
            reveal_strlit("u32");
            reveal_strlit("u64");
            reveal_strlit("f32");
            reveal_strlit("f64");
            reveal_strlit("bool");
            reveal_strlit("char");
            reveal_strlit("str");
            assert(seq!["str"@] =~~= nm_str());
            assert(seq!["str"@] == nm_str());
            assert(nm_void() != seq!["str"@]) by {
                reveal_strlit("void");
                reveal_strlit("str");
                assert("void"@.len() == 4);
                assert("str"@.len() == 3);
                assert("void"@ != "str"@);
                assert(nm_void()[0] == "void"@);
                assert(seq!["str"@][0] == "str"@);
            }
            assert(nm_i8() != seq!["str"@]) by {
                reveal_strlit("i8");
                reveal_strlit("str");
                assert("i8"@.len() == 2);
                assert("str"@.len() == 3);
                assert("i8"@ != "str"@);
                assert(nm_i8()[0] == "i8"@);
                assert(seq!["str"@][0] == "str"@);
            }
            assert(nm_i16() != seq!["str"@]) by {
                reveal_strlit("i16");
                reveal_strlit("str");
                assert("i16"@[0] == 'i');
                assert("str"@[0] == 's');
                assert("i16"@ != "str"@);
                assert(nm_i16()[0] == "i16"@);
                assert(seq!["str"@][0] == "str"@);
            }
            assert(nm_i32() != seq!["str"@]) by {
                reveal_strlit("i32");
                reveal_strlit("str");
                assert("i32"@[0] == 'i');
                assert("str"@[0] == 's');
                assert("i32"@ != "str"@);
                assert(nm_i32()[0] == "i32"@);
                assert(seq!["str"@][0] == "str"@);
            }
            assert(nm_i64() != seq!["str"@]) by {
                reveal_strlit("i64");
                reveal_strlit("str");
                assert("i64"@[0] == 'i');
                assert("str"@[0] == 's');
                assert("i64"@ != "str"@);
                assert(nm_i64()[0] == "i64"@);
                assert(seq!["str"@][0] == "str"@);
            }
            assert(nm_u8() != seq!["str"@]) by {
                reveal_strlit("u8");
                reveal_strlit("str");
                assert("u8"@.len() == 2);
                assert("str"@.len() == 3);
                assert("u8"@ != "str"@);
                assert(nm_u8()[0] == "u8"@);
                assert(seq!["str"@][0] == "str"@);
            }
            assert(nm_u16() != seq!["str"@]) by {
                reveal_strlit("u16");
                reveal_strlit("str");
                assert("u16"@[0] == 'u');
                assert("str"@[0] == 's');
                assert("u16"@ != "str"@);
                assert(nm_u16()[0] == "u16"@);
                assert(seq!["str"@][0] == "str"@);
            }
            assert(nm_u32() != seq!["str"@]) by {
                reveal_strlit("u32");
                reveal_strlit("str");
                assert("u32"@[0] == 'u');
                assert("str"@[0] == 's');
                assert("u32"@ != "str"@);
                assert(nm_u32()[0] == "u32"@);
                assert(seq!["str"@][0] == "str"@);
            }
            assert(nm_u64() != seq!["str"@]) by {
                reveal_strlit("u64");
                reveal_strlit("str");
                assert("u64"@[0] == 'u');
                assert("str"@[0] == 's');
                assert("u64"@ != "str"@);
                assert(nm_u64()[0] == "u64"@);
                assert(seq!["str"@][0] == "str"@);
            }
            assert(nm_f32() != seq!["str"@]) by {
                reveal_strlit("f32");
                reveal_strlit("str");
                assert("f32"@[0] == 'f');
                assert("str"@[0] == 's');
                assert("f32"@ != "str"@);
                assert(nm_f32()[0] == "f32"@);
                assert(seq!["str"@][0] == "str"@);
            }
            assert(nm_f64() != seq!["str"@]) by {
                reveal_strlit("f64");
                reveal_strlit("str");
                assert("f64"@[0] == 'f');
                assert("str"@[0] == 's');
                assert("f64"@ != "str"@);
                assert(nm_f64()[0] == "f64"@);
                assert(seq!["str"@][0] == "str"@);
            }
            assert(nm_bool() != seq!["str"@]) by {
                reveal_strlit("bool");
                reveal_strlit("str");
                assert("bool"@.len() == 4);
                assert("str"@.len() == 3);
                assert("bool"@ != "str"@);
                assert(nm_bool()[0] == "bool"@);
                assert(seq!["str"@][0] == "str"@);
            }
            assert(nm_char() != seq!["str"@]) by {
                reveal_strlit("char");
                reveal_strlit("str");
                assert("char"@.len() == 4);
                assert("str"@.len() == 3);
                assert("char"@ != "str"@);
                assert(nm_char()[0] == "char"@);
                assert(seq!["str"@][0] == "str"@);
            }
            assert(builtin_at(self.types, seq!["str"@], PrimitiveType::Str));
            assert(builtin_at(self.types, nm_void(), PrimitiveType::Void));
            assert(builtin_at(self.types, nm_i8(), PrimitiveType::I8));
            assert(builtin_at(self.types, nm_i16(), PrimitiveType::I16));
            assert(builtin_at(self.types, nm_i32(), PrimitiveType::I32));
            assert(builtin_at(self.types, nm_i64(), PrimitiveType::I64));
            assert(builtin_at(self.types, nm_u8(), PrimitiveType::U8));
            assert(builtin_at(self.types, nm_u16(), PrimitiveType::U16));
            assert(builtin_at(self.types, nm_u32(), PrimitiveType::U32));
            assert(builtin_at(self.types, nm_u64(), PrimitiveType::U64));
            assert(builtin_at(self.types, nm_f32(), PrimitiveType::F32));
            assert(builtin_at(self.types, nm_f64(), PrimitiveType::F64));
            assert(builtin_at(self.types, nm_bool(), PrimitiveType::Bool));
            assert(builtin_at(self.types, nm_char(), PrimitiveType::Char));
            assert(builtin_at(self.types, nm_str(), PrimitiveType::Str));
        }
    }

    /// The diagnostics collected so far, in order.
    #[must_use]
    pub fn diagnostics(&self) -> (r: &Vec<TypeError>)
        ensures
            r@ == self.spec_diagnostics(),
    {
        &self.diagnostics
    }

    /// Define a completely new type under a path.
    pub fn add_type(&mut self, path: Path, ty: Type) -> (r: TypeId)
        requires
            old(self).wf(),
            crate::hlir::types::type_ids_below(ty, old(self).spec_types().spec_known().len() as int),
        ensures
            final(self).wf(),
            only_types_changed(old(self), final(self)),
            0 <= r@ < final(self).spec_types().spec_known().len(),
            final(self).spec_types().spec_known()[r@] == ty,
            final(self).spec_types().spec_get(path@) == Some(r),
            forall|n: Seq<Seq<char>>|
                n != path@ ==> final(self).spec_types().spec_get(n) == old(self).spec_types().spec_get(n),
    {
        self.types.create_type(path, ty)
    }

    /// Register an additional path for an existing type, such as a type
    /// alias. Fails, changing nothing, if the aliased path is unknown.
    pub fn add_type_alias(&mut self, new: Path, current: &Path) -> (r: bool)
        requires
            old(self).wf(),
        ensures
            final(self).wf(),
            only_types_changed(old(self), final(self)),
            r == (old(self).spec_types().spec_get(current@) is Some),
            r ==> final(self).spec_types().spec_get(new@) == old(self).spec_types().spec_get(
                current@,
            ),
            !r ==> *final(self) == *old(self),
    {
        match self.types.get(current) {
            Some(id) => {
                self.types.create_type_with_id(new, id);
                true
            },
            None => false,
        }
    }

    /// Resolve a type path in the current scope.
    #[must_use]
    pub fn get_type_id(&self, path: &Path) -> (r: Option<TypeId>)
        requires
            self.wf(),
        ensures
            r == self.spec_types().spec_get(path@),
            r matches Some(id) ==> 0 <= id@ < self.spec_types().spec_known().len(),
    {
        self.types.get(path)
    }

    /// The pointer type to a registered type, registering it on first use;
    /// structurally equal pointer types share one id.
    pub fn build_type_pointer(&mut self, ty: TypeId) -> (r: TypeId)
        requires
            old(self).wf(),
            0 <= ty@ < old(self).spec_types().spec_known().len(),
        ensures
            final(self).wf(),
            only_types_changed(old(self), final(self)),
            0 <= r@ < final(self).spec_types().spec_known().len(),
            final(self).spec_types().spec_known()[r@] == Type::Ptr(ty),
            old(self).spec_types().spec_known().len() <= final(self).spec_types().spec_known().len(),
            forall|i: int|
                0 <= i < old(self).spec_types().spec_known().len() ==> final(self).spec_types().spec_known()[i] == old(self).spec_types().spec_known()[i],
            forall|n: Seq<Seq<char>>|
                final(self).spec_types().spec_get(n) == old(self).spec_types().spec_get(n),
    {
        self.types.get_or_insert(Type::Ptr(ty))
    }

    /// The fixed-length array type over a registered element type.
    pub fn build_type_array(&mut self, ty: TypeId, size: usize) -> (r: TypeId)
        requires
            old(self).wf(),
            0 <= ty@ < old(self).spec_types().spec_known().len(),
        ensures
            final(self).wf(),
            only_types_changed(old(self), final(self)),
            0 <= r@ < final(self).spec_types().spec_known().len(),
            final(self).spec_types().spec_known()[r@] == Type::SizedArray(ty, size),
            old(self).spec_types().spec_known().len() <= final(self).spec_types().spec_known().len(),
            forall|i: int|
                0 <= i < old(self).spec_types().spec_known().len() ==> final(self).spec_types().spec_known()[i] == old(self).spec_types().spec_known()[i],
            forall|n: Seq<Seq<char>>|
                final(self).spec_types().spec_get(n) == old(self).spec_types().spec_get(n),
    {
        self.types.get_or_insert(Type::SizedArray(ty, size))
    }

    /// The unsized array type over a registered element type.
    pub fn build_type_unsized_array(&mut self, ty: TypeId) -> (r: TypeId)
        requires
            old(self).wf(),
            0 <= ty@ < old(self).spec_types().spec_known().len(),
        ensures
            final(self).wf(),
            only_types_changed(old(self), final(self)),
            0 <= r@ < final(self).spec_types().spec_known().len(),
            final(self).spec_types().spec_known()[r@] == Type::UnsizedArray(ty),
            old(self).spec_types().spec_known().len() <= final(self).spec_types().spec_known().len(),
            forall|i: int|
                0 <= i < old(self).spec_types().spec_known().len() ==> final(self).spec_types().spec_known()[i] == old(self).spec_types().spec_known()[i],
            forall|n: Seq<Seq<char>>|
                final(self).spec_types().spec_get(n) == old(self).spec_types().spec_get(n),
    {
        self.types.get_or_insert(Type::UnsizedArray(ty))
    }

    /// Allocate an inference variable with no constraints.
    pub fn create_type_inference_variable(&mut self) -> (r: InferenceId)
        requires
            old(self).wf(),
        ensures
            final(self).wf(),
            only_env_changed(old(self), final(self)),
            r@ == old(self).spec_env().spec_len(),
            final(self).spec_env().spec_len() == old(self).spec_env().spec_len() + 1,
            final(self).spec_env().spec_resolve(r) is None,
    {
        self.type_inference_environment.create_unknown()
    }

    /// Allocate an inference variable already resolved to a concrete type.
    pub fn create_type_inference_resolved(&mut self, ty: TypeId) -> (r: InferenceId)
        requires
            old(self).wf(),
        ensures
            final(self).wf(),
            only_env_changed(old(self), final(self)),
            r@ == old(self).spec_env().spec_len(),
            final(self).spec_env().spec_len() == old(self).spec_env().spec_len() + 1,
            final(self).spec_env().spec_resolve(r) == Some(ty),
    {
        self.type_inference_environment.create_resolved(ty)
    }
}

impl HLIRPackage {
    /// Resolve a path to a function id.
    #[must_use]
    pub fn get_function_id(&self, path: &Path) -> (r: Option<FunctionId>)
        requires
            self.wf(),
        ensures
            r == self.spec_functions().spec_get(path@),
            r matches Some(id) ==> 0 <= id@ < self.spec_functions().spec_protos().len()
                && self.spec_functions().spec_protos()[id@] is Some,
    {
        self.functions.get(path)
    }

    /// The prototype registered under a function id.
    #[must_use]
    pub fn get_prototype(&self, id: FunctionId) -> (r: Option<FunctionPrototype>)
        ensures
            match r {
                Some(p) => {
                    &&& 0 <= id@ < self.spec_functions().spec_protos().len()
                    &&& self.spec_functions().spec_protos()[id@] matches Some(q) && p@ == q@
                },
                None => !(0 <= id@ < self.spec_functions().spec_protos().len()
                    && self.spec_functions().spec_protos()[id@] is Some),
            },
    {
        self.functions.get_prototype(id)
    }

    /// Assemble a prototype from its parts.
    pub fn build_function_prototype(
        &mut self,
        parameters: Vec<TypeId>,
        is_variadic: bool,
        return_type: TypeId,
    ) -> (r: FunctionPrototype)
        ensures
            *final(self) == *old(self),
            r@ == (parameters@, is_variadic, return_type),
    {
        FunctionPrototype { parameters, is_variadic, return_type }
    }

    /// Register a function under a path: its id is assigned here, before
    /// any body is lowered, so call sites resolve it regardless of
    /// declaration order.
    pub fn create_function(&mut self, path: Path, prototype: FunctionPrototype) -> (r: FunctionId)
        requires
            old(self).wf(),
        ensures
            final(self).wf(),
            only_functions_changed(old(self), final(self)),
            r@ == old(self).spec_functions().spec_protos().len(),
            final(self).spec_functions().spec_protos()[r@] == Some(prototype),
            forall|n: Seq<Seq<char>>|
                final(self).spec_functions().spec_get(n) == if n == path@ {
                    Some(r)
                } else {
                    old(self).spec_functions().spec_get(n)
                },
    {
        self.functions.create_function(path, prototype)
    }

    /// Start building the body of a registered function: push a fresh
    /// variable and type scope and open a builder. Fails, changing
    /// nothing, if the function is unknown or already being built.
    pub fn start_function_impl(&mut self, id: FunctionId) -> (r: bool)
        requires
            old(self).wf(),
        ensures
            final(self).wf(),
            r <==> (0 <= id@ < old(self).spec_functions().spec_protos().len() && old(self).spec_functions().spec_protos()[id@] is Some && old(self).spec_builder_of(id)
                is None),
            !r ==> builders_extended(old(self), final(self)),
            r ==> {
                &&& final(self).spec_current_function() == Some(id)
                &&& final(self).spec_builder_of(id) matches Some(b) && b.spec_body() is None
                    && b.spec_parameters().len() == 0
                &&& final(self).spec_env() == old(self).spec_env()
                &&& final(self).spec_diagnostics() == old(self).spec_diagnostics()
                &&& final(self).spec_functions() == old(self).spec_functions()
                &&& forall|n: Seq<char>|
                    final(self).spec_variables().spec_get(n) == old(self).spec_variables().spec_get(n)
                &&& forall|n: Seq<Seq<char>>|
                    final(self).spec_types().spec_get(n) == old(self).spec_types().spec_get(n)
            },
    {
        let prototype = match self.functions.get_prototype(id) {
            Some(p) => p,
            None => {
                return false;
            },
        };
        let ghost pre = *old(self);
        while self.building_functions.len() <= id.0
            invariant
                pre == *old(self),
                self.types == pre.types,
                self.traits == pre.traits,
                self.functions == pre.functions,
                self.variables == pre.variables,
                self.type_inference_environment == pre.type_inference_environment,
                self.current_function == pre.current_function,
                self.current_blocks == pre.current_blocks,
                self.diagnostics == pre.diagnostics,
                self.building_functions@.len() >= pre.building_functions@.len(),
                forall|i: int|
                    0 <= i < pre.building_functions@.len() ==> #[trigger] self.building_functions@[i]
                        == pre.building_functions@[i],
                forall|i: int|
                    pre.building_functions@.len() <= i < self.building_functions@.len()
                        ==> #[trigger] self.building_functions@[i] is None,
            decreases id@ + 1 - self.building_functions@.len(),
        {
            self.building_functions.push(None);
        }
        if self.building_functions[id.0].is_some() {
            return false;
        }
        let variable_scope = self.variables.push_scope();
        let type_scope = self.types.push_scope();
        let builder = FunctionBuilder::new(variable_scope, type_scope, prototype);
        self.building_functions[id.0] = Some(builder);
        self.current_function = Some(id);
        true
    }

    /// Record the next parameter variable of a function being built.
    pub fn add_function_parameter(&mut self, id: FunctionId, parameter: VariableId) -> (r: bool)
        requires
            old(self).wf(),
        ensures
            final(self).wf(),
            r <==> old(self).spec_builder_of(id) is Some,
            !r ==> builders_extended(old(self), final(self)),
            r ==> ({
                let b = old(self).spec_builder_of(id).unwrap();
                let b2 = final(self).spec_builder_of(id);
                &&& b2 is Some
                &&& b2.unwrap().spec_parameters() == b.spec_parameters().push(parameter)
                &&& b2.unwrap().spec_body() == b.spec_body()
                &&& b2.unwrap().spec_prototype() == b.spec_prototype()
                &&& only_builders_changed(old(self), final(self))
            }),
    {
        if id.0 >= self.building_functions.len() {
            return false;
        }
        let mut slot: Option<FunctionBuilder> = None;
        core::mem::swap(&mut slot, &mut self.building_functions[id.0]);
        match slot {
            Some(mut b) => {
                b.add_parameter(parameter);
                self.building_functions[id.0] = Some(b);
                proof {
                    assert(self.building_functions@ =~= old(self).building_functions@.update(
                        id@,
                        self.building_functions@[id@],
                    ));
                }
                true
            },
            None => {
                proof {
                    assert(self.building_functions@ =~= old(self).building_functions@);
                }
                false
            },
        }
    }

    /// Set the body of a function being built; a later call replaces an
    /// earlier one.
    pub fn set_function_body(&mut self, id: FunctionId, body: Statement) -> (r: bool)
        requires
            old(self).wf(),
        ensures
            final(self).wf(),
            r <==> old(self).spec_builder_of(id) is Some,
            r ==> ({
                let b = old(self).spec_builder_of(id).unwrap();
                let b2 = final(self).spec_builder_of(id);
                &&& b2 is Some
                &&& b2.unwrap().spec_body() == Some(body)
                &&& b2.unwrap().spec_parameters() == b.spec_parameters()
                &&& b2.unwrap().spec_prototype() == b.spec_prototype()
                &&& only_builders_changed(old(self), final(self))
            }),
    {
        if id.0 >= self.building_functions.len() {
            return false;
        }
        let mut slot: Option<FunctionBuilder> = None;
        core::mem::swap(&mut slot, &mut self.building_functions[id.0]);
        match slot {
            Some(mut b) => {
                b.set_body(body);
                self.building_functions[id.0] = Some(b);
                proof {
                    assert(self.building_functions@ =~= old(self).building_functions@.update(
                        id@,
                        self.building_functions@[id@],
                    ));
                }
                true
            },
            None => {
                proof {
                    assert(self.building_functions@ =~= old(self).building_functions@);
                }
                false
            },
        }
    }

    /// Finish a function whose body has been set: run inference
    /// finalization over the function's variables (appending any
    /// diagnostics), pop its scopes and record the finished body. Fails,
    /// changing nothing, if the function is not being built, has no body,
    /// or already has a recorded body.
    pub fn finish_function_impl(&mut self, id: FunctionId) -> (r: bool)
        requires
            old(self).wf(),
        ensures
            final(self).wf(),
            HLIRPackage::extends_diagnostics(*old(self), *final(self)),
            r <==> (old(self).spec_builder_of(id) matches Some(b) && b.spec_body() is Some && 0
                <= id@ < old(self).spec_functions().spec_protos().len() && old(self).spec_functions().spec_protos()[id@] is Some && old(self).spec_functions().spec_impls()[id@] is None),
            !r ==> *final(self) == *old(self),
            // registration is untouched: names and prototypes stay, and
            // only this id's body slot is written
            final(self).spec_functions().spec_known_paths() == old(self).spec_functions().spec_known_paths(),
            final(self).spec_functions().spec_protos() == old(self).spec_functions().spec_protos(),
            final(self).spec_functions().spec_impls().len() == old(self).spec_functions().spec_impls().len(),
            forall|n: Seq<Seq<char>>|
                final(self).spec_functions().spec_get(n) == old(self).spec_functions().spec_get(n),
            forall|i: int|
                0 <= i < old(self).spec_functions().spec_impls().len() && i != id@ ==> final(self).spec_functions().spec_impls()[i] == old(self).spec_functions().spec_impls()[i],
            r ==> {
                &&& final(self).spec_builder_of(id) is None
                &&& final(self).spec_current_function() is None
                &&& final(self).spec_functions().spec_impls()[id@] is Some
                // the recorded function is exactly what the builder held
                &&& ({
                    let b = old(self).spec_builder_of(id).unwrap();
                    final(self).spec_functions().spec_impls()[id@] matches Some(f) && Some(f.body)
                        == b.spec_body() && f.parameters@ == b.spec_parameters() && f.prototype
                        == b.spec_prototype() && f.variable_scope == b.variable_scope
                        && f.type_scope == b.type_scope
                })
                &&& TypeInferenceEnvironment::preserves_resolutions(
                    old(self).spec_env(),
                    final(self).spec_env(),
                )
                // finalization succeeded silently only if every inference
                // variable now has a concrete type
                &&& final(self).spec_diagnostics().len() == old(self).spec_diagnostics().len()
                    ==> forall|v: InferenceId|
                    0 <= v@ < final(self).spec_env().spec_len() ==> final(self).spec_env().spec_resolve(v) is Some
            },
    {
        if id.0 >= self.building_functions.len() {
            return false;
        }
        let proto_ok = match self.functions.get_prototype(id) {
            Some(_) => true,
            None => false,
        };
        if !proto_ok || self.functions.has_impl(id) {
            return false;
        }
        let has_body = match &self.building_functions[id.0] {
            Some(b) => b.has_body(),
            None => {
                return false;
            },
        };
        if !has_body {
            return false;
        }
        let mut slot: Option<FunctionBuilder> = None;
        core::mem::swap(&mut slot, &mut self.building_functions[id.0]);
        let builder = match slot {
            Some(b) => b,
            None => {
                return false;
            },
        };
        self.current_function = None;
        let ghost mid = *self;
        let errors = self.type_inference_environment.unify_final(&self.types);
        let ghost env_done = self.type_inference_environment;
        let n_err = errors.len();
        let mut e: usize = 0;
        while e < n_err
            invariant
                n_err == errors@.len(),
                e <= n_err,
                self.diagnostics@.len() == old(self).diagnostics@.len() + e,
                forall|i: int|
                    0 <= i < old(self).diagnostics@.len() ==> #[trigger] self.diagnostics@[i]
                        == old(self).diagnostics@[i],
                self.types == old(self).types,
                self.traits == mid.traits,
                self.functions == old(self).functions,
                self.variables == old(self).variables,
                self.building_functions == mid.building_functions,
                self.current_blocks == mid.current_blocks,
                self.current_function is None,
                self.type_inference_environment == env_done,
                env_done.wf(),
                TypeInferenceEnvironment::preserves_resolutions(
                    old(self).type_inference_environment,
                    env_done,
                ),
                n_err == 0 ==> forall|v: InferenceId|
                    0 <= v@ < env_done.spec_len() ==> #[trigger] env_done.spec_resolve(v) is Some,
                old(self).wf(),
            decreases n_err - e,
        {
            self.diagnostics.push(errors[e].clone());
            e += 1;
        }
        match builder.build() {
            Some(function) => {
                let _ = self.variables.pop_scope();
                let _ = self.types.pop_scope();
                proof {
                    assert(self.functions == old(self).functions);
                    assert(old(self).functions.wf());
                    assert(0 <= id@ < old(self).functions.spec_protos().len());
                    old(self).functions.lemma_wf_lens();
                    assert(old(self).functions.spec_impls()[id@] is None);
                }
                self.functions.insert(id, function);
                true
            },
            None => {
                // cannot happen: the body was checked to be set above
                proof {
                    assert(false);
                }
                false
            },
        }
    }

    /// Declare a variable in the current scope under its source name.
    pub fn create_variable(&mut self, name: &str, ty: InferenceId) -> (r: VariableId)
        requires
            old(self).wf(),
        ensures
            final(self).wf(),
            only_variables_changed(old(self), final(self)),
            r@ == old(self).spec_variables().spec_known().len(),
            final(self).spec_variables().spec_get_type(r) == Some(ty),
            forall|n: Seq<char>|
                final(self).spec_variables().spec_get(n) == if n == name@ {
                    Some(r)
                } else {
                    old(self).spec_variables().spec_get(n)
                },
    {
        self.variables.create_variable(name, ty)
    }

    /// Resolve a name to the innermost declaration in scope.
    #[must_use]
    pub fn get_variable_id(&self, name: &str) -> (r: Option<VariableId>)
        requires
            self.wf(),
        ensures
            r == self.spec_variables().spec_get(name@),
    {
        self.variables.get(name)
    }

    /// Open a `{}` block: push a variable scope and a type scope. The pair
    /// of freshly entered scope blocks becomes the innermost open block,
    /// for the matching `build_block_end` to hand to the IR node.
    pub fn build_block_start(&mut self)
        requires
            old(self).wf(),
        ensures
            final(self).wf(),
            final(self).spec_open_blocks() == old(self).spec_open_blocks() + 1,
            final(self).spec_functions() == old(self).spec_functions(),
            final(self).building_functions == old(self).building_functions,
            final(self).spec_open_block_top() == Some(
                (
                    final(self).spec_variables().spec_current_block(),
                    final(self).spec_types().spec_current_block(),
                ),
            ),
            !final(self).spec_variables().spec_at_root(),
            !final(self).spec_types().spec_at_root(),
            final(self).spec_env() == old(self).spec_env(),
            final(self).spec_diagnostics() == old(self).spec_diagnostics(),
            final(self).spec_functions() == old(self).spec_functions(),
            forall|n: Seq<char>|
                final(self).spec_variables().spec_get(n) == old(self).spec_variables().spec_get(n),
            forall|n: Seq<Seq<char>>|
                final(self).spec_types().spec_get(n) == old(self).spec_types().spec_get(n),
    {
        let variable_scope = self.variables.push_scope();
        let type_scope = self.types.push_scope();
        self.current_blocks.push((variable_scope, type_scope));
    }

    /// Close the innermost `{}` block and produce its statement. There is
    /// no block to close at the root: the call is rejected and the package
    /// is unchanged, rather than silently popping the root scope.
    pub fn build_block_end(&mut self, statements: Vec<Statement>) -> (r: Option<Statement>)
        requires
            old(self).wf(),
        ensures
            final(self).wf(),
            final(self).spec_functions() == old(self).spec_functions(),
            final(self).building_functions == old(self).building_functions,
            final(self).spec_diagnostics() == old(self).spec_diagnostics(),
            final(self).spec_env() == old(self).spec_env(),
            old(self).spec_open_blocks() == 0 ==> r is None,
            // a block that was properly opened can always be closed
            (old(self).spec_open_blocks() > 0 && !old(self).spec_variables().spec_at_root()
                && !old(self).spec_types().spec_at_root()) ==> r is Some,
            r is None ==> final(self).spec_variables() == old(self).spec_variables() && final(self).spec_types() == old(self).spec_types() && final(self).spec_open_blocks() == old(self).spec_open_blocks(),
            r matches Some(s) ==> {
                &&& final(self).spec_open_blocks() == old(self).spec_open_blocks() - 1
                &&& s matches Statement::Block(b) && b.statements@ == statements@
                    && Some((b.variable_scope, b.type_scope)) == old(self).spec_open_block_top()
            },
    {
        if self.current_blocks.len() == 0 {
            return None;
        }
        if self.variables.at_root() || self.types.at_root() {
            return None;
        }
        let _ = self.variables.pop_scope();
        let _ = self.types.pop_scope();
        let block = match self.current_blocks.pop() {
            Some(b) => b,
            None => {
                return None;
            },
        };
        Some(
            Statement::Block(
                Block { variable_scope: block.0, type_scope: block.1, statements },
            ),
        )
    }
}

impl HLIRPackage {
    /// Build a `let` statement: unify the declared (or fresh) type handle
    /// with the initializer's type and declare the variable in the current
    /// scope, shadowing any outer binding of the same name.
    pub fn build_statement_let(&mut self, name: &str, ty: InferenceId, value: Expression) -> (r:
        Statement)
        requires
            old(self).wf(),
        ensures
            final(self).wf(),
            final(self).spec_functions() == old(self).spec_functions(),
            final(self).building_functions == old(self).building_functions,
            HLIRPackage::extends_diagnostics(*old(self), *final(self)),
            TypeInferenceEnvironment::preserves_resolutions(
                old(self).spec_env(),
                final(self).spec_env(),
            ),
            r matches Statement::Let(l) && l.value == value && l.variable@ == old(self).spec_variables().spec_known().len(),
            r matches Statement::Let(l) ==> {
                &&& final(self).spec_variables().spec_get(name@) == Some(l.variable)
                &&& final(self).spec_variables().spec_get_type(l.variable) == Some(ty)
            },
            // a silent build means annotation and initializer agreed: if
            // either side was concrete, both now carry that type
            spec_expr_ty(old(self), &value) matches Some(e) ==> (final(self).spec_diagnostics().len() == old(self).spec_diagnostics().len() && (old(self).spec_env().spec_resolve(ty) is Some || old(self).spec_env().spec_resolve(e) is Some)
                ==> final(self).spec_env().spec_resolve(ty) is Some && final(self).spec_env().spec_resolve(ty) == final(self).spec_env().spec_resolve(e)),
    {
        let expression_ty = value.ty(self);
        match expression_ty {
            Some(e) => {
                let res = self.type_inference_environment.unify(ty, e, &self.types);
                if let Err(err) = res {
                    self.diagnostics.push(err);
                }
            },
            None => {
                // a variable the package does not know: already reported
                // when the reference was built
            },
        }
        let variable = self.variables.create_variable(name, ty);
        Statement::Let(Let { variable, value })
    }

    /// Build an `if` statement: the condition is unified against `bool`.
    pub fn build_statement_if(
        &mut self,
        condition: Expression,
        then_block: Statement,
        else_block: Option<Statement>,
    ) -> (r: Statement)
        requires
            old(self).wf(),
        ensures
            final(self).wf(),
            final(self).spec_functions() == old(self).spec_functions(),
            final(self).building_functions == old(self).building_functions,
            HLIRPackage::extends_diagnostics(*old(self), *final(self)),
            TypeInferenceEnvironment::preserves_resolutions(
                old(self).spec_env(),
                final(self).spec_env(),
            ),
            r matches Statement::If(s) && s.condition == condition && *s.then_branch == then_block
                && (match else_block {
                Some(e) => s.else_branch matches Some(b) && *b == e,
                None => s.else_branch is None,
            }),
            // a silent build pins the condition to `bool`
            old(self).spec_types().spec_get(nm_bool()) matches Some(bid) ==> spec_expr_ty(
                old(self),
                &condition,
            ) matches Some(cty) ==> final(self).spec_diagnostics().len() == old(self).spec_diagnostics().len() ==> final(self).spec_env().spec_resolve(cty) == Some(bid),
    {
        self.unify_condition_with_bool(&condition);
        let else_branch = match else_block {
            Some(e) => Some(Box::new(e)),
            None => None,
        };
        Statement::If(If { condition, then_branch: Box::new(then_block), else_branch })
    }

    /// Build a `while` statement: the condition is unified against `bool`.
    pub fn build_statement_while(&mut self, condition: Expression, block: Statement) -> (r:
        Statement)
        requires
            old(self).wf(),
        ensures
            final(self).wf(),
            final(self).spec_functions() == old(self).spec_functions(),
            final(self).building_functions == old(self).building_functions,
            HLIRPackage::extends_diagnostics(*old(self), *final(self)),
            TypeInferenceEnvironment::preserves_resolutions(
                old(self).spec_env(),
                final(self).spec_env(),
            ),
            r matches Statement::While(s) && s.condition == condition && *s.body == block,
            old(self).spec_types().spec_get(nm_bool()) matches Some(bid) ==> spec_expr_ty(
                old(self),
                &condition,
            ) matches Some(cty) ==> final(self).spec_diagnostics().len() == old(self).spec_diagnostics().len() ==> final(self).spec_env().spec_resolve(cty) == Some(bid),
    {
        self.unify_condition_with_bool(&condition);
        Statement::While(While { condition, body: Box::new(block) })
    }

    /// Unify a condition expression's type against the built-in `bool`.
    fn unify_condition_with_bool(&mut self, condition: &Expression)
        requires
            old(self).wf(),
        ensures
            final(self).wf(),
            final(self).spec_functions() == old(self).spec_functions(),
            final(self).building_functions == old(self).building_functions,
            HLIRPackage::extends_diagnostics(*old(self), *final(self)),
            TypeInferenceEnvironment::preserves_resolutions(
                old(self).spec_env(),
                final(self).spec_env(),
            ),
            final(self).spec_variables() == old(self).spec_variables(),
            final(self).spec_types() == old(self).spec_types(),
            final(self).spec_functions() == old(self).spec_functions(),
            old(self).spec_types().spec_get(nm_bool()) matches Some(bid) ==> spec_expr_ty(
                old(self),
                condition,
            ) matches Some(cty) ==> final(self).spec_diagnostics().len() == old(self).spec_diagnostics().len() ==> final(self).spec_env().spec_resolve(cty) == Some(bid),
    {
        proof {
            reveal_strlit("bool");
            assert(seq!["bool"@] =~~= nm_bool());
        }
        let bool_path = Path::from_name("bool".to_owned());
        let bool_id = self.types.get(&bool_path);
        let condition_ty = condition.ty(self);
        match (condition_ty, bool_id) {
            (Some(cty), Some(bid)) => {
                let res = self.type_inference_environment.unify_with(cty, bid, &self.types);
                if let Err(err) = res {
                    self.diagnostics.push(err);
                }
            },
            (_, None) => {
                self.diagnostics.push(TypeError::UndefinedName { name: "bool".to_owned() });
            },
            (None, _) => {},
        }
    }

    /// Build a `return;` with no value. The enclosing function's return
    /// type is not checked against `void` here, matching the two-pass
    /// design: a missing annotation already defaulted the prototype.
    pub fn build_statement_return_void(&mut self) -> (r: Statement)
        ensures
            *final(self) == *old(self),
            r matches Statement::Return(s) && s.value is None,
    {
        Statement::Return(Return::void())
    }

    /// Build a `return value;`: the value's type is unified with the
    /// enclosing function's declared return type. A return outside any
    /// function body is reported as a diagnostic.
    pub fn build_statement_return(&mut self, value: Expression) -> (r: Statement)
        requires
            old(self).wf(),
        ensures
            final(self).wf(),
            final(self).spec_functions() == old(self).spec_functions(),
            final(self).building_functions == old(self).building_functions,
            HLIRPackage::extends_diagnostics(*old(self), *final(self)),
            TypeInferenceEnvironment::preserves_resolutions(
                old(self).spec_env(),
                final(self).spec_env(),
            ),
            r matches Statement::Return(s) && s.value matches Some(v) && v == value,
            old(self).spec_current_function() is None ==> final(self).spec_diagnostics() == old(self).spec_diagnostics().push(TypeError::MisplacedReturn),
            // a silent build pins the value to the declared return type
            old(self).spec_current_function() matches Some(f) ==> old(self).spec_builder_of(f)
                matches Some(b) ==> spec_expr_ty(old(self), &value) matches Some(vty) ==> final(self).spec_diagnostics().len() == old(self).spec_diagnostics().len() ==> final(self).spec_env().spec_resolve(vty) == Some(b.spec_prototype().return_type),
    {
        let current = match self.current_function {
            Some(f) => f,
            None => {
                self.diagnostics.push(TypeError::MisplacedReturn);
                return Statement::Return(Return { value: Some(value) });
            },
        };
        let return_type = if current.0 < self.building_functions.len() {
            match &self.building_functions[current.0] {
                Some(b) => Some(b.prototype.return_type),
                None => None,
            }
        } else {
            None
        };
        match return_type {
            Some(ret) => {
                let vty = value.ty(self);
                match vty {
                    Some(v) => {
                        let res = self.type_inference_environment.unify_with(v, ret, &self.types);
                        if let Err(err) = res {
                            self.diagnostics.push(err);
                        }
                    },
                    None => {},
                }
            },
            None => {
                self.diagnostics.push(TypeError::MisplacedReturn);
            },
        }
        Statement::Return(Return { value: Some(value) })
    }

    /// Wrap an expression as a statement.
    pub fn build_statement_expression(&mut self, expression: Expression) -> (r: Statement)
        ensures
            *final(self) == *old(self),
            r == Statement::Expression(expression),
    {
        Statement::Expression(expression)
    }

    /// Build a reference to a variable by name; an undeclared name is a
    /// reported diagnostic, not an abort.
    pub fn build_expression_variable(&mut self, name: &str) -> (r: Option<Expression>)
        requires
            old(self).wf(),
        ensures
            final(self).wf(),
            final(self).spec_functions() == old(self).spec_functions(),
            final(self).building_functions == old(self).building_functions,
            HLIRPackage::extends_diagnostics(*old(self), *final(self)),
            r is Some <==> old(self).spec_variables().spec_get(name@) is Some,
            old(self).spec_variables().spec_get(name@) matches Some(id) ==> r == Some(
                Expression::Variable(id),
            ) && *final(self) == *old(self),
            old(self).spec_variables().spec_get(name@) is None ==> {
                &&& final(self).spec_diagnostics().len() == old(self).spec_diagnostics().len() + 1
                &&& final(self).spec_diagnostics().last() matches TypeError::UndefinedName {
                    name: n,
                } && n@ == name@
            },
    {
        match self.variables.get(name) {
            Some(id) => Some(Expression::Variable(id)),
            None => {
                self.diagnostics.push(TypeError::UndefinedName { name: name.to_owned() });
                None
            },
        }
    }

    /// Wrap a literal as an expression.
    pub fn build_expression_literal(&mut self, literal: Literal) -> (r: Expression)
        ensures
            *final(self) == *old(self),
            r == Expression::Literal(literal),
    {
        Expression::Literal(literal)
    }

    /// Build a call expression. The result gets a fresh handle resolved to
    /// the callee's declared return type; each positional argument is
    /// unified against the corresponding declared parameter type; extra
    /// arguments beyond the declared parameters are accepted exactly when
    /// the callee is variadic and otherwise reported as an arity error.
    pub fn build_function_call(&mut self, function: FunctionId, arguments: Vec<Expression>) -> (r:
        Option<Expression>)
        requires
            old(self).wf(),
        ensures
            final(self).wf(),
            final(self).spec_functions() == old(self).spec_functions(),
            final(self).building_functions == old(self).building_functions,
            HLIRPackage::extends_diagnostics(*old(self), *final(self)),
            TypeInferenceEnvironment::preserves_resolutions(
                old(self).spec_env(),
                final(self).spec_env(),
            ),
            r is Some <==> (0 <= function@ < old(self).spec_functions().spec_protos().len() && old(self).spec_functions().spec_protos()[function@] is Some),
            r matches Some(e) ==> ({
                let proto = old(self).spec_functions().spec_protos()[function@].unwrap();
                &&& e matches Expression::FunctionCall(c)
                &&& c.function == function
                &&& c.arguments@ == arguments@
                &&& final(self).spec_env().spec_resolve(c.result) == Some(proto.return_type)
                // a silent build unified each argument's type against the
                // declared parameter type
                &&& (final(self).spec_diagnostics().len() == old(self).spec_diagnostics().len()
                    ==> forall|k: int|
                    0 <= k < arguments@.len() && k < proto.parameters@.len() ==> (spec_expr_ty(
                        old(self),
                        #[trigger] &arguments@[k],
                    ) matches Some(at) ==> final(self).spec_env().spec_resolve(at) == Some(
                        proto.parameters@[k],
                    )))
                // the arity rule, if and only if
                &&& (arguments@.len() > proto.parameters@.len() && !proto.is_variadic)
                    <==> exists|k: int|
                    old(self).spec_diagnostics().len() <= k < final(self).spec_diagnostics().len() && #[trigger] final(self).spec_diagnostics()[k]
                        == (TypeError::ArityMismatch {
                        expected: proto.parameters@.len() as usize,
                        found: arguments@.len() as usize,
                    })
            }),
    {
        let prototype = match self.functions.get_prototype(function) {
            Some(p) => p,
            None => {
                return None;
            },
        };
        let ghost pre = *old(self);
        let result = self.type_inference_environment.create_resolved(prototype.return_type);
        let n_args = arguments.len();
        let n_params = prototype.parameters.len();
        if n_args > n_params && !prototype.is_variadic {
            self.diagnostics.push(
                TypeError::ArityMismatch { expected: n_params, found: n_args },
            );
        }
        let ghost after_arity = *self;
        proof {
            assert forall|k: int|
                0 <= k < pre.type_inference_environment.spec_len()
                    && pre.type_inference_environment.spec_resolved()[k] is Some implies #[trigger] after_arity.type_inference_environment.spec_resolved()[k]
                == pre.type_inference_environment.spec_resolved()[k] by {
                assert(after_arity.type_inference_environment.spec_resolved()
                    == pre.type_inference_environment.spec_resolved().push(
                    Some(prototype.return_type),
                ));
            }
        }
        let n = if n_args < n_params {
            n_args
        } else {
            n_params
        };
        let mut i: usize = 0;
        while i < n
            invariant
                pre == *old(self),
                self.wf(),
                n <= arguments@.len(),
                n <= prototype.parameters@.len(),
                i <= n,
                self.types == pre.types,
                self.variables == pre.variables,
                self.functions == pre.functions,
                self.traits == after_arity.traits,
                self.building_functions == after_arity.building_functions,
                self.current_blocks == after_arity.current_blocks,
                self.current_function == after_arity.current_function,
                HLIRPackage::extends_diagnostics(after_arity, *self),
                TypeInferenceEnvironment::preserves_resolutions(
                    pre.type_inference_environment,
                    after_arity.type_inference_environment,
                ),
                TypeInferenceEnvironment::preserves_resolutions(
                    after_arity.type_inference_environment,
                    self.type_inference_environment,
                ),
                after_arity.type_inference_environment.spec_resolve(result) == Some(
                    prototype.return_type,
                ),
                self.type_inference_environment.spec_resolve(result) == Some(
                    prototype.return_type,
                ),
                forall|k: int|
                    after_arity.diagnostics@.len() <= k < self.diagnostics@.len()
                        ==> !(#[trigger] self.diagnostics@[k] is ArityMismatch),
                self.diagnostics@.len() == after_arity.diagnostics@.len() ==> forall|k: int|
                    0 <= k < i && k < prototype.parameters@.len() ==> (spec_expr_ty(
                        &pre,
                        #[trigger] &arguments@[k],
                    ) matches Some(at) ==> self.type_inference_environment.spec_resolve(at)
                        == Some(prototype.parameters@[k])),
            decreases n - i,
        {
            let argument_ty = arguments[i].ty(self);
            let ghost step = *self;
            match argument_ty {
                Some(at) => {
                    let param = prototype.parameters[i];
                    let res = self.type_inference_environment.unify_with(at, param, &self.types);
                    if let Err(err) = res {
                        self.diagnostics.push(err);
                    }
                },
                None => {},
            }
            proof {
                crate::hlir::inference::lemma_env_preserves_trans(
                    after_arity.type_inference_environment,
                    step.type_inference_environment,
                    self.type_inference_environment,
                );
            }
            i += 1;
        }
        proof {
            crate::hlir::inference::lemma_env_preserves_trans(
                pre.type_inference_environment,
                after_arity.type_inference_environment,
                self.type_inference_environment,
            );
            if arguments@.len() > prototype.parameters@.len() && !prototype.is_variadic {
                assert(self.diagnostics@[pre.diagnostics@.len() as int]
                    == (TypeError::ArityMismatch {
                    expected: prototype.parameters@.len() as usize,
                    found: arguments@.len() as usize,
                }));
            }
        }
        Some(Expression::FunctionCall(FunctionCall { function, arguments, result }))
    }
}

impl HLIRPackage {
    pub fn build_unary_operator_negation(&mut self) -> (r: UnaryOperator)
        ensures
            *final(self) == *old(self),
            r == UnaryOperator::Negation,
    {
        UnaryOperator::Negation
    }

    pub fn build_unary_operator_bitwise_not(&mut self) -> (r: UnaryOperator)
        ensures
            *final(self) == *old(self),
            r == UnaryOperator::BitwiseNot,
    {
        UnaryOperator::BitwiseNot
    }

    pub fn build_unary_operator_logical_not(&mut self) -> (r: UnaryOperator)
        ensures
            *final(self) == *old(self),
            r == UnaryOperator::LogicalNot,
    {
        UnaryOperator::LogicalNot
    }

    pub fn build_unary_operator_deref(&mut self) -> (r: UnaryOperator)
        ensures
            *final(self) == *old(self),
            r == UnaryOperator::Deref,
    {
        UnaryOperator::Deref
    }

    pub fn build_unary_operator_ref(&mut self) -> (r: UnaryOperator)
        ensures
            *final(self) == *old(self),
            r == UnaryOperator::Ref,
    {
        UnaryOperator::Ref
    }

    /// Build a unary operation. Negation, bitwise-not and logical-not keep
    /// their operand's type; dereference gives the operand a
    /// pointer-elimination constraint towards a fresh handle; address-of
    /// gives a fresh handle a pointer-introduction constraint towards the
    /// operand. `None` only for an operand whose type handle is unknown to
    /// the package.
    pub fn build_expression_unary(&mut self, operator: UnaryOperator, operand: Expression) -> (r:
        Option<Expression>)
        requires
            old(self).wf(),
        ensures
            final(self).wf(),
            final(self).spec_functions() == old(self).spec_functions(),
            final(self).building_functions == old(self).building_functions,
            HLIRPackage::extends_diagnostics(*old(self), *final(self)),
            TypeInferenceEnvironment::preserves_resolutions(
                old(self).spec_env(),
                final(self).spec_env(),
            ),
            r is Some <==> spec_expr_ty(old(self), &operand) is Some,
            r matches Some(e) ==> e matches Expression::UnaryOperation(u) && u.operator == operator
                && *u.operand == operand,
            // the no-coercion rule: these operators keep the operand's type
            spec_expr_ty(old(self), &operand) matches Some(oty) ==> ((operator
                == UnaryOperator::Negation || operator == UnaryOperator::BitwiseNot || operator
                == UnaryOperator::LogicalNot) ==> ({
                &&& r matches Some(e) && e matches Expression::UnaryOperation(u) && u.result
                    == oty
                &&& *final(self) == *old(self)
            })),
            // address-of: the result is a fresh handle that must become a
            // pointer to the operand's type
            spec_expr_ty(old(self), &operand) matches Some(oty) ==> (operator
                == UnaryOperator::Ref ==> ({
                r matches Some(e) && e matches Expression::UnaryOperation(u) && u.result@
                    == old(self).spec_env().spec_len() && final(self).spec_env().spec_resolve(
                    u.result,
                ) is None && final(self).spec_env().spec_constraints(u.result) == seq![
                    TypeConstraint::RefTo(oty),
                ] && final(self).spec_diagnostics() == old(self).spec_diagnostics()
            })),
            // dereference of a still-unknown operand: the operand gains a
            // pointer-elimination link towards the fresh result
            spec_expr_ty(old(self), &operand) matches Some(oty) ==> ((operator
                == UnaryOperator::Deref && 0 <= oty@ < old(self).spec_env().spec_len() && old(self).spec_env().spec_resolve(oty) is None) ==> ({
                r matches Some(e) && e matches Expression::UnaryOperation(u) && u.result@
                    == old(self).spec_env().spec_len() && final(self).spec_env().spec_constraints(
                    oty,
                ) == old(self).spec_env().spec_constraints(oty).push(
                    TypeConstraint::DerefTo(u.result),
                ) && final(self).spec_diagnostics() == old(self).spec_diagnostics()
            })),
            // dereference of a concrete pointer eliminates it at once; of
            // any other concrete type it is a reported diagnostic
            spec_expr_ty(old(self), &operand) matches Some(oty) ==> old(self).spec_env().spec_resolve(oty) matches Some(t) ==> (operator == UnaryOperator::Deref ==> ({
                r matches Some(e) && e matches Expression::UnaryOperation(u) && ({
                    &&& (old(self).spec_types().spec_known_opt(t) matches Some(pt) ==> pt matches
                        Type::Ptr(p) ==> (final(self).spec_env().spec_resolve(u.result) == Some(
                        p,
                    ) && final(self).spec_diagnostics() == old(self).spec_diagnostics()))
                    &&& (!(old(self).spec_types().spec_known_opt(t) matches Some(pt2) && pt2
                        matches Type::Ptr(q)) ==> final(self).spec_diagnostics() == old(self).spec_diagnostics().push(TypeError::InvalidReference { id: oty }))
                })
            })),
    {
        let operand_ty = match operand.ty(self) {
            Some(t) => t,
            None => {
                return None;
            },
        };
        let result_ty = match operator {
            UnaryOperator::Negation | UnaryOperator::BitwiseNot | UnaryOperator::LogicalNot => {
                operand_ty
            },
            UnaryOperator::Deref => {
                let ty = self.type_inference_environment.create_unknown();
                let res = self.type_inference_environment.add_constraint(
                    operand_ty,
                    TypeConstraint::DerefTo(ty),
                );
                match res {
                    Ok(_) => {},
                    Err(_) => {
                        // the operand is already concrete: eliminate the
                        // pointer immediately
                        match self.type_inference_environment.resolve(operand_ty) {
                            Some(t) => {
                                match self.types.get_by_id(t) {
                                    Some(Type::Ptr(pointee)) => {
                                        let res2 = self.type_inference_environment.unify_with(
                                            ty,
                                            pointee,
                                            &self.types,
                                        );
                                        if let Err(err) = res2 {
                                            self.diagnostics.push(err);
                                        }
                                    },
                                    _ => {
                                        self.diagnostics.push(
                                            TypeError::InvalidReference { id: operand_ty },
                                        );
                                    },
                                }
                            },
                            None => {
                                self.diagnostics.push(
                                    TypeError::InvalidConstraint { id: operand_ty },
                                );
                            },
                        }
                    },
                }
                ty
            },
            UnaryOperator::Ref => {
                let ty = self.type_inference_environment.create_unknown();
                let res = self.type_inference_environment.add_constraint(
                    ty,
                    TypeConstraint::RefTo(operand_ty),
                );
                proof {
                    assert(res is Ok);
                }
                ty
            },
        };
        Some(
            Expression::UnaryOperation(
                UnaryOperation { operator, operand: Box::new(operand), result: result_ty },
            ),
        )
    }

    pub fn build_binary_operator_addition(&mut self) -> (r: BinaryOperator)
        ensures
            *final(self) == *old(self),
            r == BinaryOperator::Addition,
    {
        BinaryOperator::Addition
    }

    pub fn build_binary_operator_subtraction(&mut self) -> (r: BinaryOperator)
        ensures
            *final(self) == *old(self),
            r == BinaryOperator::Subtraction,
    {
        BinaryOperator::Subtraction
    }

    pub fn build_binary_operator_multiplication(&mut self) -> (r: BinaryOperator)
        ensures
            *final(self) == *old(self),
            r == BinaryOperator::Multiplication,
    {
        BinaryOperator::Multiplication
    }

    pub fn build_binary_operator_division(&mut self) -> (r: BinaryOperator)
        ensures
            *final(self) == *old(self),
            r == BinaryOperator::Division,
    {
        BinaryOperator::Division
    }

    pub fn build_binary_operator_remainder(&mut self) -> (r: BinaryOperator)
        ensures
            *final(self) == *old(self),
            r == BinaryOperator::Remainder,
    {
        BinaryOperator::Remainder
    }

    pub fn build_binary_operator_bitwise_and(&mut self) -> (r: BinaryOperator)
        ensures
            *final(self) == *old(self),
            r == BinaryOperator::BitwiseAnd,
    {
        BinaryOperator::BitwiseAnd
    }

    pub fn build_binary_operator_bitwise_or(&mut self) -> (r: BinaryOperator)
        ensures
            *final(self) == *old(self),
            r == BinaryOperator::BitwiseOr,
    {
        BinaryOperator::BitwiseOr
    }

    pub fn build_binary_operator_bitwise_xor(&mut self) -> (r: BinaryOperator)
        ensures
            *final(self) == *old(self),
            r == BinaryOperator::BitwiseXor,
    {
        BinaryOperator::BitwiseXor
    }

    pub fn build_binary_operator_bitwise_shift_left(&mut self) -> (r: BinaryOperator)
        ensures
            *final(self) == *old(self),
            r == BinaryOperator::BitwiseShiftLeft,
    {
        BinaryOperator::BitwiseShiftLeft
    }

    pub fn build_binary_operator_bitwise_shift_right(&mut self) -> (r: BinaryOperator)
        ensures
            *final(self) == *old(self),
            r == BinaryOperator::BitwiseShiftRight,
    {
        BinaryOperator::BitwiseShiftRight
    }

    pub fn build_binary_operator_logical_and(&mut self) -> (r: BinaryOperator)
        ensures
            *final(self) == *old(self),
            r == BinaryOperator::LogicalAnd,
    {
        BinaryOperator::LogicalAnd
    }

    pub fn build_binary_operator_logical_or(&mut self) -> (r: BinaryOperator)
        ensures
            *final(self) == *old(self),
            r == BinaryOperator::LogicalOr,
    {
        BinaryOperator::LogicalOr
    }

    pub fn build_binary_operator_equal(&mut self) -> (r: BinaryOperator)
        ensures
            *final(self) == *old(self),
            r == BinaryOperator::Equals,
    {
        BinaryOperator::Equals
    }

    pub fn build_binary_operator_not_equal(&mut self) -> (r: BinaryOperator)
        ensures
            *final(self) == *old(self),
            r == BinaryOperator::NotEquals,
    {
        BinaryOperator::NotEquals
    }

    pub fn build_binary_operator_less_than(&mut self) -> (r: BinaryOperator)
        ensures
            *final(self) == *old(self),
            r == BinaryOperator::LessThan,
    {
        BinaryOperator::LessThan
    }

    pub fn build_binary_operator_less_than_or_equal(&mut self) -> (r: BinaryOperator)
        ensures
            *final(self) == *old(self),
            r == BinaryOperator::LessThanOrEqual,
    {
        BinaryOperator::LessThanOrEqual
    }

    pub fn build_binary_operator_greater_than(&mut self) -> (r: BinaryOperator)
        ensures
            *final(self) == *old(self),
            r == BinaryOperator::GreaterThan,
    {
        BinaryOperator::GreaterThan
    }

    pub fn build_binary_operator_greater_than_or_equal(&mut self) -> (r: BinaryOperator)
        ensures
            *final(self) == *old(self),
            r == BinaryOperator::GreaterThanOrEqual,
    {
        BinaryOperator::GreaterThanOrEqual
    }

    /// Build a binary operation: the two operand types are unified.
    /// Arithmetic, bitwise and shift operators produce the left operand's
    /// type; comparison, equality and logical operators produce a fresh
    /// handle resolved to `bool`. `None` only when an operand's type handle
    /// is unknown to the package.
    pub fn build_expression_binary(
        &mut self,
        operator: BinaryOperator,
        left: Expression,
        right: Expression,
    ) -> (r: Option<Expression>)
        requires
            old(self).wf(),
        ensures
            final(self).wf(),
            final(self).spec_functions() == old(self).spec_functions(),
            final(self).building_functions == old(self).building_functions,
            HLIRPackage::extends_diagnostics(*old(self), *final(self)),
            TypeInferenceEnvironment::preserves_resolutions(
                old(self).spec_env(),
                final(self).spec_env(),
            ),
            r is Some <==> (spec_expr_ty(old(self), &left) is Some && spec_expr_ty(
                old(self),
                &right,
            ) is Some),
            r matches Some(e) ==> e matches Expression::BinaryOperation(b) && b.operator
                == operator && *b.left == left && *b.right == right,
            // the result-type rule
            r matches Some(e) ==> e matches Expression::BinaryOperation(b) ==> {
                &&& !operator.spec_is_boolean() ==> Some(b.result) == spec_expr_ty(
                    old(self),
                    &left,
                )
                &&& operator.spec_is_boolean() ==> (old(self).spec_types().spec_get(nm_bool())
                    matches Some(bid) ==> final(self).spec_env().spec_resolve(b.result) == Some(
                    bid,
                ))
            },
            // a silent build means the operand types agreed
            spec_expr_ty(old(self), &left) matches Some(lt) ==> spec_expr_ty(
                old(self),
                &right,
            ) matches Some(rt) ==> final(self).spec_diagnostics().len() == old(self).spec_diagnostics().len() ==> (old(self).spec_env().spec_resolve(lt) is Some || old(self).spec_env().spec_resolve(rt) is Some) ==> final(self).spec_env().spec_resolve(lt)
                is Some && final(self).spec_env().spec_resolve(lt) == final(self).spec_env().spec_resolve(rt),
    {
        let left_ty = match left.ty(self) {
            Some(t) => t,
            None => {
                return None;
            },
        };
        let right_ty = match right.ty(self) {
            Some(t) => t,
            None => {
                return None;
            },
        };
        let boolean = match operator {
            BinaryOperator::LogicalAnd | BinaryOperator::LogicalOr | BinaryOperator::Equals
            | BinaryOperator::NotEquals | BinaryOperator::LessThan
            | BinaryOperator::LessThanOrEqual | BinaryOperator::GreaterThan
            | BinaryOperator::GreaterThanOrEqual => true,
            _ => false,
        };
        let result_ty = if boolean {
            proof {
                reveal_strlit("bool");
                assert(seq!["bool"@] =~~= nm_bool());
            }
            let bool_path = Path::from_name("bool".to_owned());
            match self.types.get(&bool_path) {
                Some(bid) => self.type_inference_environment.create_resolved(bid),
                None => {
                    self.diagnostics.push(TypeError::UndefinedName { name: "bool".to_owned() });
                    self.type_inference_environment.create_unknown()
                },
            }
        } else {
            left_ty
        };
        let ghost mid = *self;
        let res = self.type_inference_environment.unify(left_ty, right_ty, &self.types);
        if let Err(err) = res {
            self.diagnostics.push(err);
        }
        proof {
            crate::hlir::inference::lemma_env_preserves_trans(
                old(self).type_inference_environment,
                mid.type_inference_environment,
                self.type_inference_environment,
            );
        }
        Some(
            Expression::BinaryOperation(
                BinaryOperation {
                    left: Box::new(left),
                    operator,
                    right: Box::new(right),
                    result: result_ty,
                },
            ),
        )
    }

    /// Build a type cast. The cast currently asserts that the expression's
    /// type is compatible with the target rather than converting between
    /// numeric types: the expression's type handle is unified with the
    /// target type, and the result is a fresh handle resolved to the
    /// target.
    pub fn build_expression_type_cast(&mut self, ty: TypeId, expression: Expression) -> (r:
        Expression)
        requires
            old(self).wf(),
        ensures
            final(self).wf(),
            final(self).spec_functions() == old(self).spec_functions(),
            final(self).building_functions == old(self).building_functions,
            HLIRPackage::extends_diagnostics(*old(self), *final(self)),
            TypeInferenceEnvironment::preserves_resolutions(
                old(self).spec_env(),
                final(self).spec_env(),
            ),
            r matches Expression::TypeCast(c) && *c.expression == expression,
            r matches Expression::TypeCast(c) ==> final(self).spec_env().spec_resolve(
                c.target_type,
            ) == Some(ty),
            // a silent build means the source type was compatible
            spec_expr_ty(old(self), &expression) matches Some(e) ==> final(self).spec_diagnostics().len() == old(self).spec_diagnostics().len() ==> final(self).spec_env().spec_resolve(e) == Some(ty),
    {
        let target_type = self.type_inference_environment.create_resolved(ty);
        let ghost mid = *self;
        let expression_ty = expression.ty(self);
        match expression_ty {
            Some(e) => {
                let res = self.type_inference_environment.unify_with(e, ty, &self.types);
                if let Err(err) = res {
                    self.diagnostics.push(err);
                }
            },
            None => {},
        }
        proof {
            crate::hlir::inference::lemma_env_preserves_trans(
                old(self).type_inference_environment,
                mid.type_inference_environment,
                self.type_inference_environment,
            );
        }
        Expression::TypeCast(TypeCast { expression: Box::new(expression), target_type })
    }

    /// Build an integer literal: a fresh handle constrained to default to
    /// the default integer type. The raw lexeme and radix are kept; parsing
    /// the text into a machine value belongs to later stages.
    pub fn build_integer_literal(&mut self, value: String, radix: u32) -> (r: Literal)
        requires
            old(self).wf(),
        ensures
            final(self).wf(),
            final(self).spec_functions() == old(self).spec_functions(),
            final(self).building_functions == old(self).building_functions,
            final(self).spec_diagnostics() == old(self).spec_diagnostics(),
            r.spec_ty()@ == old(self).spec_env().spec_len(),
            final(self).spec_env().spec_resolve(r.spec_ty()) is None,
            final(self).spec_env().spec_constraints(r.spec_ty()) == seq![
                TypeConstraint::FromIntegerLiteral,
            ],
            r.spec_value() matches LiteralValue::Integer { value: v, radix: x } && v@ == value@
                && x == radix,
    {
        let type_inference_id = self.type_inference_environment.create_unknown();
        let res = self.type_inference_environment.add_constraint(
            type_inference_id,
            TypeConstraint::FromIntegerLiteral,
        );
        proof {
            assert(res is Ok);
        }
        Literal::new(LiteralValue::Integer { value, radix }, type_inference_id)
    }

    /// Build a float literal: a fresh handle constrained to default to the
    /// default floating-point type.
    pub fn build_float_literal(&mut self, value: String) -> (r: Literal)
        requires
            old(self).wf(),
        ensures
            final(self).wf(),
            final(self).spec_functions() == old(self).spec_functions(),
            final(self).building_functions == old(self).building_functions,
            final(self).spec_diagnostics() == old(self).spec_diagnostics(),
            r.spec_ty()@ == old(self).spec_env().spec_len(),
            final(self).spec_env().spec_resolve(r.spec_ty()) is None,
            final(self).spec_env().spec_constraints(r.spec_ty()) == seq![
                TypeConstraint::FromFloatLiteral,
            ],
            r.spec_value() matches LiteralValue::Float { value: v } && v@ == value@,
    {
        let type_inference_id = self.type_inference_environment.create_unknown();
        let res = self.type_inference_environment.add_constraint(
            type_inference_id,
            TypeConstraint::FromFloatLiteral,
        );
        proof {
            assert(res is Ok);
        }
        Literal::new(LiteralValue::Float { value }, type_inference_id)
    }

    /// Build a boolean literal: a fresh handle constrained to equal `bool`.
    pub fn build_boolean_literal(&mut self, value: bool) -> (r: Literal)
        requires
            old(self).wf(),
        ensures
            final(self).wf(),
            final(self).spec_functions() == old(self).spec_functions(),
            final(self).building_functions == old(self).building_functions,
            HLIRPackage::extends_diagnostics(*old(self), *final(self)),
            r.spec_ty()@ == old(self).spec_env().spec_len(),
            r.spec_value() == (LiteralValue::Boolean { value }),
            old(self).spec_types().spec_get(nm_bool()) matches Some(bid) ==> final(self).spec_env().spec_constraints(r.spec_ty()) == seq![TypeConstraint::Type(bid)],
    {
        proof {
            reveal_strlit("bool");
            assert(seq!["bool"@] =~~= nm_bool());
        }
        let path = Path::from_name("bool".to_owned());
        self.build_constrained_literal(LiteralValue::Boolean { value }, path, "bool")
    }

    /// Build a character literal: a fresh handle constrained to equal
    /// `char`. The raw lexeme is kept unparsed.
    pub fn build_character_literal(&mut self, value: String) -> (r: Literal)
        requires
            old(self).wf(),
        ensures
            final(self).wf(),
            final(self).spec_functions() == old(self).spec_functions(),
            final(self).building_functions == old(self).building_functions,
            HLIRPackage::extends_diagnostics(*old(self), *final(self)),
            r.spec_ty()@ == old(self).spec_env().spec_len(),
            r.spec_value() matches LiteralValue::Character { value: v } && v@ == value@,
            old(self).spec_types().spec_get(nm_char()) matches Some(cid) ==> final(self).spec_env().spec_constraints(r.spec_ty()) == seq![TypeConstraint::Type(cid)],
    {
        proof {
            reveal_strlit("char");
            assert(seq!["char"@] =~~= nm_char());
        }
        let path = Path::from_name("char".to_owned());
        self.build_constrained_literal(LiteralValue::Character { value }, path, "char")
    }

    /// Build a string literal: a fresh handle constrained to equal `str`.
    pub fn build_string_literal(&mut self, value: String) -> (r: Literal)
        requires
            old(self).wf(),
        ensures
            final(self).wf(),
            final(self).spec_functions() == old(self).spec_functions(),
            final(self).building_functions == old(self).building_functions,
            HLIRPackage::extends_diagnostics(*old(self), *final(self)),
            r.spec_ty()@ == old(self).spec_env().spec_len(),
            r.spec_value() matches LiteralValue::String { value: v } && v@ == value@,
            old(self).spec_types().spec_get(nm_str()) matches Some(sid) ==> final(self).spec_env().spec_constraints(r.spec_ty()) == seq![TypeConstraint::Type(sid)],
    {
        proof {
            reveal_strlit("str");
            assert(seq!["str"@] =~~= nm_str());
        }
        let path = Path::from_name("str".to_owned());
        self.build_constrained_literal(LiteralValue::String { value }, path, "str")
    }

    /// Build a literal whose type is the named built-in: a fresh handle
    /// with an equality constraint on that type. An unregistered type name
    /// is a reported diagnostic and leaves the handle unconstrained.
    fn build_constrained_literal(
        &mut self,
        value: LiteralValue,
        path: Path,
        name: &str,
    ) -> (r: Literal)
        requires
            old(self).wf(),
        ensures
            final(self).wf(),
            final(self).spec_functions() == old(self).spec_functions(),
            final(self).building_functions == old(self).building_functions,
            HLIRPackage::extends_diagnostics(*old(self), *final(self)),
            r.spec_ty()@ == old(self).spec_env().spec_len(),
            r.spec_value() == value,
            old(self).spec_types().spec_get(path@) matches Some(tid) ==> final(self).spec_env().spec_constraints(r.spec_ty()) == seq![TypeConstraint::Type(tid)],
    {
        let type_inference_id = self.type_inference_environment.create_unknown();
        match self.types.get(&path) {
            Some(tid) => {
                let res = self.type_inference_environment.add_constraint(
                    type_inference_id,
                    TypeConstraint::Type(tid),
                );
                proof {
                    assert(res is Ok);
                    assert(final(self).spec_env().spec_constraints(type_inference_id) =~= seq![
                        TypeConstraint::Type(tid),
                    ]);
                }
            },
            None => {
                self.diagnostics.push(TypeError::UndefinedName { name: name.to_owned() });
            },
        }
        Literal::new(value, type_inference_id)
    }
}

/// The inference id carrying an expression's type within a package.
pub open spec fn spec_expr_ty(p: &HLIRPackage, e: &Expression) -> Option<InferenceId> {
    match e {
        Expression::Variable(v) => p.spec_variables().spec_get_type(*v),
        Expression::Literal(l) => Some(l.spec_ty()),
        Expression::FunctionCall(c) => Some(c.result),
        Expression::UnaryOperation(u) => Some(u.result),
        Expression::BinaryOperation(b) => Some(b.result),
        Expression::TypeCast(t) => Some(t.target_type),
    }
}

/// Every inference variable of the package has a concrete type.
pub open spec fn env_fully_resolved(p: &HLIRPackage) -> bool {
    forall|v: InferenceId|
        0 <= v@ < p.spec_env().spec_len() ==> (#[trigger] p.spec_env().spec_resolve(v)) is Some
}

/// Only the function table differs between the two package states.
pub open spec fn only_functions_changed(pre: &HLIRPackage, post: &HLIRPackage) -> bool {
    &&& post.building_functions == pre.building_functions
    &&& post.spec_types() == pre.spec_types()
    &&& post.spec_env() == pre.spec_env()
    &&& post.spec_variables() == pre.spec_variables()
    &&& post.spec_diagnostics() == pre.spec_diagnostics()
    &&& post.spec_current_function() == pre.spec_current_function()
    &&& post.spec_open_blocks() == pre.spec_open_blocks()
}

/// Only the variable table differs between the two package states.
pub open spec fn only_variables_changed(pre: &HLIRPackage, post: &HLIRPackage) -> bool {
    &&& post.building_functions == pre.building_functions
    &&& post.spec_types() == pre.spec_types()
    &&& post.spec_env() == pre.spec_env()
    &&& post.spec_functions() == pre.spec_functions()
    &&& post.spec_diagnostics() == pre.spec_diagnostics()
    &&& post.spec_current_function() == pre.spec_current_function()
    &&& post.spec_open_blocks() == pre.spec_open_blocks()
}

/// Only the table of open function builders differs between the two
/// package states.
pub open spec fn only_builders_changed(pre: &HLIRPackage, post: &HLIRPackage) -> bool {
    &&& post.spec_types() == pre.spec_types()
    &&& post.spec_env() == pre.spec_env()
    &&& post.spec_variables() == pre.spec_variables()
    &&& post.spec_functions() == pre.spec_functions()
    &&& post.spec_diagnostics() == pre.spec_diagnostics()
    &&& post.spec_current_function() == pre.spec_current_function()
    &&& post.spec_open_blocks() == pre.spec_open_blocks()
}

/// The builder table of `post` extends that of `pre` with empty slots.
pub open spec fn builders_extended(pre: &HLIRPackage, post: &HLIRPackage) -> bool {
    &&& only_builders_changed(pre, post)
    &&& forall|id: FunctionId| post.spec_builder_of(id) == pre.spec_builder_of(id)
}

/// Only the type registry differs between the two package states.
pub open spec fn only_types_changed(pre: &HLIRPackage, post: &HLIRPackage) -> bool {
    &&& post.building_functions == pre.building_functions
    &&& post.spec_env() == pre.spec_env()
    &&& post.spec_variables() == pre.spec_variables()
    &&& post.spec_functions() == pre.spec_functions()
    &&& post.spec_diagnostics() == pre.spec_diagnostics()
    &&& post.spec_current_function() == pre.spec_current_function()
    &&& post.spec_open_blocks() == pre.spec_open_blocks()
}

/// Only the inference environment differs between the two package states.
pub open spec fn only_env_changed(pre: &HLIRPackage, post: &HLIRPackage) -> bool {
    &&& post.building_functions == pre.building_functions
    &&& post.spec_types() == pre.spec_types()
    &&& post.spec_variables() == pre.spec_variables()
    &&& post.spec_functions() == pre.spec_functions()
    &&& post.spec_diagnostics() == pre.spec_diagnostics()
    &&& post.spec_current_function() == pre.spec_current_function()
    &&& post.spec_open_blocks() == pre.spec_open_blocks()
}

} // verus!
