//! The prototype pass: walk the top-level items and register a function
//! prototype for every function and external function, before any body is
//! lowered. Bodies, statements and expressions are ignored here.

use vstd::prelude::*;

use crate::ast;
use crate::hlir::inference::TypeError;
use crate::hlir::package::{nm_void, HLIRPackage};
use crate::hlir::path::Path;
use crate::hlir::types::TypeId;
use crate::span::Spanned;

verus! {

/// The recursion budget for nested type annotations; deeper nests are
/// rejected with a diagnostic rather than followed.
pub(crate) const LOWERING_DEPTH_LIMIT: u64 = 0xffff_ffff;

/// The state of the prototype pass: the package being filled and a stack
/// of the types built while walking a type annotation.
#[derive(Debug)]
pub struct PrototypeLoweringContext {
    /// The package receiving the prototypes.
    pub package: HLIRPackage,
    /// Types produced by nested type annotations, innermost on top.
    pub types: Vec<TypeId>,
    /// The remaining recursion budget.
    pub fuel: u64,
}

/// What one step of the prototype pass leaves untouched: the inference
/// environment, the variable table, every type-name binding, and all
/// previously registered function names (registration only adds).
pub open spec fn proto_step(pre: &PrototypeLoweringContext, post: &PrototypeLoweringContext) -> bool {
    &&& post.package.spec_env() == pre.package.spec_env()
    &&& post.package.spec_variables() == pre.package.spec_variables()
    &&& HLIRPackage::extends_diagnostics(pre.package, post.package)
    &&& forall|n: Seq<Seq<char>>|
        post.package.spec_types().spec_get(n) == pre.package.spec_types().spec_get(n)
    &&& forall|n: Seq<Seq<char>>|
        pre.package.spec_functions().spec_get(n) is Some ==> (#[trigger] post.package.spec_functions().spec_get(n)) is Some
}

impl PrototypeLoweringContext {
    pub open spec fn wf(&self) -> bool {
        self.package.wf()
    }

    /// Whether the step from `pre` raised no diagnostics.
    pub open spec fn silent_since(&self, pre: &Self) -> bool {
        self.package.spec_diagnostics().len() == pre.package.spec_diagnostics().len()
    }

    #[must_use]
    pub fn new(package: HLIRPackage) -> (r: Self)
        requires
            package.wf(),
        ensures
            r.wf(),
            r.package == package,
    {
        Self { package, types: Vec::new(), fuel: LOWERING_DEPTH_LIMIT }
    }

    /// Run the pass over a whole syntax tree: when it finishes silently,
    /// every item of the tree has a prototype registered under its name.
    pub fn lower(&mut self, ast: &ast::AST)
        requires
            old(self).wf(),
        ensures
            final(self).wf(),
            proto_step(old(self), final(self)),
            final(self).silent_since(old(self)) ==> forall|i: int|
                0 <= i < ast.0@.len() ==> (#[trigger] final(self).package.spec_functions().spec_get(seq![ast.0@[i].spec_data().spec_name()])) is Some,
    {
        self.visit_ast(ast);
    }

    /// Hand the package back once the pass is done, exactly as it stands.
    #[must_use]
    pub fn finish(self) -> (r: HLIRPackage)
        ensures
            r == self.package,
            self.wf() ==> r.wf(),
    {
        self.package
    }

    fn visit_ast(&mut self, ast: &ast::AST)
        requires
            old(self).wf(),
        ensures
            final(self).wf(),
            proto_step(old(self), final(self)),
            final(self).silent_since(old(self)) ==> forall|i: int|
                0 <= i < ast.0@.len() ==> (#[trigger] final(self).package.spec_functions().spec_get(seq![ast.0@[i].spec_data().spec_name()])) is Some,
    {
        let ghost pre = *old(self);
        let n = ast.0.len();
        let mut i: usize = 0;
        while i < n
            invariant
                pre == *old(self),
                self.wf(),
                n == ast.0@.len(),
                i <= n,
                proto_step(&pre, self),
                self.silent_since(&pre) ==> forall|j: int|
                    0 <= j < i ==> (#[trigger] self.package.spec_functions().spec_get(seq![ast.0@[j].spec_data().spec_name()])) is Some,
            decreases n - i,
        {
            let ghost mid = *self;
            self.visit_item(ast.0[i].data());
            proof {
                assert forall|j: int|
                    self.silent_since(&pre) && 0 <= j < i + 1 implies (#[trigger] self.package.spec_functions().spec_get(seq![ast.0@[j].spec_data().spec_name()]))
                    is Some by {
                    if j < i {
                        assert(mid.package.spec_functions().spec_get(
                            seq![ast.0@[j].spec_data().spec_name()],
                        ) is Some);
                    }
                }
            }
            i += 1;
        }
    }

    fn visit_item(&mut self, item: &ast::Item)
        requires
            old(self).wf(),
        ensures
            final(self).wf(),
            proto_step(old(self), final(self)),
            final(self).silent_since(old(self)) ==> final(self).package.spec_functions().spec_get(seq![item.spec_name()]) is Some,
    {
        match item {
            ast::Item::Function(function) => self.visit_function(function),
            ast::Item::ExternalFunction(external_function) => self.visit_external_function(
                external_function,
            ),
        }
    }

    /// Register a function item's prototype; no part of its body is
    /// visited in this pass.
    fn visit_function(&mut self, function: &ast::Function)
        requires
            old(self).wf(),
        ensures
            final(self).wf(),
            proto_step(old(self), final(self)),
            final(self).silent_since(old(self)) ==> registered_signature(
                old(self),
                final(self),
                &function.name,
                &function.parameters,
                &function.return_type,
            ),
    {
        self.lower_signature(&function.name, &function.parameters, &function.return_type);
    }

    /// Register an external function's prototype.
    fn visit_external_function(&mut self, external_function: &ast::ExternalFunction)
        requires
            old(self).wf(),
        ensures
            final(self).wf(),
            proto_step(old(self), final(self)),
            final(self).silent_since(old(self)) ==> registered_signature(
                old(self),
                final(self),
                &external_function.name,
                &external_function.parameters,
                &external_function.return_type,
            ),
    {
        self.lower_signature(
            &external_function.name,
            &external_function.parameters,
            &external_function.return_type,
        );
    }

    /// Build the prototype of one function-like item from its annotations
    /// and register it under the item's name.
    fn lower_signature(
        &mut self,
        name: &Spanned<String>,
        parameters: &Spanned<Vec<Spanned<ast::Parameter>>>,
        return_type: &Option<Spanned<ast::Type>>,
    )
        requires
            old(self).wf(),
        ensures
            final(self).wf(),
            proto_step(old(self), final(self)),
            final(self).silent_since(old(self)) ==> registered_signature(
                old(self),
                final(self),
                name,
                parameters,
                return_type,
            ),
    {
        let ghost pre = *old(self);
        let mut parameter_types: Vec<TypeId> = Vec::new();
        let mut variadic = false;
        let params = parameters.data();
        let n = params.len();
        let mut i: usize = 0;
        while i < n
            invariant
                pre == *old(self),
                self.wf(),
                n == params@.len(),
                i <= n,
                proto_step(&pre, self),
                self.package.spec_functions() == pre.package.spec_functions(),
                self.silent_since(&pre) ==> (parameter_types@.len() == ast::spec_named_count(
                    params@.take(i as int),
                ) && variadic == ast::spec_has_variadic(params@.take(i as int))),
            decreases n - i,
        {
            let stack_before = self.types.len();
            match params[i].data() {
                ast::Parameter::Named(named) => {
                    self.visit_type(named.ty.data());
                    if self.types.len() > stack_before {
                        match self.types.pop() {
                            Some(parameter_type) => {
                                parameter_types.push(parameter_type);
                            },
                            None => {},
                        }
                    }
                },
                ast::Parameter::Variadic => {
                    variadic = true;
                },
            }
            proof {
                assert(params@.take(i + 1).drop_last() =~= params@.take(i as int));
                assert(params@.take(i + 1).last() == params@[i as int]);
            }
            i += 1;
        }
        proof {
            assert(params@.take(n as int) =~= params@);
        }
        let ret = match return_type {
            Some(annotation) => {
                let stack_before = self.types.len();
                self.visit_type(annotation.data());
                if self.types.len() > stack_before {
                    self.types.pop()
                } else {
                    None
                }
            },
            None => {
                let void_path = Path::from_name("void".to_owned());
                self.package.get_type_id(&void_path)
            },
        };
        match ret {
            Some(return_type_id) => {
                let prototype = self.package.build_function_prototype(
                    parameter_types,
                    variadic,
                    return_type_id,
                );
                let _ = self.package.create_function(
                    Path::from_name(name.data().clone()),
                    prototype,
                );
            },
            None => {
                self.package.diagnostics.push(
                    TypeError::UndefinedName { name: name.data().clone() },
                );
            },
        }
    }

    /// Lower one parameter's annotation onto the type stack.
    fn visit_parameter(&mut self, parameter: &ast::Parameter)
        requires
            old(self).wf(),
        ensures
            final(self).wf(),
            proto_step(old(self), final(self)),
            final(self).package.spec_functions() == old(self).package.spec_functions(),
    {
        match parameter {
            ast::Parameter::Named(named) => {
                self.visit_type(named.ty.data());
            },
            ast::Parameter::Variadic => {},
        }
    }

    /// Lower one type annotation onto the type stack: a silent visit
    /// produced exactly one type, and a named annotation produced the type
    /// its name resolves to.
    fn visit_type(&mut self, ty: &ast::Type)
        requires
            old(self).wf(),
        ensures
            final(self).wf(),
            final(self).fuel <= old(self).fuel,
            proto_step(old(self), final(self)),
            final(self).package.spec_functions() == old(self).package.spec_functions(),
            // the stack keeps its prefix and gains at most the produced
            // type
            old(self).types@.len() <= final(self).types@.len() <= old(self).types@.len() + 1,
            forall|i: int|
                0 <= i < old(self).types@.len() ==> final(self).types@[i] == old(self).types@[i],
            final(self).silent_since(old(self)) ==> final(self).types@.len() == old(self).types@.len() + 1,
            // a named annotation resolves by lookup
            ty matches ast::Type::Named(named) ==> final(self).silent_since(old(self)) ==> old(self).package.spec_types().spec_get(seq![named.name.spec_data()@]) == Some(
                final(self).types@.last(),
            ),
        decreases old(self).fuel,
    {
        if self.fuel == 0 {
            self.package.diagnostics.push(
                TypeError::UnsupportedConstruct { name: "type".to_owned() },
            );
            return ;
        }
        self.fuel = self.fuel - 1;
        match ty {
            ast::Type::Named(named) => {
                let path = Path::from_name(named.name.data().clone());
                match self.package.get_type_id(&path) {
                    Some(type_id) => {
                        self.types.push(type_id);
                    },
                    None => {
                        self.package.diagnostics.push(
                            TypeError::UndefinedName { name: named.name.data().clone() },
                        );
                    },
                }
            },
            ast::Type::Pointer(pointer) => {
                let stack_before = self.types.len();
                self.visit_type(pointer.ty.data());
                if self.types.len() == stack_before {
                    return ;
                }
                match self.types.pop() {
                    Some(inner) => {
                        if inner.0 < self.package.types.known_len() {
                            let pointer_type = self.package.build_type_pointer(inner);
                            self.types.push(pointer_type);
                        } else {
                            self.package.diagnostics.push(
                                TypeError::UnsupportedConstruct { name: "type".to_owned() },
                            );
                        }
                    },
                    None => {},
                }
            },
            ast::Type::SizedArray(array) => {
                let stack_before = self.types.len();
                self.visit_type(array.ty.data());
                if self.types.len() == stack_before {
                    return ;
                }
                match self.types.pop() {
                    Some(inner) => {
                        if inner.0 < self.package.types.known_len() {
                            let array_type = self.package.build_type_array(
                                inner,
                                *array.size.data(),
                            );
                            self.types.push(array_type);
                        } else {
                            self.package.diagnostics.push(
                                TypeError::UnsupportedConstruct { name: "type".to_owned() },
                            );
                        }
                    },
                    None => {},
                }
            },
            ast::Type::UnsizedArray(array) => {
                let stack_before = self.types.len();
                self.visit_type(array.ty.data());
                if self.types.len() == stack_before {
                    return ;
                }
                match self.types.pop() {
                    Some(inner) => {
                        if inner.0 < self.package.types.known_len() {
                            let array_type = self.package.build_type_unsized_array(inner);
                            self.types.push(array_type);
                        } else {
                            self.package.diagnostics.push(
                                TypeError::UnsupportedConstruct { name: "type".to_owned() },
                            );
                        }
                    },
                    None => {},
                }
            },
            ast::Type::Function(_) => {
                self.package.diagnostics.push(
                    TypeError::UnsupportedConstruct { name: "fn".to_owned() },
                );
            },
            ast::Type::Const(_) => {
                self.package.diagnostics.push(
                    TypeError::UnsupportedConstruct { name: "const".to_owned() },
                );
            },
        }
    }
}

/// What a silent `lower_signature` achieved: a fresh prototype stands
/// registered under the item's name, with one parameter type per named
/// parameter, the variadic flag exactly when a `...` parameter occurs,
/// and — for an absent or named return annotation — the return type the
/// annotation (or `void`) resolves to.
pub open spec fn registered_signature(
    pre: &PrototypeLoweringContext,
    post: &PrototypeLoweringContext,
    name: &Spanned<String>,
    parameters: &Spanned<Vec<Spanned<ast::Parameter>>>,
    return_type: &Option<Spanned<ast::Type>>,
) -> bool {
    let fid = post.package.spec_functions().spec_get(seq![name.spec_data()@]);
    &&& fid is Some
    &&& fid.unwrap()@ == pre.package.spec_functions().spec_protos().len()
    &&& post.package.spec_functions().spec_protos()[fid.unwrap()@] is Some
    &&& ({
        let p = post.package.spec_functions().spec_protos()[fid.unwrap()@].unwrap();
        &&& p.parameters@.len() == ast::spec_named_count(parameters.spec_data()@)
        &&& p.is_variadic == ast::spec_has_variadic(parameters.spec_data()@)
        &&& (return_type is None ==> Some(p.return_type) == pre.package.spec_types().spec_get(
            nm_void(),
        ))
        &&& (return_type matches Some(sp) ==> sp.spec_data() matches ast::Type::Named(nt)
            ==> Some(p.return_type) == pre.package.spec_types().spec_get(
            seq![nt.name.spec_data()@],
        ))
    })
}

} // verus!
