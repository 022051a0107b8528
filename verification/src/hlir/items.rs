//! Function prototypes, finished functions, and the builder that assembles
//! a function while its body is being lowered.

use vstd::prelude::*;

use crate::hlir::statements::Statement;
use crate::hlir::type_scope::TypeScopeId;
use crate::hlir::types::TypeId;
use crate::hlir::variable_scope::VariableScopeBlockId;
use crate::hlir::variables::VariableId;

verus! {

/// Everything needed to call a function: ordered parameter types, whether
/// extra arguments are accepted, and the return type.
#[derive(Debug, PartialEq, Eq)]
pub struct FunctionPrototype {
    /// The types of the declared parameters, in order.
    pub parameters: Vec<TypeId>,
    /// Whether the function accepts arguments beyond the declared
    /// parameters.
    pub is_variadic: bool,
    /// The return type.
    pub return_type: TypeId,
}

impl View for FunctionPrototype {
    type V = (Seq<TypeId>, bool, TypeId);

    open spec fn view(&self) -> (Seq<TypeId>, bool, TypeId) {
        (self.parameters@, self.is_variadic, self.return_type)
    }
}

impl FunctionPrototype {
    /// An exact copy; written out field by field so the copy provably
    /// equals the original.
    pub fn duplicate(&self) -> (r: Self)
        ensures
            r@ == self@,
    {
        let mut parameters: Vec<TypeId> = Vec::new();
        let n = self.parameters.len();
        let mut i: usize = 0;
        while i < n
            invariant
                n == self.parameters@.len(),
                i <= n,
                parameters@ =~= self.parameters@.take(i as int),
            decreases n - i,
        {
            parameters.push(self.parameters[i]);
            i += 1;
        }
        proof {
            assert(parameters@ =~= self.parameters@);
        }
        Self { parameters, is_variadic: self.is_variadic, return_type: self.return_type }
    }
}

/// A finished function: its prototype, the scope blocks its body owned, its
/// parameter variables and its body.
#[derive(Debug, PartialEq, Eq)]
pub struct Function {
    pub variable_scope: VariableScopeBlockId,
    pub type_scope: TypeScopeId,
    /// The prototype of the function.
    pub prototype: FunctionPrototype,
    /// The parameter variables, in declaration order.
    pub parameters: Vec<VariableId>,
    /// The body: a single statement or a block of statements.
    pub body: Statement,
}

/// A function under construction: parameters accumulate and the body is set
/// once, then [`FunctionBuilder::build`] produces the finished function.
#[derive(Debug, PartialEq, Eq)]
pub struct FunctionBuilder {
    pub variable_scope: VariableScopeBlockId,
    pub type_scope: TypeScopeId,
    pub prototype: FunctionPrototype,
    pub parameters: Vec<VariableId>,
    pub body: Option<Statement>,
}

impl FunctionBuilder {
    pub open spec fn spec_parameters(&self) -> Seq<VariableId> {
        self.parameters@
    }

    pub open spec fn spec_body(&self) -> Option<Statement> {
        self.body
    }

    pub open spec fn spec_prototype(&self) -> FunctionPrototype {
        self.prototype
    }

    pub fn new(
        variable_scope: VariableScopeBlockId,
        type_scope: TypeScopeId,
        prototype: FunctionPrototype,
    ) -> (r: Self)
        ensures
            r.spec_prototype() == prototype,
            r.spec_parameters().len() == 0,
            r.spec_body() is None,
    {
        Self { variable_scope, type_scope, prototype, parameters: Vec::new(), body: None }
    }

    /// Record the next parameter variable.
    pub fn add_parameter(&mut self, parameter: VariableId)
        ensures
            final(self).spec_parameters() == old(self).spec_parameters().push(parameter),
            final(self).spec_body() == old(self).spec_body(),
            final(self).spec_prototype() == old(self).spec_prototype(),
    {
        self.parameters.push(parameter);
    }

    /// Whether a body has been set.
    pub fn has_body(&self) -> (r: bool)
        ensures
            r == (self.spec_body() is Some),
    {
        self.body.is_some()
    }

    /// Set the function body; a later call replaces an earlier one.
    pub fn set_body(&mut self, body: Statement)
        ensures
            final(self).spec_body() == Some(body),
            final(self).spec_parameters() == old(self).spec_parameters(),
            final(self).spec_prototype() == old(self).spec_prototype(),
    {
        self.body = Some(body);
    }

    /// Finish the function; `None` exactly when no body was ever set.
    pub fn build(self) -> (r: Option<Function>)
        ensures
            self.spec_body() is None <==> r is None,
            r matches Some(f) ==> {
                &&& Some(f.body) == self.spec_body()
                &&& f.parameters@ == self.spec_parameters()
                &&& f.prototype == self.spec_prototype()
                &&& f.variable_scope == self.variable_scope
                &&& f.type_scope == self.type_scope
            },
    {
        match self.body {
            Some(body) => Some(
                Function {
                    variable_scope: self.variable_scope,
                    type_scope: self.type_scope,
                    prototype: self.prototype,
                    parameters: self.parameters,
                    body,
                },
            ),
            None => None,
        }
    }
}

} // verus!
