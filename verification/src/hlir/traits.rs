//! Trait scaffolding of the HLIR. Trait resolution is a partially built
//! subsystem: the tables exist so that traits and implementations can be
//! registered, but no resolution is performed on them yet.

use vstd::prelude::*;

use crate::hlir::inference::TypeConstraint;
use crate::hlir::items::Function;
use crate::hlir::path::{path_eq, Path};
use crate::hlir::types::TypeId;

verus! {

/// A unique identifier for a trait.
#[derive(Debug, Clone, Copy, PartialEq, Eq, PartialOrd, Ord, Hash, Structural)]
pub struct TraitId(pub usize);

impl View for TraitId {
    type V = int;

    open spec fn view(&self) -> int {
        self.0 as int
    }
}

/// A unique identifier for a type parameter of one trait.
#[derive(Debug, Clone, Copy, PartialEq, Eq, PartialOrd, Ord, Hash, Structural)]
pub struct TraitTypeParameterId(pub usize);

impl View for TraitTypeParameterId {
    type V = int;

    open spec fn view(&self) -> int {
        self.0 as int
    }
}

/// A unique identifier for a method of one trait.
#[derive(Debug, Clone, Copy, PartialEq, Eq, PartialOrd, Ord, Hash, Structural)]
pub struct TraitMethodId(pub usize);

impl View for TraitMethodId {
    type V = int;

    open spec fn view(&self) -> int {
        self.0 as int
    }
}

/// One method of a trait: a name, parameter type parameters and the return
/// type parameter.
#[derive(Debug, Clone, PartialEq, Eq)]
pub struct TraitMethod {
    pub name: String,
    pub parameters: Vec<TraitTypeParameterId>,
    pub return_type: TraitTypeParameterId,
}

/// A trait definition: named type parameters and named methods, each
/// addressed by a dense id.
#[derive(Debug, Clone)]
pub struct Trait {
    /// Type parameter names; the id of a parameter is its index.
    pub(crate) type_parameters: Vec<String>,
    /// Method names; the id of a method is its index.
    pub(crate) methods: Vec<String>,
    /// Method definitions, parallel to `methods`.
    pub(crate) method_definitions: Vec<TraitMethod>,
}

impl Trait {
    pub closed spec fn spec_type_parameters(&self) -> Seq<String> {
        self.type_parameters@
    }

    pub closed spec fn spec_methods(&self) -> Seq<TraitMethod> {
        self.method_definitions@
    }

    pub closed spec fn wf(&self) -> bool {
        self.methods@.len() == self.method_definitions@.len()
    }

    #[must_use]
    pub fn new() -> (r: Self)
        ensures
            r.wf(),
            r.spec_type_parameters().len() == 0,
            r.spec_methods().len() == 0,
    {
        Self { type_parameters: Vec::new(), methods: Vec::new(), method_definitions: Vec::new() }
    }

    /// The id of a type parameter by name, if declared.
    pub fn get_type_parameter(&self, name: &str) -> (r: Option<TraitTypeParameterId>)
        ensures
            r matches Some(id) ==> 0 <= id@ < self.spec_type_parameters().len()
                && self.spec_type_parameters()[id@]@ == name@,
    {
        let n = self.type_parameters.len();
        let mut i: usize = 0;
        while i < n
            invariant
                n == self.type_parameters@.len(),
                i <= n,
            decreases n - i,
        {
            if crate::hlir::variable_scope::str_eq(self.type_parameters[i].as_str(), name) {
                return Some(TraitTypeParameterId(i));
            }
            i += 1;
        }
        None
    }

    /// Declare a type parameter and return its fresh id.
    pub fn add_type_parameter(&mut self, name: String) -> (r: TraitTypeParameterId)
        requires
            old(self).wf(),
        ensures
            final(self).wf(),
            r@ == old(self).spec_type_parameters().len(),
            final(self).spec_type_parameters() == old(self).spec_type_parameters().push(name),
            final(self).spec_methods() == old(self).spec_methods(),
    {
        let id = TraitTypeParameterId(self.type_parameters.len());
        self.type_parameters.push(name);
        id
    }

    /// Record a constraint on a type parameter. Constraint storage is part
    /// of the unfinished trait-resolution subsystem: the id is checked, and
    /// the constraint itself is not yet retained anywhere.
    pub fn add_type_parameter_constraint(
        &mut self,
        id: TraitTypeParameterId,
        constraint: TypeConstraint,
    ) -> (r: bool)
        requires
            old(self).wf(),
        ensures
            *final(self) == *old(self),
            r == (0 <= id@ < old(self).spec_type_parameters().len()),
    {
        let _ = constraint;
        id.0 < self.type_parameters.len()
    }

    /// Declare a method and return its fresh id.
    pub fn add_method(
        &mut self,
        name: String,
        parameters: Vec<TraitTypeParameterId>,
        return_type: TraitTypeParameterId,
    ) -> (r: TraitMethodId)
        requires
            old(self).wf(),
        ensures
            final(self).wf(),
            r@ == old(self).spec_methods().len(),
            final(self).spec_methods().len() == old(self).spec_methods().len() + 1,
            final(self).spec_methods().last().name@ == name@,
            final(self).spec_methods().last().parameters@ == parameters@,
            final(self).spec_methods().last().return_type == return_type,
            final(self).spec_type_parameters() == old(self).spec_type_parameters(),
    {
        let id = TraitMethodId(self.method_definitions.len());
        self.methods.push(name.clone());
        self.method_definitions.push(TraitMethod { name, parameters, return_type });
        id
    }
}

/// One implementation of a trait for one type.
#[derive(Debug)]
pub struct TraitImpl {
    pub trait_id: TraitId,
    pub type_id: TypeId,
    /// Constraints on the implementation's type parameters.
    pub type_constraints: Vec<(TraitTypeParameterId, Vec<TypeConstraint>)>,
    /// The functions implementing each method.
    pub method_impls: Vec<(TraitMethodId, Function)>,
}

/// All traits and their implementations.
#[derive(Debug)]
pub struct Traits {
    /// Registered trait paths in registration order.
    pub(crate) known: Vec<(Path, TraitId)>,
    /// Definitions; the id of a trait is its index here.
    pub(crate) trait_defs: Vec<Trait>,
    /// Implementations of each trait, parallel to `trait_defs`.
    pub(crate) trait_impls: Vec<Vec<(TypeId, TraitImpl)>>,
}

impl Traits {
    pub closed spec fn spec_defs(&self) -> Seq<Trait> {
        self.trait_defs@
    }

    pub closed spec fn wf(&self) -> bool {
        &&& self.trait_defs@.len() == self.trait_impls@.len()
        &&& forall|k: int|
            0 <= k < self.known@.len() ==> (#[trigger] self.known@[k]).1@ < self.trait_defs@.len()
        &&& forall|i: int| 0 <= i < self.trait_defs@.len() ==> (#[trigger] self.trait_defs@[i]).wf()
    }

    #[must_use]
    pub fn new() -> (r: Self)
        ensures
            r.wf(),
            r.spec_defs().len() == 0,
    {
        Self { known: Vec::new(), trait_defs: Vec::new(), trait_impls: Vec::new() }
    }

    /// The id registered under a path, or a fresh trait if none is.
    pub fn get_or_insert(&mut self, name: Path) -> (r: TraitId)
        requires
            old(self).wf(),
        ensures
            final(self).wf(),
            0 <= r@ < final(self).spec_defs().len(),
    {
        let n = self.known.len();
        let mut i: usize = 0;
        while i < n
            invariant
                self.wf(),
                n == self.known@.len(),
                i <= n,
            decreases n - i,
        {
            if path_eq(&self.known[i].0, &name) {
                return self.known[i].1;
            }
            i += 1;
        }
        let id = TraitId(self.trait_defs.len());
        self.trait_defs.push(Trait::new());
        self.trait_impls.push(Vec::new());
        self.known.push((name, id));
        id
    }

    /// The definition of a trait.
    pub fn get_trait(&self, id: TraitId) -> (r: Option<&Trait>)
        ensures
            r is Some <==> 0 <= id@ < self.spec_defs().len(),
    {
        if id.0 < self.trait_defs.len() {
            Some(&self.trait_defs[id.0])
        } else {
            None
        }
    }

    /// The definition of a trait, for modification.
    pub fn get_trait_mut(&mut self, id: TraitId) -> (r: Option<&mut Trait>)
        requires
            old(self).wf(),
    {
        if id.0 < self.trait_defs.len() {
            Some(&mut self.trait_defs[id.0])
        } else {
            None
        }
    }

    /// All implementations of a trait.
    pub fn get_trait_impls(&self, id: TraitId) -> (r: Option<&Vec<(TypeId, TraitImpl)>>)
        requires
            self.wf(),
        ensures
            r is Some <==> 0 <= id@ < self.spec_defs().len(),
    {
        if id.0 < self.trait_impls.len() {
            Some(&self.trait_impls[id.0])
        } else {
            None
        }
    }

    /// The implementation of a trait for one type, if registered.
    pub fn get_trait_impl(&self, trait_id: TraitId, type_id: TypeId) -> (r: Option<&TraitImpl>) {
        if trait_id.0 >= self.trait_impls.len() {
            return None;
        }
        let impls = &self.trait_impls[trait_id.0];
        let n = impls.len();
        let mut i: usize = n;
        while i > 0
            invariant
                n == impls@.len(),
                i <= n,
            decreases i,
        {
            i -= 1;
            if impls[i].0 == type_id {
                return Some(&impls[i].1);
            }
        }
        None
    }

    /// Register an implementation; for an unknown trait id the registration
    /// is rejected.
    pub fn insert_trait_impl(&mut self, impl_: TraitImpl) -> (r: bool)
        requires
            old(self).wf(),
        ensures
            final(self).wf(),
            r == (0 <= impl_.trait_id@ < old(self).spec_defs().len()),
    {
        let tid = impl_.trait_id.0;
        if tid < self.trait_impls.len() {
            let type_id = impl_.type_id;
            self.trait_impls[tid].push((type_id, impl_));
            true
        } else {
            false
        }
    }
}

} // verus!
