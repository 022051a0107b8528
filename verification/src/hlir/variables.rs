//! Variables of the HLIR: a fresh id per declaration (not per name), a
//! payload that is either a plain variable or a function, and the scope that
//! maps names to the innermost declaration.

use vstd::prelude::*;

use crate::hlir::functions::FunctionId;
use crate::hlir::inference::InferenceId;
use crate::hlir::variable_scope::{VariableScope, VariableScopeBlockId};

verus! {

/// A unique identifier for a variable: its index in the table of known
/// variables. Declaring the same name twice yields two distinct ids.
#[derive(Debug, Clone, Copy, PartialEq, Eq, PartialOrd, Ord, Hash, Structural)]
pub struct VariableId(pub usize);

impl View for VariableId {
    type V = int;

    open spec fn view(&self) -> int {
        self.0 as int
    }
}

/// A variable: its source name and the inference id of its type.
#[derive(Debug, Clone, PartialEq, Eq)]
pub struct Variable {
    pub name: String,
    pub ty: InferenceId,
}

/// What a [`VariableId`] refers to: a plain variable, or a function, so
/// that call sites resolve functions through the same namespace.
#[derive(Debug, Clone, PartialEq, Eq)]
pub enum VariableType {
    /// A normal variable.
    Variable(Variable),
    /// A function registered in the shared namespace.
    Function(FunctionId),
}

/// The collection of all variables with their scope.
#[derive(Debug, Clone)]
pub struct Variables {
    /// Known variables; the id of a variable is its index here.
    pub(crate) known: Vec<VariableType>,
    /// The hierarchical scope of names.
    pub(crate) scope: VariableScope,
}

impl Variables {
    pub closed spec fn spec_known(&self) -> Seq<VariableType> {
        self.known@
    }

    pub closed spec fn spec_get(&self, name: Seq<char>) -> Option<VariableId> {
        self.scope.spec_get(name)
    }

    /// Whether the current scope block is the root block.
    pub closed spec fn spec_at_root(&self) -> bool {
        self.scope.current_block@ == 0
    }

    /// The block new declarations go into.
    pub closed spec fn spec_current_block(&self) -> VariableScopeBlockId {
        self.scope.current_block
    }

    /// The type handle of a variable id, if it names a plain variable.
    pub open spec fn spec_get_type(&self, id: VariableId) -> Option<InferenceId> {
        if 0 <= id@ < self.spec_known().len() {
            match self.spec_known()[id@] {
                VariableType::Variable(v) => Some(v.ty),
                VariableType::Function(_) => None,
            }
        } else {
            None
        }
    }

    pub closed spec fn wf(&self) -> bool {
        &&& self.scope.wf()
        &&& forall|b: int, k: int|
            0 <= b < self.scope.blocks@.len() && 0 <= k < self.scope.blocks@[b].names@.len() ==> (
            #[trigger] self.scope.blocks@[b].names@[k]).1@ < self.known@.len()
    }

    #[must_use]
    pub fn new() -> (r: Self)
        ensures
            r.wf(),
            r.spec_known() =~= Seq::<VariableType>::empty(),
            forall|n: Seq<char>| r.spec_get(n) is None,
    {
        let r = Self { known: Vec::new(), scope: VariableScope::new() };
        proof {
            assert(r.scope.blocks@.len() == 1);
        }
        r
    }

    /// Whether the current scope block is the root block.
    pub fn at_root(&self) -> (r: bool)
        ensures
            r == self.spec_at_root(),
    {
        self.scope.current_block.0 == 0
    }

    /// Enter a nested scope.
    pub fn push_scope(&mut self) -> (r: VariableScopeBlockId)
        requires
            old(self).wf(),
        ensures
            final(self).wf(),
            final(self).spec_known() == old(self).spec_known(),
            r == final(self).spec_current_block(),
            !final(self).spec_at_root(),
            forall|n: Seq<char>| final(self).spec_get(n) == old(self).spec_get(n),
    {
        let r = self.scope.push_block();
        proof {
            let b = self.scope.blocks@.len() - 1;
            assert forall|bb: int, k: int|
                0 <= bb < self.scope.blocks@.len() && 0 <= k
                    < self.scope.blocks@[bb].names@.len() implies (
            #[trigger] self.scope.blocks@[bb].names@[k]).1@ < self.known@.len() by {
                if bb < b {
                    assert(self.scope.blocks@[bb] == old(self).scope.blocks@[bb]);
                } else {
                    assert(self.scope.blocks@[bb].names@.len() == 0);
                }
            }
        }
        r
    }

    /// Leave the current scope; exiting the root is rejected and leaves the
    /// scope unchanged.
    pub fn pop_scope(&mut self) -> (r: Option<VariableScopeBlockId>)
        requires
            old(self).wf(),
        ensures
            final(self).wf(),
            final(self).spec_known() == old(self).spec_known(),
            r is None <==> old(self).spec_at_root(),
    {
        self.scope.pop_block()
    }

    /// Declare a fresh variable under `name` in the current scope, shadowing
    /// any outer binding of that name.
    pub fn create_variable(&mut self, name: &str, ty: InferenceId) -> (r: VariableId)
        requires
            old(self).wf(),
        ensures
            final(self).wf(),
            r@ == old(self).spec_known().len(),
            final(self).spec_known().len() == old(self).spec_known().len() + 1,
            forall|i: int|
                0 <= i < old(self).spec_known().len() ==> final(self).spec_known()[i] == old(self).spec_known()[i],
            final(self).spec_known().last() matches VariableType::Variable(v) && v.name@ == name@
                && v.ty == ty,
            final(self).spec_get_type(r) == Some(ty),
            forall|n: Seq<char>|
                final(self).spec_get(n) == if n == name@ {
                    Some(r)
                } else {
                    old(self).spec_get(n)
                },
    {
        let id = VariableId(self.known.len());
        self.known.push(VariableType::Variable(Variable { name: name.to_owned(), ty }));
        self.scope.insert(name, id);
        proof {
            assert forall|b: int, k: int|
                0 <= b < self.scope.blocks@.len() && 0 <= k
                    < self.scope.blocks@[b].names@.len() implies (
            #[trigger] self.scope.blocks@[b].names@[k]).1@ < self.known@.len() by {
                let cur = old(self).scope.current_block@;
                if b == cur {
                    let entries = self.scope.blocks@[b].names@;
                    if k == entries.len() - 1 {
                        assert(entries.last().1 == id);
                    } else {
                        assert(entries[k] == entries.drop_last()[k]);
                        assert(entries[k] == old(self).scope.blocks@[b].names@[k]);
                    }
                } else {
                    assert(self.scope.blocks@[b].names@[k] == old(self).scope.blocks@[b].names@[k]);
                }
            }
        }
        id
    }

    /// Look a name up, or declare it fresh if it is not in scope.
    pub fn get_or_insert(&mut self, name: &str, ty: InferenceId) -> (r: VariableId)
        requires
            old(self).wf(),
        ensures
            final(self).wf(),
            old(self).spec_get(name@) matches Some(id) ==> r == id && *final(self) == *old(self),
            old(self).spec_get(name@) is None ==> {
                &&& r@ == old(self).spec_known().len()
                &&& final(self).spec_get(name@) == Some(r)
                &&& final(self).spec_get_type(r) == Some(ty)
            },
    {
        if let Some(id) = self.get(name) {
            return id;
        }
        self.create_variable(name, ty)
    }

    /// Resolve a name to the innermost declaration.
    pub fn get(&self, name: &str) -> (r: Option<VariableId>)
        requires
            self.wf(),
        ensures
            r == self.spec_get(name@),
            r matches Some(id) ==> 0 <= id@ < self.spec_known().len(),
    {
        proof {
            self.lemma_get_valid(self.scope.current_block@, name@);
        }
        self.scope.get(name)
    }

    /// The inference id a variable was declared with; `None` for a function
    /// or an unknown id.
    pub fn get_type(&self, id: VariableId) -> (r: Option<InferenceId>)
        ensures
            r == self.spec_get_type(id),
    {
        if id.0 < self.known.len() {
            match &self.known[id.0] {
                VariableType::Variable(v) => Some(v.ty),
                VariableType::Function(_) => None,
            }
        } else {
            None
        }
    }

    /// The source name a variable id was declared under, for diagnostics;
    /// `None` for a function or an unknown id.
    pub fn get_name(&self, id: VariableId) -> (r: Option<&str>)
        ensures
            match r {
                Some(n) => {
                    &&& 0 <= id@ < self.spec_known().len()
                    &&& self.spec_known()[id@] matches VariableType::Variable(v) && n@ == v.name@
                },
                None => !(0 <= id@ < self.spec_known().len()
                    && self.spec_known()[id@] is Variable),
            },
    {
        if id.0 < self.known.len() {
            match &self.known[id.0] {
                VariableType::Variable(v) => Some(v.name.as_str()),
                VariableType::Function(_) => None,
            }
        } else {
            None
        }
    }

    /// Look a name up, or register it as naming a function.
    pub fn get_or_insert_function(&mut self, name: &str, function_id: FunctionId) -> (r:
        VariableId)
        requires
            old(self).wf(),
        ensures
            final(self).wf(),
            old(self).spec_get(name@) matches Some(id) ==> r == id && *final(self) == *old(self),
            old(self).spec_get(name@) is None ==> {
                &&& r@ == old(self).spec_known().len()
                &&& final(self).spec_get(name@) == Some(r)
                &&& final(self).spec_known().last() == VariableType::Function(function_id)
            },
    {
        if let Some(id) = self.get(name) {
            return id;
        }
        let id = VariableId(self.known.len());
        self.known.push(VariableType::Function(function_id));
        self.scope.insert(name, id);
        proof {
            assert forall|b: int, k: int|
                0 <= b < self.scope.blocks@.len() && 0 <= k
                    < self.scope.blocks@[b].names@.len() implies (
            #[trigger] self.scope.blocks@[b].names@[k]).1@ < self.known@.len() by {
                let cur = old(self).scope.current_block@;
                if b == cur {
                    let entries = self.scope.blocks@[b].names@;
                    if k == entries.len() - 1 {
                        assert(entries.last().1 == id);
                    } else {
                        assert(entries[k] == entries.drop_last()[k]);
                        assert(entries[k] == old(self).scope.blocks@[b].names@[k]);
                    }
                } else {
                    assert(self.scope.blocks@[b].names@[k] == old(self).scope.blocks@[b].names@[k]);
                }
            }
        }
        id
    }

    proof fn lemma_get_valid(&self, b: int, name: Seq<char>)
        requires
            self.wf(),
        ensures
            match VariableScope::spec_get_from(self.scope.blocks@, b, name) {
                Some(id) => 0 <= id@ < self.spec_known().len(),
                None => true,
            },
        decreases b,
    {
        if 0 <= b < self.scope.blocks@.len() {
            self.lemma_names_get_valid(b, self.scope.blocks@[b].names@, name);
            match self.scope.blocks@[b].parent {
                Some(p) => {
                    if 0 <= p@ < b {
                        self.lemma_get_valid(p@, name);
                    }
                },
                None => {},
            }
        }
    }

    proof fn lemma_names_get_valid(&self, b: int, entries: Seq<(String, VariableId)>, name: Seq<char>)
        requires
            self.wf(),
            0 <= b < self.scope.blocks@.len(),
            entries.len() <= self.scope.blocks@[b].names@.len(),
            forall|k: int| 0 <= k < entries.len() ==> entries[k] == self.scope.blocks@[b].names@[k],
        ensures
            match crate::hlir::variable_scope::spec_names_get(entries, name) {
                Some(id) => 0 <= id@ < self.spec_known().len(),
                None => true,
            },
        decreases entries.len(),
    {
        if entries.len() > 0 {
            self.lemma_names_get_valid(b, entries.drop_last(), name);
        }
    }
}

} // verus!
