//! The function table: paths to ids, ids to prototypes, and — once bodies
//! are lowered — ids to finished functions. Ids are handed out before any
//! body is visited, which is what lets call sites resolve forward
//! references.

use vstd::prelude::*;

use crate::hlir::items::{Function, FunctionPrototype};
use crate::hlir::path::{path_eq, Path};

verus! {

/// A unique identifier for a function.
#[derive(Debug, Clone, Copy, PartialEq, Eq, PartialOrd, Ord, Hash, Structural)]
pub struct FunctionId(pub usize);

impl View for FunctionId {
    type V = int;

    open spec fn view(&self) -> int {
        self.0 as int
    }
}

/// The id a sequence of registrations gives to a path: the most recent
/// registration wins.
pub open spec fn spec_funcs_get(entries: Seq<(Path, FunctionId)>, name: Seq<Seq<char>>) -> Option<
    FunctionId,
>
    decreases entries.len(),
{
    if entries.len() == 0 {
        None
    } else if entries.last().0@ == name {
        Some(entries.last().1)
    } else {
        spec_funcs_get(entries.drop_last(), name)
    }
}

/// All functions of a package.
#[derive(Debug)]
pub struct Functions {
    /// Registered paths in registration order.
    pub(crate) known: Vec<(Path, FunctionId)>,
    /// Prototype of each id; the id of a function is its index here.
    pub(crate) prototypes: Vec<Option<FunctionPrototype>>,
    /// Finished body of each id, filled in by the body pass.
    pub(crate) impls: Vec<Option<Function>>,
}

impl Functions {
    pub closed spec fn spec_protos(&self) -> Seq<Option<FunctionPrototype>> {
        self.prototypes@
    }

    pub closed spec fn spec_impls(&self) -> Seq<Option<Function>> {
        self.impls@
    }

    pub closed spec fn spec_get(&self, name: Seq<Seq<char>>) -> Option<FunctionId> {
        spec_funcs_get(self.known@, name)
    }

    pub closed spec fn spec_known_paths(&self) -> Seq<(Path, FunctionId)> {
        self.known@
    }

    pub closed spec fn wf(&self) -> bool {
        &&& self.prototypes@.len() == self.impls@.len()
        &&& forall|k: int|
            0 <= k < self.known@.len() ==> {
                &&& (#[trigger] self.known@[k]).1@ < self.prototypes@.len()
                &&& self.prototypes@[self.known@[k].1@] is Some
            }
    }

    /// Equal registration lists resolve every name alike.
    pub proof fn lemma_same_names(a: &Functions, b: &Functions)
        requires
            a.spec_known_paths() == b.spec_known_paths(),
        ensures
            forall|n: Seq<Seq<char>>| a.spec_get(n) == b.spec_get(n),
    {
    }

    /// The prototype and body tables always cover the same ids.
    pub proof fn lemma_wf_lens(&self)
        requires
            self.wf(),
        ensures
            self.spec_impls().len() == self.spec_protos().len(),
    {
    }

    /// Every id a name resolves to has a registered prototype.
    pub proof fn lemma_get_valid(&self, name: Seq<Seq<char>>)
        requires
            self.wf(),
        ensures
            match self.spec_get(name) {
                Some(id) => 0 <= id@ < self.spec_protos().len() && self.spec_protos()[id@] is Some,
                None => true,
            },
    {
        Self::lemma_funcs_get_valid(self, self.known@, name);
    }

    proof fn lemma_funcs_get_valid(&self, entries: Seq<(Path, FunctionId)>, name: Seq<Seq<char>>)
        requires
            self.wf(),
            entries.len() <= self.known@.len(),
            forall|k: int| 0 <= k < entries.len() ==> entries[k] == self.known@[k],
        ensures
            match spec_funcs_get(entries, name) {
                Some(id) => 0 <= id@ < self.spec_protos().len() && self.spec_protos()[id@] is Some,
                None => true,
            },
        decreases entries.len(),
    {
        if entries.len() > 0 {
            Self::lemma_funcs_get_valid(self, entries.drop_last(), name);
        }
    }

    #[must_use]
    pub fn new() -> (r: Self)
        ensures
            r.wf(),
            r.spec_protos() =~= Seq::<Option<FunctionPrototype>>::empty(),
            forall|n: Seq<Seq<char>>| r.spec_get(n) is None,
    {
        Self { known: Vec::new(), prototypes: Vec::new(), impls: Vec::new() }
    }

    /// Hand out the next unused function id.
    pub fn next_id(&mut self) -> (r: FunctionId)
        requires
            old(self).wf(),
        ensures
            final(self).wf(),
            r@ == old(self).spec_protos().len(),
            final(self).spec_protos() == old(self).spec_protos().push(None::<FunctionPrototype>),
            final(self).spec_impls() == old(self).spec_impls().push(None::<Function>),
            forall|n: Seq<Seq<char>>| final(self).spec_get(n) == old(self).spec_get(n),
    {
        let id = FunctionId(self.prototypes.len());
        self.prototypes.push(None);
        self.impls.push(None);
        id
    }

    /// Resolve a path to a function id.
    #[must_use]
    pub fn get(&self, path: &Path) -> (r: Option<FunctionId>)
        requires
            self.wf(),
        ensures
            r == self.spec_get(path@),
            r matches Some(id) ==> 0 <= id@ < self.spec_protos().len() && self.spec_protos()[id@]
                is Some,
    {
        proof {
            self.lemma_get_valid(path@);
        }
        let n = self.known.len();
        proof {
            assert(self.known@.take(n as int) =~= self.known@);
        }
        let mut i: usize = n;
        while i > 0
            invariant
                self.wf(),
                n == self.known@.len(),
                i <= n,
                spec_funcs_get(self.known@.take(i as int), path@) == self.spec_get(path@),
            decreases i,
        {
            i -= 1;
            let entry = &self.known[i];
            if path_eq(&entry.0, path) {
                proof {
                    assert(self.known@.take(i as int + 1).last() == self.known@[i as int]);
                    self.lemma_get_valid(path@);
                }
                return Some(entry.1);
            }
            proof {
                assert(self.known@.take(i as int + 1).drop_last() =~= self.known@.take(i as int));
            }
        }
        proof {
            assert(self.known@.take(0) =~= Seq::<(Path, FunctionId)>::empty());
        }
        None
    }

    /// The prototype registered under an id.
    #[must_use]
    pub fn get_prototype(&self, id: FunctionId) -> (r: Option<FunctionPrototype>)
        ensures
            match r {
                Some(p) => {
                    &&& 0 <= id@ < self.spec_protos().len()
                    &&& self.spec_protos()[id@] matches Some(q) && p@ == q@
                },
                None => !(0 <= id@ < self.spec_protos().len() && self.spec_protos()[id@] is Some),
            },
    {
        if id.0 < self.prototypes.len() {
            match &self.prototypes[id.0] {
                Some(p) => Some(p.duplicate()),
                None => None,
            }
        } else {
            None
        }
    }

    /// Whether a finished body has been recorded for an id.
    pub fn has_impl(&self, id: FunctionId) -> (r: bool)
        ensures
            r == (0 <= id@ < self.spec_impls().len() && self.spec_impls()[id@] is Some),
    {
        id.0 < self.impls.len() && self.impls[id.0].is_some()
    }

    /// The first path registered for an id, for diagnostics.
    #[must_use]
    pub fn get_path(&self, id: &FunctionId) -> (r: Option<&Path>)
        ensures
            r matches Some(p) ==> exists|k: int|
                0 <= k < self.spec_known_paths().len() && #[trigger] self.spec_known_paths()[k]
                    == (*p, *id),
    {
        let n = self.known.len();
        let mut i: usize = 0;
        while i < n
            invariant
                n == self.known@.len(),
                i <= n,
            decreases n - i,
        {
            let entry = &self.known[i];
            if entry.1 == *id {
                proof {
                    assert(self.spec_known_paths()[i as int] == (entry.0, *id));
                }
                return Some(&entry.0);
            }
            i += 1;
        }
        None
    }

    /// Register a function: assign it a fresh id and record its prototype
    /// under the given path.
    pub fn create_function(&mut self, path: Path, prototype: FunctionPrototype) -> (r: FunctionId)
        requires
            old(self).wf(),
        ensures
            final(self).wf(),
            r@ == old(self).spec_protos().len(),
            final(self).spec_protos().len() == old(self).spec_protos().len() + 1,
            forall|i: int|
                0 <= i < old(self).spec_protos().len() ==> final(self).spec_protos()[i] == old(self).spec_protos()[i],
            final(self).spec_protos()[r@] == Some(prototype),
            final(self).spec_impls()[r@] is None,
            forall|n: Seq<Seq<char>>|
                final(self).spec_get(n) == if n == path@ {
                    Some(r)
                } else {
                    old(self).spec_get(n)
                },
    {
        let id = FunctionId(self.prototypes.len());
        self.prototypes.push(Some(prototype));
        self.impls.push(None);
        self.known.push((path, id));
        proof {
            assert(self.known@.drop_last() =~= old(self).known@);
            assert forall|n: Seq<Seq<char>>|
                final(self).spec_get(n) == if n == path@ {
                    Some(id)
                } else {
                    old(self).spec_get(n)
                } by {
                assert(spec_funcs_get(self.known@.drop_last(), n) == spec_funcs_get(
                    old(self).known@,
                    n,
                ));
            }
        }
        id
    }

    /// Record the finished body of a function whose prototype is registered
    /// and whose body has not been recorded yet.
    pub fn insert(&mut self, id: FunctionId, function: Function)
        requires
            old(self).wf(),
            0 <= id@ < old(self).spec_protos().len(),
            old(self).spec_protos()[id@] is Some,
            old(self).spec_impls()[id@] is None,
        ensures
            final(self).wf(),
            final(self).spec_known_paths() == old(self).spec_known_paths(),
            final(self).spec_protos() == old(self).spec_protos(),
            final(self).spec_impls() == old(self).spec_impls().update(id@, Some(function)),
            forall|n: Seq<Seq<char>>| final(self).spec_get(n) == old(self).spec_get(n),
    {
        self.impls[id.0] = Some(function);
        proof {
            assert(self.impls@ =~= old(self).spec_impls().update(id@, Some(function)));
        }
    }

    /// All registered prototypes with their ids, in id order.
    pub fn prototypes(&self) -> (r: Vec<(FunctionId, FunctionPrototype)>)
        ensures
            forall|k: int|
                0 <= k < r@.len() ==> {
                    &&& 0 <= (#[trigger] r@[k]).0@ < self.spec_protos().len()
                    &&& self.spec_protos()[r@[k].0@] matches Some(p) && r@[k].1@ == p@
                },
    {
        let mut r: Vec<(FunctionId, FunctionPrototype)> = Vec::new();
        let n = self.prototypes.len();
        let mut i: usize = 0;
        while i < n
            invariant
                n == self.prototypes@.len(),
                i <= n,
                forall|k: int|
                    0 <= k < r@.len() ==> {
                        &&& 0 <= (#[trigger] r@[k]).0@ < self.prototypes@.len()
                        &&& self.prototypes@[r@[k].0@] matches Some(p) && r@[k].1@ == p@
                    },
            decreases n - i,
        {
            match &self.prototypes[i] {
                Some(p) => {
                    r.push((FunctionId(i), p.duplicate()));
                },
                None => {},
            }
            i += 1;
        }
        r
    }

    /// All finished functions with their ids, in id order.
    pub fn impls(&self) -> (r: Vec<(FunctionId, &Function)>)
        ensures
            forall|k: int|
                0 <= k < r@.len() ==> {
                    &&& 0 <= (#[trigger] r@[k]).0@ < self.spec_impls().len()
                    &&& self.spec_impls()[r@[k].0@] == Some(*r@[k].1)
                },
    {
        let mut r: Vec<(FunctionId, &Function)> = Vec::new();
        let n = self.impls.len();
        let mut i: usize = 0;
        while i < n
            invariant
                n == self.impls@.len(),
                i <= n,
                forall|k: int|
                    0 <= k < r@.len() ==> {
                        &&& 0 <= (#[trigger] r@[k]).0@ < self.impls@.len()
                        &&& self.impls@[r@[k].0@] == Some(*r@[k].1)
                    },
            decreases n - i,
        {
            match &self.impls[i] {
                Some(f) => {
                    r.push((FunctionId(i), f));
                },
                None => {},
            }
            i += 1;
        }
        r
    }
}

} // verus!
