//! The type registry: a deduplicating store of concrete types addressed by
//! stable ids, together with the scope that resolves type paths. Two
//! structurally equal types always share one id.

use vstd::prelude::*;

use crate::hlir::inference::InferenceId;
use crate::hlir::path::Path;
use crate::hlir::type_scope::{TypeScope, TypeScopeId};
use crate::text::usize_to_string;

verus! {

/// A unique identifier for a type: its index in the registry.
#[derive(Debug, Clone, Copy, PartialEq, Eq, PartialOrd, Ord, Hash, Structural)]
pub struct TypeId(pub usize);

impl View for TypeId {
    type V = int;

    open spec fn view(&self) -> int {
        self.0 as int
    }
}

/// The types built into the language.
#[derive(Debug, Clone, Copy, PartialEq, Eq, Hash, Structural)]
pub enum PrimitiveType {
    /// The absence of a value.
    Void,
    /// A signed 8-bit integer.
    I8,
    /// A signed 16-bit integer.
    I16,
    /// A signed 32-bit integer.
    I32,
    /// A signed 64-bit integer.
    I64,
    /// An unsigned 8-bit integer.
    U8,
    /// An unsigned 16-bit integer.
    U16,
    /// An unsigned 32-bit integer.
    U32,
    /// An unsigned 64-bit integer.
    U64,
    /// A 32-bit floating point number.
    F32,
    /// A 64-bit floating point number.
    F64,
    /// A boolean value.
    Bool,
    /// A single character.
    Char,
    /// An array of characters with a defined and fixed length.
    Str,
}

impl PrimitiveType {
    /// Whether an integer literal may take this type.
    pub open spec fn spec_is_numeric(self) -> bool {
        match self {
            PrimitiveType::Void | PrimitiveType::Bool | PrimitiveType::Char
            | PrimitiveType::Str => false,
            _ => true,
        }
    }

    /// Whether a float literal may take this type.
    pub open spec fn spec_is_float(self) -> bool {
        self == PrimitiveType::F32 || self == PrimitiveType::F64
    }
}

/// A type in the HLIR. Immutable once created; compound types refer to their
/// components by id.
#[derive(Debug, Clone, Copy, PartialEq, Eq, Hash, Structural)]
pub enum Type {
    /// A type that is not yet known; carries its inference variable.
    Unresolved(InferenceId),
    /// A primitive type.
    Primitive(PrimitiveType),
    /// A pointer to another type.
    Ptr(TypeId),
    /// An array of a type with a fixed length.
    SizedArray(TypeId, usize),
    /// An unsized array of a type.
    UnsizedArray(TypeId),
}

/// Every type id mentioned inside `t` lies below `n`. Registered types only
/// refer to earlier registry entries, which keeps the registry well founded.
pub open spec fn type_ids_below(t: Type, n: int) -> bool {
    match t {
        Type::Ptr(id) => id@ < n,
        Type::SizedArray(id, _) => id@ < n,
        Type::UnsizedArray(id) => id@ < n,
        _ => true,
    }
}

/// The registry of known types and the scope that names them.
#[derive(Debug, Clone)]
pub struct Types {
    /// Registered types; the id of a type is its index here.
    pub(crate) known: Vec<Type>,
    /// The scope that resolves type paths as written in source.
    pub(crate) scope: TypeScope,
}

impl Types {
    /// All registered types, by id.
    pub closed spec fn spec_known(&self) -> Seq<Type> {
        self.known@
    }

    /// What a path resolves to in the current scope.
    pub closed spec fn spec_get(&self, name: Seq<Seq<char>>) -> Option<TypeId> {
        self.scope.spec_get(name)
    }

    /// Whether the current scope block is the root block.
    pub closed spec fn spec_at_root(&self) -> bool {
        self.scope.current_block@ == 0
    }

    /// The block new declarations go into.
    pub closed spec fn spec_current_block(&self) -> TypeScopeId {
        self.scope.current_block
    }

    /// The type registered under an id, if any.
    pub open spec fn spec_known_opt(&self, id: TypeId) -> Option<Type> {
        if 0 <= id@ < self.spec_known().len() {
            Some(self.spec_known()[id@])
        } else {
            None
        }
    }

    /// Registry well-formedness: no two entries are structurally equal, each
    /// entry refers only to earlier entries, and the scope maps names to
    /// valid ids.
    pub closed spec fn wf(&self) -> bool {
        &&& self.scope.wf()
        &&& forall|i: int, j: int|
            #![trigger self.known@[i], self.known@[j]]
            0 <= i < j < self.known@.len() ==> self.known@[i] != self.known@[j]
        &&& forall|i: int|
            0 <= i < self.known@.len() ==> type_ids_below(#[trigger] self.known@[i], i)
        &&& forall|b: int, k: int|
            0 <= b < self.scope.blocks@.len() && 0 <= k < self.scope.blocks@[b].types@.len()
                ==> (#[trigger] self.scope.blocks@[b].types@[k]).1@ < self.known@.len()
    }

    /// A name that resolves in a well-formed registry resolves to a valid id.
    pub proof fn lemma_get_valid(&self, name: Seq<Seq<char>>)
        requires
            self.wf(),
        ensures
            match self.spec_get(name) {
                Some(id) => 0 <= id@ < self.spec_known().len(),
                None => true,
            },
    {
        Self::lemma_get_from_valid(self, self.scope.current_block@, name);
    }

    proof fn lemma_get_from_valid(&self, b: int, name: Seq<Seq<char>>)
        requires
            self.wf(),
        ensures
            match TypeScope::spec_get_from(self.scope.blocks@, b, name) {
                Some(id) => 0 <= id@ < self.spec_known().len(),
                None => true,
            },
        decreases b,
    {
        if 0 <= b < self.scope.blocks@.len() {
            Self::lemma_entries_get_valid(self, b, self.scope.blocks@[b].types@, name);
            match self.scope.blocks@[b].parent {
                Some(p) => {
                    if 0 <= p@ < b {
                        Self::lemma_get_from_valid(self, p@, name);
                    }
                },
                None => {},
            }
        }
    }

    proof fn lemma_entries_get_valid(
        &self,
        b: int,
        entries: Seq<(Path, TypeId)>,
        name: Seq<Seq<char>>,
    )
        requires
            self.wf(),
            0 <= b < self.scope.blocks@.len(),
            entries.len() <= self.scope.blocks@[b].types@.len(),
            forall|k: int| 0 <= k < entries.len() ==> entries[k] == self.scope.blocks@[b].types@[k],
        ensures
            match crate::hlir::type_scope::spec_entries_get(entries, name) {
                Some(id) => 0 <= id@ < self.spec_known().len(),
                None => true,
            },
        decreases entries.len(),
    {
        if entries.len() > 0 {
            Self::lemma_entries_get_valid(self, b, entries.drop_last(), name);
        }
    }

    #[must_use]
    pub fn new() -> (r: Self)
        ensures
            r.wf(),
            r.spec_known() =~= Seq::<Type>::empty(),
            forall|n: Seq<Seq<char>>| r.spec_get(n) is None,
    {
        let r = Self { known: Vec::new(), scope: TypeScope::new() };
        proof {
            assert(r.scope.blocks@.len() == 1);
        }
        r
    }

    /// Whether the current scope block is the root block.
    pub fn at_root(&self) -> (r: bool)
        ensures
            r == self.spec_at_root(),
    {
        self.scope.current_block.0 == 0
    }

    /// Enter a nested type scope.
    pub fn push_scope(&mut self) -> (r: TypeScopeId)
        requires
            old(self).wf(),
        ensures
            final(self).wf(),
            final(self).spec_known() == old(self).spec_known(),
            r == final(self).spec_current_block(),
            !final(self).spec_at_root(),
            forall|n: Seq<Seq<char>>| final(self).spec_get(n) == old(self).spec_get(n),
    {
        let r = self.scope.push_block();
        proof {
            let b = self.scope.blocks@.len() - 1;
            assert(self.scope.blocks@[b].types@.len() == 0);
            assert forall|bb: int, k: int|
                0 <= bb < self.scope.blocks@.len() && 0 <= k
                    < self.scope.blocks@[bb].types@.len() implies (
            #[trigger] self.scope.blocks@[bb].types@[k]).1@ < self.known@.len() by {
                if bb < b {
                    assert(self.scope.blocks@[bb] == old(self).scope.blocks@[bb]);
                }
            }
        }
        r
    }

    /// Leave the current type scope; at the root this fails and the scope is
    /// unchanged.
    pub fn pop_scope(&mut self) -> (r: Option<TypeScopeId>)
        requires
            old(self).wf(),
        ensures
            final(self).wf(),
            final(self).spec_known() == old(self).spec_known(),
            r is None <==> old(self).spec_at_root(),
    {
        self.scope.pop_block()
    }

    /// Get the id of a type, inserting it if it does not already exist: the
    /// registry never holds two structurally equal types.
    pub fn get_or_insert(&mut self, ty: Type) -> (r: TypeId)
        requires
            old(self).wf(),
            type_ids_below(ty, old(self).spec_known().len() as int),
        ensures
            final(self).wf(),
            0 <= r@ < final(self).spec_known().len(),
            final(self).spec_known()[r@] == ty,
            // the registry only grows, by at most this one type
            old(self).spec_known().len() <= final(self).spec_known().len() <= old(self).spec_known().len() + 1,
            forall|i: int|
                0 <= i < old(self).spec_known().len() ==> final(self).spec_known()[i] == old(self).spec_known()[i],
            // deduplication: this id is the only one carrying this type
            forall|j: int|
                0 <= j < final(self).spec_known().len() && final(self).spec_known()[j] == ty ==> j
                    == r@,
            // name resolution is untouched
            forall|n: Seq<Seq<char>>| final(self).spec_get(n) == old(self).spec_get(n),
            final(self).spec_at_root() == old(self).spec_at_root(),
    {
        let n = self.known.len();
        let mut i: usize = 0;
        while i < n
            invariant
                *self == *old(self),
                old(self).wf(),
                n == self.known@.len(),
                i <= n,
                forall|j: int| 0 <= j < i ==> self.known@[j] != ty,
            decreases n - i,
        {
            if self.known[i] == ty {
                proof {
                    assert(self.known@ == old(self).known@);
                    assert forall|j: int|
                        0 <= j < self.known@.len() && self.known@[j] == ty implies j
                        == i as int by {
                        if j < i as int {
                        } else if (i as int) < j {
                            assert(old(self).known@[i as int] != old(self).known@[j]);
                        }
                    }
                }
                return TypeId(i);
            }
            i += 1;
        }
        let r = TypeId(n);
        self.known.push(ty);
        proof {
            assert forall|a: int, b: int|
                #![trigger self.known@[a], self.known@[b]]
                0 <= a < b < self.known@.len() implies self.known@[a] != self.known@[b] by {
                if b == n as int {
                    assert(self.known@[a] == old(self).known@[a]);
                } else {
                    assert(old(self).known@[a] != old(self).known@[b]);
                }
            }
            assert forall|a: int|
                0 <= a < self.known@.len() implies type_ids_below(#[trigger] self.known@[a], a) by {
                if a < n as int {
                    assert(self.known@[a] == old(self).known@[a]);
                    assert(type_ids_below(old(self).known@[a], a));
                }
            }
            assert forall|b: int, k: int|
                0 <= b < self.scope.blocks@.len() && 0 <= k
                    < self.scope.blocks@[b].types@.len() implies (
            #[trigger] self.scope.blocks@[b].types@[k]).1@ < self.known@.len() by {
                assert(old(self).scope.blocks@[b].types@[k].1@ < old(self).known@.len());
            }
        }
        r
    }

    /// How many types are registered.
    pub fn known_len(&self) -> (r: usize)
        ensures
            r == self.spec_known().len(),
    {
        self.known.len()
    }

    /// Resolve a type path in the current scope.
    #[must_use]
    pub fn get(&self, path: &Path) -> (r: Option<TypeId>)
        requires
            self.wf(),
        ensures
            r == self.spec_get(path@),
            match r {
                Some(id) => 0 <= id@ < self.spec_known().len(),
                None => true,
            },
    {
        proof {
            self.lemma_get_valid(path@);
        }
        self.scope.get(path)
    }

    /// Look a type up by id.
    #[must_use]
    pub fn get_by_id(&self, id: TypeId) -> (r: Option<Type>)
        ensures
            r == if 0 <= id@ < self.spec_known().len() {
                Some(self.spec_known()[id@])
            } else {
                None::<Type>
            },
    {
        if id.0 < self.known.len() {
            Some(self.known[id.0])
        } else {
            None
        }
    }

    /// All registered types with their ids, in id order.
    pub fn iter(&self) -> (r: Vec<(TypeId, Type)>)
        ensures
            r@.len() == self.spec_known().len(),
            forall|i: int|
                0 <= i < r@.len() ==> (#[trigger] r@[i]).0@ == i && r@[i].1 == self.spec_known()[i],
    {
        let mut r: Vec<(TypeId, Type)> = Vec::new();
        let n = self.known.len();
        let mut i: usize = 0;
        while i < n
            invariant
                n == self.known@.len(),
                i <= n,
                r@.len() == i,
                forall|j: int|
                    0 <= j < i ==> (#[trigger] r@[j]).0@ == j && r@[j].1 == self.known@[j],
            decreases n - i,
        {
            r.push((TypeId(i), self.known[i]));
            i += 1;
        }
        r
    }

    /// Register a type under a new path in the current scope.
    pub fn create_type(&mut self, path: Path, ty: Type) -> (r: TypeId)
        requires
            old(self).wf(),
            type_ids_below(ty, old(self).spec_known().len() as int),
        ensures
            final(self).wf(),
            0 <= r@ < final(self).spec_known().len(),
            final(self).spec_known()[r@] == ty,
            old(self).spec_known().len() <= final(self).spec_known().len() <= old(self).spec_known().len() + 1,
            forall|i: int|
                0 <= i < old(self).spec_known().len() ==> final(self).spec_known()[i] == old(self).spec_known()[i],
            forall|j: int|
                0 <= j < final(self).spec_known().len() && final(self).spec_known()[j] == ty ==> j
                    == r@,
            forall|n: Seq<Seq<char>>|
                final(self).spec_get(n) == if n == path@ {
                    Some(r)
                } else {
                    old(self).spec_get(n)
                },
    {
        let id = self.get_or_insert(ty);
        let ghost mid = *self;
        self.scope.insert(path, id);
        proof {
            assert forall|b: int, k: int|
                0 <= b < self.scope.blocks@.len() && 0 <= k
                    < self.scope.blocks@[b].types@.len() implies (
            #[trigger] self.scope.blocks@[b].types@[k]).1@ < self.known@.len() by {
                let cur = mid.scope.current_block@;
                if b == cur && k == self.scope.blocks@[b].types@.len() - 1 {
                } else {
                    assert(self.scope.blocks@[b].types@[k] == mid.scope.blocks@[b].types@[k]);
                }
            }
        }
        id
    }

    /// Insert a new path alias for an existing type id.
    pub fn create_type_with_id(&mut self, path: Path, id: TypeId)
        requires
            old(self).wf(),
            0 <= id@ < old(self).spec_known().len(),
        ensures
            final(self).wf(),
            final(self).spec_known() == old(self).spec_known(),
            forall|n: Seq<Seq<char>>|
                final(self).spec_get(n) == if n == path@ {
                    Some(id)
                } else {
                    old(self).spec_get(n)
                },
    {
        let ghost pre = *self;
        self.scope.insert(path, id);
        proof {
            assert forall|b: int, k: int|
                0 <= b < self.scope.blocks@.len() && 0 <= k
                    < self.scope.blocks@[b].types@.len() implies (
            #[trigger] self.scope.blocks@[b].types@[k]).1@ < self.known@.len() by {
                let cur = pre.scope.current_block@;
                if b == cur && k == self.scope.blocks@[b].types@.len() - 1 {
                } else {
                    assert(self.scope.blocks@[b].types@[k] == pre.scope.blocks@[b].types@[k]);
                }
            }
        }
    }

    /// The id under which a type is registered, if it is.
    pub fn find_id(&self, ty: Type) -> (r: Option<TypeId>)
        ensures
            match r {
                Some(id) => 0 <= id@ < self.spec_known().len() && self.spec_known()[id@] == ty,
                None => forall|j: int| 0 <= j < self.spec_known().len() ==> self.spec_known()[j]
                    != ty,
            },
    {
        let n = self.known.len();
        let mut i: usize = 0;
        while i < n
            invariant
                n == self.known@.len(),
                i <= n,
                forall|j: int| 0 <= j < i ==> self.known@[j] != ty,
            decreases n - i,
        {
            if self.known[i] == ty {
                return Some(TypeId(i));
            }
            i += 1;
        }
        None
    }

    /// Render a type id for diagnostics.
    #[must_use]
    pub fn to_display(&self, id: TypeId) -> String {
        self.display_below(id, self.known.len())
    }

    /// Render a type, following component ids only downwards so that the
    /// walk always ends.
    fn display_below(&self, id: TypeId, fuel: usize) -> String
        decreases fuel,
    {
        let mut s = String::new();
        if id.0 >= self.known.len() || fuel == 0 {
            return s;
        }
        match self.known[id.0] {
            Type::Unresolved(_) => {
                s.append("?");
            },
            Type::Primitive(p) => {
                s.append(prim_name(p));
            },
            Type::Ptr(inner) => {
                s.append("*");
                let inner_s = self.display_below(inner, fuel - 1);
                s.append(inner_s.as_str());
            },
            Type::SizedArray(inner, len) => {
                s.append("[");
                let inner_s = self.display_below(inner, fuel - 1);
                s.append(inner_s.as_str());
                s.append("; ");
                let len_s = usize_to_string(len);
                s.append(len_s.as_str());
                s.append("]");
            },
            Type::UnsizedArray(inner) => {
                s.append("[");
                let inner_s = self.display_below(inner, fuel - 1);
                s.append(inner_s.as_str());
                s.append("]");
            },
        }
        s
    }
}

/// The source-level name of a primitive type.
pub fn prim_name(p: PrimitiveType) -> (r: &'static str) {
    match p {
        PrimitiveType::Void => "void",
        PrimitiveType::I8 => "i8",
        PrimitiveType::I16 => "i16",
        PrimitiveType::I32 => "i32",
        PrimitiveType::I64 => "i64",
        PrimitiveType::U8 => "u8",
        PrimitiveType::U16 => "u16",
        PrimitiveType::U32 => "u32",
        PrimitiveType::U64 => "u64",
        PrimitiveType::F32 => "f32",
        PrimitiveType::F64 => "f64",
        PrimitiveType::Bool => "bool",
        PrimitiveType::Char => "char",
        PrimitiveType::Str => "str",
    }
}

/// Two type ids built from structurally equal `Type` values are the same id:
/// the registry deduplicates.
pub proof fn lemma_type_id_unique(types: Types, a: TypeId, b: TypeId, t: Type)
    requires
        types.wf(),
        0 <= a@ < types.spec_known().len(),
        0 <= b@ < types.spec_known().len(),
        types.spec_known()[a@] == t,
        types.spec_known()[b@] == t,
    ensures
        a == b,
{
    if a@ < b@ {
        assert(types.spec_known()[a@] != types.spec_known()[b@]);
    } else if b@ < a@ {
        assert(types.spec_known()[b@] != types.spec_known()[a@]);
    }
}

} // verus!
