//! Hierarchical scope for type names: a tree of blocks held in an arena and
//! addressed by index, each block mapping paths to type ids and pointing at
//! its parent. Lookup walks from the current block outward to the root;
//! later insertions of the same path shadow earlier ones.

use vstd::prelude::*;

use crate::hlir::path::{path_eq, Path};
use crate::hlir::types::TypeId;

verus! {

/// A unique identifier for a type scope block: its index in the arena.
#[derive(Debug, Clone, Copy, PartialEq, Eq, PartialOrd, Ord, Hash, Structural)]
pub struct TypeScopeId(pub usize);

impl View for TypeScopeId {
    type V = int;

    open spec fn view(&self) -> int {
        self.0 as int
    }
}

/// One block of the type scope tree.
#[derive(Debug, Clone)]
pub struct TypeScopeBlock {
    /// The parent block; `None` only for the root block.
    pub parent: Option<TypeScopeId>,
    /// The paths declared in this block, in declaration order.
    pub types: Vec<(Path, TypeId)>,
}

/// The id a sequence of declarations gives to a path: the most recent
/// declaration wins.
pub open spec fn spec_entries_get(entries: Seq<(Path, TypeId)>, name: Seq<Seq<char>>) -> Option<
    TypeId,
>
    decreases entries.len(),
{
    if entries.len() == 0 {
        None
    } else if entries.last().0@ == name {
        Some(entries.last().1)
    } else {
        spec_entries_get(entries.drop_last(), name)
    }
}

impl TypeScopeBlock {
    pub open spec fn spec_get(&self, name: Seq<Seq<char>>) -> Option<TypeId> {
        spec_entries_get(self.types@, name)
    }

    #[must_use]
    pub fn new() -> (r: Self)
        ensures
            r.parent is None,
            r.types@ =~= Seq::<(Path, TypeId)>::empty(),
    {
        Self { parent: None, types: Vec::new() }
    }

    #[must_use]
    pub fn with_parent(parent: TypeScopeId) -> (r: Self)
        ensures
            r.parent == Some(parent),
            r.types@ =~= Seq::<(Path, TypeId)>::empty(),
    {
        Self { parent: Some(parent), types: Vec::new() }
    }

    pub fn insert(&mut self, path: Path, id: TypeId)
        ensures
            final(self).parent == old(self).parent,
            final(self).types@ == old(self).types@.push((path, id)),
            forall|n: Seq<Seq<char>>|
                final(self).spec_get(n) == if n == path@ {
                    Some(id)
                } else {
                    old(self).spec_get(n)
                },
    {
        self.types.push((path, id));
        proof {
            assert forall|n: Seq<Seq<char>>|
                self.spec_get(n) == if n == path@ {
                    Some(id)
                } else {
                    old(self).spec_get(n)
                } by {
                assert(self.types@.drop_last() =~= old(self).types@);
            }
        }
    }

    pub fn get(&self, path: &Path) -> (r: Option<TypeId>)
        ensures
            r == self.spec_get(path@),
    {
        let n = self.types.len();
        proof {
            assert(self.types@.take(n as int) =~= self.types@);
        }
        let mut i: usize = n;
        while i > 0
            invariant
                n == self.types@.len(),
                i <= n,
                spec_entries_get(self.types@.take(i as int), path@) == self.spec_get(path@),
            decreases i,
        {
            i -= 1;
            let entry = &self.types[i];
            if path_eq(&entry.0, path) {
                proof {
                    assert(self.types@.take(i as int + 1).last() == self.types@[i as int]);
                }
                return Some(entry.1);
            }
            proof {
                assert(self.types@.take(i as int + 1).drop_last() =~= self.types@.take(i as int));
            }
        }
        proof {
            assert(self.types@.take(0) =~= Seq::<(Path, TypeId)>::empty());
        }
        None
    }
}

/// The arena of scope blocks together with the block that new declarations
/// go into.
#[derive(Debug, Clone)]
pub struct TypeScope {
    /// The block new declarations are inserted into.
    pub current_block: TypeScopeId,
    /// All blocks ever created; a block is never removed, so ids held by
    /// finished IR nodes stay valid.
    pub blocks: Vec<TypeScopeBlock>,
}

impl TypeScope {
    /// Every parent link points strictly backwards in the arena and the root
    /// block is its own floor: this is what makes lookup terminate.
    pub open spec fn wf(&self) -> bool {
        &&& self.blocks@.len() > 0
        &&& self.current_block@ < self.blocks@.len()
        &&& self.blocks@[0].parent is None
        &&& forall|i: int|
            0 < i < self.blocks@.len() ==> ((#[trigger] self.blocks@[i].parent) matches Some(p)
                && 0 <= p@ < i)
    }

    /// Lookup as seen from block `b`: the innermost declaration wins.
    pub open spec fn spec_get_from(blocks: Seq<TypeScopeBlock>, b: int, name: Seq<Seq<char>>) -> Option<TypeId>
        decreases b,
    {
        if !(0 <= b < blocks.len()) {
            None
        } else {
            match spec_entries_get(blocks[b].types@, name) {
                Some(id) => Some(id),
                None => match blocks[b].parent {
                    Some(p) => if 0 <= p@ < b {
                        Self::spec_get_from(blocks, p@, name)
                    } else {
                        None
                    },
                    None => None,
                },
            }
        }
    }

    /// Lookup from the current block.
    pub open spec fn spec_get(&self, name: Seq<Seq<char>>) -> Option<TypeId> {
        Self::spec_get_from(self.blocks@, self.current_block@, name)
    }

    #[must_use]
    pub fn new() -> (r: Self)
        ensures
            r.wf(),
            r.current_block@ == 0,
            r.blocks@.len() == 1,
            r.blocks@[0].types@.len() == 0,
            forall|n: Seq<Seq<char>>| r.spec_get(n) is None,
    {
        let blocks = vec![TypeScopeBlock::new()];
        let r = Self { current_block: TypeScopeId(0), blocks };
        proof {
            assert(r.blocks@[0].types@.len() == 0);
        }
        r
    }

    /// Enter a nested block parented to the current one and make it current.
    pub fn push_block(&mut self) -> (r: TypeScopeId)
        requires
            old(self).wf(),
        ensures
            final(self).wf(),
            r@ == old(self).blocks@.len(),
            final(self).current_block == r,
            final(self).blocks@.len() == old(self).blocks@.len() + 1,
            forall|i: int|
                0 <= i < old(self).blocks@.len() ==> final(self).blocks@[i] == old(self).blocks@[i],
            final(self).blocks@.last().parent == Some(old(self).current_block),
            final(self).blocks@.last().types@.len() == 0,
            // a fresh block holds nothing, so lookup still sees exactly the
            // outer bindings
            forall|n: Seq<Seq<char>>| final(self).spec_get(n) == old(self).spec_get(n),
    {
        let id = TypeScopeId(self.blocks.len());
        self.blocks.push(TypeScopeBlock::with_parent(self.current_block));
        self.current_block = id;
        proof {
            assert forall|n: Seq<Seq<char>>| self.spec_get(n) == old(self).spec_get(n) by {
                Self::lemma_get_from_frame(old(self).blocks@, self.blocks@, old(self).current_block@, n);
            }
        }
        id
    }

    /// Leave the current block, returning its id; at the root there is no
    /// enclosing block to return to, so the call fails and the scope is
    /// unchanged.
    pub fn pop_block(&mut self) -> (r: Option<TypeScopeId>)
        requires
            old(self).wf(),
        ensures
            final(self).wf(),
            final(self).blocks@ == old(self).blocks@,
            old(self).current_block@ == 0 ==> r is None && final(self).current_block == old(self).current_block,
            old(self).current_block@ != 0 ==> {
                &&& r == Some(old(self).current_block)
                &&& Some(final(self).current_block) == old(self).blocks@[old(self).current_block@].parent
            },
    {
        let current = self.current_block;
        match self.blocks[current.0].parent {
            Some(p) => {
                self.current_block = p;
                Some(current)
            },
            None => None,
        }
    }

    /// Declare a path in the current block, shadowing any outer binding.
    pub fn insert(&mut self, path: Path, id: TypeId)
        requires
            old(self).wf(),
        ensures
            final(self).wf(),
            final(self).current_block == old(self).current_block,
            final(self).blocks@.len() == old(self).blocks@.len(),
            forall|i: int|
                0 <= i < old(self).blocks@.len() && i != old(self).current_block@ ==> final(self).blocks@[i] == old(self).blocks@[i],
            final(self).blocks@[old(self).current_block@].parent == old(self).blocks@[old(self).current_block@].parent,
            final(self).blocks@[old(self).current_block@].types@ == old(self).blocks@[old(self).current_block@].types@.push((path, id)),
            forall|n: Seq<Seq<char>>|
                final(self).spec_get(n) == if n == path@ {
                    Some(id)
                } else {
                    old(self).spec_get(n)
                },
    {
        let cur = self.current_block.0;
        let block = &mut self.blocks[cur];
        block.insert(path, id);
        proof {
            let b = old(self).current_block@;
            assert forall|n: Seq<Seq<char>>|
                self.spec_get(n) == if n == path@ {
                    Some(id)
                } else {
                    old(self).spec_get(n)
                } by {
                if n == path@ {
                    assert(spec_entries_get(self.blocks@[b].types@, n) == Some(id));
                } else {
                    assert(self.blocks@[b].types@.drop_last() =~= old(self).blocks@[b].types@);
                    assert(spec_entries_get(self.blocks@[b].types@, n) == spec_entries_get(
                        old(self).blocks@[b].types@,
                        n,
                    ));
                    Self::lemma_get_from_untouched_one(old(self).blocks@, self.blocks@, b, b, n);
                }
            }
        }
    }

    /// Resolve a path from the current block outward.
    pub fn get(&self, path: &Path) -> (r: Option<TypeId>)
        requires
            self.wf(),
        ensures
            r == self.spec_get(path@),
    {
        let mut current: usize = self.current_block.0;
        loop
            invariant
                self.wf(),
                current < self.blocks@.len(),
                Self::spec_get_from(self.blocks@, current as int, path@) == self.spec_get(path@),
            decreases current,
        {
            let block = &self.blocks[current];
            match block.get(path) {
                Some(id) => {
                    return Some(id);
                },
                None => {
                    match block.parent {
                        Some(p) => {
                            current = p.0;
                        },
                        None => {
                            return None;
                        },
                    }
                },
            }
        }
    }

    /// Extending the arena with fresh blocks does not change what any old
    /// block sees.
    proof fn lemma_get_from_frame(
        old_blocks: Seq<TypeScopeBlock>,
        new_blocks: Seq<TypeScopeBlock>,
        b: int,
        name: Seq<Seq<char>>,
    )
        requires
            old_blocks.len() <= new_blocks.len(),
            forall|i: int| 0 <= i < old_blocks.len() ==> new_blocks[i] == old_blocks[i],
            b < old_blocks.len(),
        ensures
            Self::spec_get_from(new_blocks, b, name) == Self::spec_get_from(old_blocks, b, name),
        decreases b,
    {
        if 0 <= b {
            match old_blocks[b].parent {
                Some(p) => {
                    if 0 <= p@ < b {
                        Self::lemma_get_from_frame(old_blocks, new_blocks, p@, name);
                    }
                },
                None => {},
            }
        }
    }

    /// A change confined to block `c` that leaves this name's lookup in
    /// `c` unchanged is invisible to lookup from any block.
    proof fn lemma_get_from_untouched_one(
        old_blocks: Seq<TypeScopeBlock>,
        new_blocks: Seq<TypeScopeBlock>,
        c: int,
        b: int,
        name: Seq<Seq<char>>,
    )
        requires
            old_blocks.len() == new_blocks.len(),
            0 <= c < old_blocks.len(),
            forall|i: int| 0 <= i < old_blocks.len() && i != c ==> new_blocks[i] == old_blocks[i],
            new_blocks[c].parent == old_blocks[c].parent,
            spec_entries_get(new_blocks[c].types@, name) == spec_entries_get(
                old_blocks[c].types@,
                name,
            ),
        ensures
            Self::spec_get_from(new_blocks, b, name) == Self::spec_get_from(old_blocks, b, name),
        decreases b,
    {
        if 0 <= b < old_blocks.len() {
            match old_blocks[b].parent {
                Some(p) => {
                    if 0 <= p@ < b {
                        Self::lemma_get_from_untouched_one(old_blocks, new_blocks, c, p@, name);
                    }
                },
                None => {},
            }
        }
    }
}

} // verus!
