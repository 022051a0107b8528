//! Hierarchical scope for variable and function names, structured exactly
//! like the type scope: an arena of blocks with parent indices, innermost
//! binding wins, exiting the root is rejected.

use vstd::prelude::*;

use crate::hlir::variables::VariableId;

verus! {

/// A unique identifier for a variable scope block: its index in the arena.
#[derive(Debug, Clone, Copy, PartialEq, Eq, PartialOrd, Ord, Hash, Structural)]
pub struct VariableScopeBlockId(pub usize);

impl View for VariableScopeBlockId {
    type V = int;

    open spec fn view(&self) -> int {
        self.0 as int
    }
}

/// One block of the variable scope tree.
#[derive(Debug, Clone)]
pub struct VariableScopeBlock {
    /// The parent block; `None` only for the root block.
    pub parent: Option<VariableScopeBlockId>,
    /// The names declared in this block, in declaration order.
    pub names: Vec<(String, VariableId)>,
}

/// The id a sequence of declarations gives to a name: the most recent
/// declaration wins.
pub open spec fn spec_names_get(entries: Seq<(String, VariableId)>, name: Seq<char>) -> Option<
    VariableId,
>
    decreases entries.len(),
{
    if entries.len() == 0 {
        None
    } else if entries.last().0@ == name {
        Some(entries.last().1)
    } else {
        spec_names_get(entries.drop_last(), name)
    }
}

impl VariableScopeBlock {
    pub open spec fn spec_get(&self, name: Seq<char>) -> Option<VariableId> {
        spec_names_get(self.names@, name)
    }

    #[must_use]
    pub fn new() -> (r: Self)
        ensures
            r.parent is None,
            r.names@ =~= Seq::<(String, VariableId)>::empty(),
    {
        Self { parent: None, names: Vec::new() }
    }

    #[must_use]
    pub fn with_parent(parent: VariableScopeBlockId) -> (r: Self)
        ensures
            r.parent == Some(parent),
            r.names@ =~= Seq::<(String, VariableId)>::empty(),
    {
        Self { parent: Some(parent), names: Vec::new() }
    }

    pub fn insert(&mut self, name: &str, id: VariableId)
        ensures
            final(self).parent == old(self).parent,
            final(self).names@.len() == old(self).names@.len() + 1,
            final(self).names@.last().0@ == name@ && final(self).names@.last().1 == id,
            final(self).names@.drop_last() == old(self).names@,
            forall|n: Seq<char>|
                final(self).spec_get(n) == if n == name@ {
                    Some(id)
                } else {
                    old(self).spec_get(n)
                },
    {
        let owned: String = name.to_owned();
        self.names.push((owned, id));
        proof {
            assert(self.names@.drop_last() =~= old(self).names@);
        }
    }

    pub fn get(&self, name: &str) -> (r: Option<VariableId>)
        ensures
            r == self.spec_get(name@),
    {
        let n = self.names.len();
        proof {
            assert(self.names@.take(n as int) =~= self.names@);
        }
        let mut i: usize = n;
        while i > 0
            invariant
                n == self.names@.len(),
                i <= n,
                spec_names_get(self.names@.take(i as int), name@) == self.spec_get(name@),
            decreases i,
        {
            i -= 1;
            let entry = &self.names[i];
            if str_eq(entry.0.as_str(), name) {
                proof {
                    assert(self.names@.take(i as int + 1).last() == self.names@[i as int]);
                }
                return Some(entry.1);
            }
            proof {
                assert(self.names@.take(i as int + 1).drop_last() =~= self.names@.take(i as int));
            }
        }
        proof {
            assert(self.names@.take(0) =~= Seq::<(String, VariableId)>::empty());
        }
        None
    }
}

/// Decide whether two string slices hold the same characters.
pub fn str_eq(a: &str, b: &str) -> (r: bool)
    ensures
        r == (a@ == b@),
{
    let na = a.unicode_len();
    let nb = b.unicode_len();
    if na != nb {
        return false;
    }
    let mut i: usize = 0;
    while i < na
        invariant
            na == a@.len(),
            nb == b@.len(),
            na == nb,
            i <= na,
            forall|j: int| 0 <= j < i ==> a@[j] == b@[j],
        decreases na - i,
    {
        if a.get_char(i) != b.get_char(i) {
            return false;
        }
        i += 1;
    }
    proof {
        assert(a@ =~= b@);
    }
    true
}

/// The arena of variable scope blocks plus the block declarations go into.
#[derive(Debug, Clone)]
pub struct VariableScope {
    /// The block new names are inserted into.
    pub current_block: VariableScopeBlockId,
    /// All blocks ever created; exited blocks stay, referenced by the IR
    /// nodes that own them.
    pub blocks: Vec<VariableScopeBlock>,
}

impl VariableScope {
    /// Parent links point strictly backwards and the root has none.
    pub open spec fn wf(&self) -> bool {
        &&& self.blocks@.len() > 0
        &&& self.current_block@ < self.blocks@.len()
        &&& self.blocks@[0].parent is None
        &&& forall|i: int|
            0 < i < self.blocks@.len() ==> ((#[trigger] self.blocks@[i].parent) matches Some(p)
                && 0 <= p@ < i)
    }

    /// Lookup as seen from block `b`: walk outward until a block declares
    /// the name.
    pub open spec fn spec_get_from(
        blocks: Seq<VariableScopeBlock>,
        b: int,
        name: Seq<char>,
    ) -> Option<VariableId>
        decreases b,
    {
        if !(0 <= b < blocks.len()) {
            None
        } else {
            match spec_names_get(blocks[b].names@, name) {
                Some(id) => Some(id),
                None => match blocks[b].parent {
                    Some(p) => if 0 <= p@ < b {
                        Self::spec_get_from(blocks, p@, name)
                    } else {
                        None
                    },
                    None => None,
                },
            }
        }
    }

    /// Lookup from the current block.
    pub open spec fn spec_get(&self, name: Seq<char>) -> Option<VariableId> {
        Self::spec_get_from(self.blocks@, self.current_block@, name)
    }

    #[must_use]
    pub fn new() -> (r: Self)
        ensures
            r.wf(),
            r.current_block@ == 0,
            r.blocks@.len() == 1,
            r.blocks@[0].names@.len() == 0,
            forall|n: Seq<char>| r.spec_get(n) is None,
    {
        let blocks = vec![VariableScopeBlock::new()];
        let r = Self { current_block: VariableScopeBlockId(0), blocks };
        proof {
            assert(r.blocks@[0].names@.len() == 0);
        }
        r
    }

    /// Enter a nested block parented to the current one and make it current.
    pub fn push_block(&mut self) -> (r: VariableScopeBlockId)
        requires
            old(self).wf(),
        ensures
            final(self).wf(),
            r@ == old(self).blocks@.len(),
            final(self).current_block == r,
            final(self).blocks@.len() == old(self).blocks@.len() + 1,
            forall|i: int|
                0 <= i < old(self).blocks@.len() ==> final(self).blocks@[i] == old(self).blocks@[i],
            final(self).blocks@.last().parent == Some(old(self).current_block),
            final(self).blocks@.last().names@.len() == 0,
            forall|n: Seq<char>| final(self).spec_get(n) == old(self).spec_get(n),
    {
        let id = VariableScopeBlockId(self.blocks.len());
        self.blocks.push(VariableScopeBlock::with_parent(self.current_block));
        self.current_block = id;
        proof {
            assert forall|n: Seq<char>| self.spec_get(n) == old(self).spec_get(n) by {
                Self::lemma_get_from_frame(
                    old(self).blocks@,
                    self.blocks@,
                    old(self).current_block@,
                    n,
                );
            }
        }
        id
    }

    /// Leave the current block, returning its id; at the root there is no
    /// enclosing block, so the call fails and the scope is unchanged.
    pub fn pop_block(&mut self) -> (r: Option<VariableScopeBlockId>)
        requires
            old(self).wf(),
        ensures
            final(self).wf(),
            final(self).blocks@ == old(self).blocks@,
            old(self).current_block@ == 0 ==> r is None && final(self).current_block == old(self).current_block,
            old(self).current_block@ != 0 ==> {
                &&& r == Some(old(self).current_block)
                &&& Some(final(self).current_block) == old(self).blocks@[old(self).current_block@].parent
            },
    {
        let current = self.current_block;
        match self.blocks[current.0].parent {
            Some(p) => {
                self.current_block = p;
                Some(current)
            },
            None => None,
        }
    }

    /// Declare a name in the current block, shadowing without removing any
    /// outer binding of the same name.
    pub fn insert(&mut self, name: &str, id: VariableId)
        requires
            old(self).wf(),
        ensures
            final(self).wf(),
            final(self).current_block == old(self).current_block,
            final(self).blocks@.len() == old(self).blocks@.len(),
            forall|i: int|
                0 <= i < old(self).blocks@.len() && i != old(self).current_block@ ==> final(self).blocks@[i] == old(self).blocks@[i],
            final(self).blocks@[old(self).current_block@].parent == old(self).blocks@[old(self).current_block@].parent,
            final(self).blocks@[old(self).current_block@].names@.len() == old(self).blocks@[old(self).current_block@].names@.len() + 1,
            final(self).blocks@[old(self).current_block@].names@.drop_last() == old(self).blocks@[old(self).current_block@].names@,
            final(self).blocks@[old(self).current_block@].names@.last().0@ == name@,
            final(self).blocks@[old(self).current_block@].names@.last().1 == id,
            forall|n: Seq<char>|
                final(self).spec_get(n) == if n == name@ {
                    Some(id)
                } else {
                    old(self).spec_get(n)
                },
    {
        let cur = self.current_block.0;
        let block = &mut self.blocks[cur];
        block.insert(name, id);
        proof {
            let b = old(self).current_block@;
            assert forall|n: Seq<char>|
                self.spec_get(n) == if n == name@ {
                    Some(id)
                } else {
                    old(self).spec_get(n)
                } by {
                if n == name@ {
                    assert(spec_names_get(self.blocks@[b].names@, n) == Some(id));
                } else {
                    assert(self.blocks@[b].names@.drop_last() =~= old(self).blocks@[b].names@);
                    assert(spec_names_get(self.blocks@[b].names@, n) == spec_names_get(
                        old(self).blocks@[b].names@,
                        n,
                    ));
                    Self::lemma_get_from_untouched_one(old(self).blocks@, self.blocks@, b, b, n);
                }
            }
        }
    }

    /// Resolve a name from the current block outward; `None` if it is not
    /// declared in any enclosing block.
    pub fn get(&self, name: &str) -> (r: Option<VariableId>)
        requires
            self.wf(),
        ensures
            r == self.spec_get(name@),
    {
        let mut current: usize = self.current_block.0;
        loop
            invariant
                self.wf(),
                current < self.blocks@.len(),
                Self::spec_get_from(self.blocks@, current as int, name@) == self.spec_get(name@),
            decreases current,
        {
            let block = &self.blocks[current];
            match block.get(name) {
                Some(id) => {
                    return Some(id);
                },
                None => {
                    match block.parent {
                        Some(p) => {
                            current = p.0;
                        },
                        None => {
                            return None;
                        },
                    }
                },
            }
        }
    }

    proof fn lemma_get_from_frame(
        old_blocks: Seq<VariableScopeBlock>,
        new_blocks: Seq<VariableScopeBlock>,
        b: int,
        name: Seq<char>,
    )
        requires
            old_blocks.len() <= new_blocks.len(),
            forall|i: int| 0 <= i < old_blocks.len() ==> new_blocks[i] == old_blocks[i],
            b < old_blocks.len(),
        ensures
            Self::spec_get_from(new_blocks, b, name) == Self::spec_get_from(old_blocks, b, name),
        decreases b,
    {
        if 0 <= b {
            match old_blocks[b].parent {
                Some(p) => {
                    if 0 <= p@ < b {
                        Self::lemma_get_from_frame(old_blocks, new_blocks, p@, name);
                    }
                },
                None => {},
            }
        }
    }

    proof fn lemma_get_from_untouched_one(
        old_blocks: Seq<VariableScopeBlock>,
        new_blocks: Seq<VariableScopeBlock>,
        c: int,
        b: int,
        name: Seq<char>,
    )
        requires
            old_blocks.len() == new_blocks.len(),
            0 <= c < old_blocks.len(),
            forall|i: int| 0 <= i < old_blocks.len() && i != c ==> new_blocks[i] == old_blocks[i],
            new_blocks[c].parent == old_blocks[c].parent,
            spec_names_get(new_blocks[c].names@, name) == spec_names_get(
                old_blocks[c].names@,
                name,
            ),
        ensures
            Self::spec_get_from(new_blocks, b, name) == Self::spec_get_from(old_blocks, b, name),
        decreases b,
    {
        if 0 <= b < old_blocks.len() {
            match old_blocks[b].parent {
                Some(p) => {
                    if 0 <= p@ < b {
                        Self::lemma_get_from_untouched_one(old_blocks, new_blocks, c, p@, name);
                    }
                },
                None => {},
            }
        }
    }
}

/// Shadowing behaves like a stack of bindings. Take any block arena
/// `blocks` in which, seen from block `cur`, `name` resolves to `outer`.
/// Entering a nested block means appending a fresh empty block parented to
/// `cur` and looking up from it: the lookup still yields `outer`. Declaring
/// `name -> inner` in that block (`declared` is the block after the
/// declaration) makes lookup from it yield `inner`; the outer binding is
/// not removed, so after exiting — looking up from `cur` again — `name`
/// resolves to `outer` as before.
pub proof fn lemma_scope_shadowing(
    blocks: Seq<VariableScopeBlock>,
    cur: int,
    cur_id: VariableScopeBlockId,
    fresh: VariableScopeBlock,
    declared: VariableScopeBlock,
    name: Seq<char>,
    outer: VariableId,
    inner: VariableId,
)
    requires
        0 <= cur < blocks.len(),
        cur_id@ == cur,
        VariableScope::spec_get_from(blocks, cur, name) == Some(outer),
        // the nested block as `push_block` creates it
        fresh.parent == Some(cur_id) && fresh.names@.len() == 0,
        // the nested block after declaring `name -> inner` in it
        declared.parent == Some(cur_id),
        declared.names@.len() == 1 && declared.names@[0].0@ == name && declared.names@[0].1
            == inner,
    ensures
        VariableScope::spec_get_from(blocks.push(fresh), blocks.len() as int, name) == Some(outer),
        VariableScope::spec_get_from(blocks.push(declared), blocks.len() as int, name) == Some(
            inner,
        ),
        VariableScope::spec_get_from(blocks.push(declared), cur, name) == Some(outer),
{
    let b = blocks.len() as int;
    let s1 = blocks.push(fresh);
    let s2 = blocks.push(declared);
    assert(spec_names_get(s1[b].names@, name) is None);
    VariableScope::lemma_get_from_frame(blocks, s1, cur, name);
    assert(s2[b].names@.last().0@ == name);
    VariableScope::lemma_get_from_frame(blocks, s2, cur, name);
}

} // verus!
