//! Type inference: identifiers for not-yet-known types, the constraints
//! attached to them, and the environment that resolves them by unification.
//!
//! Resolution is write-once: an id is either unresolved, carrying a list of
//! pending constraints, or resolved to exactly one concrete type. Unifying
//! a resolved id with an unresolved one propagates the concrete type and
//! eagerly cascades through the unresolved side's pending constraints; the
//! cascade terminates because every recursive step resolves at least one
//! more id. Conflicts are reported as recoverable diagnostics, never
//! aborts.

use vstd::prelude::*;

use crate::hlir::package::{nm_f32, nm_i32};
use crate::hlir::path::Path;
use crate::hlir::traits::TraitId;
use crate::hlir::types::{PrimitiveType, Type, TypeId, Types};
use crate::text::usize_to_string;

verus! {

/// A handle for the type of one expression or declaration, possibly not yet
/// known. Handles are created fresh per expression and never reused.
#[derive(Debug, Clone, Copy, PartialEq, Eq, PartialOrd, Ord, Hash, Structural)]
pub struct InferenceId(pub usize);

impl View for InferenceId {
    type V = int;

    open spec fn view(&self) -> int {
        self.0 as int
    }
}

/// A constraint on an unknown type variable.
#[derive(Debug, Clone, Copy, PartialEq, Eq, Hash, Structural)]
pub enum TypeConstraint {
    /// The type is equal to the given concrete type.
    Type(TypeId),
    /// The type must unify with the other variable (recorded on the side a
    /// deferred unification flowed from).
    ConvertedFrom(InferenceId),
    /// The reciprocal link of [`TypeConstraint::ConvertedFrom`].
    ConvertibleTo(InferenceId),
    /// The type implements the given trait. Part of the unfinished trait
    /// subsystem: recorded, never checked.
    Implements(TraitId),
    /// Dereferencing a value of this type yields the other variable's type.
    DerefTo(InferenceId),
    /// This type is a pointer to the other variable's type.
    RefTo(InferenceId),
    /// The type comes from an integer literal and defaults to the default
    /// integer type unless constrained otherwise.
    FromIntegerLiteral,
    /// The type comes from a float literal and defaults to the default
    /// floating-point type unless constrained otherwise.
    FromFloatLiteral,
}

/// Whether a constraint is a deferred-unification link to `o`.
pub open spec fn is_link_to(c: TypeConstraint, o: InferenceId) -> bool {
    c == TypeConstraint::ConvertedFrom(o) || c == TypeConstraint::ConvertibleTo(o)
}

/// A recoverable diagnostic raised while building or finalizing types.
/// Collected in a batch instead of aborting at the first failure.
#[derive(Debug, Clone, PartialEq, Eq, Hash)]
pub enum TypeError {
    /// Two concrete types were required to be equal but are not.
    UnificationMismatch { expected: TypeId, found: TypeId },
    /// After finalizing, an inference variable still has no concrete type or
    /// carries constraints that cannot be discharged.
    UnresolvedInference { id: InferenceId },
    /// A name was not declared in any enclosing scope.
    UndefinedName { name: String },
    /// A call passed more positional arguments than the callee declares and
    /// the callee is not variadic.
    ArityMismatch { expected: usize, found: usize },
    /// A constraint was attached to a variable that is already resolved, or
    /// to a handle that was never created.
    InvalidConstraint { id: InferenceId },
    /// A value was referenced or dereferenced at a type that cannot be.
    InvalidReference { id: InferenceId },
    /// A `return` statement occurred outside any function body.
    MisplacedReturn,
    /// A syntax-tree shape this stage of the compiler does not lower yet.
    UnsupportedConstruct { name: String },
    /// A function body was given for a name whose body is already
    /// recorded.
    DuplicateDefinition { name: String },
}

/// What one pass of finalization must have achieved for a sole-literal
/// variable after the first `upto + 1` ids were processed: untouched while
/// its turn has not come, defaulted afterwards.
pub open spec fn sole_invariant_step(
    pre: TypeInferenceEnvironment,
    cur: TypeInferenceEnvironment,
    id: InferenceId,
    upto: int,
    types: &Types,
) -> bool {
    &&& upto + 1 <= id@ ==> (cur.spec_resolved() == pre.spec_resolved()
        && TypeInferenceEnvironment::constraints_unchanged(pre, cur))
    &&& (id@ < upto + 1 && TypeInferenceEnvironment::sole_int_literal(pre, id) && types.spec_get(
        nm_i32(),
    ) is Some) ==> cur.spec_resolve(id) == types.spec_get(nm_i32())
    &&& (id@ < upto + 1 && TypeInferenceEnvironment::sole_float_literal(pre, id)
        && types.spec_get(nm_f32()) is Some) ==> cur.spec_resolve(id) == types.spec_get(nm_f32())
}

/// How many entries of a resolution table are still unresolved. This is the
/// measure that shrinks with every propagation step of unification.
pub open spec fn count_unresolved(s: Seq<Option<TypeId>>) -> nat
    decreases s.len(),
{
    if s.len() == 0 {
        0
    } else {
        count_unresolved(s.drop_last()) + if s.last() is None {
            1nat
        } else {
            0nat
        }
    }
}

proof fn lemma_count_update(s: Seq<Option<TypeId>>, i: int, t: TypeId)
    requires
        0 <= i < s.len(),
        s[i] is None,
    ensures
        count_unresolved(s.update(i, Some(t))) + 1 == count_unresolved(s),
    decreases s.len(),
{
    let s2 = s.update(i, Some(t));
    if i == s.len() - 1 {
        assert(s2.drop_last() =~= s.drop_last());
    } else {
        assert(s2.drop_last() =~= s.drop_last().update(i, Some(t)));
        lemma_count_update(s.drop_last(), i, t);
        assert(s2.last() == s.last());
    }
}

pub proof fn lemma_env_preserves_trans(
    a: TypeInferenceEnvironment,
    b: TypeInferenceEnvironment,
    c: TypeInferenceEnvironment,
)
    requires
        TypeInferenceEnvironment::preserves_resolutions(a, b),
        TypeInferenceEnvironment::preserves_resolutions(b, c),
    ensures
        TypeInferenceEnvironment::preserves_resolutions(a, c),
{
    assert forall|i: int|
        0 <= i < a.spec_len() && a.spec_resolved()[i] is Some implies #[trigger] c.spec_resolved()[i] == a.spec_resolved()[i] by {
        assert(b.spec_resolved()[i] == a.spec_resolved()[i]);
    }
}

/// The environment owning every inference variable: its resolution, if
/// known, and its pending constraints while unknown.
#[derive(Debug)]
pub struct TypeInferenceEnvironment {
    /// Resolution of each id; the id of a variable is its index here.
    pub(crate) resolved: Vec<Option<TypeId>>,
    /// Pending constraints of each id, parallel to `resolved`.
    pub(crate) constraints: Vec<Vec<TypeConstraint>>,
}

impl TypeInferenceEnvironment {
    /// How many ids exist.
    pub open spec fn spec_len(&self) -> int {
        self.spec_resolved().len() as int
    }

    /// The resolution table.
    pub closed spec fn spec_resolved(&self) -> Seq<Option<TypeId>> {
        self.resolved@
    }

    /// The concrete type of an id, if resolved.
    pub open spec fn spec_resolve(&self, id: InferenceId) -> Option<TypeId> {
        if 0 <= id@ < self.spec_len() {
            self.spec_resolved()[id@]
        } else {
            None
        }
    }

    /// The pending constraints of an id.
    pub closed spec fn spec_constraints(&self, id: InferenceId) -> Seq<TypeConstraint> {
        if 0 <= id@ < self.constraints@.len() {
            self.constraints@[id@]@
        } else {
            Seq::empty()
        }
    }

    /// Both tables cover the same ids, and a resolved id carries no pending
    /// constraints: constraints are discharged the moment an id resolves.
    pub closed spec fn wf(&self) -> bool {
        &&& self.resolved@.len() == self.constraints@.len()
        &&& forall|i: int|
            0 <= i < self.resolved@.len() && self.resolved@[i] is Some ==> (
            #[trigger] self.constraints@[i])@.len() == 0
    }

    /// The measure of pending work: ids not yet resolved.
    pub closed spec fn spec_unresolved(&self) -> nat {
        count_unresolved(self.resolved@)
    }

    /// The one pending constraint anywhere in the environment is `id`'s own
    /// integer-literal origin: nothing else can influence what `id` becomes.
    pub open spec fn sole_int_literal(env: Self, id: InferenceId) -> bool {
        &&& 0 <= id@ < env.spec_len()
        &&& env.spec_resolve(id) is None
        &&& env.spec_constraints(id) == seq![TypeConstraint::FromIntegerLiteral]
        &&& forall|j: InferenceId|
            0 <= j@ < env.spec_len() && j@ != id@ ==> (#[trigger] env.spec_constraints(j)).len()
                == 0
    }

    /// As [`Self::sole_int_literal`], for a float literal.
    pub open spec fn sole_float_literal(env: Self, id: InferenceId) -> bool {
        &&& 0 <= id@ < env.spec_len()
        &&& env.spec_resolve(id) is None
        &&& env.spec_constraints(id) == seq![TypeConstraint::FromFloatLiteral]
        &&& forall|j: InferenceId|
            0 <= j@ < env.spec_len() && j@ != id@ ==> (#[trigger] env.spec_constraints(j)).len()
                == 0
    }

    /// Every pending constraint list is as it was in `pre`.
    pub open spec fn constraints_unchanged(pre: Self, cur: Self) -> bool {
        forall|j: InferenceId| #[trigger] cur.spec_constraints(j) == pre.spec_constraints(j)
    }

    /// A pending list that is trivially satisfiable against `ty`: every
    /// entry either demands `ty` itself, or links to a variable that is
    /// already resolved to `ty` or still free (unresolved with nothing
    /// pending). Discharging such a list can never fail.
    pub open spec fn compatible_pending(env: Self, pending: Seq<TypeConstraint>, ty: TypeId) -> bool {
        forall|k: int|
            0 <= k < pending.len() ==> match #[trigger] pending[k] {
                TypeConstraint::Type(t) => t == ty,
                TypeConstraint::ConvertedFrom(o) => Self::free_or_at(env, o, ty),
                TypeConstraint::ConvertibleTo(o) => Self::free_or_at(env, o, ty),
                _ => false,
            }
    }

    /// The variable is resolved to `ty`, or still free: unresolved with no
    /// pending constraints of its own.
    pub open spec fn free_or_at(env: Self, o: InferenceId, ty: TypeId) -> bool {
        &&& 0 <= o@ < env.spec_len()
        &&& (env.spec_resolve(o) == Some(ty) || (env.spec_resolve(o) is None
            && env.spec_constraints(o).len() == 0))
    }

    /// Resolved ids stay resolved, to the same type: resolution is
    /// write-once. The environment may also have grown new ids.
    pub open spec fn preserves_resolutions(pre: Self, post: Self) -> bool {
        &&& post.spec_len() >= pre.spec_len()
        &&& forall|i: int|
            0 <= i < pre.spec_len() && pre.spec_resolved()[i] is Some ==> #[trigger] post.spec_resolved()[i] == pre.spec_resolved()[i]
    }

    #[must_use]
    pub fn new() -> (r: Self)
        ensures
            r.wf(),
            r.spec_len() == 0,
    {
        Self { resolved: Vec::new(), constraints: Vec::new() }
    }

    /// Allocate a fresh id with no constraints.
    pub fn create_unknown(&mut self) -> (r: InferenceId)
        requires
            old(self).wf(),
        ensures
            final(self).wf(),
            r@ == old(self).spec_len(),
            final(self).spec_len() == old(self).spec_len() + 1,
            final(self).spec_resolved() == old(self).spec_resolved().push(None::<TypeId>),
            final(self).spec_resolve(r) is None,
            final(self).spec_constraints(r).len() == 0,
            forall|id: InferenceId|
                id@ != r@ ==> final(self).spec_constraints(id) == old(self).spec_constraints(id),
    {
        let id = InferenceId(self.resolved.len());
        self.resolved.push(None);
        self.constraints.push(Vec::new());
        id
    }

    /// Allocate a fresh id already resolved to a concrete type (used where
    /// an explicit annotation exists).
    pub fn create_resolved(&mut self, ty: TypeId) -> (r: InferenceId)
        requires
            old(self).wf(),
        ensures
            final(self).wf(),
            r@ == old(self).spec_len(),
            final(self).spec_len() == old(self).spec_len() + 1,
            final(self).spec_resolved() == old(self).spec_resolved().push(Some(ty)),
            final(self).spec_resolve(r) == Some(ty),
            forall|id: InferenceId|
                id@ != r@ ==> final(self).spec_constraints(id) == old(self).spec_constraints(id),
    {
        let id = InferenceId(self.resolved.len());
        self.resolved.push(Some(ty));
        self.constraints.push(Vec::new());
        id
    }

    /// Attach a constraint to an unresolved id. Fails on an id that is
    /// already resolved or was never created: constraints on resolved ids
    /// are checked at unification time instead.
    pub fn add_constraint(&mut self, id: InferenceId, constraint: TypeConstraint) -> (r: Result<
        (),
        TypeError,
    >)
        requires
            old(self).wf(),
        ensures
            final(self).wf(),
            final(self).spec_resolved() == old(self).spec_resolved(),
            r is Ok <==> 0 <= id@ < old(self).spec_len() && old(self).spec_resolve(id) is None,
            r is Ok ==> final(self).spec_constraints(id) == old(self).spec_constraints(id).push(
                constraint,
            ),
            r is Err ==> *final(self) == *old(self) && r == Err::<(), TypeError>(
                TypeError::InvalidConstraint { id },
            ),
            forall|other: InferenceId|
                other@ != id@ ==> final(self).spec_constraints(other) == old(self).spec_constraints(other),
    {
        if id.0 >= self.resolved.len() {
            return Err(TypeError::InvalidConstraint { id });
        }
        if self.resolved[id.0].is_some() {
            return Err(TypeError::InvalidConstraint { id });
        }
        self.constraints[id.0].push(constraint);
        Ok(())
    }

    /// Whether an id has been resolved to a concrete type.
    pub fn is_resolved(&self, id: InferenceId) -> (r: bool)
        ensures
            r == (self.spec_resolve(id) is Some),
    {
        id.0 < self.resolved.len() && self.resolved[id.0].is_some()
    }

    /// The concrete type of an id, if resolved.
    pub fn resolve(&self, id: InferenceId) -> (r: Option<TypeId>)
        ensures
            r == self.spec_resolve(id),
    {
        if id.0 < self.resolved.len() {
            self.resolved[id.0]
        } else {
            None
        }
    }

    /// Everything a successful `unify(a, b)` guarantees, gathered as one
    /// relation between the environment before and after the call.
    pub open spec fn unify_post(pre: Self, post: Self, a: InferenceId, b: InferenceId) -> bool {
        &&& 0 <= a@ < pre.spec_len() && 0 <= b@ < pre.spec_len()
        &&& post.spec_len() == pre.spec_len()
        &&& Self::preserves_resolutions(pre, post)
        &&& (pre.spec_resolve(a) is Some || pre.spec_resolve(b) is Some) ==> post.spec_resolve(a)
            is Some && post.spec_resolve(a) == post.spec_resolve(b)
        &&& (pre.spec_resolve(a) is Some && pre.spec_resolve(b) is None) ==> forall|
            k: int,
            o: InferenceId,
        |
            0 <= k < pre.spec_constraints(b).len() && #[trigger] is_link_to(
                pre.spec_constraints(b)[k],
                o,
            ) ==> post.spec_resolve(o) == pre.spec_resolve(a)
        &&& (pre.spec_resolve(b) is Some && pre.spec_resolve(a) is None) ==> forall|
            k: int,
            o: InferenceId,
        |
            0 <= k < pre.spec_constraints(a).len() && #[trigger] is_link_to(
                pre.spec_constraints(a)[k],
                o,
            ) ==> post.spec_resolve(o) == pre.spec_resolve(b)
        &&& (pre.spec_resolve(a) is None && pre.spec_resolve(b) is None) ==> {
            &&& post.spec_resolved() == pre.spec_resolved()
            &&& a@ != b@ ==> post.spec_constraints(a) == pre.spec_constraints(a).push(
                TypeConstraint::ConvertedFrom(b),
            ) && post.spec_constraints(b) == pre.spec_constraints(b).push(
                TypeConstraint::ConvertibleTo(a),
            )
        }
    }

    /// Unify two inference variables.
    ///
    /// If both are resolved, their types must agree, else a mismatch is
    /// reported. If one is resolved, its type propagates to the other and
    /// the other's pending constraints are discharged, cascading further.
    /// If neither is resolved, the pair is recorded as reciprocal links and
    /// resolution is deferred until either side resolves.
    pub fn unify(&mut self, a: InferenceId, b: InferenceId, types: &Types) -> (r: Result<
        (),
        TypeError,
    >)
        requires
            old(self).wf(),
        ensures
            final(self).wf(),
            Self::preserves_resolutions(*old(self), *final(self)),
            final(self).spec_unresolved() <= old(self).spec_unresolved(),
            r is Ok ==> 0 <= a@ < old(self).spec_len() && 0 <= b@ < old(self).spec_len(),
            final(self).spec_len() == old(self).spec_len(),
            r is Ok ==> Self::unify_post(*old(self), *final(self), a, b),
            r matches Err(e) ==> !(e is ArityMismatch) && !(e is UndefinedName) && !(e is MisplacedReturn),
            // whichever side was concrete, both sides agree afterwards
            r is Ok && (old(self).spec_resolve(a) is Some || old(self).spec_resolve(b) is Some)
                ==> final(self).spec_resolve(a) is Some && final(self).spec_resolve(a)
                == final(self).spec_resolve(b),
            // one step of the cascade: every id the unresolved side was
            // linked to is resolved along with it
            r is Ok && old(self).spec_resolve(a) is Some && old(self).spec_resolve(b) is None
                ==> forall|k: int, o: InferenceId|
                0 <= k < old(self).spec_constraints(b).len() && #[trigger] is_link_to(
                    old(self).spec_constraints(b)[k],
                    o,
                ) ==> final(self).spec_resolve(o) == old(self).spec_resolve(a),
            r is Ok && old(self).spec_resolve(b) is Some && old(self).spec_resolve(a) is None
                ==> forall|k: int, o: InferenceId|
                0 <= k < old(self).spec_constraints(a).len() && #[trigger] is_link_to(
                    old(self).spec_constraints(a)[k],
                    o,
                ) ==> final(self).spec_resolve(o) == old(self).spec_resolve(b),
            // both concrete: nothing changes, agreement is checked
            old(self).spec_resolve(a) matches Some(x) ==> old(self).spec_resolve(b) matches Some(
                y,
            ) ==> *final(self) == *old(self) && (r is Ok <==> x == y) && (x != y ==> r == Err::<
                (),
                TypeError,
            >(TypeError::UnificationMismatch { expected: x, found: y })),
            // success is owed whenever nothing concrete can clash: two
            // unknowns always defer, and a concrete side propagates into a
            // free variable exactly, leaving everything else untouched
            (0 <= a@ < old(self).spec_len() && 0 <= b@ < old(self).spec_len() && old(self).spec_resolve(a) is None && old(self).spec_resolve(b) is None) ==> r is Ok,
            old(self).spec_resolve(a) matches Some(t) ==> (old(self).spec_resolve(b) is None && 0
                <= b@ < old(self).spec_len() && old(self).spec_constraints(b).len() == 0) ==> (r
                is Ok && final(self).spec_resolved() == old(self).spec_resolved().update(
                b@,
                Some(t),
            ) && Self::constraints_unchanged(*old(self), *final(self))),
            old(self).spec_resolve(b) matches Some(t) ==> (old(self).spec_resolve(a) is None && 0
                <= a@ < old(self).spec_len() && old(self).spec_constraints(a).len() == 0) ==> (r
                is Ok && final(self).spec_resolved() == old(self).spec_resolved().update(
                a@,
                Some(t),
            ) && Self::constraints_unchanged(*old(self), *final(self))),
            // neither side known: the pair is recorded as reciprocal links
            r is Ok && old(self).spec_resolve(a) is None && old(self).spec_resolve(b) is None ==> {
                &&& final(self).spec_resolved() == old(self).spec_resolved()
                &&& a@ != b@ ==> final(self).spec_constraints(a) == old(self).spec_constraints(
                    a,
                ).push(TypeConstraint::ConvertedFrom(b)) && final(self).spec_constraints(b) == old(self).spec_constraints(b).push(TypeConstraint::ConvertibleTo(a))
            },
        decreases old(self).spec_unresolved() as int, 0int,
    {
        if a.0 >= self.resolved.len() {
            return Err(TypeError::InvalidConstraint { id: a });
        }
        if b.0 >= self.resolved.len() {
            return Err(TypeError::InvalidConstraint { id: b });
        }
        match (self.resolved[a.0], self.resolved[b.0]) {
            (Some(x), Some(y)) => {
                if x == y {
                    Ok(())
                } else {
                    Err(TypeError::UnificationMismatch { expected: x, found: y })
                }
            },
            (Some(t), None) => {
                self.resolved[b.0] = Some(t);
                proof {
                    lemma_count_update(old(self).resolved@, b@, t);
                }
                let mut pending: Vec<TypeConstraint> = Vec::new();
                core::mem::swap(&mut pending, &mut self.constraints[b.0]);
                let ghost swapped = *self;
                let res = self.check_constraints(b, t, pending, types);
                proof {
                    if old(self).spec_constraints(b).len() == 0 {
                        assert(pending@.len() == 0);
                        assert(self.spec_resolved() == old(self).spec_resolved().update(
                            b@,
                            Some(t),
                        ));
                        assert forall|j: InferenceId| #[trigger] self.spec_constraints(j)
                            == old(self).spec_constraints(j) by {
                            assert(self.spec_constraints(j) == swapped.spec_constraints(j));
                            if j@ == b@ {
                                assert(swapped.spec_constraints(j) =~= old(self).spec_constraints(
                                    j,
                                ));
                            }
                        }
                    }
                }
                res
            },
            (None, Some(t)) => {
                self.resolved[a.0] = Some(t);
                proof {
                    lemma_count_update(old(self).resolved@, a@, t);
                }
                let mut pending: Vec<TypeConstraint> = Vec::new();
                core::mem::swap(&mut pending, &mut self.constraints[a.0]);
                let ghost swapped = *self;
                let res = self.check_constraints(a, t, pending, types);
                proof {
                    if old(self).spec_constraints(a).len() == 0 {
                        assert(pending@.len() == 0);
                        assert(self.spec_resolved() == old(self).spec_resolved().update(
                            a@,
                            Some(t),
                        ));
                        assert forall|j: InferenceId| #[trigger] self.spec_constraints(j)
                            == old(self).spec_constraints(j) by {
                            assert(self.spec_constraints(j) == swapped.spec_constraints(j));
                            if j@ == a@ {
                                assert(swapped.spec_constraints(j) =~= old(self).spec_constraints(
                                    j,
                                ));
                            }
                        }
                    }
                }
                res
            },
            (None, None) => {
                if a.0 == b.0 {
                    return Ok(());
                }
                self.constraints[a.0].push(TypeConstraint::ConvertedFrom(b));
                self.constraints[b.0].push(TypeConstraint::ConvertibleTo(a));
                Ok(())
            },
        }
    }

    /// Unify an inference variable with a known concrete type.
    pub fn unify_with(&mut self, a: InferenceId, ty: TypeId, types: &Types) -> (r: Result<
        (),
        TypeError,
    >)
        requires
            old(self).wf(),
        ensures
            final(self).wf(),
            Self::preserves_resolutions(*old(self), *final(self)),
            final(self).spec_unresolved() <= old(self).spec_unresolved(),
            r is Ok ==> final(self).spec_resolve(a) == Some(ty),
            // an unresolved variable with no pending constraints always
            // accepts a concrete type
            0 <= a@ < old(self).spec_len() && old(self).spec_resolve(a) is None && old(self).spec_constraints(a).len() == 0 ==> r is Ok,
            final(self).spec_len() == old(self).spec_len(),
            r matches Err(e) ==> !(e is ArityMismatch) && !(e is UndefinedName) && !(e is MisplacedReturn),
            // resolving again with the same type is a no-op; with a
            // different type it is a reported mismatch, and nothing changes
            old(self).spec_resolve(a) matches Some(x) ==> *final(self) == *old(self) && (r is Ok
                <==> x == ty) && (x != ty ==> r == Err::<(), TypeError>(
                TypeError::UnificationMismatch { expected: x, found: ty },
            )),
            // one step of the cascade, as for `unify`
            r is Ok && old(self).spec_resolve(a) is None ==> forall|k: int, o: InferenceId|
                0 <= k < old(self).spec_constraints(a).len() && #[trigger] is_link_to(
                    old(self).spec_constraints(a)[k],
                    o,
                ) ==> final(self).spec_resolve(o) == Some(ty),
        decreases old(self).spec_unresolved() as int, 0int,
    {
        if a.0 >= self.resolved.len() {
            return Err(TypeError::InvalidConstraint { id: a });
        }
        match self.resolved[a.0] {
            Some(x) => {
                if x == ty {
                    Ok(())
                } else {
                    Err(TypeError::UnificationMismatch { expected: x, found: ty })
                }
            },
            None => {
                self.resolved[a.0] = Some(ty);
                proof {
                    lemma_count_update(old(self).resolved@, a@, ty);
                }
                let mut pending: Vec<TypeConstraint> = Vec::new();
                core::mem::swap(&mut pending, &mut self.constraints[a.0]);
                self.check_constraints(a, ty, pending, types)
            },
        }
    }

    /// Discharge the constraints an id carried at the moment it resolved to
    /// `ty`: equalities are checked, links recursively unify the partner,
    /// literal constraints check that `ty` is admissible, and pointer links
    /// check or propagate the pointee.
    fn check_constraints(
        &mut self,
        id: InferenceId,
        ty: TypeId,
        pending: Vec<TypeConstraint>,
        types: &Types,
    ) -> (r: Result<(), TypeError>)
        requires
            old(self).wf(),
            0 <= id@ < old(self).spec_len(),
            old(self).spec_resolve(id) == Some(ty),
        ensures
            final(self).wf(),
            Self::preserves_resolutions(*old(self), *final(self)),
            final(self).spec_unresolved() <= old(self).spec_unresolved(),
            r is Ok ==> forall|k: int, o: InferenceId|
                0 <= k < pending@.len() && #[trigger] is_link_to(pending@[k], o) ==> final(self).spec_resolve(o) == Some(ty),
            // an empty list is a no-op; a trivially satisfiable one cannot
            // fail
            pending@.len() == 0 ==> (r is Ok && final(self).spec_resolved() == old(self).spec_resolved() && Self::constraints_unchanged(*old(self), *final(self))),
            Self::compatible_pending(*old(self), pending@, ty) ==> r is Ok,
            final(self).spec_len() == old(self).spec_len(),
            r matches Err(e) ==> !(e is ArityMismatch) && !(e is UndefinedName) && !(e is MisplacedReturn),
        decreases old(self).spec_unresolved() as int, 1int,
    {
        let ghost pre = *old(self);
        if pending.len() == 0 {
            return Ok(());
        }
        let n = pending.len();
        let mut k: usize = 0;
        while k < n
            invariant
                pre == *old(self),
                self.wf(),
                n == pending@.len(),
                k <= n,
                0 <= id@ < self.spec_len(),
                self.spec_len() == pre.spec_len(),
                self.spec_resolve(id) == Some(ty),
                Self::preserves_resolutions(pre, *self),
                self.spec_unresolved() <= pre.spec_unresolved(),
                forall|kk: int, o: InferenceId|
                    0 <= kk < k && #[trigger] is_link_to(pending@[kk], o) ==> self.spec_resolve(o)
                        == Some(ty),
                Self::compatible_pending(pre, pending@, ty) ==> Self::compatible_pending(
                    *self,
                    pending@,
                    ty,
                ),
            decreases n - k,
        {
            let ghost mid = *self;
            let c = pending[k];
            match c {
                TypeConstraint::Type(expected) => {
                    if ty != expected {
                        return Err(TypeError::UnificationMismatch { expected, found: ty });
                    }
                },
                TypeConstraint::ConvertedFrom(o) => {
                    let res = self.unify(id, o, types);
                    if let Err(e) = res {
                        return Err(e);
                    }
                },
                TypeConstraint::ConvertibleTo(o) => {
                    let res = self.unify(o, id, types);
                    if let Err(e) = res {
                        return Err(e);
                    }
                },
                TypeConstraint::Implements(_) => {
                    // trait resolution is scaffolding only: nothing to check
                },
                TypeConstraint::DerefTo(o) => {
                    match types.get_by_id(ty) {
                        Some(Type::Ptr(pointee)) => {
                            let res = self.unify_with(o, pointee, types);
                            if let Err(e) = res {
                                return Err(e);
                            }
                        },
                        _ => {
                            return Err(TypeError::InvalidReference { id });
                        },
                    }
                },
                TypeConstraint::RefTo(o) => {
                    // `id` is a reference to `o`: `ty` must be a pointer to
                    // `o`'s type. Referencing a `str` value may yield a
                    // pointer to its byte-element type instead.
                    match types.get_by_id(ty) {
                        Some(Type::Ptr(pointee)) => {
                            match self.resolve(o) {
                                Some(u) => {
                                    if pointee != u && !(is_str(types, u) && is_u8(
                                        types,
                                        pointee,
                                    )) {
                                        return Err(
                                            TypeError::UnificationMismatch {
                                                expected: pointee,
                                                found: u,
                                            },
                                        );
                                    }
                                },
                                None => {
                                    let res = self.unify_with(o, pointee, types);
                                    if let Err(e) = res {
                                        return Err(e);
                                    }
                                },
                            }
                        },
                        _ => {
                            return Err(TypeError::InvalidReference { id });
                        },
                    }
                },
                TypeConstraint::FromIntegerLiteral => {
                    if !type_is_numeric(types, ty) {
                        return Err(TypeError::InvalidConstraint { id });
                    }
                },
                TypeConstraint::FromFloatLiteral => {
                    if !type_is_floating(types, ty) {
                        return Err(TypeError::InvalidConstraint { id });
                    }
                },
            }
            proof {
                assert forall|kk: int, o: InferenceId|
                    0 <= kk < k + 1 && #[trigger] is_link_to(pending@[kk], o) implies self.spec_resolve(o) == Some(ty) by {
                    if kk < k {
                        assert(mid.spec_resolve(o) == Some(ty));
                        assert(self.spec_resolve(o) == Some(ty));
                    }
                }
            }
            k += 1;
        }
        Ok(())
    }

    /// Finalize all inference variables once a function body is complete.
    ///
    /// Every pending constraint is discharged in the order the ids were
    /// created, cascading recursively through `unify`: equalities resolve
    /// directly, deferred links unify their pair, an integer or float
    /// literal with nothing more specific defaults to the language's
    /// default integer or floating type (`i32` / `f32`, looked up in the
    /// registry), and reference links require or propagate the pointer
    /// relation, with the one exception that referencing a `str` value may
    /// yield a pointer to its byte-element type. Every id that still has no
    /// concrete type afterwards is reported as unresolvable. The returned
    /// list is empty exactly on full success: if it is, every id is
    /// resolved.
    pub fn unify_final(&mut self, types: &Types) -> (r: Vec<TypeError>)
        requires
            old(self).wf(),
            types.wf(),
        ensures
            final(self).wf(),
            Self::preserves_resolutions(*old(self), *final(self)),
            r@.len() == 0 ==> forall|id: InferenceId|
                0 <= id@ < final(self).spec_len() ==> final(self).spec_resolve(id) is Some,
            // literal defaulting: an integer literal with no other
            // constraint resolves to the default integer type
            forall|id: InferenceId|
                #[trigger] Self::sole_int_literal(*old(self), id) && types.spec_get(nm_i32())
                    is Some ==> final(self).spec_resolve(id) == types.spec_get(nm_i32()),
            // and a float literal with no other constraint resolves to the
            // default floating type
            forall|id: InferenceId|
                #[trigger] Self::sole_float_literal(*old(self), id) && types.spec_get(nm_f32())
                    is Some ==> final(self).spec_resolve(id) == types.spec_get(nm_f32()),
    {
        let mut errors: Vec<TypeError> = Vec::new();
        let ghost pre = *old(self);
        let n = self.constraints.len();
        let ghost n0 = self.constraints@.len();
        let mut i: usize = 0;
        while i < n
            invariant
                pre == *old(self),
                self.wf(),
                types.wf(),
                n == n0,
                n <= self.constraints@.len(),
                i <= n,
                Self::preserves_resolutions(pre, *self),
                forall|id: InferenceId|
                    #[trigger] Self::sole_int_literal(pre, id) && i <= id@ ==> (
                    self.spec_resolved() == pre.spec_resolved() && Self::constraints_unchanged(
                        pre,
                        *self,
                    )),
                forall|id: InferenceId|
                    #[trigger] Self::sole_int_literal(pre, id) && id@ < i && types.spec_get(
                        nm_i32(),
                    ) is Some ==> self.spec_resolve(id) == types.spec_get(nm_i32()),
                forall|id: InferenceId|
                    #[trigger] Self::sole_float_literal(pre, id) && i <= id@ ==> (
                    self.spec_resolved() == pre.spec_resolved() && Self::constraints_unchanged(
                        pre,
                        *self,
                    )),
                forall|id: InferenceId|
                    #[trigger] Self::sole_float_literal(pre, id) && id@ < i && types.spec_get(
                        nm_f32(),
                    ) is Some ==> self.spec_resolve(id) == types.spec_get(nm_f32()),
            decreases n - i,
        {
            let ghost mid = *self;
            let id = InferenceId(i);
            let mut pending: Vec<TypeConstraint> = Vec::new();
            core::mem::swap(&mut pending, &mut self.constraints[i]);
            let ghost pend = pending@;
            let ghost swapped = *self;
            proof {
                assert(self.wf());
                assert(pend == mid.spec_constraints(id));
                assert(swapped.spec_resolved() == mid.spec_resolved());
                assert(swapped.spec_constraints(id) =~= Seq::<TypeConstraint>::empty());
                assert forall|j: InferenceId| j@ != id@ implies #[trigger] swapped.spec_constraints(j) == mid.spec_constraints(j) by {}
            }
            self.discharge_final(id, pending, types, &mut errors);
            proof {
                lemma_env_preserves_trans(pre, mid, *self);
                let iid = id;
                assert forall|idp: InferenceId|
                    #![trigger Self::sole_int_literal(pre, idp)]
                    #![trigger Self::sole_float_literal(pre, idp)]
                    Self::sole_int_literal(pre, idp) || Self::sole_float_literal(
                        pre,
                        idp,
                    ) implies sole_invariant_step(pre, *self, idp, i as int, types) by {
                    if (i as int) < idp@ {
                        // this iteration consumed an empty list: nothing
                        // changed in either table
                        assert(pre.spec_constraints(iid).len() == 0);
                        assert(mid.spec_constraints(iid) == pre.spec_constraints(iid));
                        assert(pend.len() == 0);
                        assert(self.spec_resolved() == swapped.spec_resolved());
                        assert(Self::constraints_unchanged(swapped, *self));
                        assert forall|j: InferenceId| #[trigger] self.spec_constraints(j)
                            == pre.spec_constraints(j) by {
                            if j@ == iid@ {
                                assert(self.spec_constraints(j) == swapped.spec_constraints(j));
                                assert(pre.spec_constraints(j) =~= Seq::<TypeConstraint>::empty());
                            }
                        }
                    } else if (i as int) == idp@ {
                        // this iteration is the literal's own: it defaults
                        assert(pend == pre.spec_constraints(idp));
                        assert(swapped.spec_resolve(idp) is None);
                        assert(swapped.spec_constraints(idp).len() == 0);
                    } else {
                        // already defaulted: the resolution is write-once
                    }
                }
            }
            i += 1;
        }
        // every id must have a concrete type by now
        let ghost done = *self;
        let m = self.resolved.len();
        let mut j: usize = 0;
        while j < m
            invariant
                pre == *old(self),
                self.wf(),
                m == self.resolved@.len(),
                j <= m,
                *self == done,
                Self::preserves_resolutions(pre, *self),
                errors@.len() == 0 ==> forall|jj: int|
                    0 <= jj < j ==> self.spec_resolved()[jj] is Some,
            decreases m - j,
        {
            if self.resolved[j].is_none() {
                errors.push(TypeError::UnresolvedInference { id: InferenceId(j) });
            }
            j += 1;
        }
        errors
    }

    /// Discharge one id's pending constraints during finalization. Unlike
    /// the eager cascade, the id may still be unresolved: defaulting rules
    /// apply, and a link whose partner is also still unknown is simply
    /// dropped — both sides are then reported by the final sweep.
    fn discharge_final(
        &mut self,
        id: InferenceId,
        pending: Vec<TypeConstraint>,
        types: &Types,
        errors: &mut Vec<TypeError>,
    )
        requires
            old(self).wf(),
            types.wf(),
        ensures
            final(self).wf(),
            Self::preserves_resolutions(*old(self), *final(self)),
            final(self).spec_len() == old(self).spec_len(),
            // a no-op when nothing was pending
            pending@.len() == 0 ==> final(self).spec_resolved() == old(self).spec_resolved()
                && Self::constraints_unchanged(*old(self), *final(self)),
            // the defaulting steps of finalization
            (pending@ == seq![TypeConstraint::FromIntegerLiteral] && 0 <= id@ < old(self).spec_len() && old(self).spec_resolve(id) is None && old(self).spec_constraints(id).len()
                == 0 && types.spec_get(nm_i32()) is Some) ==> final(self).spec_resolve(id)
                == types.spec_get(nm_i32()),
            (pending@ == seq![TypeConstraint::FromFloatLiteral] && 0 <= id@ < old(self).spec_len() && old(self).spec_resolve(id) is None && old(self).spec_constraints(id).len()
                == 0 && types.spec_get(nm_f32()) is Some) ==> final(self).spec_resolve(id)
                == types.spec_get(nm_f32()),
    {
        let ghost pre = *old(self);
        if pending.len() == 0 {
            return ;
        }
        proof {
            reveal_strlit("i32");
            reveal_strlit("f32");
            assert(seq!["i32"@] =~~= nm_i32());
            assert(seq!["f32"@] =~~= nm_f32());
        }
        let n = pending.len();
        let mut k: usize = 0;
        while k < n
            invariant
                pre == *old(self),
                self.wf(),
                types.wf(),
                n == pending@.len(),
                k <= n,
                k == 0 ==> *self == pre,
                self.spec_len() == pre.spec_len(),
                Self::preserves_resolutions(pre, *self),
                (pending@ == seq![TypeConstraint::FromIntegerLiteral] && 0 <= id@ < pre.spec_len() && pre.spec_resolve(id) is None && pre.spec_constraints(id).len() == 0
                    && types.spec_get(nm_i32()) is Some && k >= 1) ==> self.spec_resolve(id)
                    == types.spec_get(nm_i32()),
                (pending@ == seq![TypeConstraint::FromFloatLiteral] && 0 <= id@ < pre.spec_len() && pre.spec_resolve(id) is None && pre.spec_constraints(id).len() == 0
                    && types.spec_get(nm_f32()) is Some && k >= 1) ==> self.spec_resolve(id)
                    == types.spec_get(nm_f32()),
            decreases n - k,
        {
            let ghost mid = *self;
            let c = pending[k];
            match c {
                TypeConstraint::Type(t) => {
                    let res = self.unify_with(id, t, types);
                    if let Err(e) = res {
                        errors.push(e);
                    }
                },
                TypeConstraint::ConvertedFrom(o) => {
                    let res = self.unify(id, o, types);
                    if let Err(e) = res {
                        errors.push(e);
                    }
                },
                TypeConstraint::ConvertibleTo(o) => {
                    let res = self.unify(o, id, types);
                    if let Err(e) = res {
                        errors.push(e);
                    }
                },
                TypeConstraint::Implements(_) => {
                    // trait resolution is scaffolding only: nothing to check
                },
                TypeConstraint::DerefTo(o) => {
                    match self.resolve(id) {
                        Some(t) => {
                            match types.get_by_id(t) {
                                Some(Type::Ptr(pointee)) => {
                                    let res = self.unify_with(o, pointee, types);
                                    if let Err(e) = res {
                                        errors.push(e);
                                    }
                                },
                                _ => {
                                    errors.push(TypeError::InvalidReference { id });
                                },
                            }
                        },
                        None => {
                            // still unknown: the sweep reports this id
                        },
                    }
                },
                TypeConstraint::RefTo(o) => {
                    match self.resolve(id) {
                        Some(t) => {
                            match types.get_by_id(t) {
                                Some(Type::Ptr(pointee)) => {
                                    match self.resolve(o) {
                                        Some(u) => {
                                            if pointee != u && !(is_str(types, u) && is_u8(
                                                types,
                                                pointee,
                                            )) {
                                                errors.push(
                                                    TypeError::UnificationMismatch {
                                                        expected: pointee,
                                                        found: u,
                                                    },
                                                );
                                            }
                                        },
                                        None => {
                                            let res = self.unify_with(o, pointee, types);
                                            if let Err(e) = res {
                                                errors.push(e);
                                            }
                                        },
                                    }
                                },
                                _ => {
                                    errors.push(TypeError::InvalidReference { id });
                                },
                            }
                        },
                        None => {
                            match self.resolve(o) {
                                Some(u) => {
                                    // resolve the reference to an existing
                                    // pointer-to-`u` type if one was built
                                    match types.find_id(Type::Ptr(u)) {
                                        Some(ptr_id) => {
                                            let res = self.unify_with(id, ptr_id, types);
                                            if let Err(e) = res {
                                                errors.push(e);
                                            }
                                        },
                                        None => {
                                            // no such pointer type exists:
                                            // the sweep reports this id
                                        },
                                    }
                                },
                                None => {
                                    // both unknown: the sweep reports them
                                },
                            }
                        },
                    }
                },
                TypeConstraint::FromIntegerLiteral => {
                    match self.resolve(id) {
                        Some(t) => {
                            if !type_is_numeric(types, t) {
                                errors.push(TypeError::InvalidConstraint { id });
                            }
                        },
                        None => {
                            proof {
                                reveal_strlit("i32");
                                assert(seq!["i32"@] =~~= nm_i32());
                            }
                            let int_path = Path::from_name("i32".to_owned());
                            match types.get(&int_path) {
                                Some(t) => {
                                    let res = self.unify_with(id, t, types);
                                    if let Err(e) = res {
                                        errors.push(e);
                                    }
                                },
                                None => {
                                    errors.push(TypeError::UnresolvedInference { id });
                                },
                            }
                        },
                    }
                },
                TypeConstraint::FromFloatLiteral => {
                    match self.resolve(id) {
                        Some(t) => {
                            if !type_is_floating(types, t) {
                                errors.push(TypeError::InvalidConstraint { id });
                            }
                        },
                        None => {
                            proof {
                                reveal_strlit("f32");
                                assert(seq!["f32"@] =~~= nm_f32());
                            }
                            let float_path = Path::from_name("f32".to_owned());
                            match types.get(&float_path) {
                                Some(t) => {
                                    let res = self.unify_with(id, t, types);
                                    if let Err(e) = res {
                                        errors.push(e);
                                    }
                                },
                                None => {
                                    errors.push(TypeError::UnresolvedInference { id });
                                },
                            }
                        },
                    }
                },
            }
            proof {
                lemma_env_preserves_trans(pre, mid, *self);
            }
            k += 1;
        }
    }

    /// Render an id for diagnostics: its resolved type, or `?` and its
    /// number while unresolved.
    #[must_use]
    pub fn to_display(&self, id: InferenceId, types: &Types) -> String {
        match self.resolve(id) {
            Some(ty) => types.to_display(ty),
            None => {
                let mut s = String::new();
                s.append("?");
                let num = usize_to_string(id.0);
                s.append(num.as_str());
                s
            },
        }
    }
}

/// Unification is transitive across chains: after `unify(x, y)` and then
/// `unify(y, z)` both succeed, as soon as any one of the three variables
/// was concretely resolved — `x` or `y` before the first call, or `z`
/// before the second — all three agree: `x` and `z` resolve to the same
/// concrete type. `e0`, `e1` and `e2` are the environments before the
/// first call, between the calls and after the second call.
pub proof fn lemma_unify_transitive(
    e0: TypeInferenceEnvironment,
    e1: TypeInferenceEnvironment,
    e2: TypeInferenceEnvironment,
    x: InferenceId,
    y: InferenceId,
    z: InferenceId,
)
    requires
        TypeInferenceEnvironment::unify_post(e0, e1, x, y),
        TypeInferenceEnvironment::unify_post(e1, e2, y, z),
        e0.spec_resolve(x) is Some || e0.spec_resolve(y) is Some || e1.spec_resolve(z) is Some,
    ensures
        e2.spec_resolve(x) is Some,
        e2.spec_resolve(x) == e2.spec_resolve(z),
{
    if e0.spec_resolve(x) is Some || e0.spec_resolve(y) is Some {
        // the first call already made x and y agree on a concrete type
        assert(e1.spec_resolve(x) is Some && e1.spec_resolve(x) == e1.spec_resolve(y));
        // the second call keeps x resolved and makes y and z agree
        assert(e2.spec_resolve(x) == e1.spec_resolve(x));
        assert(e2.spec_resolve(y) == e1.spec_resolve(y));
        assert(e2.spec_resolve(y) is Some && e2.spec_resolve(y) == e2.spec_resolve(z));
    } else {
        // x and y were both deferred; z was resolved before the second call
        assert(e1.spec_resolve(z) is Some);
        assert(e1.spec_resolve(x) is None && e1.spec_resolve(y) is None);
        if x@ == y@ {
            assert(e2.spec_resolve(y) is Some && e2.spec_resolve(y) == e2.spec_resolve(z));
        } else {
            // the deferred pair left a reciprocal link from y back to x,
            // and the second call's cascade resolves every link target
            let cs = e1.spec_constraints(y);
            assert(cs.last() == TypeConstraint::ConvertibleTo(x));
            assert(is_link_to(cs[cs.len() - 1], x));
            assert(e2.spec_resolve(x) == e1.spec_resolve(z));
            assert(e2.spec_resolve(y) is Some && e2.spec_resolve(y) == e2.spec_resolve(z));
            assert(e2.spec_resolve(z) == e1.spec_resolve(z));
        }
    }
}

/// Whether a type id names the `str` primitive.
fn is_str(types: &Types, id: TypeId) -> (r: bool)
    ensures
        r == (types.spec_known_opt(id) == Some(Type::Primitive(PrimitiveType::Str))),
{
    match types.get_by_id(id) {
        Some(Type::Primitive(PrimitiveType::Str)) => true,
        _ => false,
    }
}

/// Whether a type id names the `u8` primitive.
fn is_u8(types: &Types, id: TypeId) -> (r: bool)
    ensures
        r == (types.spec_known_opt(id) == Some(Type::Primitive(PrimitiveType::U8))),
{
    match types.get_by_id(id) {
        Some(Type::Primitive(PrimitiveType::U8)) => true,
        _ => false,
    }
}

/// Whether an integer literal may resolve to this type.
fn type_is_numeric(types: &Types, id: TypeId) -> (r: bool)
    ensures
        r == match types.spec_known_opt(id) {
            Some(Type::Primitive(p)) => p.spec_is_numeric(),
            _ => false,
        },
{
    match types.get_by_id(id) {
        Some(Type::Primitive(p)) => match p {
            PrimitiveType::Void | PrimitiveType::Bool | PrimitiveType::Char
            | PrimitiveType::Str => false,
            _ => true,
        },
        _ => false,
    }
}

/// Whether a float literal may resolve to this type.
fn type_is_floating(types: &Types, id: TypeId) -> (r: bool)
    ensures
        r == match types.spec_known_opt(id) {
            Some(Type::Primitive(p)) => p.spec_is_float(),
            _ => false,
        },
{
    match types.get_by_id(id) {
        Some(Type::Primitive(p)) => match p {
            PrimitiveType::F32 | PrimitiveType::F64 => true,
            _ => false,
        },
        _ => false,
    }
}

impl TypeConstraint {
    /// Render a constraint for diagnostics.
    #[must_use]
    pub fn to_display(&self, types: &Types) -> String {
        let mut s = String::new();
        match self {
            TypeConstraint::Type(ty) => {
                let t = types.to_display(*ty);
                s.append(t.as_str());
            },
            TypeConstraint::ConvertedFrom(id) => {
                s.append("ConvertedFrom(?");
                let num = usize_to_string(id.0);
                s.append(num.as_str());
                s.append(")");
            },
            TypeConstraint::ConvertibleTo(id) => {
                s.append("ConvertibleTo(?");
                let num = usize_to_string(id.0);
                s.append(num.as_str());
                s.append(")");
            },
            TypeConstraint::Implements(_) => {
                s.append("Implements");
            },
            TypeConstraint::DerefTo(id) => {
                s.append("DerefTo(?");
                let num = usize_to_string(id.0);
                s.append(num.as_str());
                s.append(")");
            },
            TypeConstraint::RefTo(id) => {
                s.append("RefTo(?");
                let num = usize_to_string(id.0);
                s.append(num.as_str());
                s.append(")");
            },
            TypeConstraint::FromIntegerLiteral => {
                s.append("FromIntegerLiteral");
            },
            TypeConstraint::FromFloatLiteral => {
                s.append("FromFloatLiteral");
            },
        }
        s
    }
}

} // verus!
