//! Paths name types and functions in the HLIR: a sequence of segments such
//! as `::std::io` or the single-segment `i32`.

use vstd::prelude::*;

verus! {

/// One segment of a [`Path`]: a plain name.
#[derive(Debug, Clone, PartialEq, Eq, Hash)]
pub struct PathSegment {
    pub name: String,
}

impl View for PathSegment {
    type V = Seq<char>;

    open spec fn view(&self) -> Seq<char> {
        self.name@
    }
}

impl PathSegment {
    #[must_use]
    pub fn new(name: String) -> (r: Self)
        ensures
            r@ == name@,
    {
        Self { name }
    }
}

/// A qualified name: a non-empty list of segments in source order.
#[derive(Debug, Clone, PartialEq, Eq, Hash)]
pub struct Path(pub(crate) Vec<PathSegment>);

impl View for Path {
    type V = Seq<Seq<char>>;

    closed spec fn view(&self) -> Seq<Seq<char>> {
        self.0@.map(|i: int, s: PathSegment| s@)
    }
}

impl Path {
    #[must_use]
    pub fn new(segments: Vec<PathSegment>) -> (r: Self)
        ensures
            r@ == segments@.map(|i: int, s: PathSegment| s@),
    {
        Self(segments)
    }

    /// Build a single-segment path from one name.
    #[must_use]
    pub fn from_name(name: String) -> (r: Self)
        ensures
            r@ == seq![name@],
    {
        let segments = vec![PathSegment::new(name)];
        let r = Self(segments);
        proof {
            assert(r@ =~= seq![r.0@[0]@]);
        }
        r
    }

    pub fn push(&mut self, segment: PathSegment)
        ensures
            final(self)@ == old(self)@.push(segment@),
    {
        self.0.push(segment);
        proof {
            assert(self@ =~= old(self)@.push(segment@));
        }
    }

    pub fn pop(&mut self) -> (r: Option<PathSegment>)
        ensures
            old(self)@.len() == 0 ==> r is None && final(self)@ == old(self)@,
            old(self)@.len() > 0 ==> {
                &&& r matches Some(s) && s@ == old(self)@.last()
                &&& final(self)@ == old(self)@.drop_last()
            },
    {
        let r = self.0.pop();
        proof {
            if old(self)@.len() > 0 {
                assert(self@ =~= old(self)@.drop_last());
            } else {
                assert(self@ =~= old(self)@);
            }
        }
        r
    }

    #[must_use]
    pub fn segments(&self) -> (r: &Vec<PathSegment>)
        ensures
            r@.map(|i: int, s: PathSegment| s@) == self@,
    {
        &self.0
    }
}

/// Decide whether two paths name the same thing: same segments in the same
/// order. This is the comparison every scope lookup uses.
pub fn path_eq(a: &Path, b: &Path) -> (r: bool)
    ensures
        r == (a@ == b@),
{
    if a.0.len() != b.0.len() {
        proof {
            assert(a@.len() == a.0@.len());
            assert(b@.len() == b.0@.len());
        }
        return false;
    }
    let n = a.0.len();
    let mut i: usize = 0;
    while i < n
        invariant
            n == a.0.len() == b.0.len(),
            i <= n,
            forall|j: int| 0 <= j < i ==> a@[j] == b@[j],
        decreases n - i,
    {
        let sa = &a.0[i];
        let sb = &b.0[i];
        if !sa.name.eq(&sb.name) {
            proof {
                assert(a@[i as int] != b@[i as int]);
            }
            return false;
        }
        i += 1;
    }
    proof {
        assert(a@ =~= b@);
    }
    true
}

} // verus!
