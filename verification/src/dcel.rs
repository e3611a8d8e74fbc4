use vstd::prelude::*;
use crate::point::Point;

verus! {

/// A region of the subdivision. Faces are logically deleted through the
/// `alive` tombstone flag rather than removed, so indices stay stable; every
/// consumer must skip dead faces.
#[derive(Clone, Copy, Debug)]
pub struct Face {
    /// Index of one half-edge on this face's boundary cycle.
    pub outer_component: usize,
    /// Tombstone flag: dead faces remain in storage and are skipped.
    pub alive: bool,
}

/// A directed edge of the subdivision.
#[derive(Clone, Copy, Debug)]
pub struct HalfEdge {
    /// Index of the next half-edge around the same face.
    pub next: usize,
    /// The vertex this half-edge leaves from.
    pub origin: Point,
}

/// A doubly connected edge list: the faces and half-edges of an already-built
/// planar subdivision, as handed over by an external builder.
#[derive(Debug)]
pub struct Dcel {
    pub faces: Vec<Face>,
    pub halfedges: Vec<HalfEdge>,
}

/// The half-edge index reached from `start` after `n` steps along `next`
/// pointers.
pub open spec fn walk(d: Dcel, start: int, n: nat) -> int
    decreases n,
{
    if n == 0 {
        start
    } else {
        d.halfedges@[walk(d, start, (n - 1) as nat)].next as int
    }
}

/// The walk from `start` stays on valid half-edge indices and first returns
/// to `start` after exactly `k` steps.
pub open spec fn cycle_returns(d: Dcel, start: int, k: nat) -> bool {
    &&& 1 <= k <= d.halfedges@.len()
    &&& walk(d, start, k) == start
    &&& forall|j: nat| 1 <= j < k ==> walk(d, start, j) != start
    &&& forall|j: nat| j < k ==> 0 <= #[trigger] walk(d, start, j) < d.halfedges@.len()
}

/// `start` lies on a finite, closed half-edge cycle.
pub open spec fn has_cycle(d: Dcel, start: int) -> bool {
    exists|k: nat| cycle_returns(d, start, k)
}

/// The number of half-edges on the cycle through `start`: how many `next`
/// steps the walk takes before it first returns to `start`.
pub open spec fn cycle_len(d: Dcel, start: int) -> nat {
    choose|k: nat| cycle_returns(d, start, k)
}

/// A first return happens after one length only, so exhibiting a concrete
/// first-return witness pins `cycle_len` down.
pub proof fn lemma_cycle_len_of_witness(d: Dcel, start: int, k: nat)
    requires
        cycle_returns(d, start, k),
    ensures
        cycle_len(d, start) == k,
{
    assert(has_cycle(d, start));
    let k2 = cycle_len(d, start);
    assert(cycle_returns(d, start, k2));
    if k < k2 {
        assert(walk(d, start, k) == start);
        assert(false);
    }
    if k2 < k {
        assert(walk(d, start, k2) == start);
        assert(false);
    }
}

/// When a cycle through `start` exists, `cycle_len` is its length.
pub proof fn lemma_cycle_len_valid(d: Dcel, start: int)
    requires
        has_cycle(d, start),
    ensures
        cycle_returns(d, start, cycle_len(d, start)),
{
}

/// The builder contract on one face: if it is live, its outer component is a
/// valid half-edge index starting a finite, closed cycle.
pub open spec fn face_wf(d: Dcel, i: int) -> bool {
    d.faces@[i].alive ==> {
        &&& d.faces@[i].outer_component < d.halfedges@.len()
        &&& has_cycle(d, d.faces@[i].outer_component as int)
    }
}

/// The builder contract on the whole subdivision.
pub open spec fn dcel_wf(d: Dcel) -> bool {
    forall|i: int| 0 <= i < d.faces@.len() ==> #[trigger] face_wf(d, i)
}

impl Dcel {
    /// The origin point of half-edge `edge`.
    pub fn get_origin(&self, edge: usize) -> (p: Point)
        requires
            edge < self.halfedges@.len(),
        ensures
            p == self.halfedges@[edge as int].origin,
    {
        self.halfedges[edge].origin
    }
}

} // verus!
