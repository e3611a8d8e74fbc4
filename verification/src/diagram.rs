use vstd::prelude::*;
use crate::dcel::{Dcel, Face, cycle_len, cycle_returns, dcel_wf, face_wf, has_cycle, walk};
use crate::point::Point;

verus! {

/// A queryable Voronoi diagram: an owned subdivision plus the identity of the
/// single unbounded "outside" face, resolved once at construction and never
/// recomputed.
#[derive(Debug)]
pub struct VoronoiDiagram {
    /// The internal doubly connected edge list.
    pub dcel: Dcel,
    /// The id of the face that represents the outside of the diagram.
    pub outside_face_id: usize,
}

/// The outside-face scan over the first `n` faces of the table: the greatest
/// boundary-cycle length seen among live faces so far, and the first (lowest)
/// face index attaining it. Both components are 0 before any live face with
/// more edges has been seen.
pub open spec fn scan_faces(d: Dcel, n: nat) -> (nat, nat)
    decreases n,
{
    if n == 0 {
        (0, 0)
    } else {
        let prev = scan_faces(d, (n - 1) as nat);
        let f = d.faces@[n - 1];
        if f.alive && cycle_len(d, f.outer_component as int) > prev.0 {
            (cycle_len(d, f.outer_component as int), (n - 1) as nat)
        } else {
            prev
        }
    }
}

/// The face the construction declares outside: the live face whose boundary
/// cycle has the most half-edges, the earliest index winning ties; index 0
/// when no face is live (or the table is empty), whether or not a face with
/// that index exists or is alive.
pub open spec fn outside_face_of(d: Dcel) -> nat {
    scan_faces(d, d.faces@.len()).1
}

/// Walks the boundary cycle from `start` and counts its half-edges.
fn cycle_edge_count(dcel: &Dcel, start: usize) -> (n: usize)
    requires
        start < dcel.halfedges@.len(),
        has_cycle(*dcel, start as int),
    ensures
        n as nat == cycle_len(*dcel, start as int),
{
    let ghost k = cycle_len(*dcel, start as int);
    proof {
        crate::dcel::lemma_cycle_len_valid(*dcel, start as int);
        assert(walk(*dcel, start as int, 0) == start as int);
    }
    let edge_count = dcel.halfedges.len();
    let mut num_edges: usize = 1;
    let mut current_edge: usize = dcel.halfedges[start].next;
    while current_edge != start
        invariant
            cycle_returns(*dcel, start as int, k),
            k <= edge_count,
            1 <= num_edges <= k,
            current_edge as int == walk(*dcel, start as int, num_edges as nat),
        decreases k - num_edges,
    {
        proof {
            if num_edges == k {
                assert(false);
            }
            assert(0 <= walk(*dcel, start as int, num_edges as nat)
                < dcel.halfedges@.len());
        }
        current_edge = dcel.halfedges[current_edge].next;
        num_edges = num_edges + 1;
    }
    proof {
        if num_edges < k {
            assert(walk(*dcel, start as int, num_edges as nat) != start as int);
            assert(false);
        }
    }
    num_edges
}

impl VoronoiDiagram {
    /// Constructs a diagram from a finished subdivision, taking ownership of
    /// it and resolving the outside face once: every live face's boundary
    /// cycle is walked and the face with the most edges is declared outside
    /// (a heuristic -- the unbounded region, clipped by a large bounding box,
    /// tends to have the most boundary segments), with ties going to the
    /// first such face and index 0 standing in when no face is live.
    pub fn from_dcel(dcel: Dcel) -> (result: VoronoiDiagram)
        requires
            dcel_wf(dcel),
        ensures
            result.dcel == dcel,
            result.outside_face_id as nat == outside_face_of(dcel),
    {
        let mut highest_edges_count: usize = 0;
        let mut highest_edges_face: usize = 0;
        let n = dcel.faces.len();
        let mut i: usize = 0;
        while i < n
            invariant
                dcel_wf(dcel),
                n == dcel.faces@.len(),
                i <= n,
                highest_edges_count as nat == scan_faces(dcel, i as nat).0,
                highest_edges_face as nat == scan_faces(dcel, i as nat).1,
            decreases n - i,
        {
            let face = &dcel.faces[i];
            if face.alive {
                proof {
                    assert(face_wf(dcel, i as int));
                }
                let num_edges = cycle_edge_count(&dcel, face.outer_component);
                if num_edges > highest_edges_count {
                    highest_edges_count = num_edges;
                    highest_edges_face = i;
                }
            }
            i = i + 1;
        }
        VoronoiDiagram { dcel, outside_face_id: highest_edges_face }
    }
}

/// A non-owning view of one cell: a face index plus a reference to the
/// owning diagram's subdivision. It is valid only while the diagram lives and
/// never mutates the subdivision.
#[derive(Debug)]
pub struct VoronoiCell<'a> {
    pub dcel: &'a Dcel,
    pub face_id: usize,
}

/// A cell view is usable when its face exists, is live, and its boundary
/// cycle is finite and closed.
pub open spec fn cell_wf(d: Dcel, face_id: int) -> bool {
    &&& 0 <= face_id < d.faces@.len()
    &&& d.faces@[face_id].alive
    &&& d.faces@[face_id].outer_component < d.halfedges@.len()
    &&& has_cycle(d, d.faces@[face_id].outer_component as int)
}

/// The half-edge the boundary walk of face `face_id` starts from.
pub open spec fn cell_start(d: Dcel, face_id: int) -> int {
    d.faces@[face_id].outer_component as int
}

/// The boundary of the cell of face `face_id`: the origin point of each
/// half-edge on the face's cycle, in traversal order, with no closing
/// duplicate of the first point and no deduplication.
pub open spec fn cell_points(d: Dcel, face_id: int) -> Seq<Point> {
    Seq::new(
        cycle_len(d, cell_start(d, face_id)),
        |j: int| d.halfedges@[walk(d, cell_start(d, face_id), j as nat)].origin,
    )
}

impl<'a> VoronoiCell<'a> {
    /// Collects the points that represent the border of this cell, in cycle
    /// order, one per half-edge of the face's boundary cycle; the walk past
    /// the last collected edge returns to the face's outer component.
    /// Orientation is whatever the builder produced.
    pub fn points(&self) -> (pts: Vec<Point>)
        requires
            cell_wf(*self.dcel, self.face_id as int),
        ensures
            pts@ == cell_points(*self.dcel, self.face_id as int),
            pts@.len() == cycle_len(*self.dcel, cell_start(*self.dcel, self.face_id as int)),
            pts@.len() >= 1,
            walk(*self.dcel, cell_start(*self.dcel, self.face_id as int), pts@.len() as nat)
                == cell_start(*self.dcel, self.face_id as int),
    {
        let face = &self.dcel.faces[self.face_id];
        let ghost start = cell_start(*self.dcel, self.face_id as int);
        let ghost k = cycle_len(*self.dcel, start);
        proof {
            crate::dcel::lemma_cycle_len_valid(*self.dcel, start);
            assert(walk(*self.dcel, start, 0) == start);
        }
        let edge_count = self.dcel.halfedges.len();
        let mut points: Vec<Point> = Vec::new();

        let start_edge = face.outer_component;
        points.push(self.dcel.get_origin(start_edge));
        let mut current_edge = self.dcel.halfedges[start_edge].next;
        while current_edge != start_edge
            invariant
                cycle_returns(*self.dcel, start, k),
                start == start_edge as int,
                k <= edge_count,
                1 <= points@.len() <= k,
                current_edge as int == walk(*self.dcel, start, points@.len() as nat),
                forall|j: int| 0 <= j < points@.len()
                    ==> points@[j]
                        == self.dcel.halfedges@[#[trigger] walk(*self.dcel, start, j as nat)].origin,
            decreases k - points@.len(),
        {
            proof {
                if points@.len() == k {
                    assert(false);
                }
                assert(0 <= walk(*self.dcel, start, points@.len() as nat)
                    < self.dcel.halfedges@.len());
            }
            points.push(self.dcel.get_origin(current_edge));
            current_edge = self.dcel.halfedges[current_edge].next;
        }
        proof {
            if points@.len() < k {
                assert(walk(*self.dcel, start, points@.len() as nat) != start);
                assert(false);
            }
            assert(points@ =~= cell_points(*self.dcel, self.face_id as int));
        }
        points
    }
}

/// The sum of the x coordinates of a point sequence.
pub open spec fn sum_x(s: Seq<Point>) -> int
    decreases s.len(),
{
    if s.len() == 0 {
        0
    } else {
        sum_x(s.drop_last()) + s.last().x
    }
}

/// The sum of the y coordinates of a point sequence.
pub open spec fn sum_y(s: Seq<Point>) -> int
    decreases s.len(),
{
    if s.len() == 0 {
        0
    } else {
        sum_y(s.drop_last()) + s.last().y
    }
}

/// Integer division rounding toward zero, for a positive divisor.
pub open spec fn div_trunc(a: int, b: int) -> int {
    if a >= 0 {
        a / b
    } else {
        -((-a) / b)
    }
}

/// The truncated mean of `n` values drawn from `[lo, hi]` lies in `[lo, hi]`.
proof fn lemma_div_trunc_mean_in_range(sum: int, n: int, lo: int, hi: int)
    requires
        1 <= n,
        lo <= 0 <= hi,
        lo * n <= sum <= hi * n,
    ensures
        lo <= div_trunc(sum, n) <= hi,
{
    if sum >= 0 {
        vstd::arithmetic::div_mod::lemma_div_pos_is_pos(sum, n);
        vstd::arithmetic::div_mod::lemma_div_is_ordered(sum, hi * n, n);
        vstd::arithmetic::div_mod::lemma_div_by_multiple(hi, n);
    } else {
        assert((-lo) * n == -(lo * n)) by (nonlinear_arith);
        vstd::arithmetic::div_mod::lemma_div_pos_is_pos(-sum, n);
        vstd::arithmetic::div_mod::lemma_div_is_ordered(-sum, (-lo) * n, n);
        vstd::arithmetic::div_mod::lemma_div_by_multiple(-lo, n);
    }
}

impl<'a> VoronoiCell<'a> {
    /// The centroid of the cell, as the unweighted arithmetic mean of its
    /// boundary points: each coordinate is the sum over `points()` divided by
    /// their number, rounded toward zero. This is the plain vertex mean, not
    /// the area-weighted polygon centroid; it is exact only where the sum
    /// divides evenly.
    pub fn centroid(&self) -> (c: Point)
        requires
            cell_wf(*self.dcel, self.face_id as int),
        ensures
            ({
                let pts = cell_points(*self.dcel, self.face_id as int);
                &&& c.x as int == div_trunc(sum_x(pts), pts.len() as int)
                &&& c.y as int == div_trunc(sum_y(pts), pts.len() as int)
            }),
    {
        let points = self.points();
        let n = points.len();
        let ghost pts = points@;
        let mut sx: i128 = 0;
        let mut sy: i128 = 0;
        let mut j: usize = 0;
        while j < n
            invariant
                pts == points@,
                n == pts.len(),
                j <= n,
                sx as int == sum_x(pts.take(j as int)),
                sy as int == sum_y(pts.take(j as int)),
                i64::MIN as int * (j as int) <= sx as int <= i64::MAX as int * (j as int),
                i64::MIN as int * (j as int) <= sy as int <= i64::MAX as int * (j as int),
            decreases n - j,
        {
            let p = points[j];
            proof {
                assert(pts.take(j + 1).drop_last() =~= pts.take(j as int));
                assert(pts.take(j + 1).last() == pts[j as int]);
            }
            sx = sx + p.x as i128;
            sy = sy + p.y as i128;
            j = j + 1;
        }
        proof {
            assert(pts.take(n as int) =~= pts);
            lemma_div_trunc_mean_in_range(sx as int, n as int, i64::MIN as int, i64::MAX as int);
            lemma_div_trunc_mean_in_range(sy as int, n as int, i64::MIN as int, i64::MAX as int);
        }
        let cx = sx.checked_div(n as i128).unwrap();
        let cy = sy.checked_div(n as i128).unwrap();
        Point { x: cx as i64, y: cy as i64 }
    }
}

/// A single-pass enumerator over the face table: it walks the faces once in
/// ascending index order and yields a view for every face that is both alive
/// and not the outside face.
#[derive(Debug)]
pub struct VoronoiCellsIterator<'a> {
    pub diagram: &'a VoronoiDiagram,
    pub pos: usize,
}

/// The first live, non-outside face index at or after `from`, if any.
pub open spec fn next_cell_index(d: VoronoiDiagram, from: nat) -> Option<nat>
    decreases d.dcel.faces@.len() - from,
{
    if from >= d.dcel.faces@.len() {
        None
    } else if d.dcel.faces@[from as int].alive && from != d.outside_face_id as nat {
        Some(from)
    } else {
        next_cell_index(d, from + 1)
    }
}

/// How many live, non-outside faces the table holds at indices `from` and up:
/// the number of cells an enumerator standing at `from` has left to yield.
pub open spec fn count_cells_from(d: VoronoiDiagram, from: nat) -> nat
    decreases d.dcel.faces@.len() - from,
{
    if from >= d.dcel.faces@.len() {
        0
    } else {
        (if d.dcel.faces@[from as int].alive && from != d.outside_face_id as nat {
            1 as nat
        } else {
            0 as nat
        }) + count_cells_from(d, from + 1)
    }
}

/// Yielding one cell accounts for exactly one of the cells left to yield, and
/// exhaustion means none was left.
pub proof fn lemma_next_cell_count(d: VoronoiDiagram, from: nat)
    ensures
        match next_cell_index(d, from) {
            Some(j) => {
                &&& from <= j < d.dcel.faces@.len()
                &&& d.dcel.faces@[j as int].alive
                &&& j != d.outside_face_id as nat
                &&& count_cells_from(d, from) == 1 + count_cells_from(d, j + 1)
            },
            None => count_cells_from(d, from) == 0,
        },
    decreases d.dcel.faces@.len() - from,
{
    if from >= d.dcel.faces@.len() {
    } else if d.dcel.faces@[from as int].alive && from != d.outside_face_id as nat {
    } else {
        lemma_next_cell_count(d, from + 1);
    }
}

impl VoronoiDiagram {
    /// Returns a fresh enumerator over the cells in the diagram; each call
    /// restarts the walk at the head of the face table.
    pub fn cells<'a>(&'a self) -> (it: VoronoiCellsIterator<'a>)
        ensures
            it.diagram == self,
            it.pos == 0,
    {
        VoronoiCellsIterator { diagram: self, pos: 0 }
    }
}

impl<'a> VoronoiCellsIterator<'a> {
    /// Yields a view of the first live, non-outside face at or after the
    /// current position and advances just past it; yields `None`, with the
    /// position at the end of the table, once no such face is left.
    pub fn next(&mut self) -> (r: Option<VoronoiCell<'a>>)
        requires
            old(self).pos as nat <= old(self).diagram.dcel.faces@.len(),
        ensures
            final(self).diagram == old(self).diagram,
            match next_cell_index(*old(self).diagram, old(self).pos as nat) {
                Some(j) => {
                    &&& r matches Some(c) && c.face_id as nat == j
                        && *c.dcel == old(self).diagram.dcel
                    &&& final(self).pos as nat == j + 1
                    &&& count_cells_from(*old(self).diagram, final(self).pos as nat) + 1
                        == count_cells_from(*old(self).diagram, old(self).pos as nat)
                },
                None => {
                    &&& r is None
                    &&& final(self).pos == old(self).diagram.dcel.faces@.len()
                    &&& count_cells_from(*old(self).diagram, old(self).pos as nat) == 0
                },
            },
    {
        let diagram = self.diagram;
        let n = diagram.dcel.faces.len();
        while self.pos < n
            invariant
                self.diagram == old(self).diagram,
                n == diagram.dcel.faces@.len(),
                diagram == old(self).diagram,
                old(self).pos <= self.pos <= n,
                next_cell_index(*diagram, self.pos as nat)
                    == next_cell_index(*diagram, old(self).pos as nat),
                count_cells_from(*diagram, self.pos as nat)
                    == count_cells_from(*diagram, old(self).pos as nat),
            decreases n - self.pos,
        {
            let i = self.pos;
            let face = &diagram.dcel.faces[i];
            self.pos = self.pos + 1;
            if face.alive && i != diagram.outside_face_id {
                proof {
                    lemma_next_cell_count(*diagram, i as nat);
                }
                return Some(VoronoiCell { dcel: &diagram.dcel, face_id: i });
            }
        }
        None
    }
}

proof fn lemma_count_cells_le(d: VoronoiDiagram, from: nat)
    requires
        from <= d.dcel.faces@.len(),
    ensures
        count_cells_from(d, from) + from <= d.dcel.faces@.len(),
    decreases d.dcel.faces@.len() - from,
{
    if from < d.dcel.faces@.len() {
        lemma_count_cells_le(d, from + 1);
    }
}

impl<'a> VoronoiCellsIterator<'a> {
    /// Consumes the enumerator and returns how many cells it has left to
    /// yield: one for every remaining live, non-outside face.
    pub fn count(self) -> (n: usize)
        requires
            self.pos as nat <= self.diagram.dcel.faces@.len(),
        ensures
            n as nat == count_cells_from(*self.diagram, self.pos as nat),
    {
        let ghost d = *self.diagram;
        let ghost start_pos = self.pos as nat;
        let total = self.diagram.dcel.faces.len();
        proof {
            lemma_count_cells_le(d, start_pos);
        }
        let mut it = self;
        let mut n: usize = 0;
        loop
            invariant
                *it.diagram == d,
                it.pos as nat <= d.dcel.faces@.len(),
                total as nat == d.dcel.faces@.len(),
                count_cells_from(d, start_pos) <= total as nat,
                n as nat + count_cells_from(d, it.pos as nat)
                    == count_cells_from(d, start_pos),
            ensures
                n as nat == count_cells_from(d, start_pos),
            decreases count_cells_from(d, it.pos as nat),
        {
            let ghost prev_pos = it.pos as nat;
            match it.next() {
                Some(_) => {
                    proof {
                        lemma_next_cell_count(d, prev_pos);
                    }
                    n = n + 1;
                },
                None => {
                    break;
                },
            }
        }
        n
    }
}

/// How many live faces the table holds at indices `from` and up.
pub open spec fn count_alive_from(faces: Seq<Face>, from: nat) -> nat
    decreases faces.len() - from,
{
    if from >= faces.len() {
        0
    } else {
        (if faces[from as int].alive {
            1 as nat
        } else {
            0 as nat
        }) + count_alive_from(faces, from + 1)
    }
}

proof fn lemma_cells_count_from(d: VoronoiDiagram, from: nat)
    requires
        d.outside_face_id < d.dcel.faces@.len(),
        d.dcel.faces@[d.outside_face_id as int].alive,
    ensures
        count_cells_from(d, from) + (if from <= d.outside_face_id as nat {
            1 as nat
        } else {
            0 as nat
        }) == count_alive_from(d.dcel.faces@, from),
    decreases d.dcel.faces@.len() - from,
{
    if from < d.dcel.faces@.len() {
        lemma_cells_count_from(d, from + 1);
    }
}

/// The outside face is excluded from enumeration exactly once: in a diagram
/// whose outside face exists and is live, a full pass of the cell enumerator
/// yields one cell fewer than the table has live faces. By the contract of
/// `next`, `count_cells_from(d, 0)` is exactly the number of `Some` results a
/// fresh enumerator returns before its first `None`.
pub proof fn lemma_cells_count(d: VoronoiDiagram)
    requires
        d.outside_face_id < d.dcel.faces@.len(),
        d.dcel.faces@[d.outside_face_id as int].alive,
    ensures
        count_cells_from(d, 0) + 1 == count_alive_from(d.dcel.faces@, 0),
{
    lemma_cells_count_from(d, 0);
}

/// Outside-face selection is deterministic: two diagrams constructed from
/// the same subdivision (each carrying the outside face that construction
/// resolves, as `from_dcel` ensures) agree on `outside_face_id`.
pub proof fn lemma_outside_face_deterministic(d1: VoronoiDiagram, d2: VoronoiDiagram)
    requires
        d1.dcel == d2.dcel,
        d1.outside_face_id as nat == outside_face_of(d1.dcel),
        d2.outside_face_id as nat == outside_face_of(d2.dcel),
    ensures
        d1.outside_face_id == d2.outside_face_id,
{
}

} // verus!
