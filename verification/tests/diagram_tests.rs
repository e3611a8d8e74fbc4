use voronoi::dcel::{Dcel, Face, HalfEdge};
use voronoi::diagram::{VoronoiCell, VoronoiDiagram};
use voronoi::point::Point;

/// Appends a closed cycle of `origins.len()` half-edges and returns the index
/// of its first edge.
fn push_cycle(halfedges: &mut Vec<HalfEdge>, origins: &[(i64, i64)]) -> usize {
    let start = halfedges.len();
    let count = origins.len();
    for (i, &(x, y)) in origins.iter().enumerate() {
        let next = if i + 1 == count { start } else { start + i + 1 };
        halfedges.push(HalfEdge {
            next,
            origin: Point::new(x, y),
        });
    }
    start
}

fn push_face(faces: &mut Vec<Face>, outer_component: usize, alive: bool) {
    faces.push(Face {
        outer_component,
        alive,
    });
}

/// A subdivision of the shape a builder produces for three sites clipped by a
/// large bounding box: three live cell faces (the first with five boundary
/// edges) and one live unbounded face with the most edges.
fn three_cell_dcel() -> Dcel {
    let mut halfedges = Vec::new();
    let mut faces = Vec::new();
    let c0 = push_cycle(
        &mut halfedges,
        &[(0, 0), (4, 0), (6, 3), (3, 6), (0, 4)],
    );
    let c1 = push_cycle(&mut halfedges, &[(4, 0), (8, 0), (8, 8), (6, 3)]);
    let c2 = push_cycle(&mut halfedges, &[(0, 4), (3, 6), (8, 8), (0, 8)]);
    let outside = push_cycle(
        &mut halfedges,
        &[(0, 0), (4, 0), (8, 0), (8, 8), (0, 8), (0, 4)],
    );
    push_face(&mut faces, c0, true);
    push_face(&mut faces, c1, true);
    push_face(&mut faces, c2, true);
    push_face(&mut faces, outside, true);
    Dcel { faces, halfedges }
}

fn collect_cell_face_ids(diagram: &VoronoiDiagram) -> Vec<usize> {
    let mut ids = Vec::new();
    let mut iter = diagram.cells();
    while let Some(cell) = iter.next() {
        ids.push(cell.face_id);
    }
    ids
}

#[test]
fn test_cells_iterator() {
    let vor_diagram = VoronoiDiagram::from_dcel(three_cell_dcel());
    assert_eq!(vor_diagram.cells().count(), 3);
}

#[test]
fn test_cells_points() {
    let vor_diagram = VoronoiDiagram::from_dcel(three_cell_dcel());
    let mut iter = vor_diagram.cells();
    let first = iter.next().unwrap();
    assert_eq!(first.points().len(), 5);
}

#[test]
fn test_cells_yields_live_non_outside_faces_in_order() {
    let diagram = VoronoiDiagram::from_dcel(three_cell_dcel());
    assert_eq!(diagram.outside_face_id, 3);
    assert_eq!(collect_cell_face_ids(&diagram), vec![0, 1, 2]);
}

#[test]
fn test_cells_skips_dead_faces() {
    let mut dcel = three_cell_dcel();
    dcel.faces[1].alive = false;
    let diagram = VoronoiDiagram::from_dcel(dcel);
    assert_eq!(diagram.outside_face_id, 3);
    assert_eq!(diagram.cells().count(), 2);
    assert_eq!(collect_cell_face_ids(&diagram), vec![0, 2]);
}

#[test]
fn test_cells_is_restartable() {
    let diagram = VoronoiDiagram::from_dcel(three_cell_dcel());
    assert_eq!(diagram.cells().count(), 3);
    assert_eq!(collect_cell_face_ids(&diagram), vec![0, 1, 2]);
    assert_eq!(collect_cell_face_ids(&diagram), vec![0, 1, 2]);
}

#[test]
fn test_points_lengths_match_cycle_lengths() {
    let diagram = VoronoiDiagram::from_dcel(three_cell_dcel());
    let mut iter = diagram.cells();
    let mut lengths = Vec::new();
    while let Some(cell) = iter.next() {
        lengths.push(cell.points().len());
    }
    assert_eq!(lengths, vec![5, 4, 4]);
}

#[test]
fn test_points_in_cycle_order_without_closing_duplicate() {
    let diagram = VoronoiDiagram::from_dcel(three_cell_dcel());
    let mut iter = diagram.cells();
    iter.next();
    let second = iter.next().unwrap();
    assert_eq!(
        second.points(),
        vec![
            Point::new(4, 0),
            Point::new(8, 0),
            Point::new(8, 8),
            Point::new(6, 3),
        ]
    );
}

#[test]
fn test_outside_face_selection_is_deterministic() {
    let first = VoronoiDiagram::from_dcel(three_cell_dcel());
    let second = VoronoiDiagram::from_dcel(three_cell_dcel());
    assert_eq!(first.outside_face_id, second.outside_face_id);
}

#[test]
fn test_outside_face_tie_goes_to_first_face() {
    let mut halfedges = Vec::new();
    let mut faces = Vec::new();
    let c0 = push_cycle(&mut halfedges, &[(0, 0), (1, 0), (1, 1)]);
    let c1 = push_cycle(&mut halfedges, &[(2, 0), (3, 0), (3, 1)]);
    push_face(&mut faces, c0, true);
    push_face(&mut faces, c1, true);
    let diagram = VoronoiDiagram::from_dcel(Dcel { faces, halfedges });
    assert_eq!(diagram.outside_face_id, 0);
}

#[test]
fn test_outside_face_defaults_to_zero_for_empty_table() {
    let diagram = VoronoiDiagram::from_dcel(Dcel {
        faces: Vec::new(),
        halfedges: Vec::new(),
    });
    assert_eq!(diagram.outside_face_id, 0);
}

#[test]
fn test_outside_face_defaults_to_zero_when_no_face_is_alive() {
    let mut halfedges = Vec::new();
    let mut faces = Vec::new();
    let c0 = push_cycle(&mut halfedges, &[(0, 0), (1, 0), (1, 1)]);
    push_face(&mut faces, c0, false);
    let diagram = VoronoiDiagram::from_dcel(Dcel { faces, halfedges });
    assert_eq!(diagram.outside_face_id, 0);
}

#[test]
fn test_centroid_of_square_cell() {
    let mut halfedges = Vec::new();
    let mut faces = Vec::new();
    let c0 = push_cycle(&mut halfedges, &[(0, 0), (2, 0), (2, 2), (0, 2)]);
    push_face(&mut faces, c0, true);
    let dcel = Dcel { faces, halfedges };
    let cell = VoronoiCell {
        dcel: &dcel,
        face_id: 0,
    };
    assert_eq!(cell.centroid(), Point::new(1, 1));
}

#[test]
fn test_centroid_rounds_toward_zero() {
    let mut halfedges = Vec::new();
    let mut faces = Vec::new();
    let c0 = push_cycle(&mut halfedges, &[(-3, 0), (-2, 5), (0, 0)]);
    push_face(&mut faces, c0, true);
    let dcel = Dcel { faces, halfedges };
    let cell = VoronoiCell {
        dcel: &dcel,
        face_id: 0,
    };
    // sums are (-5, 5) over three points: both quotients truncate toward zero
    assert_eq!(cell.centroid(), Point::new(-1, 1));
}

#[test]
fn test_get_origin_reads_half_edge_origin() {
    let dcel = three_cell_dcel();
    assert_eq!(dcel.get_origin(0), Point::new(0, 0));
    assert_eq!(dcel.get_origin(1), Point::new(4, 0));
}
