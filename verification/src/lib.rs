//! A queryable Voronoi diagram layer over a half-edge planar subdivision
//! (a doubly connected edge list, "DCEL"), plus an axis-aligned rectangle
//! membership primitive.

pub mod dcel;
pub mod diagram;
pub mod point;
pub mod rect;
