//! Robust geometric helpers: the ordering of edge intersections used by the
//! relate graph, in-place slice partitioning, the lexicographic order of
//! coordinates, and the integer side of the binary-exponent scaling that the
//! robust kernel uses to avoid overflow and underflow.

pub mod coord;
pub mod edge_intersection;
pub mod exponent;
pub mod kernels;
pub mod ordering;
pub mod robust_line_intersector;
pub mod utils;
