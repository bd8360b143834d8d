//! The object model of a boundary-representation kernel on an integer grid:
//! handles that are told apart by identity, topology that is kept apart from
//! its geometry, the operations that build and change the graph, and the
//! check that adjacent half-edges meet.

pub mod connectivity;
pub mod context;
pub mod geometry;
pub mod handle;
pub mod math;
pub mod names;
pub mod reverse;
pub mod topology;
pub mod transform;
pub mod validation;
