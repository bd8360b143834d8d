use crate::handle::Handle;
use vstd::prelude::*;

verus! {

/// A topological point. It carries no coordinates.
#[derive(Clone, Copy, Debug, PartialEq, Eq, Structural)]
pub struct Vertex {}

/// An abstract one-parameter locus. It carries no embedding.
#[derive(Clone, Copy, Debug, PartialEq, Eq, Structural)]
pub struct Curve {}

/// An abstract two-parameter locus. It carries no embedding.
#[derive(Clone, Copy, Debug, PartialEq, Eq, Structural)]
pub struct Surface {}

/// A directed edge: a curve and the vertex it starts at. Where it ends is
/// the start of the half-edge that follows it in its cycle.
pub struct HalfEdge {
    pub curve: Handle<Curve>,
    pub start_vertex: Handle<Vertex>,
}

/// A closed loop of half-edges, in order.
pub struct Cycle {
    pub half_edges: Vec<Handle<HalfEdge>>,
}

/// An exterior boundary and the holes in it.
pub struct Region {
    pub exterior: Handle<Cycle>,
    pub interiors: Vec<Handle<Cycle>>,
}

/// A region on a surface.
pub struct Face {
    pub region: Handle<Region>,
    pub surface: Handle<Surface>,
}

/// Regions that share a surface.
pub struct Sketch {
    pub regions: Vec<Handle<Region>>,
    pub surface: Handle<Surface>,
}

impl Vertex {
    pub fn new() -> (vertex: Self)
        ensures
            vertex == (Vertex {  }),
    {
        Vertex {  }
    }
}

impl Curve {
    pub fn new() -> (curve: Self)
        ensures
            curve == (Curve {  }),
    {
        Curve {  }
    }
}

impl Surface {
    pub fn new() -> (surface: Self)
        ensures
            surface == (Surface {  }),
    {
        Surface {  }
    }
}

impl HalfEdge {
    pub fn new(curve: Handle<Curve>, start_vertex: Handle<Vertex>) -> (half_edge: Self)
        ensures
            half_edge.curve == curve,
            half_edge.start_vertex == start_vertex,
    {
        HalfEdge { curve, start_vertex }
    }

    pub fn curve(&self) -> (curve: &Handle<Curve>)
        ensures
            *curve == self.curve,
    {
        &self.curve
    }

    pub fn start_vertex(&self) -> (vertex: &Handle<Vertex>)
        ensures
            *vertex == self.start_vertex,
    {
        &self.start_vertex
    }
}

impl Cycle {
    pub fn new(half_edges: Vec<Handle<HalfEdge>>) -> (cycle: Self)
        ensures
            cycle.half_edges == half_edges,
    {
        Cycle { half_edges }
    }

    /// The half-edge that follows the one at `index`: the next one, and the
    /// first one after the last.
    pub open spec fn next_index(&self, index: int) -> int {
        if index + 1 == self.half_edges@.len() {
            0
        } else {
            index + 1
        }
    }
}

impl Region {
    pub fn new(exterior: Handle<Cycle>, interiors: Vec<Handle<Cycle>>) -> (region: Self)
        ensures
            region.exterior == exterior,
            region.interiors == interiors,
    {
        Region { exterior, interiors }
    }
}

impl Face {
    pub fn new(region: Handle<Region>, surface: Handle<Surface>) -> (face: Self)
        ensures
            face.region == region,
            face.surface == surface,
    {
        Face { region, surface }
    }
}

impl Sketch {
    pub fn new(regions: Vec<Handle<Region>>, surface: Handle<Surface>) -> (sketch: Self)
        ensures
            sketch.regions == regions,
            sketch.surface == surface,
    {
        Sketch { regions, surface }
    }
}

} // verus!
