use crate::handle::Handle;
use crate::math::{Line, Point1, Plane};
use crate::topology::{Curve, Surface, Vertex};
use std::collections::HashMap;
use vstd::prelude::*;

verus! {

broadcast use vstd::std_specs::hash::group_hash_axioms;

/// Where a vertex sits on one curve.
#[derive(Clone, Copy, Debug, PartialEq, Eq, Structural)]
pub struct LocalVertexGeom {
    pub position: Point1,
}

/// How a curve runs on one surface.
#[derive(Clone, Copy, Debug, PartialEq, Eq, Structural)]
pub struct LocalCurveGeom {
    pub path: Line,
}

/// Where a surface sits in space.
#[derive(Clone, Copy, Debug, PartialEq, Eq, Structural)]
pub struct SurfaceGeom {
    pub geometry: Plane,
}

/// All that is defined of one vertex: its position on each curve that it
/// was placed on.
pub struct VertexGeom {
    definitions: HashMap<u64, LocalVertexGeom>,
}

/// All that is defined of one curve: its path on each surface that it was
/// embedded in.
pub struct CurveGeom {
    definitions: HashMap<u64, LocalCurveGeom>,
}

/// The geometry layers: what is defined of each vertex, curve and surface,
/// by the identity of its handle.
pub struct Geometry {
    vertex: HashMap<u64, VertexGeom>,
    curve: HashMap<u64, CurveGeom>,
    surface: HashMap<u64, SurfaceGeom>,
}

/// The geometry layers as maps: from a vertex and a curve to a position,
/// from a curve and a surface to a path, from a surface to its embedding.
pub ghost struct GeometryView {
    pub vertices: Map<u64, Map<u64, LocalVertexGeom>>,
    pub curves: Map<u64, Map<u64, LocalCurveGeom>>,
    pub surfaces: Map<u64, SurfaceGeom>,
}

impl GeometryView {
    /// Layers in which nothing is defined.
    pub open spec fn empty() -> Self {
        GeometryView { vertices: Map::empty(), curves: Map::empty(), surfaces: Map::empty() }
    }

    /// What is defined of `vertex`, or nothing.
    pub open spec fn of_vertex(self, vertex: u64) -> Map<u64, LocalVertexGeom> {
        if self.vertices.contains_key(vertex) {
            self.vertices[vertex]
        } else {
            Map::empty()
        }
    }

    /// What is defined of `curve`, or nothing.
    pub open spec fn of_curve(self, curve: u64) -> Map<u64, LocalCurveGeom> {
        if self.curves.contains_key(curve) {
            self.curves[curve]
        } else {
            Map::empty()
        }
    }

    /// The layers after the position of `vertex` on `curve` was set.
    pub open spec fn define_vertex(self, vertex: u64, curve: u64, geom: LocalVertexGeom) -> Self {
        GeometryView {
            vertices: self.vertices.insert(vertex, self.of_vertex(vertex).insert(curve, geom)),
            ..self
        }
    }

    /// The layers after the path of `curve` on `surface` was set.
    pub open spec fn define_curve(self, curve: u64, surface: u64, geom: LocalCurveGeom) -> Self {
        GeometryView {
            curves: self.curves.insert(curve, self.of_curve(curve).insert(surface, geom)),
            ..self
        }
    }

    /// The layers after the embedding of `surface` was set.
    pub open spec fn define_surface(self, surface: u64, geom: SurfaceGeom) -> Self {
        GeometryView { surfaces: self.surfaces.insert(surface, geom), ..self }
    }

    /// Whether `vertex` has a position on `curve`.
    pub open spec fn has_vertex_on(self, vertex: u64, curve: u64) -> bool {
        self.vertices.contains_key(vertex) && self.vertices[vertex].contains_key(curve)
    }

    /// Whether `curve` has a path on `surface`.
    pub open spec fn has_curve_on(self, curve: u64, surface: u64) -> bool {
        self.curves.contains_key(curve) && self.curves[curve].contains_key(surface)
    }
}

impl View for VertexGeom {
    type V = Map<u64, LocalVertexGeom>;

    closed spec fn view(&self) -> Map<u64, LocalVertexGeom> {
        self.definitions@
    }
}

impl View for CurveGeom {
    type V = Map<u64, LocalCurveGeom>;

    closed spec fn view(&self) -> Map<u64, LocalCurveGeom> {
        self.definitions@
    }
}

impl View for Geometry {
    type V = GeometryView;

    closed spec fn view(&self) -> GeometryView {
        GeometryView {
            vertices: self.vertex@.map_values(|g: VertexGeom| g@),
            curves: self.curve@.map_values(|g: CurveGeom| g@),
            surfaces: self.surface@,
        }
    }
}

impl VertexGeom {
    /// The position of the vertex on `curve`, where one is defined.
    pub fn local_on(&self, curve: &Handle<Curve>) -> (local: Option<&LocalVertexGeom>)
        ensures
            local == if self@.contains_key(curve.id()) {
                Some(&self@[curve.id()])
            } else {
                None
            },
    {
        let key: u64 = curve.slot();
        self.definitions.get(&key)
    }
}

impl CurveGeom {
    /// The path of the curve on `surface`, where one is defined.
    pub fn local_on(&self, surface: &Handle<Surface>) -> (local: Option<&LocalCurveGeom>)
        ensures
            local == if self@.contains_key(surface.id()) {
                Some(&self@[surface.id()])
            } else {
                None
            },
    {
        let key: u64 = surface.slot();
        self.definitions.get(&key)
    }
}

impl Geometry {
    /// Layers in which nothing is defined.
    pub fn new() -> (geometry: Self)
        ensures
            geometry@ == GeometryView::empty(),
    {
        let geometry =
            Geometry { vertex: HashMap::new(), curve: HashMap::new(), surface: HashMap::new() };
        assert(geometry@.vertices =~= Map::<u64, Map<u64, LocalVertexGeom>>::empty());
        assert(geometry@.curves =~= Map::<u64, Map<u64, LocalCurveGeom>>::empty());
        geometry
    }

    /// Sets the position of `vertex` on `curve`, in place of an earlier one.
    pub fn define_vertex(
        &mut self,
        vertex: Handle<Vertex>,
        curve: Handle<Curve>,
        geometry: LocalVertexGeom,
    )
        ensures
            final(self)@ == old(self)@.define_vertex(vertex.id(), curve.id(), geometry),
    {
        let key: u64 = vertex.slot();
        let mut entry = match self.vertex.remove(&key) {
            Some(entry) => entry,
            None => VertexGeom { definitions: HashMap::new() },
        };
        assert(entry@ =~= old(self)@.of_vertex(key));
        entry.definitions.insert(curve.slot(), geometry);
        self.vertex.insert(key, entry);
        assert(self@.vertices =~= old(self)@.define_vertex(
            vertex.id(),
            curve.id(),
            geometry,
        ).vertices);
    }

    /// Sets the path of `curve` on `surface`, in place of an earlier one.
    pub fn define_curve(
        &mut self,
        curve: Handle<Curve>,
        surface: Handle<Surface>,
        geometry: LocalCurveGeom,
    )
        ensures
            final(self)@ == old(self)@.define_curve(curve.id(), surface.id(), geometry),
    {
        let key: u64 = curve.slot();
        let mut entry = match self.curve.remove(&key) {
            Some(entry) => entry,
            None => CurveGeom { definitions: HashMap::new() },
        };
        assert(entry@ =~= old(self)@.of_curve(key));
        entry.definitions.insert(surface.slot(), geometry);
        self.curve.insert(key, entry);
        assert(self@.curves =~= old(self)@.define_curve(
            curve.id(),
            surface.id(),
            geometry,
        ).curves);
    }

    /// Sets the embedding of `surface`, in place of an earlier one.
    pub fn define_surface(&mut self, surface: Handle<Surface>, geometry: SurfaceGeom)
        ensures
            final(self)@ == old(self)@.define_surface(surface.id(), geometry),
    {
        self.surface.insert(surface.slot(), geometry);
    }

    /// What is defined of `vertex`, if anything was.
    pub fn of_vertex(&self, vertex: &Handle<Vertex>) -> (entry: Option<&VertexGeom>)
        ensures
            entry.is_some() == self@.vertices.contains_key(vertex.id()),
            entry.is_some() ==> entry.unwrap()@ == self@.vertices[vertex.id()],
    {
        let key: u64 = vertex.slot();
        self.vertex.get(&key)
    }

    /// What is defined of `curve`, if anything was.
    pub fn of_curve(&self, curve: &Handle<Curve>) -> (entry: Option<&CurveGeom>)
        ensures
            entry.is_some() == self@.curves.contains_key(curve.id()),
            entry.is_some() ==> entry.unwrap()@ == self@.curves[curve.id()],
    {
        let key: u64 = curve.slot();
        self.curve.get(&key)
    }

    /// Whether `vertex` has a position on `curve`.
    pub fn has_vertex_on(&self, vertex: &Handle<Vertex>, curve: &Handle<Curve>) -> (defined: bool)
        ensures
            defined == self@.has_vertex_on(vertex.id(), curve.id()),
    {
        match self.of_vertex(vertex) {
            Some(entry) => entry.local_on(curve).is_some(),
            None => false,
        }
    }

    /// Whether `curve` has a path on `surface`.
    pub fn has_curve_on(&self, curve: &Handle<Curve>, surface: &Handle<Surface>) -> (defined: bool)
        ensures
            defined == self@.has_curve_on(curve.id(), surface.id()),
    {
        match self.of_curve(curve) {
            Some(entry) => entry.local_on(surface).is_some(),
            None => false,
        }
    }

    /// The embedding of `surface`, if one was defined.
    pub fn of_surface(&self, surface: &Handle<Surface>) -> (entry: Option<&SurfaceGeom>)
        ensures
            entry == if self@.surfaces.contains_key(surface.id()) {
                Some(&self@.surfaces[surface.id()])
            } else {
                None
            },
    {
        let key: u64 = surface.slot();
        self.surface.get(&key)
    }
}

} // verus!
