use crate::context::{Core, CoreView};
use crate::geometry::LocalCurveGeom;
use crate::handle::Handle;
use crate::math::reverse_keeps_the_points;
use crate::topology::{Curve, HalfEdge, Surface, Vertex};
use crate::connectivity::position_is_exact;
use crate::validation::position_on_surface;
use vstd::prelude::*;

verus! {

impl CoreView {
    /// Whether the curve can be reversed on the surface: both come from
    /// the store of the context, the path of the curve on the surface is
    /// defined, the reversed path fits the grid, and the store has a slot
    /// for the new curve.
    pub open spec fn curve_is_reversible(self, curve: u64, surface: u64) -> bool {
        &&& self.knows(curve)
        &&& self.knows(surface)
        &&& self.geometry.has_curve_on(curve, surface)
        &&& self.geometry.curves[curve][surface].path.reversible()
        &&& self.next < u64::MAX
    }

    /// The context after the curve was reversed on the surface: a new curve
    /// in the next slot, made from `curve`, whose path on the surface is
    /// that of `curve` walked the other way.
    pub open spec fn reverse_curve(self, curve: u64, surface: u64) -> CoreView {
        CoreView {
            next: (self.next + 1) as u64,
            provenance: self.provenance.insert(self.next, curve),
            geometry: self.geometry.define_curve(
                self.next,
                surface,
                LocalCurveGeom { path: self.geometry.curves[curve][surface].path.reversed() },
            ),
        }
    }

    /// Whether the half-edge on `curve` from `start` to `end` can be
    /// reversed: both vertices come from the store of the context and have
    /// a position on the curve, the curve can be reversed, and the store
    /// has slots for the new curve and the new half-edge.
    pub open spec fn half_edge_is_reversible(
        self,
        curve: u64,
        start: u64,
        end: u64,
        surface: u64,
    ) -> bool {
        &&& self.knows(start)
        &&& self.knows(end)
        &&& self.geometry.has_vertex_on(start, curve)
        &&& self.geometry.has_vertex_on(end, curve)
        &&& self.curve_is_reversible(curve, surface)
        &&& self.next + 1 < u64::MAX
    }

    /// The context after the half-edge `half_edge` on `curve` from `start`
    /// to `end` was reversed: the reversed curve in the next slot, the new
    /// half-edge in the slot after it, made from `half_edge`, and on the new
    /// curve `start` at the position that `end` had on the old one and `end`
    /// at the position that `start` had.
    pub open spec fn reverse_half_edge(
        self,
        half_edge: u64,
        curve: u64,
        start: u64,
        end: u64,
        surface: u64,
    ) -> CoreView {
        let start_position = self.geometry.vertices[start][curve];
        let end_position = self.geometry.vertices[end][curve];
        let with_curve = self.reverse_curve(curve, surface);
        CoreView {
            next: (self.next + 2) as u64,
            provenance: with_curve.provenance.insert((self.next + 1) as u64, half_edge),
            geometry: with_curve.geometry.define_vertex(
                start,
                self.next,
                end_position,
            ).define_vertex(end, self.next, start_position),
        }
    }
}

/// Whether `reverse_curve` can be called with these arguments.
pub fn can_reverse_curve(curve: &Handle<Curve>, surface: &Handle<Surface>, core: &Core) -> (possible:
    bool)
    ensures
        possible == core@.curve_is_reversible(curve.id(), surface.id()),
{
    if core.store.room() == 0 || !core.store.has_issued(curve) || !core.store.has_issued(surface) {
        return false;
    }
    match core.geometry.of_curve(curve) {
        Some(entry) => match entry.local_on(surface) {
            Some(local) => local.path.can_reverse(),
            None => false,
        },
        None => false,
    }
}

/// Whether `reverse_curve_coordinate_systems` can be called with these
/// arguments.
pub fn can_reverse_half_edge(
    half_edge: &Handle<HalfEdge>,
    end_vertex: &Handle<Vertex>,
    surface: &Handle<Surface>,
    core: &Core,
) -> (possible: bool)
    ensures
        possible == (core@.knows(half_edge.id()) && core@.half_edge_is_reversible(
            half_edge.value().curve.id(),
            half_edge.value().start_vertex.id(),
            end_vertex.id(),
            surface.id(),
        )),
{
    let curve = half_edge.get().curve();
    core.store.has_issued(half_edge) && core.store.has_issued(half_edge.get().start_vertex())
        && core.store.has_issued(end_vertex) && core.store.room() >= 2
        && core.geometry.has_vertex_on(half_edge.get().start_vertex(), curve)
        && core.geometry.has_vertex_on(end_vertex, curve) && can_reverse_curve(
        curve,
        surface,
        core,
    )
}

/// Reverses the coordinate system of a curve on a surface: inserts a new
/// curve, made from `curve`, whose path on the surface is that of `curve`
/// walked the other way.
pub fn reverse_curve(curve: &Handle<Curve>, surface: &Handle<Surface>, core: &mut Core) -> (reversed:
    Handle<Curve>)
    requires
        old(core)@.curve_is_reversible(curve.id(), surface.id()),
    ensures
        reversed.id() == old(core)@.next,
        final(core)@ == old(core)@.reverse_curve(curve.id(), surface.id()),
{
    let path = core.geometry.of_curve(curve).unwrap().local_on(surface).unwrap().path.reverse();
    let inserted = core.store.insert(Curve::new());
    let reversed = core.store.derive_from(inserted, curve);
    core.geometry.define_curve(reversed.clone(), surface.clone(), LocalCurveGeom { path });
    reversed
}

/// Reverses a half-edge: the result starts at the same vertex, on the
/// reversed curve, and the two vertices swap their positions.
///
/// `end_vertex` is the vertex at which the half-edge ends, that is, the
/// start of the half-edge that follows it. Both positions are read before
/// anything is written.
pub fn reverse_curve_coordinate_systems(
    half_edge: &Handle<HalfEdge>,
    end_vertex: &Handle<Vertex>,
    surface: &Handle<Surface>,
    core: &mut Core,
) -> (reversed: Handle<HalfEdge>)
    requires
        old(core)@.knows(half_edge.id()),
        old(core)@.half_edge_is_reversible(
            half_edge.value().curve.id(),
            half_edge.value().start_vertex.id(),
            end_vertex.id(),
            surface.id(),
        ),
    ensures
        reversed.id() == old(core)@.next + 1,
        reversed.value().curve.id() == old(core)@.next,
        reversed.value().start_vertex == half_edge.value().start_vertex,
        final(core)@ == old(core)@.reverse_half_edge(
            half_edge.id(),
            half_edge.value().curve.id(),
            half_edge.value().start_vertex.id(),
            end_vertex.id(),
            surface.id(),
        ),
{
    let vertex_geom_start = *core.geometry.of_vertex(half_edge.get().start_vertex()).unwrap().local_on(
        half_edge.get().curve(),
    ).unwrap();
    let vertex_geom_end = *core.geometry.of_vertex(end_vertex).unwrap().local_on(
        half_edge.get().curve(),
    ).unwrap();

    let curve = reverse_curve(half_edge.get().curve(), surface, core);

    let inserted = core.store.insert(HalfEdge::new(curve, half_edge.get().start_vertex().clone()));
    let reversed = core.store.derive_from(inserted, half_edge);

    core.geometry.define_vertex(
        reversed.get().start_vertex().clone(),
        reversed.get().curve().clone(),
        vertex_geom_end,
    );
    core.geometry.define_vertex(
        end_vertex.clone(),
        reversed.get().curve().clone(),
        vertex_geom_start,
    );

    reversed
}

/// Reversing a half-edge twice brings its geometry back: the curve of the
/// second result runs on the surface as the curve of the first half-edge
/// did, and both vertices sit on it where they sat on that curve.
pub proof fn reverse_twice_restores_geometry(
    core: CoreView,
    half_edge: u64,
    curve: u64,
    start: u64,
    end: u64,
    surface: u64,
)
    requires
        core.half_edge_is_reversible(curve, start, end, surface),
        core.next + 3 < u64::MAX,
    ensures
        ({
            let once = core.reverse_half_edge(half_edge, curve, start, end, surface);
            let twice = once.reverse_half_edge(
                (core.next + 1) as u64,
                core.next,
                start,
                end,
                surface,
            );
            &&& once.knows((core.next + 1) as u64)
            &&& once.half_edge_is_reversible(core.next, start, end, surface)
            &&& twice.geometry.curves[once.next][surface] == core.geometry.curves[curve][surface]
            &&& twice.geometry.vertices[start][once.next] == core.geometry.vertices[start][curve]
            &&& twice.geometry.vertices[end][once.next] == core.geometry.vertices[end][curve]
        }),
{
    crate::math::reverse_is_an_involution(core.geometry.curves[curve][surface].path);
}

/// Reversing a half-edge touches nothing but the new curve: the surfaces,
/// the paths of every curve that the store of the context handed out and
/// the positions of every vertex on every such curve stay as they were.
pub proof fn reverse_keeps_other_geometry(
    core: CoreView,
    half_edge: u64,
    curve: u64,
    start: u64,
    end: u64,
    surface: u64,
    other_vertex: u64,
    other_curve: u64,
)
    requires
        core.knows(other_curve),
    ensures
        ({
            let after = core.reverse_half_edge(half_edge, curve, start, end, surface);
            &&& after.geometry.surfaces == core.geometry.surfaces
            &&& after.geometry.of_curve(other_curve) == core.geometry.of_curve(other_curve)
            &&& after.geometry.has_vertex_on(other_vertex, other_curve)
                == core.geometry.has_vertex_on(other_vertex, other_curve)
            &&& core.geometry.has_vertex_on(other_vertex, other_curve)
                ==> after.geometry.vertices[other_vertex][other_curve]
                == core.geometry.vertices[other_vertex][other_curve]
        }),
{
}

/// Reversing a half-edge that runs from one end of its curve's unit
/// interval to the other leaves both of its vertices where they lay on the
/// surface: their positions on the new curve name the same points.
pub proof fn reverse_keeps_vertices_in_place(
    core: CoreView,
    half_edge: u64,
    curve: u64,
    start: u64,
    end: u64,
    surface: u64,
)
    requires
        core.half_edge_is_reversible(curve, start, end, surface),
        core.geometry.vertices[start][curve].position.t
            + core.geometry.vertices[end][curve].position.t == 1,
    ensures
        ({
            let after = core.reverse_half_edge(half_edge, curve, start, end, surface);
            &&& position_on_surface(after.geometry, start, core.next, surface)
                == position_on_surface(core.geometry, start, curve, surface)
            &&& position_on_surface(after.geometry, end, core.next, surface)
                == position_on_surface(core.geometry, end, curve, surface)
        }),
{
    let after = core.reverse_half_edge(half_edge, curve, start, end, surface);
    let path = core.geometry.curves[curve][surface].path;
    let t_start = core.geometry.vertices[start][curve].position.t;
    let t_end = core.geometry.vertices[end][curve].position.t;
    assert(start != end);
    assert(after.geometry.curves[core.next][surface].path == path.reversed());
    assert(after.geometry.vertices[start][core.next].position.t == t_end);
    assert(after.geometry.vertices[end][core.next].position.t == t_start);
    reverse_keeps_the_points(path, t_start as int);
    reverse_keeps_the_points(path, t_end as int);
    position_is_exact(core.geometry, start, curve, surface);
    position_is_exact(core.geometry, end, curve, surface);
    position_is_exact(after.geometry, start, core.next, surface);
    position_is_exact(after.geometry, end, core.next, surface);
}

} // verus!
