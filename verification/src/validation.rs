use crate::geometry::{Geometry, GeometryView};
use crate::handle::Handle;
use crate::math::{distance, integer_sqrt_up, squared_distance, Point2};
use crate::topology::{Cycle, Face, HalfEdge, Region, Sketch, Surface};
use vstd::prelude::*;

verus! {

/// The tolerances that the checks go by.
#[derive(Clone, Copy, Debug, PartialEq, Eq, Structural)]
pub struct ValidationConfig {
    /// The largest distance at which two positions still count as one.
    pub identical_max_distance: u64,
}

impl Default for ValidationConfig {
    /// The strictest configuration: only positions that coincide count as
    /// one.
    fn default() -> (config: Self)
        ensures
            config.identical_max_distance == 0,
    {
        ValidationConfig { identical_max_distance: 0 }
    }
}

/// Two half-edges that follow each other in a cycle do not meet.
///
/// A half-edge names only the vertex it starts at; it ends where the next
/// one starts. The position of that shared vertex is defined twice, once on
/// each of the two curves, and the two definitions lie further apart on the
/// surface than the tolerance allows.
pub struct AdjacentHalfEdgesNotConnected {
    /// Where the first half-edge ends, on the surface.
    pub end_pos_of_first_half_edge: Point2,
    /// Where the second half-edge starts, on the surface.
    pub start_pos_of_second_half_edge: Point2,
    /// The distance between the two positions, rounded up to whole grid
    /// units: the gap itself where it is whole. It is always greater than
    /// the tolerance.
    pub distance_between_positions: u64,
    /// The square of the distance between the two positions, which is
    /// exact.
    pub squared_distance_between_positions: u128,
    /// The two half-edges, in the order of the cycle.
    pub unconnected_half_edges: [Handle<HalfEdge>; 2],
}

/// Where `vertex` lies on `surface` when it is placed by its position on
/// `curve` and by the path of `curve` on `surface`.
pub open spec fn position_on_surface(
    geometry: GeometryView,
    vertex: u64,
    curve: u64,
    surface: u64,
) -> Point2 {
    let t = geometry.vertices[vertex][curve].position.t;
    let path = geometry.curves[curve][surface].path;
    Point2 {
        u: (path.origin.u + path.direction.u * t) as i64,
        v: (path.origin.v + path.direction.v * t) as i64,
    }
}

/// Whether two positions lie further apart than `tolerance`. A distance
/// that equals the tolerance is not further.
pub open spec fn further_apart_than(a: Point2, b: Point2, tolerance: u64) -> bool {
    squared_distance(a, b) > tolerance * tolerance
}

/// Whether both curves of the pair have a path on the surface. A pair of
/// which one has none holds nothing that could be checked there.
pub open spec fn pair_is_on_surface(
    geometry: GeometryView,
    first: HalfEdge,
    second: HalfEdge,
    surface: u64,
) -> bool {
    geometry.has_curve_on(first.curve.id(), surface) && geometry.has_curve_on(
        second.curve.id(),
        surface,
    )
}

/// Whether the geometry that a check of the pair reads is defined:
/// something of each of the two curves, and, where both curves have a path
/// on the surface, the position of the shared vertex on each of them.
pub open spec fn pair_is_defined(
    geometry: GeometryView,
    first: HalfEdge,
    second: HalfEdge,
    surface: u64,
) -> bool {
    &&& geometry.curves.contains_key(first.curve.id())
    &&& geometry.curves.contains_key(second.curve.id())
    &&& pair_is_on_surface(geometry, first, second, surface) ==> {
        &&& geometry.has_vertex_on(second.start_vertex.id(), first.curve.id())
        &&& geometry.has_vertex_on(second.start_vertex.id(), second.curve.id())
    }
}

/// What a check of the pair finds: nothing where one of the two curves has
/// no path on the surface, nothing where the two positions of the shared
/// vertex lie within the tolerance, and else the two positions, their
/// distance, its square and the two half-edges.
pub open spec fn pair_finding(
    geometry: GeometryView,
    first: Handle<HalfEdge>,
    second: Handle<HalfEdge>,
    surface: u64,
    tolerance: u64,
) -> Option<AdjacentHalfEdgesNotConnected> {
    let shared = second.value().start_vertex.id();
    let end = position_on_surface(geometry, shared, first.value().curve.id(), surface);
    let start = position_on_surface(geometry, shared, second.value().curve.id(), surface);
    if pair_is_on_surface(geometry, first.value(), second.value(), surface) && further_apart_than(
        end,
        start,
        tolerance,
    ) {
        Some(
            AdjacentHalfEdgesNotConnected {
                end_pos_of_first_half_edge: end,
                start_pos_of_second_half_edge: start,
                distance_between_positions: distance(end, start) as u64,
                squared_distance_between_positions: squared_distance(end, start) as u128,
                unconnected_half_edges: [first, second],
            },
        )
    } else {
        None
    }
}

/// Whether every pair of the cycle has its geometry defined. The last
/// half-edge is paired with the first.
pub open spec fn cycle_is_defined(cycle: Cycle, geometry: GeometryView, surface: u64) -> bool {
    forall|i: int|
        0 <= i < cycle.half_edges@.len() ==> pair_is_defined(
            geometry,
            (#[trigger] cycle.half_edges@[i]).value(),
            cycle.half_edges@[cycle.next_index(i)].value(),
            surface,
        )
}

/// The findings of the first `count` pairs of the cycle, in order.
pub open spec fn cycle_findings(
    cycle: Cycle,
    geometry: GeometryView,
    surface: u64,
    tolerance: u64,
    count: nat,
) -> Seq<AdjacentHalfEdgesNotConnected>
    decreases count,
{
    if count == 0 {
        Seq::empty()
    } else {
        let before = cycle_findings(cycle, geometry, surface, tolerance, (count - 1) as nat);
        match pair_finding(
            geometry,
            cycle.half_edges@[count - 1],
            cycle.half_edges@[cycle.next_index(count - 1)],
            surface,
            tolerance,
        ) {
            Some(finding) => before.push(finding),
            None => before,
        }
    }
}

proof fn tolerance_squared_fits(tolerance: u64)
    ensures
        tolerance * tolerance <= u128::MAX,
{
    assert(tolerance * tolerance <= 0xffff_ffff_ffff_ffff * 0xffff_ffff_ffff_ffff)
        by (nonlinear_arith)
        requires
            0 <= tolerance <= 0xffff_ffff_ffff_ffff,
    ;
}

/// Whether `check_pair` can be called with these arguments.
pub fn pair_can_be_checked(
    first: &Handle<HalfEdge>,
    second: &Handle<HalfEdge>,
    surface: &Handle<Surface>,
    geometry: &Geometry,
) -> (defined: bool)
    ensures
        defined == pair_is_defined(geometry@, first.value(), second.value(), surface.id()),
{
    let shared = second.get().start_vertex();
    let first_curve = first.get().curve();
    let second_curve = second.get().curve();
    if geometry.of_curve(first_curve).is_none() || geometry.of_curve(second_curve).is_none() {
        return false;
    }
    if !geometry.has_curve_on(first_curve, surface) || !geometry.has_curve_on(
        second_curve,
        surface,
    ) {
        return true;
    }
    geometry.has_vertex_on(shared, first_curve) && geometry.has_vertex_on(shared, second_curve)
}

/// Whether `check_cycle` can be called with these arguments.
pub fn cycle_can_be_checked(cycle: &Cycle, surface: &Handle<Surface>, geometry: &Geometry) -> (defined:
    bool)
    ensures
        defined == cycle_is_defined(*cycle, geometry@, surface.id()),
{
    let count: usize = cycle.half_edges.len();
    let mut i: usize = 0;
    while i < count
        invariant
            i <= count,
            count == cycle.half_edges@.len(),
            forall|k: int|
                0 <= k < i ==> pair_is_defined(
                    geometry@,
                    (#[trigger] cycle.half_edges@[k]).value(),
                    cycle.half_edges@[cycle.next_index(k)].value(),
                    surface.id(),
                ),
        decreases count - i,
    {
        let next: usize = if i + 1 == count {
            0
        } else {
            i + 1
        };
        if !pair_can_be_checked(&cycle.half_edges[i], &cycle.half_edges[next], surface, geometry) {
            assert(!pair_is_defined(
                geometry@,
                cycle.half_edges@[i as int].value(),
                cycle.half_edges@[cycle.next_index(i as int)].value(),
                surface.id(),
            ));
            return false;
        }
        i = i + 1;
    }
    true
}

/// Whether `check_region` can be called with these arguments.
pub fn region_can_be_checked(region: &Region, surface: &Handle<Surface>, geometry: &Geometry) -> (defined:
    bool)
    ensures
        defined == region_is_defined(*region, geometry@, surface.id()),
{
    if !cycle_can_be_checked(region.exterior.get(), surface, geometry) {
        return false;
    }
    let count: usize = region.interiors.len();
    let mut i: usize = 0;
    while i < count
        invariant
            i <= count,
            count == region.interiors@.len(),
            forall|k: int|
                0 <= k < i ==> cycle_is_defined(
                    (#[trigger] region.interiors@[k]).value(),
                    geometry@,
                    surface.id(),
                ),
        decreases count - i,
    {
        if !cycle_can_be_checked(region.interiors[i].get(), surface, geometry) {
            assert(!cycle_is_defined(
                region.interiors@[i as int].value(),
                geometry@,
                surface.id(),
            ));
            return false;
        }
        i = i + 1;
    }
    true
}

/// Checks one pair of half-edges that follow each other.
pub fn check_pair(
    first: &Handle<HalfEdge>,
    second: &Handle<HalfEdge>,
    surface: &Handle<Surface>,
    geometry: &Geometry,
    config: &ValidationConfig,
) -> (finding: Option<AdjacentHalfEdgesNotConnected>)
    requires
        pair_is_defined(geometry@, first.value(), second.value(), surface.id()),
    ensures
        finding == pair_finding(
            geometry@,
            *first,
            *second,
            surface.id(),
            config.identical_max_distance,
        ),
{
    // If the geometry of either curve is not defined for our local surface,
    // there's nothing we can check.
    let first_curve_geometry = match geometry.of_curve(first.get().curve()).unwrap().local_on(
        surface,
    ) {
        Some(local) => local,
        None => {
            return None;
        },
    };
    let second_curve_geometry = match geometry.of_curve(second.get().curve()).unwrap().local_on(
        surface,
    ) {
        Some(local) => local,
        None => {
            return None;
        },
    };

    let shared = second.get().start_vertex();
    let shared_geometry = geometry.of_vertex(shared).unwrap();

    let end_pos_of_first_half_edge = {
        let end = shared_geometry.local_on(first.get().curve()).unwrap().position;
        first_curve_geometry.path.point_from_line_coords(end)
    };

    let start_pos_of_second_half_edge = {
        let point_curve = shared_geometry.local_on(second.get().curve()).unwrap().position;
        second_curve_geometry.path.point_from_line_coords(point_curve)
    };

    let squared_distance_between_positions = end_pos_of_first_half_edge.squared_distance_to(
        &start_pos_of_second_half_edge,
    );
    proof {
        tolerance_squared_fits(config.identical_max_distance);
    }
    let tolerance: u128 = config.identical_max_distance as u128;

    if squared_distance_between_positions > tolerance * tolerance {
        return Some(
            AdjacentHalfEdgesNotConnected {
                end_pos_of_first_half_edge,
                start_pos_of_second_half_edge,
                distance_between_positions: integer_sqrt_up(squared_distance_between_positions),
                squared_distance_between_positions,
                unconnected_half_edges: [first.clone(), second.clone()],
            },
        );
    }
    None
}

/// Checks every pair of half-edges of the cycle that follow each other, the
/// last and the first among them, and returns what it finds in the order of
/// the cycle.
pub fn check_cycle(
    cycle: &Cycle,
    surface: &Handle<Surface>,
    geometry: &Geometry,
    config: &ValidationConfig,
) -> (found: Vec<AdjacentHalfEdgesNotConnected>)
    requires
        cycle_is_defined(*cycle, geometry@, surface.id()),
    ensures
        found@ == cycle_findings(
            *cycle,
            geometry@,
            surface.id(),
            config.identical_max_distance,
            cycle.half_edges@.len(),
        ),
{
    let count: usize = cycle.half_edges.len();
    let mut found: Vec<AdjacentHalfEdgesNotConnected> = Vec::new();
    let mut i: usize = 0;
    while i < count
        invariant
            i <= count,
            count == cycle.half_edges@.len(),
            cycle_is_defined(*cycle, geometry@, surface.id()),
            found@ == cycle_findings(
                *cycle,
                geometry@,
                surface.id(),
                config.identical_max_distance,
                i as nat,
            ),
        decreases count - i,
    {
        let next: usize = if i + 1 == count {
            0
        } else {
            i + 1
        };
        let first = &cycle.half_edges[i];
        let second = &cycle.half_edges[next];
        match check_pair(first, second, surface, geometry, config) {
            Some(finding) => {
                found.push(finding);
            },
            None => {},
        }
        i = i + 1;
    }
    found
}

/// All the findings of one cycle.
pub open spec fn all_cycle_findings(
    cycle: Cycle,
    geometry: GeometryView,
    surface: u64,
    tolerance: u64,
) -> Seq<AdjacentHalfEdgesNotConnected> {
    cycle_findings(cycle, geometry, surface, tolerance, cycle.half_edges@.len())
}

/// The findings of the first `count` of the cycles, one cycle after the
/// other.
pub open spec fn cycles_findings(
    cycles: Seq<Handle<Cycle>>,
    geometry: GeometryView,
    surface: u64,
    tolerance: u64,
    count: nat,
) -> Seq<AdjacentHalfEdgesNotConnected>
    decreases count,
{
    if count == 0 {
        Seq::empty()
    } else {
        cycles_findings(cycles, geometry, surface, tolerance, (count - 1) as nat)
            + all_cycle_findings(cycles[count - 1].value(), geometry, surface, tolerance)
    }
}

/// Whether every pair of every cycle of the region has its geometry defined.
pub open spec fn region_is_defined(region: Region, geometry: GeometryView, surface: u64) -> bool {
    &&& cycle_is_defined(region.exterior.value(), geometry, surface)
    &&& forall|i: int|
        0 <= i < region.interiors@.len() ==> cycle_is_defined(
            (#[trigger] region.interiors@[i]).value(),
            geometry,
            surface,
        )
}

/// The findings of a region: those of its exterior, then those of its
/// interiors in their order.
pub open spec fn region_findings(
    region: Region,
    geometry: GeometryView,
    surface: u64,
    tolerance: u64,
) -> Seq<AdjacentHalfEdgesNotConnected> {
    all_cycle_findings(region.exterior.value(), geometry, surface, tolerance) + cycles_findings(
        region.interiors@,
        geometry,
        surface,
        tolerance,
        region.interiors@.len(),
    )
}

/// The findings of the first `count` of the regions, one region after the
/// other.
pub open spec fn regions_findings(
    regions: Seq<Handle<Region>>,
    geometry: GeometryView,
    surface: u64,
    tolerance: u64,
    count: nat,
) -> Seq<AdjacentHalfEdgesNotConnected>
    decreases count,
{
    if count == 0 {
        Seq::empty()
    } else {
        regions_findings(regions, geometry, surface, tolerance, (count - 1) as nat)
            + region_findings(regions[count - 1].value(), geometry, surface, tolerance)
    }
}

/// Checks the exterior of the region and then each of its interiors.
pub fn check_region(
    region: &Region,
    surface: &Handle<Surface>,
    geometry: &Geometry,
    config: &ValidationConfig,
) -> (found: Vec<AdjacentHalfEdgesNotConnected>)
    requires
        region_is_defined(*region, geometry@, surface.id()),
    ensures
        found@ == region_findings(
            *region,
            geometry@,
            surface.id(),
            config.identical_max_distance,
        ),
{
    let mut found = check_cycle(region.exterior.get(), surface, geometry, config);
    let ghost exterior = found@;
    let count: usize = region.interiors.len();
    let mut i: usize = 0;
    while i < count
        invariant
            i <= count,
            count == region.interiors@.len(),
            region_is_defined(*region, geometry@, surface.id()),
            found@ == exterior + cycles_findings(
                region.interiors@,
                geometry@,
                surface.id(),
                config.identical_max_distance,
                i as nat,
            ),
        decreases count - i,
    {
        let ghost before = found@;
        let mut interior = check_cycle(region.interiors[i].get(), surface, geometry, config);
        let ghost added = interior@;
        found.append(&mut interior);
        assert(found@ =~= exterior + (cycles_findings(
            region.interiors@,
            geometry@,
            surface.id(),
            config.identical_max_distance,
            i as nat,
        ) + added));
        i = i + 1;
    }
    found
}

/// A check that can be run on objects of type `T`.
pub trait ValidationCheck<T>: Sized {
    /// Whether the geometry that the check reads of `object` is defined.
    spec fn is_defined(object: &T, geometry: GeometryView) -> bool;

    /// Whether `check` can be called with these arguments.
    fn can_check(object: &T, geometry: &Geometry) -> (defined: bool)
        ensures
            defined == Self::is_defined(object, geometry@),
    ;

    /// What the check finds in `object`, in order.
    spec fn findings(object: &T, geometry: GeometryView, config: &ValidationConfig) -> Seq<Self>;

    /// Runs the check and returns all that it finds.
    fn check(object: &T, geometry: &Geometry, config: &ValidationConfig) -> (found: Vec<Self>)
        requires
            Self::is_defined(object, geometry@),
        ensures
            found@ == Self::findings(object, geometry@, config),
    ;
}

impl ValidationCheck<Face> for AdjacentHalfEdgesNotConnected {
    open spec fn is_defined(object: &Face, geometry: GeometryView) -> bool {
        region_is_defined(object.region.value(), geometry, object.surface.id())
    }

    open spec fn findings(object: &Face, geometry: GeometryView, config: &ValidationConfig) -> Seq<
        Self,
    > {
        region_findings(
            object.region.value(),
            geometry,
            object.surface.id(),
            config.identical_max_distance,
        )
    }

    fn can_check(object: &Face, geometry: &Geometry) -> (defined: bool) {
        region_can_be_checked(object.region.get(), &object.surface, geometry)
    }

    fn check(object: &Face, geometry: &Geometry, config: &ValidationConfig) -> (found: Vec<Self>) {
        check_region(object.region.get(), &object.surface, geometry, config)
    }
}

impl ValidationCheck<Sketch> for AdjacentHalfEdgesNotConnected {
    open spec fn is_defined(object: &Sketch, geometry: GeometryView) -> bool {
        forall|i: int|
            0 <= i < object.regions@.len() ==> region_is_defined(
                (#[trigger] object.regions@[i]).value(),
                geometry,
                object.surface.id(),
            )
    }

    open spec fn findings(
        object: &Sketch,
        geometry: GeometryView,
        config: &ValidationConfig,
    ) -> Seq<Self> {
        regions_findings(
            object.regions@,
            geometry,
            object.surface.id(),
            config.identical_max_distance,
            object.regions@.len(),
        )
    }

    fn can_check(object: &Sketch, geometry: &Geometry) -> (defined: bool) {
        let count: usize = object.regions.len();
        let mut i: usize = 0;
        while i < count
            invariant
                i <= count,
                count == object.regions@.len(),
                forall|k: int|
                    0 <= k < i ==> region_is_defined(
                        (#[trigger] object.regions@[k]).value(),
                        geometry@,
                        object.surface.id(),
                    ),
            decreases count - i,
        {
            if !region_can_be_checked(object.regions[i].get(), &object.surface, geometry) {
                assert(!region_is_defined(
                    object.regions@[i as int].value(),
                    geometry@,
                    object.surface.id(),
                ));
                return false;
            }
            i = i + 1;
        }
        true
    }

    fn check(object: &Sketch, geometry: &Geometry, config: &ValidationConfig) -> (found: Vec<
        Self,
    >) {
        let mut found: Vec<AdjacentHalfEdgesNotConnected> = Vec::new();
        let count: usize = object.regions.len();
        let mut i: usize = 0;
        while i < count
            invariant
                i <= count,
                count == object.regions@.len(),
                Self::is_defined(object, geometry@),
                found@ == regions_findings(
                    object.regions@,
                    geometry@,
                    object.surface.id(),
                    config.identical_max_distance,
                    i as nat,
                ),
            decreases count - i,
        {
            let mut region = check_region(object.regions[i].get(), &object.surface, geometry, config);
            found.append(&mut region);
            i = i + 1;
        }
        found
    }
}

/// Runs a check and returns the first thing that it finds as an error, or
/// `Ok` where it finds nothing.
pub fn check_and_return_first_error<T, C: ValidationCheck<T>>(
    object: &T,
    geometry: &Geometry,
    config: &ValidationConfig,
) -> (outcome: Result<(), C>)
    requires
        C::is_defined(object, geometry@),
    ensures
        outcome == if C::findings(object, geometry@, config).len() == 0 {
            Ok::<(), C>(())
        } else {
            Err(C::findings(object, geometry@, config)[0])
        },
{
    let mut found = C::check(object, geometry, config);
    if found.len() == 0 {
        Ok(())
    } else {
        Err(found.swap_remove(0))
    }
}

/// Runs a check that is known to find exactly one thing, and returns it.
pub fn check_and_expect_one_error<T, C: ValidationCheck<T>>(
    object: &T,
    geometry: &Geometry,
    config: &ValidationConfig,
) -> (finding: C)
    requires
        C::is_defined(object, geometry@),
        C::findings(object, geometry@, config).len() == 1,
    ensures
        finding == C::findings(object, geometry@, config)[0],
{
    let mut found = C::check(object, geometry, config);
    found.swap_remove(0)
}

} // verus!
