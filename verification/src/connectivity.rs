use crate::geometry::GeometryView;
use crate::handle::Handle;
use crate::math::{
    ceil_root_exists, ceil_sqrt, ceil_sqrt_is_unique, ceil_sqrt_of_a_square, is_ceil_sqrt, product_fits, square_fits,
    squared_distance, Point2, SQUARE_MAX,
};
use crate::topology::{Cycle, Face, HalfEdge};
use crate::validation::{
    cycle_findings, cycles_findings, further_apart_than, pair_finding, pair_is_defined,
    pair_is_on_surface, position_on_surface,
    region_findings, AdjacentHalfEdgesNotConnected, ValidationCheck, ValidationConfig,
};
use vstd::prelude::*;

verus! {

/// Whether the pair at `index` of the cycle is connected: one of its two
/// curves has no path on the surface, or the two positions of the shared
/// vertex lie within the tolerance.
pub open spec fn pair_is_connected(
    cycle: Cycle,
    geometry: GeometryView,
    surface: u64,
    tolerance: u64,
    index: int,
) -> bool {
    pair_finding(
        geometry,
        cycle.half_edges@[index],
        cycle.half_edges@[cycle.next_index(index)],
        surface,
        tolerance,
    ).is_none()
}

/// The tolerance is inclusive: two positions whose distance equals the
/// tolerance are not further apart than it, and two positions whose
/// distance is greater, by however little, are.
pub proof fn tolerance_is_inclusive(a: Point2, b: Point2, tolerance: u64)
    ensures
        squared_distance(a, b) == tolerance * tolerance ==> !further_apart_than(a, b, tolerance),
        squared_distance(a, b) > tolerance * tolerance ==> further_apart_than(a, b, tolerance),
        squared_distance(a, b) >= (tolerance + 1) * (tolerance + 1) ==> further_apart_than(
            a,
            b,
            tolerance,
        ),
{
    assert((tolerance + 1) * (tolerance + 1) > tolerance * tolerance) by (nonlinear_arith)
        requires
            tolerance >= 0,
    ;
}

/// Two positions that agree are never further apart than the tolerance.
pub proof fn equal_positions_are_connected(a: Point2, tolerance: u64)
    ensures
        !further_apart_than(a, a, tolerance),
{
    assert(tolerance * tolerance >= 0) by (nonlinear_arith);
}

/// A pair whose shared vertex lies at one position by both of its
/// definitions is connected, whatever the tolerance.
pub proof fn consistent_pair_is_connected(
    geometry: GeometryView,
    first: Handle<HalfEdge>,
    second: Handle<HalfEdge>,
    surface: u64,
    tolerance: u64,
)
    requires
        position_on_surface(
            geometry,
            second.value().start_vertex.id(),
            first.value().curve.id(),
            surface,
        ) == position_on_surface(
            geometry,
            second.value().start_vertex.id(),
            second.value().curve.id(),
            surface,
        ),
    ensures
        pair_finding(geometry, first, second, surface, tolerance).is_none(),
{
    equal_positions_are_connected(
        position_on_surface(
            geometry,
            second.value().start_vertex.id(),
            first.value().curve.id(),
            surface,
        ),
        tolerance,
    );
}

/// A pair of which one curve has no path on the surface is skipped: it has
/// no finding, wherever the shared vertex may lie. The other pairs of the
/// cycle have theirs all the same, since each pair is judged by itself.
pub proof fn pair_off_the_surface_has_no_finding(
    geometry: GeometryView,
    first: Handle<HalfEdge>,
    second: Handle<HalfEdge>,
    surface: u64,
    tolerance: u64,
)
    requires
        !pair_is_on_surface(geometry, first.value(), second.value(), surface),
    ensures
        pair_finding(geometry, first, second, surface, tolerance).is_none(),
        geometry.curves.contains_key(first.value().curve.id()) && geometry.curves.contains_key(
            second.value().curve.id(),
        ) ==> pair_is_defined(geometry, first.value(), second.value(), surface),
{
}

/// Every position that the check computes is that of the point of the
/// path, exactly: the integers of the grid hold it.
pub proof fn position_is_exact(geometry: GeometryView, vertex: u64, curve: u64, surface: u64)
    ensures
        ({
            let t = geometry.vertices[vertex][curve].position.t;
            let path = geometry.curves[curve][surface].path;
            let position = position_on_surface(geometry, vertex, curve, surface);
            &&& position.u == path.origin.u + path.direction.u * t
            &&& position.v == path.origin.v + path.direction.v * t
            &&& position.bounded()
        }),
{
    let t = geometry.vertices[vertex][curve].position.t;
    let path = geometry.curves[curve][surface].path;
    product_fits(path.direction.u, t);
    product_fits(path.direction.v, t);
}

/// What a finding reports is the gap that it found: the two positions of
/// the shared vertex, the exact square of their distance, which is greater
/// than the square of the tolerance, the distance rounded up, which is
/// greater than the tolerance, and the two half-edges in the order of the
/// cycle.
pub proof fn finding_reports_the_gap(
    geometry: GeometryView,
    first: Handle<HalfEdge>,
    second: Handle<HalfEdge>,
    surface: u64,
    tolerance: u64,
)
    requires
        pair_finding(geometry, first, second, surface, tolerance).is_some(),
    ensures
        ({
            let shared = second.value().start_vertex.id();
            let end = position_on_surface(geometry, shared, first.value().curve.id(), surface);
            let start = position_on_surface(geometry, shared, second.value().curve.id(), surface);
            let finding = pair_finding(geometry, first, second, surface, tolerance).unwrap();
            &&& finding.end_pos_of_first_half_edge == end
            &&& finding.start_pos_of_second_half_edge == start
            &&& finding.squared_distance_between_positions == squared_distance(end, start)
            &&& finding.squared_distance_between_positions > tolerance * tolerance
            &&& is_ceil_sqrt(
                squared_distance(end, start),
                finding.distance_between_positions as int,
            )
            &&& finding.distance_between_positions > tolerance
            &&& finding.unconnected_half_edges[0] == first
            &&& finding.unconnected_half_edges[1] == second
        }),
{
    let shared = second.value().start_vertex.id();
    let end = position_on_surface(geometry, shared, first.value().curve.id(), surface);
    let start = position_on_surface(geometry, shared, second.value().curve.id(), surface);
    position_is_exact(geometry, shared, first.value().curve.id(), surface);
    position_is_exact(geometry, shared, second.value().curve.id(), surface);
    square_fits(end.u - start.u);
    square_fits(end.v - start.v);
    let squared = squared_distance(end, start);
    assert(0 <= squared <= SQUARE_MAX);
    ceil_root_exists(squared);
    let root = ceil_sqrt(squared);
    assert(root <= 0xffff_ffff_ffff_ffff) by (nonlinear_arith)
        requires
            0 <= root,
            root == 0 || (root - 1) * (root - 1) < squared,
            squared <= 0xffff_ffff_ffff_fffe_0000_0000_0000_0001,
    ;
    assert(root > tolerance) by (nonlinear_arith)
        requires
            0 <= root,
            0 <= tolerance,
            squared <= root * root,
            squared > tolerance * tolerance,
    ;
}

/// Where the gap that was found is a whole number of grid units, the
/// finding reports that number as the distance.
pub proof fn finding_reports_a_whole_gap_exactly(
    geometry: GeometryView,
    first: Handle<HalfEdge>,
    second: Handle<HalfEdge>,
    surface: u64,
    tolerance: u64,
    gap: int,
)
    requires
        pair_finding(geometry, first, second, surface, tolerance).is_some(),
        0 <= gap,
        squared_distance(
            position_on_surface(
                geometry,
                second.value().start_vertex.id(),
                first.value().curve.id(),
                surface,
            ),
            position_on_surface(
                geometry,
                second.value().start_vertex.id(),
                second.value().curve.id(),
                surface,
            ),
        ) == gap * gap,
    ensures
        pair_finding(
            geometry,
            first,
            second,
            surface,
            tolerance,
        ).unwrap().distance_between_positions == gap,
{
    finding_reports_the_gap(geometry, first, second, surface, tolerance);
    ceil_sqrt_of_a_square(gap);
    let reported = pair_finding(
        geometry,
        first,
        second,
        surface,
        tolerance,
    ).unwrap().distance_between_positions as int;
    assert(0 <= gap * gap) by (nonlinear_arith);
    ceil_root_exists(gap * gap);
    ceil_sqrt_is_unique(gap * gap, reported, ceil_sqrt(gap * gap));
}

/// Whether a finding reports a gap above the tolerance: the exact square
/// of the distance between its two positions, which is greater than the
/// square of the tolerance, and that distance rounded up, which is greater
/// than the tolerance.
pub open spec fn reports_a_gap(finding: AdjacentHalfEdgesNotConnected, tolerance: u64) -> bool {
    &&& finding.squared_distance_between_positions == squared_distance(
        finding.end_pos_of_first_half_edge,
        finding.start_pos_of_second_half_edge,
    )
    &&& finding.squared_distance_between_positions > tolerance * tolerance
    &&& is_ceil_sqrt(
        finding.squared_distance_between_positions as int,
        finding.distance_between_positions as int,
    )
    &&& finding.distance_between_positions > tolerance
}

/// Whether every one of the findings reports a gap above the tolerance.
pub open spec fn all_report_gaps(
    found: Seq<AdjacentHalfEdgesNotConnected>,
    tolerance: u64,
) -> bool {
    forall|k: int| 0 <= k < found.len() ==> reports_a_gap(#[trigger] found[k], tolerance)
}

/// Every finding of a cycle reports a gap above the tolerance.
pub proof fn cycle_findings_report_gaps(
    cycle: Cycle,
    geometry: GeometryView,
    surface: u64,
    tolerance: u64,
    count: nat,
)
    requires
        count <= cycle.half_edges@.len(),
    ensures
        all_report_gaps(cycle_findings(cycle, geometry, surface, tolerance, count), tolerance),
    decreases count,
{
    if count > 0 {
        cycle_findings_report_gaps(cycle, geometry, surface, tolerance, (count - 1) as nat);
        let first = cycle.half_edges@[count - 1];
        let second = cycle.half_edges@[cycle.next_index(count - 1)];
        if pair_finding(geometry, first, second, surface, tolerance).is_some() {
            finding_reports_the_gap(geometry, first, second, surface, tolerance);
        }
    }
}

/// Every finding of a sequence of cycles reports a gap above the
/// tolerance.
pub proof fn cycles_findings_report_gaps(
    cycles: Seq<Handle<Cycle>>,
    geometry: GeometryView,
    surface: u64,
    tolerance: u64,
    count: nat,
)
    requires
        count <= cycles.len(),
    ensures
        all_report_gaps(cycles_findings(cycles, geometry, surface, tolerance, count), tolerance),
    decreases count,
{
    if count > 0 {
        cycles_findings_report_gaps(cycles, geometry, surface, tolerance, (count - 1) as nat);
        let last = cycles[count - 1].value();
        cycle_findings_report_gaps(last, geometry, surface, tolerance, last.half_edges@.len());
    }
}

/// Every finding of a face reports a gap above the tolerance: no error
/// carries a distance that the tolerance allows.
pub proof fn face_findings_report_gaps(face: Face, geometry: GeometryView, config: ValidationConfig)
    ensures
        all_report_gaps(
            <AdjacentHalfEdgesNotConnected as ValidationCheck<Face>>::findings(
                &face,
                geometry,
                &config,
            ),
            config.identical_max_distance,
        ),
{
    let region = face.region.value();
    let exterior = region.exterior.value();
    cycle_findings_report_gaps(
        exterior,
        geometry,
        face.surface.id(),
        config.identical_max_distance,
        exterior.half_edges@.len(),
    );
    cycles_findings_report_gaps(
        region.interiors@,
        geometry,
        face.surface.id(),
        config.identical_max_distance,
        region.interiors@.len(),
    );
}

/// Whether every pair of the cycle is connected.
pub open spec fn cycle_is_connected(
    cycle: Cycle,
    geometry: GeometryView,
    surface: u64,
    tolerance: u64,
) -> bool {
    forall|i: int|
        0 <= i < cycle.half_edges@.len() ==> pair_is_connected(
            cycle,
            geometry,
            surface,
            tolerance,
            i,
        )
}

/// Cycles in each of which every pair is connected have no findings.
pub proof fn connected_cycles_have_no_findings(
    cycles: Seq<Handle<Cycle>>,
    geometry: GeometryView,
    surface: u64,
    tolerance: u64,
    count: nat,
)
    requires
        count <= cycles.len(),
        forall|k: int|
            0 <= k < count ==> cycle_is_connected(
                (#[trigger] cycles[k]).value(),
                geometry,
                surface,
                tolerance,
            ),
    ensures
        cycles_findings(cycles, geometry, surface, tolerance, count) == Seq::<
            AdjacentHalfEdgesNotConnected,
        >::empty(),
    decreases count,
{
    if count > 0 {
        connected_cycles_have_no_findings(cycles, geometry, surface, tolerance, (count - 1) as nat);
        let last = cycles[count - 1].value();
        assert(cycle_is_connected(last, geometry, surface, tolerance));
        connected_cycle_has_no_findings(
            last,
            geometry,
            surface,
            tolerance,
            last.half_edges@.len(),
        );
        assert(cycles_findings(cycles, geometry, surface, tolerance, count) =~= Seq::<
            AdjacentHalfEdgesNotConnected,
        >::empty());
    }
}

/// A face in whose cycles every pair is connected passes the check: there
/// are no findings.
pub proof fn connected_face_has_no_findings(
    face: Face,
    geometry: GeometryView,
    config: ValidationConfig,
)
    requires
        cycle_is_connected(
            face.region.value().exterior.value(),
            geometry,
            face.surface.id(),
            config.identical_max_distance,
        ),
        forall|k: int|
            0 <= k < face.region.value().interiors@.len() ==> cycle_is_connected(
                (#[trigger] face.region.value().interiors@[k]).value(),
                geometry,
                face.surface.id(),
                config.identical_max_distance,
            ),
    ensures
        <AdjacentHalfEdgesNotConnected as ValidationCheck<Face>>::findings(
            &face,
            geometry,
            &config,
        ) == Seq::<AdjacentHalfEdgesNotConnected>::empty(),
{
    let region = face.region.value();
    let exterior = region.exterior.value();
    connected_cycle_has_no_findings(
        exterior,
        geometry,
        face.surface.id(),
        config.identical_max_distance,
        exterior.half_edges@.len(),
    );
    connected_cycles_have_no_findings(
        region.interiors@,
        geometry,
        face.surface.id(),
        config.identical_max_distance,
        region.interiors@.len(),
    );
    assert(region_findings(region, geometry, face.surface.id(), config.identical_max_distance)
        =~= Seq::<AdjacentHalfEdgesNotConnected>::empty());
}

/// Whether the shared vertex of the pair at `index` of the cycle lies at one
/// position by both of its definitions.
pub open spec fn pair_is_consistent(
    cycle: Cycle,
    geometry: GeometryView,
    surface: u64,
    index: int,
) -> bool {
    let first = cycle.half_edges@[index].value();
    let second = cycle.half_edges@[cycle.next_index(index)].value();
    position_on_surface(geometry, second.start_vertex.id(), first.curve.id(), surface)
        == position_on_surface(geometry, second.start_vertex.id(), second.curve.id(), surface)
}

/// Whether every shared vertex of the cycle lies at one position by both of
/// its definitions.
pub open spec fn cycle_is_consistent(cycle: Cycle, geometry: GeometryView, surface: u64) -> bool {
    forall|i: int|
        0 <= i < cycle.half_edges@.len() ==> pair_is_consistent(cycle, geometry, surface, i)
}

/// A cycle whose vertices are defined consistently is connected, whatever
/// the tolerance.
pub proof fn consistent_cycle_is_connected(
    cycle: Cycle,
    geometry: GeometryView,
    surface: u64,
    tolerance: u64,
)
    requires
        cycle_is_consistent(cycle, geometry, surface),
    ensures
        cycle_is_connected(cycle, geometry, surface, tolerance),
{
    assert forall|i: int| 0 <= i < cycle.half_edges@.len() implies pair_is_connected(
        cycle,
        geometry,
        surface,
        tolerance,
        i,
    ) by {
        assert(pair_is_consistent(cycle, geometry, surface, i));
        consistent_pair_is_connected(
            geometry,
            cycle.half_edges@[i],
            cycle.half_edges@[cycle.next_index(i)],
            surface,
            tolerance,
        );
    }
}

/// A face whose vertices are defined consistently passes the check,
/// whatever the tolerance: there are no findings.
pub proof fn consistent_face_has_no_findings(
    face: Face,
    geometry: GeometryView,
    config: ValidationConfig,
)
    requires
        cycle_is_consistent(face.region.value().exterior.value(), geometry, face.surface.id()),
        forall|k: int|
            0 <= k < face.region.value().interiors@.len() ==> cycle_is_consistent(
                (#[trigger] face.region.value().interiors@[k]).value(),
                geometry,
                face.surface.id(),
            ),
    ensures
        <AdjacentHalfEdgesNotConnected as ValidationCheck<Face>>::findings(
            &face,
            geometry,
            &config,
        ) == Seq::<AdjacentHalfEdgesNotConnected>::empty(),
{
    let region = face.region.value();
    consistent_cycle_is_connected(
        region.exterior.value(),
        geometry,
        face.surface.id(),
        config.identical_max_distance,
    );
    assert forall|k: int| 0 <= k < region.interiors@.len() implies cycle_is_connected(
        (#[trigger] region.interiors@[k]).value(),
        geometry,
        face.surface.id(),
        config.identical_max_distance,
    ) by {
        consistent_cycle_is_connected(
            region.interiors@[k].value(),
            geometry,
            face.surface.id(),
            config.identical_max_distance,
        );
    }
    connected_face_has_no_findings(face, geometry, config);
}

/// A face without holes in whose boundary exactly one pair is not connected
/// has exactly one finding: that pair's.
pub proof fn face_with_one_gap_has_one_finding(
    face: Face,
    geometry: GeometryView,
    config: ValidationConfig,
    index: int,
)
    requires
        face.region.value().interiors@.len() == 0,
        0 <= index < face.region.value().exterior.value().half_edges@.len(),
        forall|i: int|
            0 <= i < face.region.value().exterior.value().half_edges@.len() && i != index
                ==> pair_is_connected(
                face.region.value().exterior.value(),
                geometry,
                face.surface.id(),
                config.identical_max_distance,
                i,
            ),
        !pair_is_connected(
            face.region.value().exterior.value(),
            geometry,
            face.surface.id(),
            config.identical_max_distance,
            index,
        ),
    ensures
        <AdjacentHalfEdgesNotConnected as ValidationCheck<Face>>::findings(
            &face,
            geometry,
            &config,
        ) == seq![
            pair_finding(
                geometry,
                face.region.value().exterior.value().half_edges@[index],
                face.region.value().exterior.value().half_edges@[face.region.value().exterior.value().next_index(
                    index,
                )],
                face.surface.id(),
                config.identical_max_distance,
            ).unwrap(),
        ],
{
    let region = face.region.value();
    let exterior = region.exterior.value();
    single_unconnected_pair_is_the_finding(
        exterior,
        geometry,
        face.surface.id(),
        config.identical_max_distance,
        exterior.half_edges@.len(),
        index,
    );
    assert(region_findings(region, geometry, face.surface.id(), config.identical_max_distance)
        =~= cycle_findings(
        exterior,
        geometry,
        face.surface.id(),
        config.identical_max_distance,
        exterior.half_edges@.len(),
    ));
}

/// A cycle in which every pair is connected has no findings.
pub proof fn connected_cycle_has_no_findings(
    cycle: Cycle,
    geometry: GeometryView,
    surface: u64,
    tolerance: u64,
    count: nat,
)
    requires
        count <= cycle.half_edges@.len(),
        forall|i: int| 0 <= i < count ==> pair_is_connected(cycle, geometry, surface, tolerance, i),
    ensures
        cycle_findings(cycle, geometry, surface, tolerance, count) == Seq::<
            AdjacentHalfEdgesNotConnected,
        >::empty(),
    decreases count,
{
    if count > 0 {
        connected_cycle_has_no_findings(cycle, geometry, surface, tolerance, (count - 1) as nat);
        assert(pair_is_connected(cycle, geometry, surface, tolerance, count - 1));
    }
}

/// Every pair of a cycle that is not connected is among the findings.
pub proof fn unconnected_pair_is_found(
    cycle: Cycle,
    geometry: GeometryView,
    surface: u64,
    tolerance: u64,
    count: nat,
    index: int,
)
    requires
        0 <= index < count <= cycle.half_edges@.len(),
        !pair_is_connected(cycle, geometry, surface, tolerance, index),
    ensures
        cycle_findings(cycle, geometry, surface, tolerance, count).contains(
            pair_finding(
                geometry,
                cycle.half_edges@[index],
                cycle.half_edges@[cycle.next_index(index)],
                surface,
                tolerance,
            ).unwrap(),
        ),
    decreases count,
{
    let finding = pair_finding(
        geometry,
        cycle.half_edges@[index],
        cycle.half_edges@[cycle.next_index(index)],
        surface,
        tolerance,
    ).unwrap();
    let before = cycle_findings(cycle, geometry, surface, tolerance, (count - 1) as nat);
    let all = cycle_findings(cycle, geometry, surface, tolerance, count);
    if index == count - 1 {
        assert(all == before.push(finding));
        assert(all[before.len() as int] == finding);
    } else {
        unconnected_pair_is_found(cycle, geometry, surface, tolerance, (count - 1) as nat, index);
        let at = choose|k: int| 0 <= k < before.len() && before[k] == finding;
        assert(all[at] == finding);
    }
}

/// A cycle with exactly one pair that is not connected has exactly one
/// finding: that pair's.
pub proof fn single_unconnected_pair_is_the_finding(
    cycle: Cycle,
    geometry: GeometryView,
    surface: u64,
    tolerance: u64,
    count: nat,
    index: int,
)
    requires
        count <= cycle.half_edges@.len(),
        0 <= index,
        forall|i: int|
            0 <= i < count && i != index ==> pair_is_connected(
                cycle,
                geometry,
                surface,
                tolerance,
                i,
            ),
        index < count ==> !pair_is_connected(cycle, geometry, surface, tolerance, index),
    ensures
        cycle_findings(cycle, geometry, surface, tolerance, count) == if index < count {
            seq![
                pair_finding(
                    geometry,
                    cycle.half_edges@[index],
                    cycle.half_edges@[cycle.next_index(index)],
                    surface,
                    tolerance,
                ).unwrap(),
            ]
        } else {
            Seq::<AdjacentHalfEdgesNotConnected>::empty()
        },
    decreases count,
{
    if count > 0 {
        single_unconnected_pair_is_the_finding(
            cycle,
            geometry,
            surface,
            tolerance,
            (count - 1) as nat,
            index,
        );
        let before = cycle_findings(cycle, geometry, surface, tolerance, (count - 1) as nat);
        let all = cycle_findings(cycle, geometry, surface, tolerance, count);
        if index == count - 1 {
            assert(all =~= seq![
                pair_finding(
                    geometry,
                    cycle.half_edges@[index],
                    cycle.half_edges@[cycle.next_index(index)],
                    surface,
                    tolerance,
                ).unwrap(),
            ]);
        } else {
            assert(pair_is_connected(cycle, geometry, surface, tolerance, count - 1));
        }
    }
}

} // verus!
