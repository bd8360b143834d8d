use brep_core::context::Core;
use brep_core::geometry::{LocalCurveGeom, LocalVertexGeom};
use brep_core::handle::Handle;
use brep_core::math::{Line, Point1, Point2, Vector2};
use brep_core::topology::{Curve, Cycle, Face, HalfEdge, Region, Sketch, Surface, Vertex};
use brep_core::validation::{
    check_and_expect_one_error, check_and_return_first_error, check_cycle, check_pair,
    check_region, cycle_can_be_checked, pair_can_be_checked, region_can_be_checked,
    AdjacentHalfEdgesNotConnected, ValidationCheck, ValidationConfig,
};

fn position(t: i32) -> LocalVertexGeom {
    LocalVertexGeom { position: Point1 { t } }
}

/// A half-edge along the line from `from` to `to`, with a new curve and a new
/// start vertex; the start sits at 0 on the curve.
fn line_segment(
    from: [i32; 2],
    to: [i32; 2],
    surface: &Handle<Surface>,
    core: &mut Core,
) -> Handle<HalfEdge> {
    let path = Line::from_origin_and_direction(
        Vector2 { u: from[0], v: from[1] },
        Vector2 { u: to[0] - from[0], v: to[1] - from[1] },
    )
    .unwrap();
    let curve = core.store.insert(Curve::new());
    let vertex = core.store.insert(Vertex::new());
    core.geometry.define_curve(curve.clone(), surface.clone(), LocalCurveGeom { path });
    core.geometry.define_vertex(vertex.clone(), curve.clone(), position(0));
    core.store.insert(HalfEdge::new(curve, vertex))
}

/// The half-edges of a closed polygon through `points`; each vertex sits at 0
/// on the curve that leaves it and at 1 on the curve that reaches it.
fn polygon_edges(
    points: &[[i32; 2]],
    surface: &Handle<Surface>,
    core: &mut Core,
) -> Vec<Handle<HalfEdge>> {
    let mut half_edges = Vec::new();
    for i in 0..points.len() {
        let next = (i + 1) % points.len();
        half_edges.push(line_segment(points[i], points[next], surface, core));
    }
    for i in 0..half_edges.len() {
        let next = (i + 1) % half_edges.len();
        core.geometry.define_vertex(
            half_edges[next].get().start_vertex().clone(),
            half_edges[i].get().curve().clone(),
            position(1),
        );
    }
    half_edges
}

fn face_of(
    exterior: Vec<Handle<HalfEdge>>,
    interiors: Vec<Vec<Handle<HalfEdge>>>,
    surface: &Handle<Surface>,
    core: &mut Core,
) -> Face {
    let exterior = core.store.insert(Cycle::new(exterior));
    let mut holes = Vec::new();
    for interior in interiors {
        holes.push(core.store.insert(Cycle::new(interior)));
    }
    let region = core.store.insert(Region::new(exterior, holes));
    Face::new(region, surface.clone())
}

/// A triangle, and the same triangle with its first half-edge replaced by one
/// that ends at (2, 0).
fn triangle_and_broken_triangle(core: &mut Core) -> (Handle<Surface>, Face, Face) {
    let surface = core.store.insert(Surface::new());
    let edges = polygon_edges(&[[0, 0], [1, 0], [1, 1]], &surface, core);
    let valid = face_of(edges.clone(), Vec::new(), &surface, core);

    let half_edge = line_segment([0, 0], [2, 0], &surface, core);
    let half_edge_prev = edges[2].clone();
    let half_edge_next = edges[1].get().start_vertex().clone();
    let inherited = *core
        .geometry
        .of_vertex(edges[0].get().start_vertex())
        .unwrap()
        .local_on(half_edge_prev.get().curve())
        .unwrap();
    core.geometry.define_vertex(
        half_edge.get().start_vertex().clone(),
        half_edge_prev.get().curve().clone(),
        inherited,
    );
    core.geometry.define_vertex(
        half_edge.get().start_vertex().clone(),
        half_edge.get().curve().clone(),
        position(0),
    );
    core.geometry.define_vertex(half_edge_next, half_edge.get().curve().clone(), position(1));
    let invalid = face_of(
        vec![half_edge, edges[1].clone(), edges[2].clone()],
        Vec::new(),
        &surface,
        core,
    );
    (surface, valid, invalid)
}

#[test]
fn adjacent_half_edges_not_connected() {
    let mut core = Core::new();
    let (_, valid, invalid) = triangle_and_broken_triangle(&mut core);
    let config = ValidationConfig::default();

    assert!(AdjacentHalfEdgesNotConnected::can_check(&valid, &core.geometry));
    let outcome = check_and_return_first_error::<Face, AdjacentHalfEdgesNotConnected>(
        &valid,
        &core.geometry,
        &config,
    );
    assert!(outcome.is_ok());

    assert!(AdjacentHalfEdgesNotConnected::can_check(&invalid, &core.geometry));
    let found = AdjacentHalfEdgesNotConnected::check(&invalid, &core.geometry, &config);
    assert_eq!(found.len(), 1);
    let _ = check_and_expect_one_error::<Face, AdjacentHalfEdgesNotConnected>(
        &invalid,
        &core.geometry,
        &config,
    );
}

#[test]
fn closed_triangle_has_no_findings() {
    let mut core = Core::new();
    let (_, valid, _) = triangle_and_broken_triangle(&mut core);
    let found =
        AdjacentHalfEdgesNotConnected::check(&valid, &core.geometry, &ValidationConfig::default());
    assert!(found.is_empty());
}

#[test]
fn broken_triangle_reports_the_gap() {
    let mut core = Core::new();
    let (_, _, invalid) = triangle_and_broken_triangle(&mut core);
    let config = ValidationConfig { identical_max_distance: 0 };
    let finding = check_and_expect_one_error::<Face, AdjacentHalfEdgesNotConnected>(
        &invalid,
        &core.geometry,
        &config,
    );
    assert_eq!(finding.end_pos_of_first_half_edge, Point2 { u: 2, v: 0 });
    assert_eq!(finding.start_pos_of_second_half_edge, Point2 { u: 1, v: 0 });
    assert_eq!(finding.squared_distance_between_positions, 1);
    assert_eq!(finding.distance_between_positions, 1);
    assert!(finding.distance_between_positions > config.identical_max_distance);
    let cycle = invalid.region.get().exterior.get();
    assert!(finding.unconnected_half_edges[0] == cycle.half_edges[0]);
    assert!(finding.unconnected_half_edges[1] == cycle.half_edges[1]);
    assert!(finding.squared_distance_between_positions > 0);

    let first = check_and_return_first_error::<Face, AdjacentHalfEdgesNotConnected>(
        &invalid,
        &core.geometry,
        &config,
    );
    match first {
        Err(error) => assert_eq!(error.squared_distance_between_positions, 1),
        Ok(()) => panic!("the gap was not found"),
    }
}

/// A two-edge cycle whose second half-edge starts `gap` grid units away from
/// where the first one ends.
fn cycle_with_gap(gap: i32, core: &mut Core) -> (Handle<Surface>, Cycle) {
    let surface = core.store.insert(Surface::new());
    let there = line_segment([0, 0], [10, 0], &surface, core);
    let back = line_segment([10 + gap, 0], [0, 0], &surface, core);
    core.geometry.define_vertex(
        back.get().start_vertex().clone(),
        there.get().curve().clone(),
        position(1),
    );
    core.geometry.define_vertex(
        there.get().start_vertex().clone(),
        back.get().curve().clone(),
        position(1),
    );
    (surface, Cycle::new(vec![there, back]))
}

#[test]
fn a_gap_of_the_tolerance_is_connected() {
    let mut core = Core::new();
    let (surface, cycle) = cycle_with_gap(5, &mut core);
    let config = ValidationConfig { identical_max_distance: 5 };
    assert!(cycle_can_be_checked(&cycle, &surface, &core.geometry));
    assert!(check_cycle(&cycle, &surface, &core.geometry, &config).is_empty());
}

#[test]
fn a_gap_just_over_the_tolerance_is_not_connected() {
    let mut core = Core::new();
    let (surface, cycle) = cycle_with_gap(6, &mut core);
    let config = ValidationConfig { identical_max_distance: 5 };
    let found = check_cycle(&cycle, &surface, &core.geometry, &config);
    assert_eq!(found.len(), 1);
    assert_eq!(found[0].squared_distance_between_positions, 36);
    assert_eq!(found[0].distance_between_positions, 6);
    assert_eq!(found[0].end_pos_of_first_half_edge, Point2 { u: 10, v: 0 });
    assert_eq!(found[0].start_pos_of_second_half_edge, Point2 { u: 16, v: 0 });
    assert!(found[0].unconnected_half_edges[0] == cycle.half_edges[0]);
    assert!(found[0].unconnected_half_edges[1] == cycle.half_edges[1]);
}

#[test]
fn a_diagonal_gap_is_measured_by_its_length() {
    let mut core = Core::new();
    let surface = core.store.insert(Surface::new());
    let there = line_segment([0, 0], [10, 0], &surface, &mut core);
    let back = line_segment([13, 4], [0, 0], &surface, &mut core);
    core.geometry.define_vertex(
        back.get().start_vertex().clone(),
        there.get().curve().clone(),
        position(1),
    );
    let at_five = check_pair(
        &there,
        &back,
        &surface,
        &core.geometry,
        &ValidationConfig { identical_max_distance: 5 },
    );
    assert!(at_five.is_none());
    let at_four = check_pair(
        &there,
        &back,
        &surface,
        &core.geometry,
        &ValidationConfig { identical_max_distance: 4 },
    );
    let at_four = at_four.unwrap();
    assert_eq!(at_four.squared_distance_between_positions, 25);
    assert_eq!(at_four.distance_between_positions, 5);
}

#[test]
fn the_last_half_edge_is_paired_with_the_first() {
    let mut core = Core::new();
    let surface = core.store.insert(Surface::new());
    let edges = polygon_edges(&[[0, 0], [4, 0], [4, 4]], &surface, &mut core);
    // Move where the first vertex sits on the closing curve.
    core.geometry.define_vertex(
        edges[0].get().start_vertex().clone(),
        edges[2].get().curve().clone(),
        position(2),
    );
    let cycle = Cycle::new(edges);
    let found = check_cycle(&cycle, &surface, &core.geometry, &ValidationConfig::default());
    assert_eq!(found.len(), 1);
    assert!(found[0].unconnected_half_edges[0] == cycle.half_edges[2]);
    assert!(found[0].unconnected_half_edges[1] == cycle.half_edges[0]);
    assert_eq!(found[0].end_pos_of_first_half_edge, Point2 { u: -4, v: -4 });
    assert_eq!(found[0].start_pos_of_second_half_edge, Point2 { u: 0, v: 0 });
    assert_eq!(found[0].squared_distance_between_positions, 32);
    assert_eq!(found[0].distance_between_positions, 6);
}

#[test]
fn an_empty_cycle_has_no_findings() {
    let mut core = Core::new();
    let surface = core.store.insert(Surface::new());
    let cycle = Cycle::new(Vec::new());
    assert!(cycle_can_be_checked(&cycle, &surface, &core.geometry));
    assert!(check_cycle(&cycle, &surface, &core.geometry, &ValidationConfig::default()).is_empty());
}

#[test]
fn a_curve_without_a_path_on_the_surface_is_skipped() {
    let mut core = Core::new();
    let surface = core.store.insert(Surface::new());
    let elsewhere = core.store.insert(Surface::new());
    let first = line_segment([0, 0], [10, 0], &surface, &mut core);
    let second = line_segment([50, 50], [0, 0], &elsewhere, &mut core);
    core.geometry.define_vertex(
        second.get().start_vertex().clone(),
        first.get().curve().clone(),
        position(1),
    );
    assert!(pair_can_be_checked(&first, &second, &surface, &core.geometry));
    let finding =
        check_pair(&first, &second, &surface, &core.geometry, &ValidationConfig::default());
    assert!(finding.is_none());
}

#[test]
fn a_first_curve_without_a_path_on_the_surface_is_skipped() {
    let mut core = Core::new();
    let surface = core.store.insert(Surface::new());
    let elsewhere = core.store.insert(Surface::new());
    let first = line_segment([50, 50], [0, 0], &elsewhere, &mut core);
    let second = line_segment([0, 0], [10, 0], &surface, &mut core);
    assert!(pair_can_be_checked(&first, &second, &surface, &core.geometry));
    let finding =
        check_pair(&first, &second, &surface, &core.geometry, &ValidationConfig::default());
    assert!(finding.is_none());
}

#[test]
fn a_cycle_skips_the_pairs_off_the_surface_and_checks_the_rest() {
    let mut core = Core::new();
    let surface = core.store.insert(Surface::new());
    let elsewhere = core.store.insert(Surface::new());
    let a = line_segment([0, 0], [10, 0], &surface, &mut core);
    let b = line_segment([90, 90], [95, 95], &elsewhere, &mut core);
    let c = line_segment([10, 10], [3, 4], &surface, &mut core);
    // Only the pair of `c` and `a` lies on the surface: `c` ends at (3, 4),
    // `a` starts at (0, 0).
    core.geometry.define_vertex(
        a.get().start_vertex().clone(),
        c.get().curve().clone(),
        position(1),
    );
    let cycle = Cycle::new(vec![a.clone(), b.clone(), c.clone()]);
    assert!(cycle_can_be_checked(&cycle, &surface, &core.geometry));

    let found = check_cycle(&cycle, &surface, &core.geometry, &ValidationConfig::default());
    assert_eq!(found.len(), 1);
    assert!(found[0].unconnected_half_edges[0] == c);
    assert!(found[0].unconnected_half_edges[1] == a);
    assert_eq!(found[0].end_pos_of_first_half_edge, Point2 { u: 3, v: 4 });
    assert_eq!(found[0].start_pos_of_second_half_edge, Point2 { u: 0, v: 0 });
    assert_eq!(found[0].squared_distance_between_positions, 25);
    assert_eq!(found[0].distance_between_positions, 5);

    let wide = ValidationConfig { identical_max_distance: 5 };
    assert!(check_cycle(&cycle, &surface, &core.geometry, &wide).is_empty());

    let exterior = core.store.insert(cycle);
    let region = Region::new(exterior, Vec::new());
    assert!(region_can_be_checked(&region, &surface, &core.geometry));
    assert_eq!(check_region(&region, &surface, &core.geometry, &wide).len(), 0);
}

#[test]
fn a_reported_distance_is_above_the_tolerance() {
    let mut core = Core::new();
    let surface = core.store.insert(Surface::new());
    let there = line_segment([0, 0], [1, 1], &surface, &mut core);
    let back = line_segment([0, 0], [5, 0], &surface, &mut core);
    core.geometry.define_vertex(
        back.get().start_vertex().clone(),
        there.get().curve().clone(),
        position(1),
    );
    let config = ValidationConfig { identical_max_distance: 1 };
    let finding = check_pair(&there, &back, &surface, &core.geometry, &config).unwrap();
    assert_eq!(finding.end_pos_of_first_half_edge, Point2 { u: 1, v: 1 });
    assert_eq!(finding.start_pos_of_second_half_edge, Point2 { u: 0, v: 0 });
    assert_eq!(finding.squared_distance_between_positions, 2);
    assert_eq!(finding.distance_between_positions, 2);
    assert!(finding.distance_between_positions > config.identical_max_distance);
}

#[test]
fn missing_geometry_is_noticed_before_a_check() {
    let mut core = Core::new();
    let surface = core.store.insert(Surface::new());
    let first = line_segment([0, 0], [10, 0], &surface, &mut core);
    let second = line_segment([10, 0], [0, 0], &surface, &mut core);
    // The shared vertex has no position on the first curve.
    assert!(!pair_can_be_checked(&first, &second, &surface, &core.geometry));
    let cycle = Cycle::new(vec![first, second]);
    assert!(!cycle_can_be_checked(&cycle, &surface, &core.geometry));
    let exterior = core.store.insert(cycle);
    let region = Region::new(exterior, Vec::new());
    assert!(!region_can_be_checked(&region, &surface, &core.geometry));
}

#[test]
fn interiors_are_checked_after_the_exterior() {
    let mut core = Core::new();
    let surface = core.store.insert(Surface::new());
    let outer = polygon_edges(&[[0, 0], [9, 0], [9, 9]], &surface, &mut core);
    let inner = polygon_edges(&[[2, 1], [4, 1], [4, 3]], &surface, &mut core);
    core.geometry.define_vertex(
        outer[1].get().start_vertex().clone(),
        outer[0].get().curve().clone(),
        position(2),
    );
    core.geometry.define_vertex(
        inner[2].get().start_vertex().clone(),
        inner[1].get().curve().clone(),
        position(3),
    );
    let face = face_of(outer.clone(), vec![inner.clone()], &surface, &mut core);
    let config = ValidationConfig::default();
    assert!(region_can_be_checked(face.region.get(), &surface, &core.geometry));
    let found = check_region(face.region.get(), &surface, &core.geometry, &config);
    assert_eq!(found.len(), 2);
    assert!(found[0].unconnected_half_edges[0] == outer[0]);
    assert_eq!(found[0].squared_distance_between_positions, 81);
    assert!(found[1].unconnected_half_edges[0] == inner[1]);
    assert_eq!(found[1].squared_distance_between_positions, 16);
}

#[test]
fn a_sketch_is_checked_region_by_region() {
    let mut core = Core::new();
    let surface = core.store.insert(Surface::new());
    let good = polygon_edges(&[[0, 0], [1, 0], [1, 1]], &surface, &mut core);
    let bad = polygon_edges(&[[5, 5], [7, 5], [7, 7]], &surface, &mut core);
    core.geometry.define_vertex(
        bad[1].get().start_vertex().clone(),
        bad[0].get().curve().clone(),
        position(2),
    );
    let good_face = face_of(good, Vec::new(), &surface, &mut core);
    let bad_face = face_of(bad.clone(), Vec::new(), &surface, &mut core);
    let sketch = Sketch::new(vec![good_face.region, bad_face.region], surface.clone());
    let config = ValidationConfig { identical_max_distance: 1 };
    assert!(AdjacentHalfEdgesNotConnected::can_check(&sketch, &core.geometry));
    let found = AdjacentHalfEdgesNotConnected::check(&sketch, &core.geometry, &config);
    assert_eq!(found.len(), 1);
    assert!(found[0].unconnected_half_edges[0] == bad[0]);
    assert!(found[0].unconnected_half_edges[1] == bad[1]);
    assert_eq!(found[0].end_pos_of_first_half_edge, Point2 { u: 9, v: 5 });
    assert_eq!(found[0].start_pos_of_second_half_edge, Point2 { u: 7, v: 5 });
    assert_eq!(found[0].squared_distance_between_positions, 4);
}

#[test]
fn checking_twice_finds_the_same() {
    let mut core = Core::new();
    let (_, _, invalid) = triangle_and_broken_triangle(&mut core);
    let config = ValidationConfig::default();
    let once = AdjacentHalfEdgesNotConnected::check(&invalid, &core.geometry, &config);
    let again = AdjacentHalfEdgesNotConnected::check(&invalid, &core.geometry, &config);
    assert_eq!(once.len(), again.len());
    assert_eq!(
        once[0].squared_distance_between_positions,
        again[0].squared_distance_between_positions
    );
    assert!(once[0].unconnected_half_edges[0] == again[0].unconnected_half_edges[0]);
}

#[test]
fn far_apart_positions_do_not_overflow() {
    let mut core = Core::new();
    let surface = core.store.insert(Surface::new());
    let first = core.store.insert(Curve::new());
    let second = core.store.insert(Curve::new());
    let shared = core.store.insert(Vertex::new());
    let start = core.store.insert(Vertex::new());
    let up = Line::from_origin_and_direction(
        Vector2 { u: i32::MAX, v: i32::MAX },
        Vector2 { u: i32::MAX, v: i32::MAX },
    )
    .unwrap();
    let down = Line::from_origin_and_direction(
        Vector2 { u: i32::MIN, v: i32::MIN },
        Vector2 { u: i32::MIN, v: i32::MIN },
    )
    .unwrap();
    core.geometry.define_curve(first.clone(), surface.clone(), LocalCurveGeom { path: up });
    core.geometry.define_curve(second.clone(), surface.clone(), LocalCurveGeom { path: down });
    core.geometry.define_vertex(shared.clone(), first.clone(), position(i32::MAX));
    core.geometry.define_vertex(shared.clone(), second.clone(), position(i32::MAX));
    let first = core.store.insert(HalfEdge::new(first, start));
    let second = core.store.insert(HalfEdge::new(second, shared));
    let widest = ValidationConfig { identical_max_distance: u64::MAX };
    assert!(check_pair(&first, &second, &surface, &core.geometry, &widest).is_none());
    let config = ValidationConfig { identical_max_distance: 1 << 63 };
    let finding = check_pair(&first, &second, &surface, &core.geometry, &config).unwrap();
    let high: i128 = (i32::MAX as i128) + (i32::MAX as i128) * (i32::MAX as i128);
    let low: i128 = (i32::MIN as i128) + (i32::MIN as i128) * (i32::MAX as i128);
    let gap = (high - low) as u128;
    assert_eq!(finding.squared_distance_between_positions, 2 * gap * gap);
}
