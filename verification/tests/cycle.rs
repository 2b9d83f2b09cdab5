use fj_kernel::builder::cycle::{check_poly_chain, CycleBuilder};
use fj_kernel::builder::half_edge::{
    check_can_connect, check_can_fit_line_segment, circle_from_radius, connect_front,
    infer_global_form, line_segment_between, try_update_as_line_segment,
    update_as_line_segment,
};
use fj_kernel::geometry::SurfacePath;
use fj_kernel::math::{Point, Vector};
use fj_kernel::partial::cycle::PartialCycle;
use fj_kernel::partial::edge::PartialHalfEdge;
use fj_kernel::partial::surface::PartialSurface;
use fj_kernel::partial::vertex::{PartialGlobalVertex, PartialSurfaceVertex};
use fj_kernel::partial::{HalfEdgeHandle, Partials, SurfaceHandle, SurfaceVertexHandle};
use fj_math::Scalar;

fn point<const D: usize>(coords: [f64; D]) -> Point<D> {
    Point {
        coords: coords.map(Scalar::from_f64),
    }
}

fn vector<const D: usize>(components: [f64; D]) -> Vector<D> {
    Vector {
        components: components.map(Scalar::from_f64),
    }
}

fn arena_with_surface() -> (Partials, SurfaceHandle) {
    let mut partials = Partials::new();
    let surface = partials.insert_surface(PartialSurface { geometry: None });
    (partials, surface)
}

fn back_of(partials: &Partials, h: HalfEdgeHandle) -> SurfaceVertexHandle {
    partials
        .read_vertex(partials.read_half_edge(h).vertices[0])
        .surface_form
}

fn front_of(partials: &Partials, h: HalfEdgeHandle) -> SurfaceVertexHandle {
    partials
        .read_vertex(partials.read_half_edge(h).vertices[1])
        .surface_form
}

fn assert_closed(partials: &Partials, cycle: &PartialCycle) {
    let n = cycle.half_edges.len();
    for i in 0..n {
        let next = cycle.half_edges[(i + 1) % n];
        assert_eq!(front_of(partials, cycle.half_edges[i]), back_of(partials, next));
    }
}

fn polygon(corners: &[[f64; 2]]) -> Vec<Point<2>> {
    corners.iter().map(|c| point(*c)).collect()
}

#[test]
fn poly_chain_has_one_half_edge_per_point() {
    let shapes: Vec<Vec<[f64; 2]>> = vec![
        vec![[0., 0.], [1., 0.]],
        vec![[0., 0.], [1., 0.], [0., 1.]],
        vec![[0., 0.], [1., 0.], [1., 1.], [0., 1.]],
        vec![[0., 0.], [2., 0.], [3., 1.], [1., 3.], [-1., 1.]],
    ];
    for corners in shapes {
        let (mut partials, surface) = arena_with_surface();
        let points = polygon(&corners);
        assert!(check_poly_chain(&points));
        let cycle = PartialCycle::from_poly_chain(surface, &points, &mut partials);
        assert_eq!(cycle.half_edges.len(), points.len());
        assert_closed(&partials, &cycle);
        for (j, h) in cycle.half_edges.iter().enumerate() {
            let next = (j + 1) % points.len();
            let back = partials.read_surface_vertex(back_of(&partials, *h));
            let front = partials.read_surface_vertex(front_of(&partials, *h));
            assert_eq!(back.position, Some(points[j]));
            assert_eq!(front.position, Some(points[next]));
            assert_eq!(back.surface, surface);
            assert_eq!(front.surface, surface);
        }
    }
}

#[test]
fn poly_chain_of_fewer_than_two_points_is_empty() {
    for corners in [vec![], vec![[3., 4.]]] {
        let (mut partials, surface) = arena_with_surface();
        let points = polygon(&corners);
        assert!(check_poly_chain(&points));
        let cycle = PartialCycle::from_poly_chain(surface, &points, &mut partials);
        assert_eq!(cycle.half_edges.len(), 0);
        assert_eq!(partials.surfaces.len(), 1);
        assert_eq!(partials.curves.len(), 0);
        assert_eq!(partials.global_vertices.len(), 0);
        assert_eq!(partials.surface_vertices.len(), 0);
        assert_eq!(partials.vertices.len(), 0);
        assert_eq!(partials.half_edges.len(), 0);
    }
}

#[test]
fn poly_chain_fits_line_segments() {
    let (mut partials, surface) = arena_with_surface();
    let points = polygon(&[[1., 1.], [4., 1.], [4., 5.]]);
    let cycle = PartialCycle::from_poly_chain(surface, &points, &mut partials);
    let expected = [[3., 0.], [0., 4.], [-3., -4.]];
    for (j, h) in cycle.half_edges.iter().enumerate() {
        let edge = partials.read_half_edge(*h);
        let back = partials.read_vertex(edge.vertices[0]);
        let front = partials.read_vertex(edge.vertices[1]);
        assert_eq!(back.position, Some(point([0.])));
        assert_eq!(front.position, Some(point([1.])));
        assert_eq!(back.curve, front.curve);
        let curve = partials.read_curve(back.curve);
        assert_eq!(curve.surface, surface);
        match curve.path {
            Some(SurfacePath::Line(line)) => {
                assert_eq!(line.origin, points[j]);
                assert_eq!(line.direction, vector(expected[j]));
            }
            other => panic!("Unexpected path: {:?}", other),
        }
        assert_eq!(
            edge.global_form[0],
            partials.read_surface_vertex(back.surface_form).global_form
        );
        assert_eq!(
            edge.global_form[1],
            partials.read_surface_vertex(front.surface_form).global_form
        );
    }
    assert_eq!(partials.curves.len(), 3);
    assert_eq!(partials.global_vertices.len(), 3);
    assert_eq!(partials.surface_vertices.len(), 3);
    assert_eq!(partials.vertices.len(), 6);
    assert_eq!(partials.half_edges.len(), 3);
}

#[test]
fn poly_chain_with_a_repeated_point_is_refused() {
    let (mut partials, surface) = arena_with_surface();
    let repeated = polygon(&[[0., 0.], [1., 0.], [1., 0.], [0., 1.]]);
    assert!(!check_poly_chain(&repeated));
    assert!(PartialCycle::try_from_poly_chain(surface, &repeated, &mut partials).is_none());
    assert_eq!(partials.half_edges.len(), 0);
    assert_eq!(partials.surface_vertices.len(), 0);

    let closing = polygon(&[[0., 0.], [1., 0.], [0., 0.]]);
    assert!(!check_poly_chain(&closing));

    let endless = polygon(&[[0., 0.], [f64::INFINITY, 0.], [0., 1.]]);
    assert!(!check_poly_chain(&endless));

    let fine = polygon(&[[0., 0.], [1., 0.], [0., 1.]]);
    let cycle = PartialCycle::try_from_poly_chain(surface, &fine, &mut partials).unwrap();
    assert_eq!(cycle.half_edges.len(), 3);
    assert_closed(&partials, &cycle);
}

#[test]
fn square_is_a_closed_cycle_of_length_four() {
    let (mut partials, surface) = arena_with_surface();
    let points = polygon(&[[0., 0.], [1., 0.], [1., 1.], [0., 1.]]);
    let cycle = PartialCycle::from_poly_chain(surface, &points, &mut partials);
    assert_eq!(cycle.half_edges.len(), 4);
    assert_closed(&partials, &cycle);

    let mut length = 0.0;
    let mut corners = Vec::new();
    for h in &cycle.half_edges {
        let back = partials
            .read_surface_vertex(back_of(&partials, *h))
            .position
            .unwrap();
        let front = partials
            .read_surface_vertex(front_of(&partials, *h))
            .position
            .unwrap();
        let back = fj_math::Point::from(back.coords);
        let front = fj_math::Point::from(front.coords);
        length += back.distance_to(&front).into_f64();
        corners.push(back);
    }
    assert_eq!(length, 4.0);

    let aabb = fj_math::Aabb::<2>::from_points(corners);
    assert_eq!(aabb.min, fj_math::Point::from([0., 0.]));
    assert_eq!(aabb.max, fj_math::Point::from([1., 1.]));
}

#[test]
fn first_half_edge_is_connected_to_itself() {
    let mut partials = Partials::new();
    let mut cycle = PartialCycle::default();
    let h = cycle.add_half_edge(&mut partials);
    assert_eq!(cycle.half_edges, vec![h]);
    assert_eq!(front_of(&partials, h), back_of(&partials, h));
    let edge = partials.read_half_edge(h);
    assert_ne!(edge.vertices[0], edge.vertices[1]);
    assert_eq!(edge.global_form[0], edge.global_form[1]);
    assert_eq!(
        partials.read_surface_vertex(back_of(&partials, h)).position,
        None
    );
    assert_closed(&partials, &cycle);
}

#[test]
fn second_half_edge_makes_a_cycle_of_two() {
    let mut partials = Partials::new();
    let mut cycle = PartialCycle::default();
    let first = cycle.add_half_edge(&mut partials);
    let second = cycle.add_half_edge(&mut partials);
    assert_eq!(cycle.half_edges, vec![first, second]);
    assert_ne!(first, second);
    assert_eq!(front_of(&partials, first), back_of(&partials, second));
    assert_eq!(front_of(&partials, second), back_of(&partials, first));
    assert_ne!(back_of(&partials, first), back_of(&partials, second));
    let shared = partials
        .read_curve(partials.read_vertex(partials.read_half_edge(first).vertices[0]).curve)
        .surface;
    for h in [first, second] {
        let curve = partials.read_vertex(partials.read_half_edge(h).vertices[0]).curve;
        assert_eq!(partials.read_curve(curve).surface, shared);
        let edge = partials.read_half_edge(h);
        assert_eq!(
            edge.global_form[0],
            partials.read_surface_vertex(back_of(&partials, h)).global_form
        );
        assert_eq!(
            edge.global_form[1],
            partials.read_surface_vertex(front_of(&partials, h)).global_form
        );
    }
}

#[test]
fn adding_half_edges_keeps_the_cycle_closed() {
    let mut partials = Partials::new();
    let mut cycle = PartialCycle::default();
    for n in 1..6 {
        let h = cycle.add_half_edge(&mut partials);
        assert_eq!(cycle.half_edges.len(), n);
        assert_eq!(*cycle.half_edges.last().unwrap(), h);
        assert_closed(&partials, &cycle);
    }
}

#[test]
fn half_edge_can_be_added_to_a_polygon() {
    let (mut partials, surface) = arena_with_surface();
    let points = polygon(&[[0., 0.], [1., 0.], [0., 1.]]);
    let mut cycle = PartialCycle::from_poly_chain(surface, &points, &mut partials);
    let first = cycle.half_edges[0];
    let last = cycle.half_edges[2];
    let first_back = back_of(&partials, first);
    let h = cycle.add_half_edge(&mut partials);
    assert_eq!(cycle.half_edges.len(), 4);
    assert_closed(&partials, &cycle);
    // The old edges are joined to the new one, not the other way round.
    assert_eq!(back_of(&partials, first), first_back);
    assert_eq!(front_of(&partials, h), first_back);
    assert_eq!(front_of(&partials, last), back_of(&partials, h));
    let curve = partials.read_vertex(partials.read_half_edge(h).vertices[0]).curve;
    assert_eq!(partials.read_curve(curve).surface, surface);
}

#[test]
fn line_segment_joins_two_surface_vertices() {
    let (mut partials, surface) = arena_with_surface();
    let g0 = partials.insert_global_vertex(PartialGlobalVertex { position: None });
    let g1 = partials.insert_global_vertex(PartialGlobalVertex { position: None });
    let a = partials.insert_surface_vertex(PartialSurfaceVertex {
        position: Some(point([1., 2.])),
        surface,
        global_form: g0,
    });
    let b = partials.insert_surface_vertex(PartialSurfaceVertex {
        position: Some(point([2., 4.])),
        surface,
        global_form: g1,
    });
    let c = partials.insert_surface_vertex(PartialSurfaceVertex {
        position: None,
        surface,
        global_form: g1,
    });
    assert!(check_can_connect(&partials, a, b));
    assert!(!check_can_connect(&partials, a, a));
    assert!(!check_can_connect(&partials, a, c));
    assert!(!check_can_connect(&partials, a, SurfaceVertexHandle { index: 17 }));
    let h = line_segment_between(&mut partials, surface, a, b);
    assert_eq!(back_of(&partials, h), a);
    assert_eq!(front_of(&partials, h), b);
    let edge = partials.read_half_edge(h);
    assert_eq!(edge.global_form, [g0, g1]);
    let curve = partials.read_curve(partials.read_vertex(edge.vertices[0]).curve);
    match curve.path {
        Some(SurfacePath::Line(line)) => {
            assert_eq!(line.origin, point([1., 2.]));
            assert_eq!(line.direction, vector([1., 2.]));
        }
        other => panic!("Unexpected path: {:?}", other),
    }
}

#[test]
fn added_half_edge_can_be_fit_as_line_segment() {
    let mut partials = Partials::new();
    let mut cycle = PartialCycle::default();
    let first = cycle.add_half_edge(&mut partials);
    let second = cycle.add_half_edge(&mut partials);
    assert!(!check_can_fit_line_segment(&partials, first));
    assert!(!check_can_fit_line_segment(&partials, HalfEdgeHandle { index: 9 }));
    assert!(!try_update_as_line_segment(&mut partials, first));
    assert_eq!(
        partials
            .read_vertex(partials.read_half_edge(first).vertices[0])
            .position,
        None
    );
    let corners = [back_of(&partials, first), back_of(&partials, second)];
    for (corner, position) in corners.iter().zip([[0., 0.], [3., 4.]]) {
        let mut vertex = partials.read_surface_vertex(*corner);
        vertex.position = Some(point(position));
        partials.write_surface_vertex(*corner, vertex);
    }
    assert!(check_can_fit_line_segment(&partials, first));
    assert!(check_can_fit_line_segment(&partials, second));
    update_as_line_segment(&mut partials, first);
    assert!(try_update_as_line_segment(&mut partials, second));
    let expected = [[3., 4.], [-3., -4.]];
    for (h, direction) in [first, second].iter().zip(expected) {
        let edge = partials.read_half_edge(*h);
        let back = partials.read_vertex(edge.vertices[0]);
        let front = partials.read_vertex(edge.vertices[1]);
        assert_eq!(back.position, Some(point([0.])));
        assert_eq!(front.position, Some(point([1.])));
        match partials.read_curve(back.curve).path {
            Some(SurfacePath::Line(line)) => assert_eq!(line.direction, vector(direction)),
            other => panic!("Unexpected path: {:?}", other),
        }
    }
    assert_closed(&partials, &cycle);
}

#[test]
fn global_form_follows_the_surface_forms() {
    let mut partials = Partials::new();
    let edge = PartialHalfEdge::default(&mut partials);
    let h = partials.insert_half_edge(edge);
    let other = PartialSurfaceVertex::default(&mut partials);
    let to = partials.insert_surface_vertex(other);
    let surface = partials.insert_surface(PartialSurface { geometry: None });
    connect_front(&mut partials, h, surface, to);
    assert_eq!(front_of(&partials, h), to);
    let after = partials.read_half_edge(h);
    assert_eq!(after.vertices, edge.vertices);
    assert_eq!(after.global_form[0], edge.global_form[0]);
    assert_eq!(after.global_form[1], other.global_form);
    let curve = partials.read_vertex(after.vertices[0]).curve;
    assert_eq!(partials.read_curve(curve).surface, surface);

    let mut stale = after;
    stale.global_form = [other.global_form, edge.global_form[0]];
    partials.write_half_edge(h, stale);
    infer_global_form(&mut partials, h);
    assert_eq!(
        partials.read_half_edge(h).global_form,
        [edge.global_form[0], other.global_form]
    );
}

#[test]
fn circle_starts_and_ends_at_one_surface_vertex() {
    let (mut partials, surface) = arena_with_surface();
    let radius = Scalar::from_f64(2.0);
    assert!(SurfacePath::check_radius(radius));
    let h = circle_from_radius(&mut partials, surface, radius);
    assert_eq!(front_of(&partials, h), back_of(&partials, h));
    let edge = partials.read_half_edge(h);
    assert_eq!(edge.global_form[0], edge.global_form[1]);
    let back = partials.read_vertex(edge.vertices[0]);
    let front = partials.read_vertex(edge.vertices[1]);
    assert_eq!(back.position, Some(point([0.])));
    assert_eq!(front.position, Some(Point { coords: [Scalar::TAU] }));
    let form = partials.read_surface_vertex(back.surface_form);
    assert_eq!(form.position, Some(point([2., 0.])));
    assert_eq!(form.surface, surface);
    let curve = partials.read_curve(back.curve);
    assert_eq!(curve.surface, surface);
    match curve.path {
        Some(SurfacePath::Circle(circle)) => {
            assert_eq!(circle.a, vector([2., 0.]));
            assert_eq!(circle.b, vector([0., 2.]));
        }
        other => panic!("Unexpected path: {:?}", other),
    }
}
