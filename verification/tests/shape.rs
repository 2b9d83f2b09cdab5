use fj_kernel::builder::sketch::SketchBuilder;
use fj_kernel::geometry::SurfacePath;
use fj_kernel::math::Point;
use fj_kernel::objects::Objects;
use fj_kernel::partial::sketch::PartialSketch;
use fj_kernel::partial::surface::PartialSurface;
use fj_kernel::partial::{BuildError, Entity, Field, Partials};
use fj_kernel::shape::{Chain, Circle, PolyChain, ShapeError, Sketch, SketchSegment};
use fj_math::Scalar;

fn point<const D: usize>(coords: [f64; D]) -> Point<D> {
    Point {
        coords: coords.map(Scalar::from_f64),
    }
}

fn poly_chain(corners: &[[f64; 2]]) -> Sketch {
    Sketch {
        chain: Chain::PolyChain(PolyChain {
            segments: corners
                .iter()
                .map(|c| SketchSegment::LineTo { point: point(*c) })
                .collect(),
        }),
        color: [10, 20, 30, 255],
    }
}

fn circle(radius: f64) -> Sketch {
    Sketch {
        chain: Chain::Circle(Circle {
            radius: Scalar::from_f64(radius),
        }),
        color: [1, 2, 3, 4],
    }
}

#[test]
fn square_becomes_a_face_with_four_half_edges() {
    let mut partials = Partials::new();
    let mut objects = Objects::new();
    let shape = poly_chain(&[[0., 0.], [1., 0.], [1., 1.], [0., 1.]]);
    let sketch = shape.compute_brep(&mut partials, &mut objects).unwrap();
    assert_eq!(sketch.faces.len(), 1);
    let face = &sketch.faces[0];
    assert_eq!(face.color, Some(fj_interop::Color([10, 20, 30, 255])));
    assert_eq!(face.interiors.len(), 0);
    assert_eq!(face.exterior.half_edges.len(), 4);
    assert_eq!(face.surface, Some(fj_kernel::objects::SurfaceId { index: 0 }));

    let mut length = 0.0;
    let mut corners = Vec::new();
    for (j, id) in face.exterior.half_edges.iter().enumerate() {
        let next = face.exterior.half_edges[(j + 1) % 4];
        let edge = objects.half_edges[id.index];
        let back = objects.surface_vertices[objects.vertices[edge.vertices[0].index].surface_form.index];
        let front = objects.surface_vertices[objects.vertices[edge.vertices[1].index].surface_form.index];
        assert_eq!(
            objects.vertices[edge.vertices[1].index].surface_form,
            objects.vertices[objects.half_edges[next.index].vertices[0].index].surface_form
        );
        let global = objects.global_vertices[back.global_form.index].position;
        assert_eq!(global, back.position.to_xyz());
        let a = fj_math::Point::from(back.position.coords);
        let b = fj_math::Point::from(front.position.coords);
        length += a.distance_to(&b).into_f64();
        corners.push(fj_math::Point::from(global.coords));
    }
    assert_eq!(length, 4.0);
    let extent = fj_math::Aabb::<3>::from_points(corners);
    let volume = shape.bounding_volume();
    assert_eq!(volume.min, point([0., 0., 0.]));
    assert_eq!(volume.max, point([1., 1., 0.]));
    assert_eq!(fj_math::Point::from(volume.min.coords), extent.min);
    assert_eq!(fj_math::Point::from(volume.max.coords), extent.max);
    // The surface is the plane of the first two axes.
    assert_eq!(objects.surfaces.len(), 1);
    assert_eq!(objects.xy_plane().index, 0);
}

#[test]
fn circle_becomes_a_face_with_one_half_edge() {
    let mut partials = Partials::new();
    let mut objects = Objects::new();
    let shape = circle(2.0);
    let sketch = shape.compute_brep(&mut partials, &mut objects).unwrap();
    assert_eq!(sketch.faces.len(), 1);
    let face = &sketch.faces[0];
    assert_eq!(face.color, Some(fj_interop::Color([1, 2, 3, 4])));
    assert_eq!(face.exterior.half_edges.len(), 1);
    let edge = objects.half_edges[face.exterior.half_edges[0].index];
    let back = objects.vertices[edge.vertices[0].index];
    let front = objects.vertices[edge.vertices[1].index];
    assert_eq!(back.position, point([0.]));
    assert_eq!(front.position, Point { coords: [Scalar::TAU] });
    assert_eq!(back.surface_form, front.surface_form);
    assert_eq!(back.curve, front.curve);
    assert_eq!(edge.global_form[0], edge.global_form[1]);
    let form = objects.surface_vertices[back.surface_form.index];
    assert_eq!(form.position, point([2., 0.]));
    assert_eq!(
        objects.global_vertices[form.global_form.index].position,
        point([2., 0., 0.])
    );
    match objects.curves[back.curve.index].path {
        SurfacePath::Circle(circle) => assert_eq!(circle.center, point([0., 0.])),
        other => panic!("Unexpected path: {:?}", other),
    }
    let volume = shape.bounding_volume();
    assert_eq!(volume.min, point([-2., -2., 0.]));
    assert_eq!(volume.max, point([2., 2., 0.]));
}

#[test]
fn degenerate_outlines_are_refused() {
    for shape in [
        circle(0.0),
        circle(f64::INFINITY),
        poly_chain(&[[0., 0.], [1., 0.], [1., 0.]]),
        poly_chain(&[[0., 0.], [0., 0.]]),
    ] {
        let mut partials = Partials::new();
        let mut objects = Objects::new();
        assert_eq!(
            shape.compute_brep(&mut partials, &mut objects),
            Err(ShapeError::Degenerate)
        );
        assert_eq!(partials.half_edges.len(), 0);
    }
}

#[test]
fn chain_without_segments_has_no_extent() {
    let mut partials = Partials::new();
    let mut objects = Objects::new();
    let shape = poly_chain(&[]);
    let sketch = shape.compute_brep(&mut partials, &mut objects).unwrap();
    assert_eq!(sketch.faces.len(), 1);
    assert_eq!(sketch.faces[0].exterior.half_edges.len(), 0);
    assert_eq!(shape.try_bounding_volume(), None);
    let single = poly_chain(&[[3., 4.]]);
    let volume = single.try_bounding_volume().unwrap();
    assert_eq!(volume.min, point([3., 4., 0.]));
    assert_eq!(volume.max, point([3., 4., 0.]));
    assert_eq!(circle(1.5).try_bounding_volume(), Some(circle(1.5).bounding_volume()));
}

#[test]
fn bounding_volume_holds_the_chain() {
    let shape = poly_chain(&[[1., 5.], [-2., 3.], [0.5, 7.]]);
    let volume = shape.bounding_volume();
    assert_eq!(volume.min, point([-2., 3., 0.]));
    assert_eq!(volume.max, point([1., 7., 0.]));
    match &shape.chain {
        Chain::PolyChain(chain) => assert_eq!(
            chain.points(),
            vec![point([1., 5.]), point([-2., 3.]), point([0.5, 7.])]
        ),
        Chain::Circle(_) => panic!("a chain is no circle"),
    }
}

#[test]
fn shape_that_cannot_be_built_says_what_is_missing() {
    let error = ShapeError::Build(BuildError::Missing {
        entity: Entity::Vertex,
        field: Field::Position,
    });
    assert_ne!(error, ShapeError::Degenerate);
}

#[test]
fn polygon_is_added_to_a_sketch_as_a_face() {
    let mut partials = Partials::new();
    let surface = partials.insert_surface(PartialSurface { geometry: None });
    let mut sketch = PartialSketch::default();
    let triangle = vec![point([0., 0.]), point([1., 0.]), point([0., 1.])];
    let square = vec![
        point([2., 2.]),
        point([3., 2.]),
        point([3., 3.]),
        point([2., 3.]),
    ];
    sketch.add_polygon_from_points(surface, &triangle, &mut partials);
    sketch.add_polygon_from_points(surface, &square, &mut partials);
    assert_eq!(sketch.faces.len(), 2);
    for (face, points) in sketch.faces.iter().zip([&triangle, &square]) {
        assert_eq!(face.color, None);
        assert_eq!(face.surface, Some(surface));
        assert_eq!(face.interiors.len(), 0);
        assert_eq!(face.exterior.half_edges.len(), points.len());
        for (j, h) in face.exterior.half_edges.iter().enumerate() {
            let edge = partials.read_half_edge(*h);
            let back = partials.read_surface_vertex(partials.read_vertex(edge.vertices[0]).surface_form);
            assert_eq!(back.position, Some(points[j]));
            assert_eq!(back.surface, surface);
        }
    }
    assert_eq!(partials.half_edges.len(), 7);
    // A single point bounds nothing, but the face is in the surface.
    sketch.add_polygon_from_points(surface, &vec![point([5., 5.])], &mut partials);
    assert_eq!(sketch.faces[2].surface, Some(surface));
    assert_eq!(sketch.faces[2].exterior.half_edges.len(), 0);
}
